//! Control library for the OBSBOT Tiny 2 webcam.
//!
//! The camera is driven over the UVC vendor-extension control interface:
//! semantic settings (sleep mode, AI tracking, tracking speed, HDR,
//! exposure mode, preset positions) are encoded into fixed byte payloads,
//! sent through a length-checked query protocol, and the camera's status
//! is decoded from a fixed-layout response buffer.

pub mod camera;
pub mod command02;
pub mod commands;
pub mod enums;
pub mod errors;
pub mod status;
pub mod transport;
pub mod usbio;

pub use camera::Camera;
pub use camera::Tiny2Camera;
pub use command02::command02;
pub use command02::Command02;
pub use commands::ai_mode::AIModeCommand;
pub use commands::exposure_mode::ExposureModeCommand;
pub use commands::exposure_mode_type::ExposureModeTypeCommand;
pub use commands::goto_preset_position::GotoPresetPositionCommand;
pub use commands::hdr_mode::HdrModeCommand;
pub use commands::sleep::SleepCommand;
pub use commands::tracking_speed::TrackingSpeedCommand;
pub use enums::AIMode;
pub use enums::ExposureMode;
pub use enums::ExposureModeType;
pub use enums::SleepMode;
pub use enums::TrackingMode;
pub use enums::TrackingSpeed;
pub use errors::T4lError;
pub use status::CameraStatus;
pub use transport::CameraTransport;
pub use usbio::UvcUsbIo;
