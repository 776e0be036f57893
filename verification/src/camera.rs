//! The camera facade: command tables wired to the transport.

use crate::commands::ai_mode::AIModeCommand;
use crate::commands::exposure_mode::ExposureModeCommand;
use crate::commands::exposure_mode_type::ExposureModeTypeCommand;
use crate::commands::goto_preset_position::GotoPresetPositionCommand;
use crate::commands::hdr_mode::HdrModeCommand;
use crate::commands::sleep::SleepCommand;
use crate::commands::tracking_speed::TrackingSpeedCommand;
use crate::enums::AIMode;
use crate::enums::ExposureMode;
use crate::enums::SleepMode;
use crate::enums::TrackingSpeed;
use crate::errors::T4lError;
use crate::status::CameraStatus;
use crate::transport::CameraTransport;
use crate::usbio::UvcUsbIo;
use vstd::prelude::*;

verus! {

/// A camera driven through one open handle.
///
/// Generic over the handle so that the same verified control logic runs
/// against the real ioctl-backed handle and against test doubles alike.
pub struct Camera<T: UvcUsbIo> {
    transport: CameraTransport<T>,
    debugging: bool,
}

impl<T: UvcUsbIo> Camera<T> {
    /// The diagnostics flag, for specification purposes.
    pub closed spec fn spec_debugging(&self) -> bool {
        self.debugging
    }

    /// Wraps an open handle; debugging starts switched off.
    pub fn new(handle: T) -> (r: Camera<T>)
        ensures
            r.spec_debugging() == false,
    {
        Camera { transport: CameraTransport::new(handle), debugging: false }
    }

    /// Reports the handle's device description.
    pub fn info(&self) -> (r: Result<(), i32>) {
        self.transport.info()
    }

    /// Sends a raw command payload to a unit/selector pair.
    pub fn send_cmd(&self, unit: u8, selector: u8, cmd: &[u8]) -> (r: Result<(), T4lError>)
        requires
            cmd@.len() <= crate::transport::TRANSFER_LEN,
        ensures
            r matches Err(e) ==> e matches T4lError::USBIOError(_),
    {
        self.transport.send_cmd(unit, selector, cmd)
    }

    /// Queries and decodes the camera's current status.
    pub fn get_status(&self) -> (r: Result<CameraStatus, T4lError>)
        ensures
            r matches Err(e) ==> e matches T4lError::USBIOError(_),
    {
        self.transport.get_status()
    }

    /// Reads the raw status control for diagnostics.
    pub fn dump(&self) -> (r: Result<Vec<u8>, i32>)
        ensures
            r matches Ok(data) ==> data@.len() == crate::transport::TRANSFER_LEN,
    {
        self.transport.dump()
    }

    /// Reads the raw frame-command control for diagnostics.
    pub fn dump_02(&self) -> (r: Result<Vec<u8>, i32>)
        ensures
            r matches Ok(data) ==> data@.len() == crate::transport::TRANSFER_LEN,
    {
        self.transport.dump_02()
    }

    /// Switches verbose diagnostics on or off for the caller's benefit.
    pub fn set_debugging(&mut self, debugging: bool)
        ensures
            final(self).spec_debugging() == debugging,
    {
        self.debugging = debugging
    }
}

/// The per-setting operations of the camera.
///
/// Each setter encodes its setting through the matching command table
/// and sends the bytes; each getter decodes a fresh status query. The
/// device's state is always treated as authoritative: nothing is cached
/// between calls.
pub trait Tiny2Camera {
    /// Commands the camera awake or asleep; `SleepMode::Unknown` is not
    /// a valid target.
    fn set_sleep_mode(&self, mode: SleepMode) -> (r: Result<(), T4lError>)
        ensures
            mode == SleepMode::Unknown <==> (r matches Err(e) && e matches
                T4lError::InvalidSetting),
            r matches Err(e) ==> (e matches T4lError::InvalidSetting || e matches
                T4lError::USBIOError(_)),
    ;

    /// Reads the camera's current sleep state.
    fn get_sleep_mode(&self) -> (r: Result<SleepMode, T4lError>)
        ensures
            r matches Err(e) ==> e matches T4lError::USBIOError(_),
    ;

    /// Commands an AI tracking mode; total over the enum (`Unknown` is
    /// sent as `NoTracking`).
    fn set_ai_mode(&self, mode: AIMode) -> (r: Result<(), T4lError>)
        ensures
            r matches Err(e) ==> e matches T4lError::USBIOError(_),
    ;

    /// Reads the camera's current AI tracking mode.
    fn get_ai_mode(&self) -> (r: Result<AIMode, T4lError>)
        ensures
            r matches Err(e) ==> e matches T4lError::USBIOError(_),
    ;

    /// Steers the camera to a stored preset; only indices 0 to 2 exist.
    fn goto_preset_position(&self, preset_nr: i8) -> (r: Result<(), T4lError>)
        ensures
            !(0 <= preset_nr <= 2) <==> (r matches Err(e) && e matches T4lError::InvalidSetting),
            r matches Err(e) ==> (e matches T4lError::InvalidSetting || e matches
                T4lError::USBIOError(_)),
    ;

    /// Reads the camera's current tracking speed.
    fn get_tracking_speed(&self) -> (r: Result<TrackingSpeed, T4lError>)
        ensures
            r matches Err(e) ==> e matches T4lError::USBIOError(_),
    ;

    /// Commands a tracking speed; total over the enum.
    fn set_tracking_speed(&self, speed: TrackingSpeed) -> (r: Result<(), T4lError>)
        ensures
            r matches Err(e) ==> e matches T4lError::USBIOError(_),
    ;

    /// Switches HDR on or off.
    fn set_hdr_mode(&self, mode: bool) -> (r: Result<(), T4lError>)
        ensures
            r matches Err(e) ==> e matches T4lError::USBIOError(_),
    ;

    /// Commands an exposure mode: the primary switch first, then, for
    /// the automatic variants, the style-selection payload.
    fn set_exposure_mode(&self, mode: ExposureMode) -> (r: Result<(), T4lError>)
        ensures
            r matches Err(e) ==> e matches T4lError::USBIOError(_),
    ;

    /// Switches verbose diagnostics on or off.
    fn set_debugging(&mut self, debugging: bool);
}

impl<T: UvcUsbIo> Tiny2Camera for Camera<T> {
    fn set_sleep_mode(&self, mode: SleepMode) -> (r: Result<(), T4lError>) {
        let cmd = match SleepCommand::build(mode) {
            Ok(cmd) => cmd,
            Err(e) => {
                return Err(e);
            },
        };
        self.send_cmd(0x2, 0x2, cmd.as_slice())
    }

    fn get_sleep_mode(&self) -> (r: Result<SleepMode, T4lError>) {
        match self.get_status() {
            Ok(status) => Ok(status.awake),
            Err(e) => Err(e),
        }
    }

    fn set_ai_mode(&self, mode: AIMode) -> (r: Result<(), T4lError>) {
        let cmd = match AIModeCommand::build(mode) {
            Ok(cmd) => cmd,
            Err(e) => {
                return Err(e);
            },
        };
        self.send_cmd(0x2, 0x6, cmd.as_slice())
    }

    fn get_ai_mode(&self) -> (r: Result<AIMode, T4lError>) {
        match self.get_status() {
            Ok(status) => Ok(status.ai_mode),
            Err(e) => Err(e),
        }
    }

    fn goto_preset_position(&self, preset_nr: i8) -> (r: Result<(), T4lError>) {
        let cmd = match GotoPresetPositionCommand::build(preset_nr) {
            Ok(cmd) => cmd,
            Err(e) => {
                return Err(e);
            },
        };
        self.send_cmd(0x2, 0x2, cmd.as_slice())
    }

    fn get_tracking_speed(&self) -> (r: Result<TrackingSpeed, T4lError>) {
        match self.get_status() {
            Ok(status) => Ok(status.speed),
            Err(e) => Err(e),
        }
    }

    fn set_tracking_speed(&self, speed: TrackingSpeed) -> (r: Result<(), T4lError>) {
        let cmd = match TrackingSpeedCommand::build(speed) {
            Ok(cmd) => cmd,
            Err(e) => {
                return Err(e);
            },
        };
        self.send_cmd(0x2, 0x2, cmd.as_slice())
    }

    fn set_hdr_mode(&self, mode: bool) -> (r: Result<(), T4lError>) {
        let cmd = HdrModeCommand::build(mode);
        self.send_cmd(0x2, 0x6, cmd.as_slice())
    }

    fn set_exposure_mode(&self, mode: ExposureMode) -> (r: Result<(), T4lError>) {
        let type_cmd = ExposureModeTypeCommand::build(mode);
        match self.send_cmd(0x2, 0x2, type_cmd.as_slice()) {
            Ok(()) => (),
            Err(e) => {
                return Err(e);
            },
        }
        match ExposureModeCommand::build(mode) {
            Some(style_cmd) => self.send_cmd(0x2, 0x6, style_cmd.as_slice()),
            None => Ok(()),
        }
    }

    fn set_debugging(&mut self, debugging: bool) {
        self.debugging = debugging
    }
}

} // verus!
