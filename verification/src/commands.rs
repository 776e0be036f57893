//! The per-setting command tables.
//!
//! Each builder is a pure mapping from a semantic setting to the bytes
//! the device expects: either a full 36-byte frame (sent on selector 0x2)
//! or a short raw payload (sent on selector 0x6). The byte values are a
//! reverse-engineered protocol constant table; nothing validates them
//! beyond the documented rejections.

pub mod ai_mode;
pub mod exposure_mode;
pub mod exposure_mode_type;
pub mod goto_preset_position;
pub mod hdr_mode;
pub mod sleep;
pub mod tracking_speed;
