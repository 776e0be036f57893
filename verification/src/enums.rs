//! The semantic camera settings.

use crate::errors::T4lError;
use vstd::prelude::*;

verus! {

/// Power state of the camera.
///
/// Decoded from the status buffer; `Unknown` is a decode fallback and is
/// never a valid value to command.
#[derive(Clone, Copy, Debug, PartialEq, Eq, Structural)]
pub enum SleepMode {
    Awake,
    Sleep,
    Unknown,
}

/// The camera's subject-tracking behaviour.
///
/// Decoded from a pair of status bytes; unmapped pairs fold to `Unknown`,
/// which has no encode target of its own (it is sent as `NoTracking`).
#[derive(Clone, Copy, Debug, PartialEq, Eq, Structural)]
pub enum AIMode {
    NoTracking,
    NormalTracking,
    UpperBody,
    CloseUp,
    Headless,
    LowerBody,
    DeskMode,
    Whiteboard,
    Hand,
    Group,
    Unknown,
}

/// How fast the camera follows its subject.
#[derive(Clone, Copy, Debug, PartialEq, Eq, Structural)]
pub enum TrackingSpeed {
    Standard,
    Sport,
}

/// Exposure behaviour; a write-only setting with no decode path.
#[derive(Clone, Copy, Debug, PartialEq, Eq, Structural)]
pub enum ExposureMode {
    Manual,
    Global,
    Face,
}

/// The primary exposure switch underneath [`ExposureMode`].
#[derive(Clone, Copy, Debug, PartialEq, Eq, Structural)]
pub enum ExposureModeType {
    Auto,
    Manual,
}

/// Coarse tracking style, keyed by small integers at the caller's side.
#[derive(Clone, Copy, Debug, PartialEq, Eq, Structural)]
pub enum TrackingMode {
    Headroom,
    Standard,
    Motion,
}

/// The AI mode that a small integer stands for, if any.
pub open spec fn spec_ai_mode_from_int(value: int) -> Option<AIMode> {
    if value == 0 {
        Some(AIMode::NoTracking)
    } else if value == 1 {
        Some(AIMode::NormalTracking)
    } else if value == 2 {
        Some(AIMode::UpperBody)
    } else if value == 3 {
        Some(AIMode::CloseUp)
    } else if value == 4 {
        Some(AIMode::Headless)
    } else if value == 5 {
        Some(AIMode::LowerBody)
    } else if value == 6 {
        Some(AIMode::DeskMode)
    } else if value == 7 {
        Some(AIMode::Whiteboard)
    } else if value == 8 {
        Some(AIMode::Hand)
    } else if value == 9 {
        Some(AIMode::Group)
    } else {
        None
    }
}

/// The tracking mode that a small integer stands for, if any.
pub open spec fn spec_tracking_mode_from_int(value: int) -> Option<TrackingMode> {
    if value == 0 {
        Some(TrackingMode::Headroom)
    } else if value == 1 {
        Some(TrackingMode::Standard)
    } else if value == 2 {
        Some(TrackingMode::Motion)
    } else {
        None
    }
}

impl AIMode {
    /// Converts an integer key to its AI mode; values outside `0..=9` are
    /// rejected with [`T4lError::UnsupportedIntValue`].
    pub fn try_from_i32(value: i32) -> (r: Result<AIMode, T4lError>)
        ensures
            match spec_ai_mode_from_int(value as int) {
                Some(mode) => r == Ok::<AIMode, T4lError>(mode),
                None => (r matches Err(e) && e matches T4lError::UnsupportedIntValue(
                    name,
                    v,
                ) && name@ == "AIMode"@ && v == value),
            },
    {
        match value {
            0 => Ok(AIMode::NoTracking),
            1 => Ok(AIMode::NormalTracking),
            2 => Ok(AIMode::UpperBody),
            3 => Ok(AIMode::CloseUp),
            4 => Ok(AIMode::Headless),
            5 => Ok(AIMode::LowerBody),
            6 => Ok(AIMode::DeskMode),
            7 => Ok(AIMode::Whiteboard),
            8 => Ok(AIMode::Hand),
            9 => Ok(AIMode::Group),
            _ => Err(T4lError::UnsupportedIntValue("AIMode".to_string(), value)),
        }
    }
}

impl TrackingMode {
    /// Converts an integer key to its tracking mode; values outside `0..=2`
    /// are rejected with [`T4lError::UnsupportedIntValue`].
    pub fn try_from_i32(value: i32) -> (r: Result<TrackingMode, T4lError>)
        ensures
            match spec_tracking_mode_from_int(value as int) {
                Some(mode) => r == Ok::<TrackingMode, T4lError>(mode),
                None => (r matches Err(e) && e matches T4lError::UnsupportedIntValue(
                    name,
                    v,
                ) && name@ == "TrackingMode"@ && v == value),
            },
    {
        match value {
            0 => Ok(TrackingMode::Headroom),
            1 => Ok(TrackingMode::Standard),
            2 => Ok(TrackingMode::Motion),
            _ => Err(T4lError::UnsupportedIntValue("TrackingMode".to_string(), value)),
        }
    }
}

} // verus!
