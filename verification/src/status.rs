//! Decoding the camera's status buffer.
//!
//! The camera answers a status query with a fixed-layout buffer (60 bytes
//! on the wire, of which offsets up to 0x21 are read). Each field decodes
//! independently, and every byte pattern decodes to some defined value,
//! so the decoder is total over all sufficiently long buffers.

use crate::enums::AIMode;
use crate::enums::SleepMode;
use crate::enums::TrackingSpeed;
use vstd::prelude::*;

verus! {

/// The lowest buffer length the decoder accepts: one past the highest
/// offset it reads (0x21).
pub const STATUS_MIN_LEN: usize = 0x22;

/// Snapshot of the camera's state as read from one status buffer.
pub struct CameraStatus {
    pub awake: SleepMode,
    pub ai_mode: AIMode,
    pub speed: TrackingSpeed,
    pub hdr_on: bool,
}

/// Sleep state held at offset 0x02: 0 is awake, 1 is asleep, anything
/// else is unknown.
pub open spec fn spec_decode_sleep_mode(bytes: Seq<u8>) -> SleepMode {
    if bytes[0x02] == 0 {
        SleepMode::Awake
    } else if bytes[0x02] == 1 {
        SleepMode::Sleep
    } else {
        SleepMode::Unknown
    }
}

/// AI mode held as a pair of bytes at offsets 0x18 and 0x1c; every pair
/// outside the table folds to `Unknown`.
pub open spec fn spec_decode_ai_mode(bytes: Seq<u8>) -> AIMode {
    let m = bytes[0x18];
    let n = bytes[0x1c];
    if m == 0 && n == 0 {
        AIMode::NoTracking
    } else if m == 2 && n == 0 {
        AIMode::NormalTracking
    } else if m == 2 && n == 1 {
        AIMode::UpperBody
    } else if m == 2 && n == 2 {
        AIMode::CloseUp
    } else if m == 2 && n == 3 {
        AIMode::Headless
    } else if m == 2 && n == 4 {
        AIMode::LowerBody
    } else if m == 5 && n == 0 {
        AIMode::DeskMode
    } else if m == 4 && n == 0 {
        AIMode::Whiteboard
    } else if m == 6 && n == 0 {
        AIMode::Hand
    } else if m == 1 && n == 0 {
        AIMode::Group
    } else {
        AIMode::Unknown
    }
}

/// Tracking speed held at offset 0x21: 2 is sport, everything else falls
/// back to standard.
pub open spec fn spec_decode_tracking_speed(bytes: Seq<u8>) -> TrackingSpeed {
    if bytes[0x21] == 2 {
        TrackingSpeed::Sport
    } else {
        TrackingSpeed::Standard
    }
}

/// HDR flag held at offset 0x06: any nonzero byte means on.
pub open spec fn spec_decode_hdr_on(bytes: Seq<u8>) -> bool {
    bytes[0x06] != 0
}

/// Decode totality: whatever a buffer holds, each field decode lands on
/// one of the defined values — there is no byte pattern without a
/// meaning. Together with [`CameraStatus::decode`]'s contract, which
/// asks nothing of a buffer beyond its length, this makes the decoder
/// safe on arbitrary or garbage device answers.
pub proof fn lemma_decode_total(bytes: Seq<u8>)
    ensures
        spec_decode_sleep_mode(bytes) == SleepMode::Awake || spec_decode_sleep_mode(bytes)
            == SleepMode::Sleep || spec_decode_sleep_mode(bytes) == SleepMode::Unknown,
        spec_decode_tracking_speed(bytes) == TrackingSpeed::Standard
            || spec_decode_tracking_speed(bytes) == TrackingSpeed::Sport,
        spec_decode_ai_mode(bytes) == AIMode::NoTracking || spec_decode_ai_mode(bytes)
            == AIMode::NormalTracking || spec_decode_ai_mode(bytes) == AIMode::UpperBody
            || spec_decode_ai_mode(bytes) == AIMode::CloseUp || spec_decode_ai_mode(bytes)
            == AIMode::Headless || spec_decode_ai_mode(bytes) == AIMode::LowerBody
            || spec_decode_ai_mode(bytes) == AIMode::DeskMode || spec_decode_ai_mode(bytes)
            == AIMode::Whiteboard || spec_decode_ai_mode(bytes) == AIMode::Hand
            || spec_decode_ai_mode(bytes) == AIMode::Group || spec_decode_ai_mode(bytes)
            == AIMode::Unknown,
{
}

impl CameraStatus {
    /// Decodes a status buffer into its four fields.
    ///
    /// Total over every buffer of at least [`STATUS_MIN_LEN`] bytes: each
    /// field decode has a fallback, so arbitrary or garbage buffers still
    /// decode to some defined value.
    pub fn decode(bytes: &[u8]) -> (r: CameraStatus)
        requires
            bytes@.len() >= STATUS_MIN_LEN,
        ensures
            r.awake == spec_decode_sleep_mode(bytes@),
            r.ai_mode == spec_decode_ai_mode(bytes@),
            r.speed == spec_decode_tracking_speed(bytes@),
            r.hdr_on == spec_decode_hdr_on(bytes@),
    {
        CameraStatus {
            awake: Self::decode_sleep_mode(bytes),
            ai_mode: Self::decode_ai_mode(bytes),
            speed: Self::decode_tracking_speed(bytes),
            hdr_on: Self::decode_hdr_on(bytes),
        }
    }

    /// Decodes the sleep state alone.
    pub fn decode_sleep_mode(bytes: &[u8]) -> (r: SleepMode)
        requires
            bytes@.len() >= STATUS_MIN_LEN,
        ensures
            r == spec_decode_sleep_mode(bytes@),
    {
        match bytes[0x02] {
            0 => SleepMode::Awake,
            1 => SleepMode::Sleep,
            _ => SleepMode::Unknown,
        }
    }

    /// Decodes the AI tracking mode alone.
    pub fn decode_ai_mode(bytes: &[u8]) -> (r: AIMode)
        requires
            bytes@.len() >= STATUS_MIN_LEN,
        ensures
            r == spec_decode_ai_mode(bytes@),
    {
        let m = bytes[0x18];
        let n = bytes[0x1c];

        match (m, n) {
            (0, 0) => AIMode::NoTracking,
            (2, 0) => AIMode::NormalTracking,
            (2, 1) => AIMode::UpperBody,
            (2, 2) => AIMode::CloseUp,
            (2, 3) => AIMode::Headless,
            (2, 4) => AIMode::LowerBody,
            (5, 0) => AIMode::DeskMode,
            (4, 0) => AIMode::Whiteboard,
            (6, 0) => AIMode::Hand,
            (1, 0) => AIMode::Group,
            (_, _) => AIMode::Unknown,
        }
    }

    /// Decodes the tracking speed alone.
    pub fn decode_tracking_speed(bytes: &[u8]) -> (r: TrackingSpeed)
        requires
            bytes@.len() >= STATUS_MIN_LEN,
        ensures
            r == spec_decode_tracking_speed(bytes@),
    {
        match bytes[0x21] {
            0 => TrackingSpeed::Standard,
            2 => TrackingSpeed::Sport,
            _ => TrackingSpeed::Standard,
        }
    }

    /// Decodes the HDR flag alone.
    pub fn decode_hdr_on(bytes: &[u8]) -> (r: bool)
        requires
            bytes@.len() >= STATUS_MIN_LEN,
        ensures
            r == spec_decode_hdr_on(bytes@),
    {
        bytes[0x6] != 0
    }

    /// The placeholder status used before any query has answered: nothing
    /// is known, and the speed falls back to standard.
    pub fn default() -> (r: CameraStatus)
        ensures
            r.awake == SleepMode::Unknown,
            r.ai_mode == AIMode::Unknown,
            r.speed == TrackingSpeed::Standard,
            r.hdr_on == false,
    {
        CameraStatus {
            awake: SleepMode::Unknown,
            ai_mode: AIMode::Unknown,
            speed: TrackingSpeed::Standard,
            hdr_on: false,
        }
    }
}

} // verus!
