//! Raw payloads selecting the AI tracking mode.

use crate::enums::AIMode;
use crate::errors::T4lError;
use vstd::prelude::*;

verus! {

/// The 4-byte payload that selects an AI mode; `Unknown` has no encoding
/// of its own and is sent as `NoTracking`.
pub open spec fn spec_ai_mode_payload(mode: AIMode) -> Seq<u8> {
    match mode {
        AIMode::NoTracking => seq![0x16u8, 0x02u8, 0x00u8, 0x00u8],
        AIMode::NormalTracking => seq![0x16u8, 0x02u8, 0x02u8, 0x00u8],
        AIMode::UpperBody => seq![0x16u8, 0x02u8, 0x02u8, 0x01u8],
        AIMode::DeskMode => seq![0x16u8, 0x02u8, 0x05u8, 0x00u8],
        AIMode::Whiteboard => seq![0x16u8, 0x02u8, 0x04u8, 0x00u8],
        AIMode::Group => seq![0x16u8, 0x02u8, 0x01u8, 0x00u8],
        AIMode::Hand => seq![0x16u8, 0x02u8, 0x03u8, 0x00u8],
        AIMode::CloseUp => seq![0x16u8, 0x02u8, 0x02u8, 0x02u8],
        AIMode::Headless => seq![0x16u8, 0x02u8, 0x02u8, 0x03u8],
        AIMode::LowerBody => seq![0x16u8, 0x02u8, 0x02u8, 0x04u8],
        AIMode::Unknown => seq![0x16u8, 0x02u8, 0x00u8, 0x00u8],
    }
}

/// Builds the raw selector-0x6 payload for an AI mode.
pub struct AIModeCommand;

impl AIModeCommand {
    /// The 4-byte payload for `mode`; total over the whole enum.
    pub fn build(mode: AIMode) -> (r: Result<[u8; 4], T4lError>)
        ensures
            r matches Ok(payload) && payload@ == spec_ai_mode_payload(mode),
    {
        let payload: [u8; 4] = match mode {
            AIMode::NoTracking => [0x16, 0x02, 0x00, 0x00],
            AIMode::NormalTracking => [0x16, 0x02, 0x02, 0x00],
            AIMode::UpperBody => [0x16, 0x02, 0x02, 0x01],
            AIMode::DeskMode => [0x16, 0x02, 0x05, 0x00],
            AIMode::Whiteboard => [0x16, 0x02, 0x04, 0x00],
            AIMode::Group => [0x16, 0x02, 0x01, 0x00],
            AIMode::Hand => [0x16, 0x02, 0x03, 0x00],
            AIMode::CloseUp => [0x16, 0x02, 0x02, 0x02],
            AIMode::Headless => [0x16, 0x02, 0x02, 0x03],
            AIMode::LowerBody => [0x16, 0x02, 0x02, 0x04],
            AIMode::Unknown => [0x16, 0x02, 0x00, 0x00],
        };
        assert(payload@ =~= spec_ai_mode_payload(mode));
        Ok(payload)
    }
}

} // verus!
