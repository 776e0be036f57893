//! Frames putting the camera to sleep or waking it.

use crate::command02::command02;
use crate::command02::spec_frame;
use crate::command02::spec_zero_appendix;
use crate::enums::SleepMode;
use crate::errors::T4lError;
use vstd::prelude::*;

verus! {

/// The function group routing sleep commands.
pub open spec fn spec_sleep_function_group() -> Seq<u8> {
    seq![0x0au8, 0x02u8, 0xc2u8, 0xa0u8, 0x04u8, 0x00u8]
}

/// The full frame commanding a sleep state; only `Awake` and `Sleep`
/// have one.
pub open spec fn spec_sleep_frame(mode: SleepMode) -> Seq<u8>
    recommends
        mode != SleepMode::Unknown,
{
    match mode {
        SleepMode::Awake => spec_frame(
            seq![0xa5u8, 0x00u8],
            seq![0x5fu8, 0xefu8],
            spec_sleep_function_group(),
            seq![0xbeu8, 0x07u8, 0x00u8, 0x00u8, 0x00u8, 0x00u8],
            spec_zero_appendix(),
        ),
        _ => spec_frame(
            seq![0x42u8, 0x00u8],
            seq![0xeau8, 0x63u8],
            spec_sleep_function_group(),
            seq![0xbfu8, 0xfbu8, 0x01u8, 0x00u8, 0x00u8, 0x00u8],
            spec_zero_appendix(),
        ),
    }
}

/// Builds the frame that commands a sleep state.
pub struct SleepCommand;

impl SleepCommand {
    /// The 36-byte frame for `mode`.
    ///
    /// `Unknown` is a decode fallback, never a target: asking for it is
    /// rejected with [`T4lError::InvalidSetting`].
    pub fn build(mode: SleepMode) -> (r: Result<Vec<u8>, T4lError>)
        ensures
            mode == SleepMode::Unknown <==> (r matches Err(e) && e == T4lError::InvalidSetting),
            mode != SleepMode::Unknown ==> (r matches Ok(frame) && frame@ == spec_sleep_frame(mode)
                && frame@.len() == 36),
    {
        if let SleepMode::Unknown = mode {
            return Err(T4lError::InvalidSetting);
        }

        let function_group: [u8; 6] = [0x0a, 0x02, 0xc2, 0xa0, 0x04, 0x00];
        assert(function_group@ =~= spec_sleep_function_group());

        let frame = match mode {
            SleepMode::Awake => command02(
                function_group,
                [0xa5, 0x00],
                [0x5f, 0xef],
                [0xbe, 0x07, 0x00, 0x00, 0x00, 0x00],
                None,
            ),
            _ => command02(
                function_group,
                [0x42, 0x00],
                [0xea, 0x63],
                [0xbf, 0xfb, 0x01, 0x00, 0x00, 0x00],
                None,
            ),
        };
        assert(frame@ =~= spec_sleep_frame(mode));
        Ok(frame)
    }
}

} // verus!
