//! Frames selecting the tracking speed.

use crate::command02::command02;
use crate::command02::spec_frame;
use crate::command02::spec_zero_appendix;
use crate::enums::TrackingSpeed;
use crate::errors::T4lError;
use vstd::prelude::*;

verus! {

/// The function group routing tracking-speed commands.
pub open spec fn spec_tracking_speed_function_group() -> Seq<u8> {
    seq![0x0au8, 0x04u8, 0xc4u8, 0x0cu8, 0x01u8, 0x00u8]
}

/// The full frame commanding a tracking speed; both entries carry an
/// explicit all-zero appendix.
pub open spec fn spec_tracking_speed_frame(speed: TrackingSpeed) -> Seq<u8> {
    match speed {
        TrackingSpeed::Standard => spec_frame(
            seq![0x20u8, 0x00u8],
            seq![0xabu8, 0xcbu8],
            spec_tracking_speed_function_group(),
            seq![0xe6u8, 0x3fu8, 0x00u8, 0x00u8, 0x00u8, 0x00u8],
            spec_zero_appendix(),
        ),
        TrackingSpeed::Sport => spec_frame(
            seq![0x21u8, 0x00u8],
            seq![0xfau8, 0x0eu8],
            spec_tracking_speed_function_group(),
            seq![0x67u8, 0xfeu8, 0x02u8, 0x00u8, 0x00u8, 0x00u8],
            spec_zero_appendix(),
        ),
    }
}

/// Builds the frame that commands a tracking speed.
pub struct TrackingSpeedCommand;

impl TrackingSpeedCommand {
    /// The 36-byte frame for `speed`; total over the whole enum.
    pub fn build(speed: TrackingSpeed) -> (r: Result<Vec<u8>, T4lError>)
        ensures
            r matches Ok(frame) && frame@ == spec_tracking_speed_frame(speed) && frame@.len()
                == 36,
    {
        let function_group: [u8; 6] = [0x0a, 0x04, 0xc4, 0x0c, 0x01, 0x00];
        assert(function_group@ =~= spec_tracking_speed_function_group());

        let appendix: [u8; 16] = [
            0x00,
            0x00,
            0x00,
            0x00,
            0x00,
            0x00,
            0x00,
            0x00,
            0x00,
            0x00,
            0x00,
            0x00,
            0x00,
            0x00,
            0x00,
            0x00,
        ];
        assert(appendix@ =~= spec_zero_appendix());

        let frame = match speed {
            TrackingSpeed::Standard => command02(
                function_group,
                [0x20, 0x00],
                [0xab, 0xcb],
                [0xe6, 0x3f, 0x00, 0x00, 0x00, 0x00],
                Some(appendix),
            ),
            TrackingSpeed::Sport => command02(
                function_group,
                [0x21, 0x00],
                [0xfa, 0x0e],
                [0x67, 0xfe, 0x02, 0x00, 0x00, 0x00],
                Some(appendix),
            ),
        };
        assert(frame@ =~= spec_tracking_speed_frame(speed));
        Ok(frame)
    }
}

} // verus!
