//! Frames steering the camera to a stored preset position.

use crate::command02::command02;
use crate::command02::spec_frame;
use crate::errors::T4lError;
use vstd::prelude::*;

verus! {

/// The function group routing preset-position commands.
pub open spec fn spec_preset_function_group() -> Seq<u8> {
    seq![0x0au8, 0x04u8, 0xc4u8, 0x39u8, 0x14u8, 0x00u8]
}

/// The preset appendix: the device's 4-byte per-axis weight pattern,
/// repeated four times.
pub open spec fn spec_preset_appendix() -> Seq<u8> {
    seq![
        0x00u8,
        0x00u8,
        0x80u8,
        0x3fu8,
        0x00u8,
        0x00u8,
        0x80u8,
        0x3fu8,
        0x00u8,
        0x00u8,
        0x80u8,
        0x3fu8,
        0x00u8,
        0x00u8,
        0x80u8,
        0x3fu8,
    ]
}

/// The full frame steering to preset `preset_nr`; only indices 0 to 2
/// have an encoding.
pub open spec fn spec_preset_frame(preset_nr: int) -> Seq<u8>
    recommends
        0 <= preset_nr <= 2,
{
    if preset_nr == 0 {
        spec_frame(
            seq![0x20u8, 0x00u8],
            seq![0x6bu8, 0xdcu8],
            spec_preset_function_group(),
            seq![0xd6u8, 0xfbu8, 0x00u8, 0x00u8, 0x00u8, 0x00u8],
            spec_preset_appendix(),
        )
    } else if preset_nr == 1 {
        spec_frame(
            seq![0x1au8, 0x00u8],
            seq![0x4bu8, 0x03u8],
            spec_preset_function_group(),
            seq![0xebu8, 0x2au8, 0x01u8, 0x00u8, 0x00u8, 0x00u8],
            spec_preset_appendix(),
        )
    } else {
        spec_frame(
            seq![0x26u8, 0x00u8],
            seq![0x8bu8, 0xc3u8],
            spec_preset_function_group(),
            seq![0xafu8, 0x19u8, 0x02u8, 0x00u8, 0x00u8, 0x00u8],
            spec_preset_appendix(),
        )
    }
}

/// Builds the frame that steers the camera to a stored preset.
pub struct GotoPresetPositionCommand;

impl GotoPresetPositionCommand {
    /// The 36-byte frame for preset `preset_nr`.
    ///
    /// Exactly the indices 0, 1 and 2 have an encoding; every other
    /// index is rejected with [`T4lError::InvalidSetting`].
    pub fn build(preset_nr: i8) -> (r: Result<Vec<u8>, T4lError>)
        ensures
            0 <= preset_nr <= 2 ==> (r matches Ok(frame) && frame@ == spec_preset_frame(
                preset_nr as int,
            ) && frame@.len() == 36),
            !(0 <= preset_nr <= 2) ==> (r matches Err(e) && e == T4lError::InvalidSetting),
    {
        if preset_nr < 0 || preset_nr > 3 {
            return Err(T4lError::InvalidSetting);
        }

        let function_group: [u8; 6] = [0x0a, 0x04, 0xc4, 0x39, 0x14, 0x00];
        assert(function_group@ =~= spec_preset_function_group());

        let appendix: [u8; 16] = [
            0x00,
            0x00,
            0x80,
            0x3f,
            0x00,
            0x00,
            0x80,
            0x3f,
            0x00,
            0x00,
            0x80,
            0x3f,
            0x00,
            0x00,
            0x80,
            0x3f,
        ];
        assert(appendix@ =~= spec_preset_appendix());

        let frame = match preset_nr {
            0 => command02(
                function_group,
                [0x20, 0x00],
                [0x6b, 0xdc],
                [0xd6, 0xfb, 0x00, 0x00, 0x00, 0x00],
                Some(appendix),
            ),
            1 => command02(
                function_group,
                [0x1a, 0x00],
                [0x4b, 0x03],
                [0xeb, 0x2a, 0x01, 0x00, 0x00, 0x00],
                Some(appendix),
            ),
            2 => command02(
                function_group,
                [0x26, 0x00],
                [0x8b, 0xc3],
                [0xaf, 0x19, 0x02, 0x00, 0x00, 0x00],
                Some(appendix),
            ),
            _ => {
                return Err(T4lError::InvalidSetting);
            },
        };
        assert(frame@ =~= spec_preset_frame(preset_nr as int));
        Ok(frame)
    }
}

} // verus!
