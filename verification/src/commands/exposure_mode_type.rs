//! Frames switching the primary exposure mode.

use crate::command02::command02;
use crate::command02::spec_frame;
use crate::command02::spec_zero_appendix;
use crate::enums::ExposureMode;
use vstd::prelude::*;

verus! {

/// The function group routing exposure-mode-type commands.
pub open spec fn spec_exposure_mode_type_function_group() -> Seq<u8> {
    seq![0x0au8, 0x02u8, 0x82u8, 0x29u8, 0x05u8, 0x00u8]
}

/// The full frame for the primary exposure switch: one frame for manual
/// exposure, one shared automatic frame for the other modes.
pub open spec fn spec_exposure_mode_type_frame(mode: ExposureMode) -> Seq<u8> {
    if mode == ExposureMode::Manual {
        spec_frame(
            seq![0x16u8, 0x00u8],
            seq![0x58u8, 0x91u8],
            spec_exposure_mode_type_function_group(),
            seq![0xb2u8, 0xafu8, 0x02u8, 0x04u8, 0x00u8, 0x00u8],
            spec_zero_appendix(),
        )
    } else {
        spec_frame(
            seq![0x15u8, 0x00u8],
            seq![0xa8u8, 0x9eu8],
            spec_exposure_mode_type_function_group(),
            seq![0xf9u8, 0x27u8, 0x01u8, 0x32u8, 0x00u8, 0x00u8],
            spec_zero_appendix(),
        )
    }
}

/// Builds the frame that switches the primary exposure mode.
pub struct ExposureModeTypeCommand;

impl ExposureModeTypeCommand {
    /// The 36-byte frame for `mode`; total over the whole enum.
    pub fn build(mode: ExposureMode) -> (r: Vec<u8>)
        ensures
            r@ == spec_exposure_mode_type_frame(mode),
            r@.len() == 36,
    {
        let function_group: [u8; 6] = [0x0a, 0x02, 0x82, 0x29, 0x05, 0x00];
        assert(function_group@ =~= spec_exposure_mode_type_function_group());

        let frame = if let ExposureMode::Manual = mode {
            command02(
                function_group,
                [0x16, 0x00],
                [0x58, 0x91],
                [0xb2, 0xaf, 0x02, 0x04, 0x00, 0x00],
                None,
            )
        } else {
            command02(
                function_group,
                [0x15, 0x00],
                [0xa8, 0x9e],
                [0xf9, 0x27, 0x01, 0x32, 0x00, 0x00],
                None,
            )
        };
        assert(frame@ =~= spec_exposure_mode_type_frame(mode));
        frame
    }
}

} // verus!
