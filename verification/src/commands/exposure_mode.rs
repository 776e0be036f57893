//! Raw payloads selecting the automatic exposure style.

use crate::enums::ExposureMode;
use vstd::prelude::*;

verus! {

/// The secondary 3-byte payload for an exposure mode, sent only for the
/// automatic variants; manual exposure sends none.
pub open spec fn spec_exposure_mode_payload(mode: ExposureMode) -> Option<Seq<u8>> {
    match mode {
        ExposureMode::Manual => None,
        ExposureMode::Global => Some(seq![0x03u8, 0x01u8, 0x00u8]),
        ExposureMode::Face => Some(seq![0x03u8, 0x01u8, 0x01u8]),
    }
}

/// Builds the raw selector-0x6 payload that picks the automatic exposure
/// style.
pub struct ExposureModeCommand;

impl ExposureModeCommand {
    /// The secondary payload for `mode`, or `None` for manual exposure.
    pub fn build(mode: ExposureMode) -> (r: Option<[u8; 3]>)
        ensures
            match spec_exposure_mode_payload(mode) {
                Some(bytes) => r matches Some(payload) && payload@ == bytes,
                None => r is None,
            },
    {
        match mode {
            ExposureMode::Manual => None,
            ExposureMode::Global => {
                let payload: [u8; 3] = [0x03, 0x01, 0x00];
                assert(payload@ =~= spec_exposure_mode_payload(mode)->Some_0);
                Some(payload)
            },
            ExposureMode::Face => {
                let payload: [u8; 3] = [0x03, 0x01, 0x01];
                assert(payload@ =~= spec_exposure_mode_payload(mode)->Some_0);
                Some(payload)
            },
        }
    }
}

} // verus!
