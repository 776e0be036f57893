//! Raw payloads switching HDR on or off.

use vstd::prelude::*;

verus! {

/// The 3-byte payload that switches HDR.
pub open spec fn spec_hdr_payload(mode: bool) -> Seq<u8> {
    if mode {
        seq![0x01u8, 0x01u8, 0x01u8]
    } else {
        seq![0x01u8, 0x01u8, 0x00u8]
    }
}

/// Builds the raw selector-0x6 payload for the HDR switch.
pub struct HdrModeCommand;

impl HdrModeCommand {
    /// The 3-byte payload for `mode`.
    pub fn build(mode: bool) -> (r: [u8; 3])
        ensures
            r@ == spec_hdr_payload(mode),
    {
        let payload: [u8; 3] = if mode {
            [0x01, 0x01, 0x01]
        } else {
            [0x01, 0x01, 0x00]
        };
        assert(payload@ =~= spec_hdr_payload(mode));
        payload
    }
}

} // verus!
