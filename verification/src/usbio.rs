//! The UVC control-query boundary.
//!
//! The library never touches a device node itself: everything it sends
//! or reads goes through the [`UvcUsbIo`] trait, implemented outside the
//! library by an ioctl-backed handle (or by a test double). This module
//! also holds the query codes, the capability record that device
//! discovery inspects, and the discovery decision itself.

use vstd::prelude::*;

verus! {

/// UVC request code: write a control's current value.
pub const UVC_SET_CUR: u8 = 0x01;

/// UVC request code: read a control's current value.
pub const UVC_GET_CUR: u8 = 0x81;

/// UVC request code: query a control's byte length.
pub const UVC_GET_LEN: u8 = 0x85;

/// The capability bit that marks a node reporting per-device
/// capabilities; discovery skips nodes that carry it.
pub const DEVICE_CAPS_META_FLAG: u32 = 0x800000;

/// One open camera handle's raw I/O operations.
///
/// An implementation performs the UVC extension-unit control query for
/// the unit/selector pair, reading into or writing from `data` according
/// to `query`, and reports a raw OS error code on failure. Whatever the
/// device answers, the buffer keeps its length.
pub trait UvcUsbIo {
    /// Prints or records a short description of the device.
    fn info(&self) -> (r: Result<(), i32>);

    /// Performs one control query on the extension unit.
    fn io(&self, unit: u8, selector: u8, query: u8, data: &mut Vec<u8>) -> (r: Result<(), i32>)
        requires
            old(data)@.len() <= 0xFFFF,
        ensures
            final(data)@.len() == old(data)@.len(),
    ;
}

/// The V4L2 capability record that device discovery inspects, with the
/// driver's fixed-width identification strings held as raw bytes.
#[allow(non_camel_case_types)]
#[derive(Clone, Copy, Debug)]
pub struct v4l2_capability {
    pub driver: [u8; 16],
    pub card: [u8; 32],
    pub bus_info: [u8; 32],
    pub version: u32,
    pub capabilities: u32,
    pub device_caps: u32,
    pub reserved: [u32; 3],
}

/// Whether `needle` occurs as a contiguous run somewhere in `hay`.
pub open spec fn spec_contains_bytes(hay: Seq<u8>, needle: Seq<u8>) -> bool {
    exists|i: int|
        0 <= i && i + needle.len() <= hay.len() && #[trigger] hay.subrange(i, i + needle.len())
            == needle
}

/// Whether a capability record accepts a discovery hint: the hint occurs
/// in the card name or in the bus info, and the node does not carry the
/// capability-reporting meta flag.
pub open spec fn spec_capability_matches(cap: v4l2_capability, hint: Seq<u8>) -> bool {
    (spec_contains_bytes(cap.card@, hint) || spec_contains_bytes(cap.bus_info@, hint))
        && cap.device_caps & DEVICE_CAPS_META_FLAG == 0
}

/// Whether the bytes of `hay` starting at `at` equal `needle`.
fn matches_at(hay: &[u8], needle: &[u8], at: usize) -> (r: bool)
    requires
        at + needle@.len() <= hay@.len(),
    ensures
        r == (hay@.subrange(at as int, at + needle@.len()) == needle@),
{
    let hay_len: usize = hay.len();
    let mut j: usize = 0;
    while j < needle.len()
        invariant
            at + needle@.len() <= hay@.len(),
            hay@.len() == hay_len,
            j <= needle@.len(),
            forall|k: int| 0 <= k < j ==> hay@[at + k] == needle@[k],
        decreases needle@.len() - j,
    {
        if hay[at + j] != needle[j] {
            assert(hay@.subrange(at as int, at + needle@.len())[j as int] != needle@[j as int]);
            return false;
        }
        j += 1;
    }
    assert(hay@.subrange(at as int, at + needle@.len()) =~= needle@);
    true
}

/// Byte-level substring search, the heart of hint matching during
/// device discovery.
pub fn contains_bytes(hay: &[u8], needle: &[u8]) -> (r: bool)
    ensures
        r == spec_contains_bytes(hay@, needle@),
{
    if needle.len() > hay.len() {
        assert(!spec_contains_bytes(hay@, needle@));
        return false;
    }
    let mut i: usize = 0;
    let last = hay.len() - needle.len();
    loop
        invariant_except_break
            needle@.len() <= hay@.len(),
            last == hay@.len() - needle@.len(),
            i <= last,
            forall|k: int|
                0 <= k < i ==> #[trigger] hay@.subrange(k, k + needle@.len()) != needle@,
        ensures
            forall|k: int|
                0 <= k <= last ==> #[trigger] hay@.subrange(k, k + needle@.len()) != needle@,
        decreases last - i,
    {
        if matches_at(hay, needle, i) {
            return true;
        }
        if i == last {
            break;
        }
        i += 1;
    }
    assert forall|k: int| 0 <= k && k + needle@.len() <= hay@.len() implies #[trigger] hay@
        .subrange(k, k + needle@.len()) != needle@ by {
        assert(k <= last);
    }
    false
}

/// The device-discovery acceptance test: does this capability record
/// match the caller's hint?
pub fn capability_matches(cap: &v4l2_capability, hint: &[u8]) -> (r: bool)
    ensures
        r == spec_capability_matches(*cap, hint@),
{
    if cap.device_caps & DEVICE_CAPS_META_FLAG != 0 {
        return false;
    }
    contains_bytes(cap.card.as_slice(), hint) || contains_bytes(cap.bus_info.as_slice(), hint)
}

} // verus!
