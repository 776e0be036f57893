//! The library's error taxonomy.

use vstd::prelude::*;

verus! {

/// Every fallible operation of the library reports one of these.
///
/// Errors propagate unchanged to the caller; nothing is caught or
/// retried inside the library.
#[derive(Debug)]
pub enum T4lError {
    /// A numeric-to-enum conversion was asked for a value outside the
    /// defined range; carries the type's name and the offending value.
    UnsupportedIntValue(String, i32),
    /// A UVC control query failed, or the declared control size did not
    /// fit the buffer; carries the raw OS error code.
    USBIOError(i32),
    /// A file-open operation failed; carries the raw OS error code.
    IOError(i32),
    /// Device-open resolution exhausted every strategy without a match.
    NoCameraFound,
    /// The caller asked for a structurally invalid setting, such as an
    /// out-of-range preset index or an unknown sleep mode as a target.
    InvalidSetting,
}

} // verus!
