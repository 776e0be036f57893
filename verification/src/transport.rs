//! The length-checked UVC query protocol.
//!
//! Every read or write first asks the device for the control's declared
//! size (`GET_LEN`) and refuses the transfer when the buffer does not
//! fit: reads fail when the destination is smaller than the declared
//! size, writes when the payload is larger. This guards the raw query
//! against buffer overrun from a misconfigured unit/selector pair.
//! Writes always travel as a fixed 60-byte transfer with a zero-filled
//! tail.

use crate::errors::T4lError;
use crate::status::CameraStatus;
use crate::usbio::UVC_GET_CUR;
use crate::usbio::UVC_GET_LEN;
use crate::usbio::UVC_SET_CUR;
use crate::usbio::UvcUsbIo;
use vstd::prelude::*;

verus! {

/// Every wire transfer is this many bytes; shorter payloads are padded
/// with zeros.
pub const TRANSFER_LEN: usize = 60;

/// `payload` padded with zeros to the fixed transfer length.
pub open spec fn spec_padded(payload: Seq<u8>) -> Seq<u8> {
    payload + Seq::new((TRANSFER_LEN - payload.len()) as nat, |i: int| 0u8)
}

/// Copies `payload` into a fresh transfer buffer of the fixed length,
/// zero-filling the tail.
pub fn pad_payload(payload: &[u8]) -> (r: Vec<u8>)
    requires
        payload@.len() <= TRANSFER_LEN,
    ensures
        r@ == spec_padded(payload@),
        r@.len() == TRANSFER_LEN,
{
    let mut r: Vec<u8> = Vec::new();
    let mut i: usize = 0;
    while i < payload.len()
        invariant
            i <= payload@.len(),
            payload@.len() <= TRANSFER_LEN,
            r@ == payload@.subrange(0, i as int),
        decreases payload@.len() - i,
    {
        r.push(payload[i]);
        assert(payload@.subrange(0, i + 1) =~= payload@.subrange(0, i as int).push(
            payload@[i as int],
        ));
        i += 1;
    }
    assert(r@ =~= payload@);
    crate::command02::push_zeros(&mut r, TRANSFER_LEN - payload.len());
    r
}

/// A fresh all-zero transfer buffer.
pub fn zero_transfer_buffer() -> (r: Vec<u8>)
    ensures
        r@ == Seq::new(TRANSFER_LEN as nat, |i: int| 0u8),
        r@.len() == TRANSFER_LEN,
{
    let mut r: Vec<u8> = Vec::new();
    crate::command02::push_zeros(&mut r, TRANSFER_LEN);
    assert(r@ =~= Seq::new(TRANSFER_LEN as nat, |i: int| 0u8));
    r
}

/// The little-endian value of the device's 2-byte length reply.
pub fn le16_to_usize(low: u8, high: u8) -> (r: usize)
    ensures
        r as int == low as int + 256 * (high as int),
        r <= 0xFFFF,
{
    (low as usize) + (high as usize) * 256
}

/// The read gate of the length-checked protocol: a transfer into a
/// destination smaller than the device-declared size would overrun the
/// buffer, so it is refused with error code 1 before any transfer.
pub fn read_size_gate(destination_len: usize, declared: usize) -> (r: Result<(), i32>)
    ensures
        r == (if destination_len < declared {
            Err::<(), i32>(1)
        } else {
            Ok::<(), i32>(())
        }),
{
    if destination_len < declared {
        Err(1)
    } else {
        Ok(())
    }
}

/// The write gate of the length-checked protocol: a payload larger than
/// the device-declared size is refused with error code 1 before any
/// transfer.
pub fn write_size_gate(payload_len: usize, declared: usize) -> (r: Result<(), i32>)
    ensures
        r == (if payload_len > declared {
            Err::<(), i32>(1)
        } else {
            Ok::<(), i32>(())
        }),
{
    if payload_len > declared {
        Err(1)
    } else {
        Ok(())
    }
}

/// Wire transport over one open camera handle.
///
/// Stateless with respect to the camera's settings: it only moves bytes
/// through the handle's control queries.
pub struct CameraTransport<T: UvcUsbIo> {
    handle: T,
}

impl<T: UvcUsbIo> CameraTransport<T> {
    /// Wraps an open handle.
    pub fn new(handle: T) -> (r: CameraTransport<T>) {
        CameraTransport { handle }
    }

    /// Reports the handle's device description.
    pub fn info(&self) -> (r: Result<(), i32>) {
        self.handle.info()
    }

    /// Sends a command payload: pads it to the fixed transfer length and
    /// issues a length-checked `SET_CUR`.
    ///
    /// Every failure is an I/O-level one and is reported as
    /// [`T4lError::USBIOError`] with the raw OS error code.
    pub fn send_cmd(&self, unit: u8, selector: u8, cmd: &[u8]) -> (r: Result<(), T4lError>)
        requires
            cmd@.len() <= TRANSFER_LEN,
        ensures
            r matches Err(e) ==> e matches T4lError::USBIOError(_),
    {
        let mut data = pad_payload(cmd);
        match self.set_cur(unit, selector, &mut data) {
            Ok(()) => Ok(()),
            Err(code) => Err(T4lError::USBIOError(code)),
        }
    }

    /// Queries the camera's status control and decodes the answer.
    ///
    /// Whatever bytes the device returns, the decode is total, so a
    /// successful transfer always yields a status; every failure is
    /// reported as [`T4lError::USBIOError`].
    pub fn get_status(&self) -> (r: Result<CameraStatus, T4lError>)
        ensures
            r matches Err(e) ==> e matches T4lError::USBIOError(_),
    {
        let mut data = zero_transfer_buffer();
        match self.get_cur(0x2, 0x6, &mut data) {
            Ok(()) => Ok(CameraStatus::decode(data.as_slice())),
            Err(code) => Err(T4lError::USBIOError(code)),
        }
    }

    /// Reads the raw status control (selector 0x6) for diagnostics.
    pub fn dump(&self) -> (r: Result<Vec<u8>, i32>)
        ensures
            r matches Ok(data) ==> data@.len() == TRANSFER_LEN,
    {
        let mut data = zero_transfer_buffer();
        match self.get_cur(0x2, 0x6, &mut data) {
            Ok(()) => Ok(data),
            Err(code) => Err(code),
        }
    }

    /// Reads the raw frame-command control (selector 0x2) for
    /// diagnostics.
    pub fn dump_02(&self) -> (r: Result<Vec<u8>, i32>)
        ensures
            r matches Ok(data) ==> data@.len() == TRANSFER_LEN,
    {
        let mut data = zero_transfer_buffer();
        match self.get_cur(0x2, 0x2, &mut data) {
            Ok(()) => Ok(data),
            Err(code) => Err(code),
        }
    }

    /// Length-checked read: refuses the transfer when the destination
    /// buffer is smaller than the control's declared size.
    fn get_cur(&self, unit: u8, selector: u8, data: &mut Vec<u8>) -> (r: Result<(), i32>)
        requires
            old(data)@.len() <= 0xFFFF,
        ensures
            final(data)@.len() == old(data)@.len(),
    {
        let size = match self.get_len(unit, selector) {
            Ok(size) => size,
            Err(code) => {
                return Err(code);
            },
        };
        match read_size_gate(data.len(), size) {
            Ok(()) => (),
            Err(code) => {
                return Err(code);
            },
        }
        self.handle.io(unit, selector, UVC_GET_CUR, data)
    }

    /// Length-checked write: refuses the transfer when the payload is
    /// larger than the control's declared size.
    fn set_cur(&self, unit: u8, selector: u8, data: &mut Vec<u8>) -> (r: Result<(), i32>)
        requires
            old(data)@.len() <= 0xFFFF,
        ensures
            final(data)@.len() == old(data)@.len(),
    {
        let size = match self.get_len(unit, selector) {
            Ok(size) => size,
            Err(code) => {
                return Err(code);
            },
        };
        match write_size_gate(data.len(), size) {
            Ok(()) => (),
            Err(code) => {
                return Err(code);
            },
        }
        self.handle.io(unit, selector, UVC_SET_CUR, data)
    }

    /// Asks the device how many bytes the control transfers: the
    /// little-endian value of the 2-byte `GET_LEN` reply.
    fn get_len(&self, unit: u8, selector: u8) -> (r: Result<usize, i32>)
        ensures
            r matches Ok(size) ==> size <= 0xFFFF,
    {
        let mut data: Vec<u8> = Vec::new();
        data.push(0);
        data.push(0);
        match self.handle.io(unit, selector, UVC_GET_LEN, &mut data) {
            Ok(()) => Ok(le16_to_usize(data[0], data[1])),
            Err(code) => Err(code),
        }
    }
}

} // verus!
