//! The Windows-style backend's error plumbing. That platform keeps no
//! last-error string for its dynamic loader, only a numeric code per thread;
//! the code is carried into the portable result-code space and then handed
//! to the platform's message-formatting facility. The formatting call itself
//! is the platform's; the conversion and every decision around it are
//! verified here.

use vstd::prelude::*;

verus! {

/// The facility under which the platform files its base error codes when
/// they are carried into the result-code space.
pub const FACILITY_WIN32: u32 = 7;

/// The result code a base error code `win32` is carried to: a code whose
/// bit pattern is already a non-positive result value passes through
/// unchanged; any other code keeps its low sixteen bits and is tagged with
/// the base facility and the failure bit.
pub open spec fn win32_to_hresult(win32: u32) -> i32 {
    if (win32 as i32) <= 0 {
        win32 as i32
    } else {
        ((win32 & 0x0000FFFF) | (FACILITY_WIN32 << 16) | 0x80000000u32) as i32
    }
}

/// Carries a base error code into the portable result-code space. Zero (no
/// error) stays zero, and every real error becomes a negative result value,
/// so failure remains visible in the converted code.
pub fn hresult_from_win32(win32: u32) -> (hr: i32)
    ensures
        hr == win32_to_hresult(win32),
        win32 == 0 ==> hr == 0,
        win32 != 0 ==> hr < 0,
{
    proof {
        assert(win32 == 0 ==> win32 as i32 == 0) by (bit_vector);
        assert((win32 != 0 && (win32 as i32) <= 0) ==> (win32 as i32) < 0) by (bit_vector);
        assert((((win32 & 0x0000FFFF) | (7u32 << 16) | 0x80000000u32) as i32) < 0) by (bit_vector);
    }
    if (win32 as i32) <= 0 {
        win32 as i32
    } else {
        ((win32 & 0x0000FFFF) | (FACILITY_WIN32 << 16) | 0x80000000u32) as i32
    }
}

/// The conversion step of last-error retrieval: the numeric code just read
/// from the platform's per-thread last-error slot, carried into the
/// result-code space for the message-formatting call.
pub fn last_error_hr(code: u32) -> (hr: i32)
    ensures
        hr == win32_to_hresult(code),
{
    hresult_from_win32(code)
}

/// The decision step of last-error retrieval: the platform's
/// message-formatting facility reported `chars` formatted characters and
/// produced `message`. Zero characters means the code could not be
/// formatted, and no diagnostic is produced; otherwise the formatted message
/// is the diagnostic.
pub fn last_error_string(chars: u32, message: String) -> (r: Option<String>)
    ensures
        chars == 0 ==> r is None,
        chars != 0 ==> r == Some(message),
{
    if chars == 0 {
        None
    } else {
        Some(message)
    }
}

} // verus!
