//! Sentinel-terminated path buffers for the native loader calls.
//!
//! Both native loaders take the path as a sentinel-terminated buffer: the
//! POSIX loader a byte string, the Windows loader a wide (16-bit unit)
//! string. These functions append that terminator.

use vstd::prelude::*;
use vstd::slice::slice_to_vec;

verus! {

/// The path bytes with the NUL terminator the POSIX loader requires.
pub fn nul_terminate_bytes(path: &[u8]) -> (v: Vec<u8>)
    ensures
        v@ == path@.push(0u8),
{
    let mut v: Vec<u8> = slice_to_vec(path);
    v.push(0);
    v
}

/// The wide path units with the NUL terminator the Windows loader requires.
pub fn nul_terminate_wide(path: &[u16]) -> (v: Vec<u16>)
    ensures
        v@ == path@.push(0u16),
{
    let mut v: Vec<u16> = slice_to_vec(path);
    v.push(0);
    v
}

} // verus!
