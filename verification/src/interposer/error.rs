//! Minor status codes of the daemon, kept apart from those of the mechglue.

use vstd::prelude::*;

verus! {

/// What is added to a non-zero minor code.
pub const MAP_ERROR_BASE: u32 = 0x0420_0000;

/// The mapped form of a minor code: 0 stays 0, and any other code is shifted,
/// modulo the word size.
pub open spec fn mapped(err: u32) -> u32 {
    if err == 0 {
        0
    } else if err + MAP_ERROR_BASE <= u32::MAX {
        (err + MAP_ERROR_BASE) as u32
    } else {
        (err + MAP_ERROR_BASE - 0x1_0000_0000) as u32
    }
}

/// The minor code that a mapped code stands for.
pub open spec fn unmapped(err: u32) -> u32 {
    if err == 0 {
        0
    } else if err >= MAP_ERROR_BASE {
        (err - MAP_ERROR_BASE) as u32
    } else {
        (err - MAP_ERROR_BASE + 0x1_0000_0000) as u32
    }
}

/// Shift a minor code into the mapped range.
pub fn map_error(err: u32) -> (r: u32)
    ensures
        r == mapped(err),
{
    if err != 0 {
        err.wrapping_add(MAP_ERROR_BASE)
    } else {
        err
    }
}

/// Undo [`map_error`].
pub fn unmap_error(err: u32) -> (r: u32)
    ensures
        r == unmapped(err),
{
    if err != 0 {
        err.wrapping_sub(MAP_ERROR_BASE)
    } else {
        err
    }
}

/// A mapped code that is not 0 unmaps to the code it came from.
pub proof fn unmap_undoes_map(err: u32)
    requires
        mapped(err) != 0,
    ensures
        unmapped(mapped(err)) == err,
{
}

/// Only 0 and the one code that the shift wraps to 0 are mapped to 0.
pub proof fn mapped_to_zero(err: u32)
    ensures
        mapped(err) == 0 <==> err == 0 || err == 0x1_0000_0000 - MAP_ERROR_BASE,
{
}

} // verus!
