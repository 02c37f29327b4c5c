//! Permission bits of the downloaded binary.

use vstd::prelude::*;

verus! {

/// The bits added to the mode of a freshly written binary: execute for its
/// owner and for its group.
pub const EXECUTABLE_BITS: u32 = 0o110;

/// The mode a binary gets once it has been made executable.
pub open spec fn spec_executable_mode(mode: u32) -> u32 {
    mode | EXECUTABLE_BITS
}

/// Adds the executable bits to `mode` and keeps every bit that was set.
pub fn executable_mode(mode: u32) -> (result: u32)
    ensures
        result == spec_executable_mode(mode),
{
    mode | EXECUTABLE_BITS
}

/// Making a binary executable sets the execute bits of owner and group,
/// leaves every other bit as it was, and changes nothing when done a second
/// time.
pub proof fn law_executable_mode_adds_bits(mode: u32)
    ensures
        spec_executable_mode(mode) & EXECUTABLE_BITS == EXECUTABLE_BITS,
        spec_executable_mode(mode) & mode == mode,
        spec_executable_mode(mode) & !EXECUTABLE_BITS == mode & !EXECUTABLE_BITS,
        spec_executable_mode(spec_executable_mode(mode)) == spec_executable_mode(mode),
{
    assert((mode | 0o110) & 0o110 == 0o110) by (bit_vector);
    assert((mode | 0o110) & mode == mode) by (bit_vector);
    assert((mode | 0o110) & !0o110u32 == mode & !0o110u32) by (bit_vector);
    assert(((mode | 0o110) | 0o110) == (mode | 0o110)) by (bit_vector);
}

} // verus!
