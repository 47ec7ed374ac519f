//! Permission bits of the installed file.
use vstd::prelude::*;

verus! {

/// Read and execute for everyone, write for the owner.
pub const EXEC_BITS: u32 = 0o755;

/// The mode to give a file so that owner, group and others may execute it.
/// No bit of the current mode is removed, and every bit of `EXEC_BITS` is set.
pub fn executable_mode(mode: u32) -> (r: u32)
    ensures
        r == mode | EXEC_BITS,
        r & mode == mode,
        r & EXEC_BITS == EXEC_BITS,
        r & !(mode | EXEC_BITS) == 0,
{
    let r = mode | EXEC_BITS;
    assert(r & mode == mode && r & 0o755u32 == 0o755u32 && r & !(mode | 0o755u32) == 0) by (bit_vector)
        requires
            r == mode | 0o755u32,
    ;
    r
}

} // verus!
