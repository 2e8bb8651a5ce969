//! Checks made on files that hold secrets.

use vstd::prelude::*;

verus! {

/// Whether a file's permission bits let its group or other users read, write or execute it;
/// such a file is refused as a holder of secrets
pub fn permissions_too_open(mode: u32) -> (open: bool)
    ensures
        open == (mode & 0o077u32 != 0),
{
    mode & 0o077u32 != 0
}

} // verus!
