//! The privilege test that decides between elevation and dispatch.

use vstd::prelude::*;

verus! {

/// The effective user identity of the superuser.
pub const ROOT_EUID: u32 = 0;

/// Whether an effective user identity is the superuser's.
pub open spec fn privileged(euid: u32) -> bool {
    euid == ROOT_EUID
}

/// Tells whether a process with effective user identity `euid` runs as the
/// superuser.
pub fn is_root(euid: u32) -> (root: bool)
    ensures
        root == privileged(euid),
{
    euid == ROOT_EUID
}

} // verus!
