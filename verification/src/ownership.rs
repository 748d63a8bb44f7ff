//! The shared-ownership teardown discipline for native handles.
//!
//! Several wrapper types share one native handle among many logical owners.
//! The native resource must be closed exactly once: by the last owner to let
//! go, and by nobody else.  `OwnerCount` is that discipline over a plain
//! counter: acquiring adds an owner, releasing removes one, and a release
//! reports that the resource must be closed exactly when it removed the last
//! owner.

use vstd::prelude::*;

verus! {

/// How many owners a release trace leaves, starting from `owners`, when no
/// release finds the count already at zero.
pub open spec fn owners_after_releases(owners: int, releases: int) -> int {
    owners - releases
}

/// The number of logical owners of one shared native handle.
pub struct OwnerCount {
    owners: u64,
}

impl OwnerCount {
    /// The current number of owners.
    pub closed spec fn spec_owners(self) -> int {
        self.owners as int
    }

    /// A freshly constructed handle has exactly one owner.
    pub fn new() -> (r: OwnerCount)
        ensures
            r.spec_owners() == 1,
    {
        OwnerCount { owners: 1 }
    }

    /// Records one more owner, as when a handle is cloned.
    pub fn acquire(&mut self)
        requires
            1 <= old(self).spec_owners() < u64::MAX,
        ensures
            final(self).spec_owners() == old(self).spec_owners() + 1,
    {
        self.owners = self.owners + 1;
    }

    /// Records that one owner let go.  The result says whether the native
    /// resource must now be closed: true exactly when the releasing owner
    /// was the last one, so over any trace the close happens exactly once,
    /// at the final release, and never before or again.
    pub fn release(&mut self) -> (close: bool)
        requires
            old(self).spec_owners() >= 1,
        ensures
            final(self).spec_owners() == old(self).spec_owners() - 1,
            close == (old(self).spec_owners() == 1),
            close == (final(self).spec_owners() == 0),
    {
        self.owners = self.owners - 1;
        self.owners == 0
    }
}

/// The exactly-once close law: starting from a fresh handle, `k` clones
/// followed by `k` releases leave the resource open (no release in that
/// trace removes the last owner), and the next release, by the last owner,
/// is the single one that closes it; after it no owner remains, so no
/// further release is permitted.
pub proof fn lemma_exactly_once_close(k: int)
    requires
        k >= 0,
    ensures
        forall|d: int| 0 <= d <= k ==> (#[trigger] owners_after_releases(1 + k, d) == 1 <==> d
            == k),
        owners_after_releases(1 + k, k + 1) == 0,
{
}

} // verus!
