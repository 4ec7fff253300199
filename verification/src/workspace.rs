//! An arena-style model of the disposable working directory.
//!
//! The real directory tree lives on disk, and the surrounding process resets
//! it; this model captures exactly what the harness relies on: a reset
//! removes whatever the previous iteration left behind — a missing root is
//! not an error — and recreates the root empty, so every iteration's
//! extraction starts from nothing.  Tests drive their scenario doubles
//! against this model without touching a filesystem.

use vstd::prelude::*;

verus! {

/// The state of the working directory tree: whether its root exists and how
/// many entries the tree below it holds.
pub struct WorkspaceModel {
    /// The working root currently exists.
    pub present: bool,
    /// The number of entries below the root.
    pub entries: u64,
}

impl WorkspaceModel {
    /// The root exists and holds nothing: the state every iteration's
    /// extraction must start from.
    pub open spec fn is_empty(self) -> bool {
        self.present && self.entries == 0
    }

    /// A workspace whose root has never been created.
    pub fn absent() -> (w: WorkspaceModel)
        ensures
            !w.present,
            w.entries == 0,
    {
        WorkspaceModel { present: false, entries: 0 }
    }

    /// Resets the workspace: deletes the root with whatever it holds, if it
    /// is present at all, and recreates it empty.  Whatever state the
    /// previous iteration left behind, the workspace is empty afterwards.
    pub fn reset(&mut self)
        ensures
            final(self).is_empty(),
    {
        self.present = true;
        self.entries = 0;
    }

    /// Records `n` entries deposited below the root, as a successful
    /// extraction of a non-empty archive does.
    pub fn deposit(&mut self, n: u64)
        requires
            old(self).present,
            old(self).entries + n <= u64::MAX,
        ensures
            final(self).present,
            final(self).entries == old(self).entries + n,
            n > 0 ==> !final(self).is_empty(),
    {
        self.entries = self.entries + n;
    }

    /// Whether the root currently exists and holds nothing.
    pub fn check_empty(&self) -> (r: bool)
        ensures
            r == self.is_empty(),
    {
        self.present && self.entries == 0
    }
}

} // verus!
