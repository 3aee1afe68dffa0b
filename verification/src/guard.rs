//! Scoped-removal path guard: the owner of the responsibility to delete the
//! file at one path, until it is explicitly told to persist that file.
//!
//! The guard is created immediately after a temporary file comes into being,
//! so that every later exit path is covered. It is mutated at most once, by
//! [`DropRemovePath::persist`], and consumed by [`DropRemovePath::try_drop`].
//! Deleting a file is I/O and therefore the job of the unverified driver: the
//! guard decides, through [`DropRemovePath::should_remove`], whether a removal
//! must be attempted, and `try_drop` turns the attempt's outcome into the
//! guard's verdict — returning the guard itself when the attempt failed, so
//! the caller can persist it and report the failure instead of retrying.

use vstd::prelude::*;

verus! {

/// Scoped-removal guard for the file at a path.
///
/// Freshly created it asks for the file's removal; after [`Self::persist`] it
/// no longer does. At most one guard is ever the active owner of removal
/// responsibility for a path: the guard is moved, never duplicated, when its
/// final disposition is decided.
#[derive(Debug, PartialEq, Eq)]
pub struct DropRemovePath {
    path: String,
    should_remove: bool,
}

/// The verdict of [`DropRemovePath::try_drop`] on a guard `g`, given the
/// outcome `removal` of the driver's removal attempt (`None` when the guard
/// asked for none): `Ok(true)` when the file was removed, `Ok(false)` when the
/// guard was persisted and no removal was due, and `Err` returning the guard
/// unchanged when the attempt failed.
pub open spec fn try_drop_spec(
    g: DropRemovePath,
    removal: Option<bool>,
) -> Result<bool, DropRemovePath> {
    if !g.should_remove_spec() {
        Ok(false)
    } else if removal == Some(true) {
        Ok(true)
    } else {
        Err(g)
    }
}

impl DropRemovePath {
    /// The path whose removal this guard is responsible for.
    pub closed spec fn path_spec(self) -> Seq<char> {
        self.path@
    }

    /// Whether discarding the guard must first attempt removal of the file.
    pub closed spec fn should_remove_spec(self) -> bool {
        self.should_remove
    }

    /// Make a new guard for the file at `path`, asking for its removal.
    /// No I/O happens here or in any other method of the guard.
    pub fn new(path: String) -> (g: Self)
        ensures
            g.path_spec() == path@,
            g.should_remove_spec(),
    {
        Self { path, should_remove: true }
    }

    /// Keep the file: the guard no longer asks for its removal. Idempotent.
    pub fn persist(&mut self)
        ensures
            final(self).path_spec() == old(self).path_spec(),
            !final(self).should_remove_spec(),
    {
        self.should_remove = false;
    }

    /// The path this guard watches over.
    pub fn path(&self) -> (p: &String)
        ensures
            p@ == self.path_spec(),
    {
        &self.path
    }

    /// Whether the driver must attempt removal of the file before the guard
    /// is discarded through [`Self::try_drop`].
    pub fn should_remove(&self) -> (b: bool)
        ensures
            b == self.should_remove_spec(),
    {
        self.should_remove
    }

    /// Discard the guard. The driver must have attempted removal of the file
    /// exactly when [`Self::should_remove`] asked for it, and reports that
    /// attempt's outcome as `removal` (`None` when none was asked for).
    ///
    /// Returns `Ok(true)` when the file was removed, `Ok(false)` when it was
    /// deliberately kept, and, when the removal attempt failed, the guard back
    /// to the caller so it can be persisted and the failure reported without
    /// masking whatever error caused the cleanup in the first place.
    pub fn try_drop(self, removal: Option<bool>) -> (r: Result<bool, Self>)
        requires
            removal is Some <==> self.should_remove_spec(),
        ensures
            r == try_drop_spec(self, removal),
    {
        match removal {
            None => Ok(false),
            Some(true) => Ok(true),
            Some(false) => Err(self),
        }
    }
}

/// Guard persist/finalize law: a guard that was persisted never asks for a
/// removal and always reports "not removed"; a guard that was not persisted
/// always asks for a removal, reports "removed" exactly when the attempt
/// succeeded, and otherwise hands itself back unchanged.
pub proof fn lemma_guard_persist_finalize(g: DropRemovePath, removal: Option<bool>)
    ensures
        !g.should_remove_spec() ==> try_drop_spec(g, removal) == Ok::<bool, DropRemovePath>(false),
        g.should_remove_spec() && removal == Some(true) ==> try_drop_spec(g, removal)
            == Ok::<bool, DropRemovePath>(true),
        g.should_remove_spec() && removal != Some(true) ==> try_drop_spec(g, removal)
            == Err::<bool, DropRemovePath>(g),
{
}

} // verus!
