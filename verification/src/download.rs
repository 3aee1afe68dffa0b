//! Atomic path downloader: the orchestration of one download as a verified
//! state machine.
//!
//! A download is a single linear sequence of I/O steps: open and lock a
//! temporary sibling file, stream the remote content into it, flush and sync,
//! atomically rename it over the destination, and on any failure remove the
//! temporary file. Every one of those steps is I/O, so it is performed by an
//! unverified driver; the decisions between them — what to do next, when the
//! download has failed, when cleanup is owed, when the result may be published
//! — are made here. The driver asks [`Downloader::next_action`] what to do,
//! performs exactly that [`Action`], and reports the outcome as an [`Event`]
//! through [`Downloader::step`]. The machine's contracts pin every transition
//! ([`step_spec`]); the properties that make the scheme safe — the destination
//! is only ever touched by the final atomic rename, a failed download owes a
//! cleanup of the temporary file, a declared content length must match the
//! streamed length — are proved in [`crate::trace`] over traces of this
//! machine.

use vstd::prelude::*;

use crate::guard::DropRemovePath;
use crate::temp_path::temp_path_for;
use crate::temp_path::temp_path_spec;

verus! {

/// The terminal failures of a download, one per phase that can fail. The
/// underlying OS or HTTP error is known to the driver, which pairs it with
/// this kind when it reports the failure to its caller. A cleanup failure is
/// deliberately not here: it never replaces the original error and is only
/// reported alongside it (see [`Phase::DoneErr`]).
#[derive(Clone, Copy, Debug, PartialEq, Eq)]
pub enum DownloadError {
    /// The temporary file could not be created.
    Open,
    /// The advisory lock on the temporary file could not be acquired; a
    /// concurrent download of the same destination holds it.
    Lock,
    /// The request could not be sent or its headers could not be read.
    Request,
    /// The response carried a non-success HTTP status.
    Status { code: u16 },
    /// Reading the next chunk of the response body failed.
    Read,
    /// Pre-allocating the temporary file to the declared length failed.
    Allocate,
    /// Writing a chunk to the temporary file failed, or the body outgrew the
    /// largest representable file size.
    Write,
    /// The streamed length differs from the declared content length.
    LengthMismatch { expected: u64, actual: u64 },
    /// Flushing or syncing the temporary file to durable storage failed.
    Sync,
    /// The atomic rename onto the destination failed.
    Rename,
}

/// What the driver must do next. Each action is one I/O step on the paths
/// held by the [`Downloader`]; its outcome comes back as an [`Event`].
#[derive(Clone, Copy, Debug, PartialEq, Eq)]
pub enum Action {
    /// Open the temporary file for writing. With `exclusive` set (no advisory
    /// locking on this platform) creation must fail if the file already
    /// exists; otherwise create-or-truncate, since the lock is what prevents
    /// concurrent stomping.
    OpenTemp { exclusive: bool },
    /// Acquire a non-blocking exclusive advisory lock on the temporary file.
    Lock,
    /// Send the HTTP GET request and read the response status and declared
    /// content length.
    Request,
    /// Pre-allocate the temporary file to `len` bytes.
    Allocate { len: u64 },
    /// Read the next chunk of the response body.
    ReadChunk,
    /// Write the chunk just read to the temporary file.
    WriteChunk,
    /// Flush buffered writes and sync file data to durable storage.
    Sync,
    /// Atomically rename the temporary file onto the destination.
    Rename,
    /// Remove the temporary file.
    RemoveTemp,
    /// Nothing: the download is over. Release the lock and close the handle.
    Done,
}

/// The outcome of the action the driver just performed.
#[derive(Clone, Copy, Debug, PartialEq, Eq)]
pub enum Event {
    OpenOk,
    OpenFailed,
    LockOk,
    LockFailed,
    /// The response arrived with this status code and declared content
    /// length, if any.
    Response { status: u16, content_length: Option<u64> },
    RequestFailed,
    AllocateOk,
    AllocateFailed,
    /// The next body chunk arrived, `len` bytes long.
    Chunk { len: u64 },
    /// The body ended.
    BodyEnd,
    ReadFailed,
    WriteOk,
    WriteFailed,
    SyncOk,
    SyncFailed,
    RenameOk,
    RenameFailed,
    RemoveOk,
    RemoveFailed,
}

/// Where in the linear sequence of I/O steps the download stands. The phase
/// determines the pending [`Action`] (see [`action_of`]).
#[derive(Clone, Copy, Debug, PartialEq, Eq)]
pub enum Phase {
    /// Nothing has happened yet; the temporary file must be opened.
    Start,
    /// The temporary file exists; the advisory lock must be acquired.
    Locking,
    /// The temporary file is protected; the request must be sent.
    Requesting,
    /// The response declared a content length; the file is pre-allocated.
    Allocating { expected: u64 },
    /// `written` bytes of the body have been streamed so far; the next chunk
    /// is read.
    Streaming { declared: Option<u64>, written: u64 },
    /// A chunk of `chunk` bytes was read and must be written.
    Writing { declared: Option<u64>, written: u64, chunk: u64 },
    /// The whole body was streamed and its length verified; file data is
    /// flushed and synced.
    Syncing { declared: Option<u64>, written: u64 },
    /// The content is durable; the single publish point, the atomic rename,
    /// is performed.
    Renaming { declared: Option<u64>, written: u64 },
    /// The download failed with `error`; removal of the temporary file is
    /// owed before the error is reported.
    Cleanup { error: DownloadError },
    /// Terminal success: the destination holds the complete artifact of
    /// `written` bytes; the temporary name is gone.
    DoneOk { declared: Option<u64>, written: u64 },
    /// Terminal failure. With `residue` set the cleanup itself failed too:
    /// the temporary file remains, marked persisted so it is not uselessly
    /// retried, and the driver reports the cleanup failure as a secondary
    /// warning — never in place of `error`.
    DoneErr { error: DownloadError, residue: bool },
}

/// Success of an HTTP status code.
pub open spec fn status_success(code: u16) -> bool {
    200 <= code < 300
}

/// Whether the streamed length agrees with the declared content length, when
/// one was declared at all.
pub open spec fn length_matches(declared: Option<u64>, actual: u64) -> bool {
    declared matches Some(l) ==> l == actual
}

/// The action pending in phase `p` of a download with locking support
/// `locking`.
pub open spec fn action_of(locking: bool, p: Phase) -> Action {
    match p {
        Phase::Start => Action::OpenTemp { exclusive: !locking },
        Phase::Locking => Action::Lock,
        Phase::Requesting => Action::Request,
        Phase::Allocating { expected } => Action::Allocate { len: expected },
        Phase::Streaming { .. } => Action::ReadChunk,
        Phase::Writing { .. } => Action::WriteChunk,
        Phase::Syncing { .. } => Action::Sync,
        Phase::Renaming { .. } => Action::Rename,
        Phase::Cleanup { .. } => Action::RemoveTemp,
        Phase::DoneOk { .. } => Action::Done,
        Phase::DoneErr { .. } => Action::Done,
    }
}

/// Whether `e` is a possible outcome of the action pending in phase `p`.
pub open spec fn event_fits(p: Phase, e: Event) -> bool {
    match p {
        Phase::Start => e is OpenOk || e is OpenFailed,
        Phase::Locking => e is LockOk || e is LockFailed,
        Phase::Requesting => e is Response || e is RequestFailed,
        Phase::Allocating { .. } => e is AllocateOk || e is AllocateFailed,
        Phase::Streaming { .. } => e is Chunk || e is BodyEnd || e is ReadFailed,
        Phase::Writing { .. } => e is WriteOk || e is WriteFailed,
        Phase::Syncing { .. } => e is SyncOk || e is SyncFailed,
        Phase::Renaming { .. } => e is RenameOk || e is RenameFailed,
        Phase::Cleanup { .. } => e is RemoveOk || e is RemoveFailed,
        Phase::DoneOk { .. } => false,
        Phase::DoneErr { .. } => false,
    }
}

/// The transition relation of the download: the phase that follows `p` when
/// the pending action's outcome is `e`. Total for convenience; outside
/// [`event_fits`] pairs it keeps the phase.
pub open spec fn step_spec(locking: bool, p: Phase, e: Event) -> Phase {
    match (p, e) {
        (Phase::Start, Event::OpenOk) => if locking {
            Phase::Locking
        } else {
            Phase::Requesting
        },
        // No temporary file was created, so no cleanup is owed. In exclusive
        // mode the failure may mean a concurrent download's temporary file
        // already exists; that file is not ours to touch.
        (Phase::Start, Event::OpenFailed) => Phase::DoneErr {
            error: DownloadError::Open,
            residue: false,
        },
        (Phase::Locking, Event::LockOk) => Phase::Requesting,
        // Already locked by a concurrent download: fail fast, no waiting.
        (Phase::Locking, Event::LockFailed) => Phase::Cleanup { error: DownloadError::Lock },
        (Phase::Requesting, Event::Response { status, content_length }) => if !status_success(
            status,
        ) {
            Phase::Cleanup { error: DownloadError::Status { code: status } }
        } else {
            match content_length {
                Some(expected) => Phase::Allocating { expected },
                None => Phase::Streaming { declared: None, written: 0 },
            }
        },
        (Phase::Requesting, Event::RequestFailed) => Phase::Cleanup {
            error: DownloadError::Request,
        },
        (Phase::Allocating { expected }, Event::AllocateOk) => Phase::Streaming {
            declared: Some(expected),
            written: 0,
        },
        (Phase::Allocating { .. }, Event::AllocateFailed) => Phase::Cleanup {
            error: DownloadError::Allocate,
        },
        (Phase::Streaming { declared, written }, Event::Chunk { len }) => if written + len
            > u64::MAX {
            // No file this large can exist; treat it as a write failure.
            Phase::Cleanup { error: DownloadError::Write }
        } else {
            Phase::Writing { declared, written, chunk: len }
        },
        (Phase::Streaming { declared, written }, Event::BodyEnd) => match declared {
            Some(expected) => if expected == written {
                Phase::Syncing { declared, written }
            } else {
                Phase::Cleanup {
                    error: DownloadError::LengthMismatch { expected, actual: written },
                }
            },
            None => Phase::Syncing { declared, written },
        },
        (Phase::Streaming { .. }, Event::ReadFailed) => Phase::Cleanup {
            error: DownloadError::Read,
        },
        (Phase::Writing { declared, written, chunk }, Event::WriteOk) => Phase::Streaming {
            declared,
            written: (written + chunk) as u64,
        },
        (Phase::Writing { .. }, Event::WriteFailed) => Phase::Cleanup {
            error: DownloadError::Write,
        },
        (Phase::Syncing { declared, written }, Event::SyncOk) => Phase::Renaming {
            declared,
            written,
        },
        (Phase::Syncing { .. }, Event::SyncFailed) => Phase::Cleanup {
            error: DownloadError::Sync,
        },
        (Phase::Renaming { declared, written }, Event::RenameOk) => Phase::DoneOk {
            declared,
            written,
        },
        (Phase::Renaming { .. }, Event::RenameFailed) => Phase::Cleanup {
            error: DownloadError::Rename,
        },
        (Phase::Cleanup { error }, Event::RemoveOk) => Phase::DoneErr { error, residue: false },
        (Phase::Cleanup { error }, Event::RemoveFailed) => Phase::DoneErr { error, residue: true },
        _ => p,
    }
}

/// The download's result once it reached a terminal phase: the published
/// artifact's length on success, the first terminal failure otherwise.
pub open spec fn outcome_spec(p: Phase) -> Option<Result<u64, DownloadError>> {
    match p {
        Phase::DoneOk { written, .. } => Some(Ok(written)),
        Phase::DoneErr { error, .. } => Some(Err(error)),
        _ => None,
    }
}

/// One download of a remote resource into `dest`, driven step by step.
///
/// The downloader owns the destination path, the temporary sibling path the
/// content is streamed into, and — from the moment the temporary file exists —
/// the scoped-removal guard for that temporary path. The guard is persisted
/// exactly when the temporary name stops needing removal: after the rename on
/// success, or after a failed cleanup, so the removal is not uselessly
/// retried.
pub struct Downloader {
    locking: bool,
    dest: String,
    temp: String,
    guard: Option<DropRemovePath>,
    phase: Phase,
}

impl Downloader {
    /// Whether the platform offers advisory file locking. Decided once, by
    /// the driver, as a platform fact.
    pub closed spec fn locking_spec(self) -> bool {
        self.locking
    }

    /// The destination path.
    pub closed spec fn dest_spec(self) -> Seq<char> {
        self.dest@
    }

    /// The temporary sibling path.
    pub closed spec fn temp_spec(self) -> Seq<char> {
        self.temp@
    }

    /// The scoped-removal guard of the temporary path, while one is active.
    pub closed spec fn guard_spec(self) -> Option<DropRemovePath> {
        self.guard
    }

    /// The current phase.
    pub closed spec fn phase_spec(self) -> Phase {
        self.phase
    }

    /// Well-formedness: the temporary path is the destination's `.part`
    /// sibling; a byte count about to be extended still fits; and the guard
    /// mirrors the phase — absent before the temporary file exists and after
    /// its name is gone (renamed away or removed), active and asking for
    /// removal throughout the fallible middle, persisted and kept exactly
    /// when a failed download's cleanup failed too.
    pub open spec fn wf(self) -> bool {
        &&& self.temp_spec() == temp_path_spec(self.dest_spec())
        &&& (self.phase_spec() matches Phase::Writing { written, chunk, .. } ==> written + chunk
            <= u64::MAX)
        &&& (self.phase_spec() is Locking ==> self.locking_spec())
        &&& match self.phase_spec() {
            Phase::Start => self.guard_spec() is None,
            Phase::DoneOk { .. } => self.guard_spec() is None,
            Phase::DoneErr { residue, .. } => if residue {
                self.guard_spec() matches Some(g) && g.path_spec() == self.temp_spec()
                    && !g.should_remove_spec()
            } else {
                self.guard_spec() is None
            },
            _ => self.guard_spec() matches Some(g) && g.path_spec() == self.temp_spec()
                && g.should_remove_spec(),
        }
    }

    /// Begin a download into `dest`. `locking` says whether the platform
    /// offers advisory file locking; it changes how the temporary file is
    /// opened ([`Action::OpenTemp`]) and whether a lock is acquired.
    pub fn new(dest: String, locking: bool) -> (d: Self)
        ensures
            d.wf(),
            d.locking_spec() == locking,
            d.dest_spec() == dest@,
            d.temp_spec() == temp_path_spec(dest@),
            d.phase_spec() == Phase::Start,
    {
        let temp = temp_path_for(dest.as_str());
        Downloader { locking, dest, temp, guard: None, phase: Phase::Start }
    }

    /// The action the driver must perform next.
    pub fn next_action(&self) -> (a: Action)
        ensures
            a == action_of(self.locking_spec(), self.phase_spec()),
    {
        match self.phase {
            Phase::Start => Action::OpenTemp { exclusive: !self.locking },
            Phase::Locking => Action::Lock,
            Phase::Requesting => Action::Request,
            Phase::Allocating { expected } => Action::Allocate { len: expected },
            Phase::Streaming { .. } => Action::ReadChunk,
            Phase::Writing { .. } => Action::WriteChunk,
            Phase::Syncing { .. } => Action::Sync,
            Phase::Renaming { .. } => Action::Rename,
            Phase::Cleanup { .. } => Action::RemoveTemp,
            Phase::DoneOk { .. } => Action::Done,
            Phase::DoneErr { .. } => Action::Done,
        }
    }

    /// Whether `e` is a possible outcome of the pending action — what
    /// [`Self::step`] requires. The driver checks this before stepping.
    pub fn accepts(&self, e: &Event) -> (b: bool)
        ensures
            b == event_fits(self.phase_spec(), *e),
    {
        match self.phase {
            Phase::Start => matches!(e, Event::OpenOk | Event::OpenFailed),
            Phase::Locking => matches!(e, Event::LockOk | Event::LockFailed),
            Phase::Requesting => matches!(e, Event::Response { .. } | Event::RequestFailed),
            Phase::Allocating { .. } => matches!(e, Event::AllocateOk | Event::AllocateFailed),
            Phase::Streaming { .. } => matches!(
                e,
                Event::Chunk { .. } | Event::BodyEnd | Event::ReadFailed
            ),
            Phase::Writing { .. } => matches!(e, Event::WriteOk | Event::WriteFailed),
            Phase::Syncing { .. } => matches!(e, Event::SyncOk | Event::SyncFailed),
            Phase::Renaming { .. } => matches!(e, Event::RenameOk | Event::RenameFailed),
            Phase::Cleanup { .. } => matches!(e, Event::RemoveOk | Event::RemoveFailed),
            Phase::DoneOk { .. } => false,
            Phase::DoneErr { .. } => false,
        }
    }

    /// Feed the outcome of the pending action. The new phase is exactly
    /// [`step_spec`] of the old one; the paths never change; the guard keeps
    /// mirroring the phase as [`Self::wf`] says — in particular it is created
    /// the moment the temporary file exists, persisted and discarded after
    /// the rename published the file, consumed by a successful cleanup, and
    /// persisted but kept when cleanup failed.
    pub fn step(&mut self, e: Event)
        requires
            old(self).wf(),
            event_fits(old(self).phase_spec(), e),
        ensures
            final(self).wf(),
            final(self).phase_spec() == step_spec(
                old(self).locking_spec(),
                old(self).phase_spec(),
                e,
            ),
            final(self).locking_spec() == old(self).locking_spec(),
            final(self).dest_spec() == old(self).dest_spec(),
            final(self).temp_spec() == old(self).temp_spec(),
    {
        let p = self.phase;
        match (p, e) {
            (Phase::Start, Event::OpenOk) => {
                // The temporary file now exists: every exit path from here on
                // is covered by its scoped-removal guard.
                self.guard = Some(DropRemovePath::new(self.temp.clone()));
                self.phase = if self.locking {
                    Phase::Locking
                } else {
                    Phase::Requesting
                };
            }
            (Phase::Start, Event::OpenFailed) => {
                self.phase = Phase::DoneErr { error: DownloadError::Open, residue: false };
            }
            (Phase::Locking, Event::LockOk) => {
                self.phase = Phase::Requesting;
            }
            (Phase::Locking, Event::LockFailed) => {
                self.phase = Phase::Cleanup { error: DownloadError::Lock };
            }
            (Phase::Requesting, Event::Response { status, content_length }) => {
                if !(200 <= status && status < 300) {
                    self.phase = Phase::Cleanup { error: DownloadError::Status { code: status } };
                } else {
                    self.phase = match content_length {
                        Some(expected) => Phase::Allocating { expected },
                        None => Phase::Streaming { declared: None, written: 0 },
                    };
                }
            }
            (Phase::Requesting, Event::RequestFailed) => {
                self.phase = Phase::Cleanup { error: DownloadError::Request };
            }
            (Phase::Allocating { expected }, Event::AllocateOk) => {
                self.phase = Phase::Streaming { declared: Some(expected), written: 0 };
            }
            (Phase::Allocating { .. }, Event::AllocateFailed) => {
                self.phase = Phase::Cleanup { error: DownloadError::Allocate };
            }
            (Phase::Streaming { declared, written }, Event::Chunk { len }) => {
                if len > u64::MAX - written {
                    self.phase = Phase::Cleanup { error: DownloadError::Write };
                } else {
                    self.phase = Phase::Writing { declared, written, chunk: len };
                }
            }
            (Phase::Streaming { declared, written }, Event::BodyEnd) => {
                self.phase = match declared {
                    Some(expected) => if expected == written {
                        Phase::Syncing { declared, written }
                    } else {
                        Phase::Cleanup {
                            error: DownloadError::LengthMismatch { expected, actual: written },
                        }
                    },
                    None => Phase::Syncing { declared, written },
                };
            }
            (Phase::Streaming { .. }, Event::ReadFailed) => {
                self.phase = Phase::Cleanup { error: DownloadError::Read };
            }
            (Phase::Writing { declared, written, chunk }, Event::WriteOk) => {
                self.phase = Phase::Streaming { declared, written: written + chunk };
            }
            (Phase::Writing { .. }, Event::WriteFailed) => {
                self.phase = Phase::Cleanup { error: DownloadError::Write };
            }
            (Phase::Syncing { declared, written }, Event::SyncOk) => {
                self.phase = Phase::Renaming { declared, written };
            }
            (Phase::Syncing { .. }, Event::SyncFailed) => {
                self.phase = Phase::Cleanup { error: DownloadError::Sync };
            }
            (Phase::Renaming { declared, written }, Event::RenameOk) => {
                // The rename moved the file away from the temporary name:
                // nothing is left there to remove, so the guard is persisted
                // and discarded, reporting "not removed".
                let g = self.guard.take();
                match g {
                    Some(mut g) => {
                        g.persist();
                        let verdict = g.try_drop(None);
                        proof {
                            assert(verdict == Ok::<bool, DropRemovePath>(false));
                        }
                    }
                    None => {
                        proof {
                            assert(false);
                        }
                    }
                }
                self.phase = Phase::DoneOk { declared, written };
            }
            (Phase::Renaming { .. }, Event::RenameFailed) => {
                self.phase = Phase::Cleanup { error: DownloadError::Rename };
            }
            (Phase::Cleanup { error }, Event::RemoveOk) => {
                // The owed removal succeeded: the guard is consumed,
                // reporting "removed".
                let g = self.guard.take();
                match g {
                    Some(g) => {
                        let verdict = g.try_drop(Some(true));
                        proof {
                            assert(verdict == Ok::<bool, DropRemovePath>(true));
                        }
                    }
                    None => {
                        proof {
                            assert(false);
                        }
                    }
                }
                self.phase = Phase::DoneErr { error, residue: false };
            }
            (Phase::Cleanup { error }, Event::RemoveFailed) => {
                // The owed removal failed: the guard comes back and is
                // persisted, so the leftover file is reported once and never
                // uselessly retried; the original error still takes
                // precedence.
                let g = self.guard.take();
                match g {
                    Some(g) => {
                        match g.try_drop(Some(false)) {
                            Err(mut g) => {
                                g.persist();
                                self.guard = Some(g);
                            }
                            Ok(_) => {
                                proof {
                                    assert(false);
                                }
                            }
                        }
                    }
                    None => {
                        proof {
                            assert(false);
                        }
                    }
                }
                self.phase = Phase::DoneErr { error, residue: true };
            }
            _ => {
                proof {
                    assert(false);
                }
            }
        }
    }

    /// The result once the download is over: `Ok` with the published
    /// artifact's length, or the first terminal failure. `None` while the
    /// download is still under way.
    pub fn outcome(&self) -> (r: Option<Result<u64, DownloadError>>)
        ensures
            r == outcome_spec(self.phase_spec()),
    {
        match self.phase {
            Phase::DoneOk { written, .. } => Some(Ok(written)),
            Phase::DoneErr { error, .. } => Some(Err(error)),
            _ => None,
        }
    }

    /// The current phase.
    pub fn phase(&self) -> (p: Phase)
        ensures
            p == self.phase_spec(),
    {
        self.phase
    }

    /// The destination path.
    pub fn dest_path(&self) -> (p: &String)
        ensures
            p@ == self.dest_spec(),
    {
        &self.dest
    }

    /// The temporary path the content is streamed into.
    pub fn temp_path(&self) -> (p: &String)
        ensures
            p@ == self.temp_spec(),
    {
        &self.temp
    }
}

/// Whether the streamed length agrees with the declared content length —
/// the check a driver that streams into an already-open file performs itself.
pub fn length_ok(declared: Option<u64>, actual: u64) -> (b: bool)
    ensures
        b == length_matches(declared, actual),
{
    match declared {
        Some(expected) => expected == actual,
        None => true,
    }
}

} // verus!
