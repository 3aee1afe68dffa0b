//! Traces of the download machine and the safety laws proved over them.
//!
//! A trace is the sequence of I/O outcomes a driver feeds into a
//! [`Downloader`](crate::download::Downloader), each paired with the bytes it
//! wrote when the outcome was a successful chunk write. [`run_phase`] replays
//! a trace through the transition relation [`step_spec`]; [`run_fs`] replays
//! what the driver's actions do to the two filesystem entries a download
//! touches, under the model [`fs_after`]. The laws at the bottom hold of
//! every well-formed trace:
//!
//! - the destination is only ever touched by the single atomic rename, so an
//!   observer polling it sees the pre-existing file or the complete download,
//!   never anything in between;
//! - a successful download publishes exactly the bytes that were streamed, in
//!   order, and leaves no temporary file behind;
//! - a download that fails after the temporary file was created removes it,
//!   whenever that removal itself succeeds;
//! - a failed download leaves the destination exactly as it was;
//! - a declared content length that disagrees with the streamed length is a
//!   terminal failure and nothing is published;
//! - a download that loses the advisory lock race fails fast, with the same
//!   cleanup obligations as any other failure.

use vstd::prelude::*;

use crate::download::DownloadError;
use crate::download::Event;
use crate::download::Phase;
use crate::download::event_fits;
use crate::download::length_matches;
use crate::download::step_spec;

verus! {

/// The two filesystem entries a download touches: the content at the
/// temporary path and at the destination path, `None` where no file exists.
///
/// The tracked content of the temporary file is the bytes streamed into it so
/// far. Pre-allocating the file to the declared length reserves space without
/// changing that, and a failed chunk write may leave a partial chunk behind
/// that the model does not track: no law reads the content of a temporary
/// file, which is only ever removed, reported as leftover, or renamed — and a
/// rename happens only once the streamed length was verified, when the
/// physical content and the tracked content agree.
pub struct FsModel {
    pub temp: Option<Seq<u8>>,
    pub dest: Option<Seq<u8>>,
}

/// One step of a trace: the outcome the driver reported, and the bytes it
/// wrote when that outcome was a successful chunk write (empty otherwise).
pub struct IoStep {
    pub event: Event,
    pub data: Seq<u8>,
}

/// A step fits phase `p` when its event is a possible outcome of the pending
/// action and, for a successful chunk write, its data is the chunk that the
/// machine was told was read.
pub open spec fn step_fits(p: Phase, s: IoStep) -> bool {
    &&& event_fits(p, s.event)
    &&& match p {
        Phase::Writing { chunk, .. } => s.event is WriteOk ==> s.data.len() == chunk as nat,
        _ => true,
    }
}

/// A trace fits a starting phase when every step fits the phase it is fed
/// into.
pub open spec fn trace_fits(locking: bool, p: Phase, t: Seq<IoStep>) -> bool
    decreases t.len(),
{
    t.len() == 0 || (step_fits(p, t[0]) && trace_fits(
        locking,
        step_spec(locking, p, t[0].event),
        t.skip(1),
    ))
}

/// The phase after replaying the trace `t` from phase `p`.
pub open spec fn run_phase(locking: bool, p: Phase, t: Seq<IoStep>) -> Phase
    decreases t.len(),
{
    if t.len() == 0 {
        p
    } else {
        run_phase(locking, step_spec(locking, p, t[0].event), t.skip(1))
    }
}

/// What performing the action pending in phase `p`, with outcome `s`, does to
/// the filesystem: opening creates (or truncates to) an empty temporary file;
/// a successful chunk write appends its bytes; the rename atomically moves
/// the temporary content onto the destination; a successful removal deletes
/// the temporary file. Nothing else touches either path.
pub open spec fn fs_after(p: Phase, s: IoStep, fs: FsModel) -> FsModel {
    match (p, s.event) {
        (Phase::Start, Event::OpenOk) => FsModel { temp: Some(Seq::empty()), dest: fs.dest },
        (Phase::Writing { .. }, Event::WriteOk) => FsModel {
            temp: match fs.temp {
                Some(c) => Some(c + s.data),
                None => Some(s.data),
            },
            dest: fs.dest,
        },
        (Phase::Renaming { .. }, Event::RenameOk) => FsModel { temp: None, dest: fs.temp },
        (Phase::Cleanup { .. }, Event::RemoveOk) => FsModel { temp: None, dest: fs.dest },
        _ => fs,
    }
}

/// The filesystem after replaying the trace `t` from phase `p` and filesystem
/// `fs`.
pub open spec fn run_fs(locking: bool, p: Phase, fs: FsModel, t: Seq<IoStep>) -> FsModel
    decreases t.len(),
{
    if t.len() == 0 {
        fs
    } else {
        run_fs(locking, step_spec(locking, p, t[0].event), fs_after(p, t[0], fs), t.skip(1))
    }
}

/// The inductive invariant tying the machine's phase to the filesystem, for a
/// download whose destination held `dest0` at the start: the destination is
/// untouched until the machine reports success, the temporary file exists
/// throughout the fallible middle and holds exactly the bytes streamed so
/// far, nothing is published whose length was not verified, and after a
/// terminal phase the temporary file is gone — unless its own removal failed
/// (`residue`), or it was never created (a failed open).
pub open spec fn inv(p: Phase, fs: FsModel, dest0: Option<Seq<u8>>) -> bool {
    match p {
        Phase::Start => fs.dest == dest0,
        Phase::Locking => fs.temp == Some(Seq::<u8>::empty()) && fs.dest == dest0,
        Phase::Requesting => fs.temp == Some(Seq::<u8>::empty()) && fs.dest == dest0,
        Phase::Allocating { .. } => fs.temp == Some(Seq::<u8>::empty()) && fs.dest == dest0,
        Phase::Streaming { written, .. } => (fs.temp matches Some(c) && c.len() == written as nat)
            && fs.dest == dest0,
        Phase::Writing { written, chunk, .. } => (fs.temp matches Some(c) && c.len()
            == written as nat) && written + chunk <= u64::MAX && fs.dest == dest0,
        Phase::Syncing { declared, written } => (fs.temp matches Some(c) && c.len()
            == written as nat) && length_matches(declared, written) && fs.dest == dest0,
        Phase::Renaming { declared, written } => (fs.temp matches Some(c) && c.len()
            == written as nat) && length_matches(declared, written) && fs.dest == dest0,
        Phase::Cleanup { .. } => fs.temp is Some && fs.dest == dest0,
        Phase::DoneOk { declared, written } => fs.temp is None && (fs.dest matches Some(c)
            && c.len() == written as nat) && length_matches(declared, written),
        Phase::DoneErr { error, residue } => fs.dest == dest0 && (residue ==> fs.temp is Some) && (
        !residue && !(error is Open) ==> fs.temp is None),
    }
}

/// One fitting step preserves the invariant.
pub proof fn lemma_step_preserves_inv(
    locking: bool,
    p: Phase,
    s: IoStep,
    fs: FsModel,
    dest0: Option<Seq<u8>>,
)
    requires
        step_fits(p, s),
        inv(p, fs, dest0),
    ensures
        inv(step_spec(locking, p, s.event), fs_after(p, s, fs), dest0),
{
}

/// A fitting trace preserves the invariant.
pub proof fn lemma_run_preserves_inv(
    locking: bool,
    p: Phase,
    fs: FsModel,
    dest0: Option<Seq<u8>>,
    t: Seq<IoStep>,
)
    requires
        trace_fits(locking, p, t),
        inv(p, fs, dest0),
    ensures
        inv(run_phase(locking, p, t), run_fs(locking, p, fs, t), dest0),
    decreases t.len(),
{
    if t.len() > 0 {
        lemma_step_preserves_inv(locking, p, t[0], fs, dest0);
        lemma_run_preserves_inv(
            locking,
            step_spec(locking, p, t[0].event),
            fs_after(p, t[0], fs),
            dest0,
            t.skip(1),
        );
    }
}

/// Replaying a concatenation replays the parts in order.
pub proof fn lemma_run_phase_append(locking: bool, p: Phase, a: Seq<IoStep>, b: Seq<IoStep>)
    ensures
        run_phase(locking, p, a + b) == run_phase(locking, run_phase(locking, p, a), b),
    decreases a.len(),
{
    if a.len() == 0 {
        assert(a + b =~= b);
    } else {
        assert((a + b)[0] == a[0]);
        assert((a + b).skip(1) =~= a.skip(1) + b);
        lemma_run_phase_append(locking, step_spec(locking, p, a[0].event), a.skip(1), b);
    }
}

/// Every prefix of a fitting trace fits.
pub proof fn lemma_trace_fits_prefix(locking: bool, p: Phase, t: Seq<IoStep>, i: int)
    requires
        trace_fits(locking, p, t),
        0 <= i <= t.len(),
    ensures
        trace_fits(locking, p, t.take(i)),
    decreases i,
{
    if i > 0 {
        assert(t.take(i)[0] == t[0]);
        assert(t.take(i).skip(1) =~= t.skip(1).take(i - 1));
        lemma_trace_fits_prefix(locking, step_spec(locking, p, t[0].event), t.skip(1), i - 1);
    }
}

/// What remains of a fitting trace after any prefix fits the phase that
/// prefix reaches.
pub proof fn lemma_trace_fits_suffix(locking: bool, p: Phase, t: Seq<IoStep>, i: int)
    requires
        trace_fits(locking, p, t),
        0 <= i <= t.len(),
    ensures
        trace_fits(locking, run_phase(locking, p, t.take(i)), t.skip(i)),
    decreases i,
{
    if i == 0 {
        assert(t.take(0) =~= Seq::<IoStep>::empty());
        assert(t.skip(0) =~= t);
    } else {
        assert(t.take(i)[0] == t[0]);
        assert(t.take(i).skip(1) =~= t.skip(1).take(i - 1));
        assert(t.skip(i) =~= t.skip(1).skip(i - 1));
        lemma_trace_fits_suffix(locking, step_spec(locking, p, t[0].event), t.skip(1), i - 1);
    }
}

/// The destination path is written by exactly one action: the atomic rename,
/// the download's single publish point. Every other step leaves it as it is.
pub proof fn lemma_only_rename_touches_destination(p: Phase, s: IoStep, fs: FsModel)
    ensures
        fs_after(p, s, fs).dest == fs.dest || (p is Renaming && s.event is RenameOk),
{
}

/// Atomicity: at every point of a download — after any number of fitting
/// steps — the destination holds exactly what it held at the start, or the
/// complete, length-verified artifact the machine reported success for. No
/// observer ever sees anything in between.
pub proof fn lemma_atomic_publication(locking: bool, fs0: FsModel, t: Seq<IoStep>, i: int)
    requires
        trace_fits(locking, Phase::Start, t),
        0 <= i <= t.len(),
    ensures
        ({
            let p = run_phase(locking, Phase::Start, t.take(i));
            let fs = run_fs(locking, Phase::Start, fs0, t.take(i));
            ||| fs.dest == fs0.dest
            ||| (p matches Phase::DoneOk { declared, written } && fs.dest matches Some(c) && c.len()
                == written as nat && length_matches(declared, written))
        }),
{
    lemma_trace_fits_prefix(locking, Phase::Start, t, i);
    lemma_run_preserves_inv(locking, Phase::Start, fs0, fs0.dest, t.take(i));
}

/// Cleanup on failure: when a download fails after the temporary file was
/// created (any terminal error but a failed open) and the owed removal
/// succeeded, no temporary file remains.
pub proof fn lemma_cleanup_on_failure(locking: bool, fs0: FsModel, t: Seq<IoStep>)
    requires
        trace_fits(locking, Phase::Start, t),
        run_phase(locking, Phase::Start, t) matches Phase::DoneErr { error, residue } && !residue
            && !(error is Open),
    ensures
        run_fs(locking, Phase::Start, fs0, t).temp is None,
{
    lemma_run_preserves_inv(locking, Phase::Start, fs0, fs0.dest, t);
}

/// No destination mutation on failure: a download that ends in any terminal
/// error leaves the destination exactly as it was — whatever file, with
/// whatever content, was there before is still there.
pub proof fn lemma_failure_preserves_destination(locking: bool, fs0: FsModel, t: Seq<IoStep>)
    requires
        trace_fits(locking, Phase::Start, t),
        run_phase(locking, Phase::Start, t) is DoneErr,
    ensures
        run_fs(locking, Phase::Start, fs0, t).dest == fs0.dest,
{
    lemma_run_preserves_inv(locking, Phase::Start, fs0, fs0.dest, t);
}

/// A successful download leaves no temporary file behind — the rename moved
/// it away — and what was published is the complete, length-verified
/// artifact.
pub proof fn lemma_success_leaves_no_residue(locking: bool, fs0: FsModel, t: Seq<IoStep>)
    requires
        trace_fits(locking, Phase::Start, t),
        run_phase(locking, Phase::Start, t) is DoneOk,
    ensures
        run_fs(locking, Phase::Start, fs0, t).temp is None,
        ({
            let p = run_phase(locking, Phase::Start, t);
            let fs = run_fs(locking, Phase::Start, fs0, t);
            p matches Phase::DoneOk { declared, written } && fs.dest matches Some(c) && c.len()
                == written as nat && length_matches(declared, written)
        }),
{
    lemma_run_preserves_inv(locking, Phase::Start, fs0, fs0.dest, t);
}

/// The bytes a trace writes into the temporary file: the concatenation, in
/// order, of the data of its successful chunk writes.
pub open spec fn writes_of(t: Seq<IoStep>) -> Seq<u8>
    decreases t.len(),
{
    if t.len() == 0 {
        Seq::empty()
    } else {
        (if t[0].event is WriteOk {
            t[0].data
        } else {
            Seq::empty()
        }) + writes_of(t.skip(1))
    }
}

/// Whether `p` is one of the phases between the creation of the temporary
/// file and the download's resolution — the stretch over which the file
/// accumulates the streamed bytes.
pub open spec fn mid_phase(p: Phase) -> bool {
    match p {
        Phase::Locking => true,
        Phase::Requesting => true,
        Phase::Allocating { .. } => true,
        Phase::Streaming { .. } => true,
        Phase::Writing { .. } => true,
        Phase::Syncing { .. } => true,
        Phase::Renaming { .. } => true,
        _ => false,
    }
}

/// From any mid-download phase whose temporary file holds `c`, a fitting
/// trace that ends in success publishes exactly `c` followed by the bytes the
/// trace writes.
pub proof fn lemma_streamed_content(locking: bool, p: Phase, fs: FsModel, t: Seq<IoStep>)
    requires
        trace_fits(locking, p, t),
        run_phase(locking, p, t) is DoneOk,
        mid_phase(p),
        fs.temp matches Some(c),
    ensures
        fs.temp matches Some(c) ==> run_fs(locking, p, fs, t).dest == Some(c + writes_of(t)),
    decreases t.len(),
{
    let c = match fs.temp {
        Some(c) => c,
        None => Seq::empty(),
    };
    if t.len() == 0 {
        // a mid phase is not a terminal one
        assert(false);
    } else {
        let e = t[0].event;
        let p1 = step_spec(locking, p, e);
        let fs1 = fs_after(p, t[0], fs);
        if p1 is Cleanup {
            // the download failed; it cannot end in success
            let error = match p1 {
                Phase::Cleanup { error } => error,
                _ => DownloadError::Open,
            };
            lemma_error_is_terminal(locking, error, t.skip(1));
            assert(false);
        } else if p1 is DoneOk {
            // only the rename resolves a download successfully: nothing can
            // follow, and the destination now holds the temporary content
            assert(p is Renaming && e is RenameOk);
            assert(trace_fits(locking, p1, t.skip(1)));
            if t.skip(1).len() > 0 {
                assert(step_fits(p1, t.skip(1)[0]));
                assert(false);
            }
            assert(run_fs(locking, p1, fs1, t.skip(1)) == fs1);
            assert(run_fs(locking, p, fs, t) == fs1);
            assert(fs1.dest == Some(c));
            assert(writes_of(t.skip(1)) =~= Seq::<u8>::empty());
            assert(writes_of(t) =~= Seq::<u8>::empty() + writes_of(t.skip(1)));
            assert(c + writes_of(t) =~= c);
        } else {
            assert(mid_phase(p1));
            lemma_streamed_content(locking, p1, fs1, t.skip(1));
            if p matches Phase::Writing { .. } && e is WriteOk {
                assert(fs1.temp == Some(c + t[0].data));
                assert(writes_of(t) =~= t[0].data + writes_of(t.skip(1)));
                assert((c + t[0].data) + writes_of(t.skip(1)) =~= c + writes_of(t));
            } else {
                assert(fs1.temp == Some(c));
                assert(writes_of(t) =~= Seq::<u8>::empty() + writes_of(t.skip(1)));
                assert(c + writes_of(t.skip(1)) =~= c + writes_of(t));
            }
        }
    }
}

/// Round trip, content included: a download that ends in success publishes at
/// the destination exactly the bytes that were streamed into the temporary
/// file, in order — nothing reordered, dropped, or added.
pub proof fn lemma_success_publishes_streamed_bytes(locking: bool, fs0: FsModel, t: Seq<IoStep>)
    requires
        trace_fits(locking, Phase::Start, t),
        run_phase(locking, Phase::Start, t) is DoneOk,
    ensures
        run_fs(locking, Phase::Start, fs0, t).dest == Some(writes_of(t)),
{
    assert(t.len() > 0);
    let e = t[0].event;
    let p1 = step_spec(locking, Phase::Start, e);
    let fs1 = fs_after(Phase::Start, t[0], fs0);
    if e is OpenFailed {
        // the download failed outright; it cannot end in success
        assert(trace_fits(locking, p1, t.skip(1)));
        if t.skip(1).len() > 0 {
            assert(step_fits(p1, t.skip(1)[0]));
            assert(false);
        }
        assert(run_phase(locking, p1, t.skip(1)) == p1);
        assert(false);
    } else {
        assert(fs1.temp == Some(Seq::<u8>::empty()));
        lemma_streamed_content(locking, p1, fs1, t.skip(1));
        assert(Seq::<u8>::empty() + writes_of(t.skip(1)) =~= writes_of(t.skip(1)));
        assert(writes_of(t) =~= Seq::<u8>::empty() + writes_of(t.skip(1)));
    }
}

/// Once a download has failed, the failure is final: the rest of any fitting
/// trace only performs the owed cleanup and reports that same error.
pub proof fn lemma_error_is_terminal(locking: bool, error: DownloadError, t: Seq<IoStep>)
    requires
        trace_fits(locking, Phase::Cleanup { error }, t),
    ensures
        ({
            let p = run_phase(locking, Phase::Cleanup { error }, t);
            ||| p == (Phase::Cleanup { error })
            ||| (p matches Phase::DoneErr { error: e, .. } && e == error)
        }),
{
    if t.len() > 0 {
        let p1 = step_spec(locking, Phase::Cleanup { error }, t[0].event);
        assert(p1 matches Phase::DoneErr { error: e, .. } && e == error);
        assert(trace_fits(locking, p1, t.skip(1)));
        if t.skip(1).len() > 0 {
            assert(step_fits(p1, t.skip(1)[0]) && !event_fits(p1, t.skip(1)[0].event));
            assert(false);
        } else {
            assert(run_phase(locking, p1, t.skip(1)) == p1);
        }
    }
}

/// Length verification: when the body ends and the streamed length disagrees
/// with the declared content length, the download fails with exactly that
/// mismatch, and the destination is never touched.
pub proof fn lemma_length_mismatch_fails(
    locking: bool,
    fs0: FsModel,
    t: Seq<IoStep>,
    i: int,
    expected: u64,
    written: u64,
)
    requires
        trace_fits(locking, Phase::Start, t),
        0 <= i < t.len(),
        run_phase(locking, Phase::Start, t.take(i)) == (Phase::Streaming {
            declared: Some(expected),
            written,
        }),
        t[i].event is BodyEnd,
        expected != written,
    ensures
        ({
            let p = run_phase(locking, Phase::Start, t);
            let mismatch = DownloadError::LengthMismatch { expected, actual: written };
            ||| p == (Phase::Cleanup { error: mismatch })
            ||| (p matches Phase::DoneErr { error: e, .. } && e == mismatch)
        }),
        run_fs(locking, Phase::Start, fs0, t).dest == fs0.dest,
{
    let mid = run_phase(locking, Phase::Start, t.take(i));
    let mismatch = DownloadError::LengthMismatch { expected, actual: written };

    // The phase right after step `i` is the mismatch cleanup.
    let single = seq![t[i]];
    let after = step_spec(locking, mid, t[i].event);
    assert(after == (Phase::Cleanup { error: mismatch }));
    assert(t.take(i + 1) =~= t.take(i) + single);
    lemma_run_phase_append(locking, Phase::Start, t.take(i), single);
    assert(single[0] == t[i]);
    assert(single.skip(1) =~= Seq::<IoStep>::empty());
    assert(run_phase(locking, after, single.skip(1)) == after);
    assert(run_phase(locking, Phase::Start, t.take(i + 1)) == after);

    // The rest of the trace can only finish that cleanup.
    lemma_trace_fits_suffix(locking, Phase::Start, t, i + 1);
    assert(t =~= t.take(i + 1) + t.skip(i + 1));
    lemma_run_phase_append(locking, Phase::Start, t.take(i + 1), t.skip(i + 1));
    lemma_error_is_terminal(locking, mismatch, t.skip(i + 1));

    // The destination was never touched: the final phase is not a success.
    lemma_run_preserves_inv(locking, Phase::Start, fs0, fs0.dest, t);
}

/// Lock contention fails fast: a download that cannot acquire the advisory
/// lock — because a concurrent download of the same destination holds it —
/// ends in the lock-acquisition error, with the same cleanup obligations as
/// any other failure; it never waits, never streams, and never touches the
/// destination. Which of two contending calls acquires the lock is decided by
/// the operating system's advisory lock, below this model.
pub proof fn lemma_lock_contention_fails_fast(locking: bool, fs0: FsModel, t: Seq<IoStep>)
    requires
        trace_fits(locking, Phase::Locking, t),
        fs0.temp == Some(Seq::<u8>::empty()),
        t.len() > 0,
        t[0].event is LockFailed,
    ensures
        ({
            let p = run_phase(locking, Phase::Locking, t);
            ||| p == (Phase::Cleanup { error: DownloadError::Lock })
            ||| (p matches Phase::DoneErr { error: e, .. } && e == DownloadError::Lock)
        }),
        run_fs(locking, Phase::Locking, fs0, t).dest == fs0.dest,
{
    lemma_error_is_terminal(locking, DownloadError::Lock, t.skip(1));
    lemma_run_preserves_inv(locking, Phase::Locking, fs0, fs0.dest, t);
}

} // verus!
