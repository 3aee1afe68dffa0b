//! Drives the download state machine against a simulated filesystem and
//! checks the safety properties on concrete runs.

use atomic_download::download::Action;
use atomic_download::download::DownloadError;
use atomic_download::download::Downloader;
use atomic_download::download::Event;
use atomic_download::download::Phase;
use atomic_download::download::length_ok;

/// The two filesystem entries a download touches, simulated.
struct SimFs {
    temp: Option<Vec<u8>>,
    dest: Option<Vec<u8>>,
}

/// Perform `action` with outcome `event` on the simulated filesystem, writing
/// `data` when the outcome is a successful chunk write.
fn apply(fs: &mut SimFs, action: Action, event: &Event, data: &[u8]) {
    match (action, event) {
        (Action::OpenTemp { .. }, Event::OpenOk) => fs.temp = Some(Vec::new()),
        (Action::WriteChunk, Event::WriteOk) => {
            fs.temp.as_mut().expect("no temp file").extend_from_slice(data)
        }
        (Action::Rename, Event::RenameOk) => fs.dest = fs.temp.take(),
        (Action::RemoveTemp, Event::RemoveOk) => fs.temp = None,
        _ => {}
    }
}

/// Feed `steps` into the machine, performing each pending action on the
/// simulated filesystem; returns a snapshot of the destination entry taken
/// after every single step, as a polling observer would see it.
fn drive(d: &mut Downloader, fs: &mut SimFs, steps: &[(Event, Vec<u8>)]) -> Vec<Option<Vec<u8>>> {
    let mut observations = Vec::new();
    for (event, data) in steps {
        let action = d.next_action();
        assert!(d.accepts(event), "event does not fit the pending action");
        apply(fs, action, event, data);
        d.step(*event);
        observations.push(fs.dest.clone());
    }
    observations
}

#[test]
fn round_trip_publishes_exact_bytes() {
    let body = b"testing 1 2 3";
    let n = body.len() as u64;
    let mut d = Downloader::new(String::from("test_tmp/data.bin"), true);
    assert_eq!(d.temp_path().as_str(), "test_tmp/data.bin.part");
    let mut fs = SimFs { temp: None, dest: None };
    drive(
        &mut d,
        &mut fs,
        &[
            (Event::OpenOk, vec![]),
            (Event::LockOk, vec![]),
            (Event::Response { status: 200, content_length: Some(n) }, vec![]),
            (Event::AllocateOk, vec![]),
            (Event::Chunk { len: 7 }, vec![]),
            (Event::WriteOk, body[..7].to_vec()),
            (Event::Chunk { len: 6 }, vec![]),
            (Event::WriteOk, body[7..].to_vec()),
            (Event::BodyEnd, vec![]),
            (Event::SyncOk, vec![]),
            (Event::RenameOk, vec![]),
        ],
    );
    assert_eq!(d.outcome(), Some(Ok(n)));
    assert_eq!(fs.dest.as_deref(), Some(body.as_slice()));
    assert_eq!(fs.temp, None, "a temporary file was left behind");
}

#[test]
fn observer_sees_old_file_or_complete_download() {
    let old = b"the old artifact".to_vec();
    let new = b"the new artifact, rather longer".to_vec();
    let n = new.len() as u64;
    let mut d = Downloader::new(String::from("artifact"), true);
    let mut fs = SimFs { temp: None, dest: Some(old.clone()) };
    let observations = drive(
        &mut d,
        &mut fs,
        &[
            (Event::OpenOk, vec![]),
            (Event::LockOk, vec![]),
            (Event::Response { status: 200, content_length: Some(n) }, vec![]),
            (Event::AllocateOk, vec![]),
            (Event::Chunk { len: 10 }, vec![]),
            (Event::WriteOk, new[..10].to_vec()),
            (Event::Chunk { len: n - 10 }, vec![]),
            (Event::WriteOk, new[10..].to_vec()),
            (Event::BodyEnd, vec![]),
            (Event::SyncOk, vec![]),
            (Event::RenameOk, vec![]),
        ],
    );
    for seen in &observations {
        let seen = seen.as_ref().expect("destination vanished");
        assert!(
            *seen == old || *seen == new,
            "observer saw a destination that is neither the old nor the new file"
        );
    }
    assert_eq!(fs.dest, Some(new));
}

#[test]
fn midstream_read_failure_cleans_up_temp() {
    let mut d = Downloader::new(String::from("f"), true);
    let mut fs = SimFs { temp: None, dest: None };
    drive(
        &mut d,
        &mut fs,
        &[
            (Event::OpenOk, vec![]),
            (Event::LockOk, vec![]),
            (Event::Response { status: 200, content_length: None }, vec![]),
            (Event::Chunk { len: 4 }, vec![]),
            (Event::WriteOk, b"some".to_vec()),
            (Event::ReadFailed, vec![]),
            (Event::RemoveOk, vec![]),
        ],
    );
    assert_eq!(d.outcome(), Some(Err(DownloadError::Read)));
    assert_eq!(fs.temp, None, "temp file survived a failed download");
}

#[test]
fn bad_status_fails_and_cleans_up() {
    let mut d = Downloader::new(String::from("f"), true);
    let mut fs = SimFs { temp: None, dest: None };
    drive(
        &mut d,
        &mut fs,
        &[
            (Event::OpenOk, vec![]),
            (Event::LockOk, vec![]),
            (Event::Response { status: 503, content_length: Some(10) }, vec![]),
            (Event::RemoveOk, vec![]),
        ],
    );
    assert_eq!(d.outcome(), Some(Err(DownloadError::Status { code: 503 })));
    assert_eq!(fs.temp, None);
}

#[test]
fn failed_download_leaves_destination_untouched() {
    let pre_existing = b"precious content".to_vec();
    let mut d = Downloader::new(String::from("f"), true);
    let mut fs = SimFs { temp: None, dest: Some(pre_existing.clone()) };
    drive(
        &mut d,
        &mut fs,
        &[
            (Event::OpenOk, vec![]),
            (Event::LockOk, vec![]),
            (Event::Response { status: 200, content_length: Some(8) }, vec![]),
            (Event::AllocateOk, vec![]),
            (Event::Chunk { len: 3 }, vec![]),
            (Event::WriteFailed, vec![]),
            (Event::RemoveOk, vec![]),
        ],
    );
    assert_eq!(d.outcome(), Some(Err(DownloadError::Write)));
    assert_eq!(fs.dest, Some(pre_existing));
    assert_eq!(fs.temp, None);
}

#[test]
fn length_mismatch_fails_and_leaves_nothing() {
    let mut d = Downloader::new(String::from("f"), false);
    let mut fs = SimFs { temp: None, dest: None };
    drive(
        &mut d,
        &mut fs,
        &[
            (Event::OpenOk, vec![]),
            (Event::Response { status: 200, content_length: Some(5) }, vec![]),
            (Event::AllocateOk, vec![]),
            (Event::Chunk { len: 3 }, vec![]),
            (Event::WriteOk, b"abc".to_vec()),
            (Event::BodyEnd, vec![]),
            (Event::RemoveOk, vec![]),
        ],
    );
    assert_eq!(
        d.outcome(),
        Some(Err(DownloadError::LengthMismatch { expected: 5, actual: 3 }))
    );
    assert_eq!(fs.temp, None, "a file was left at the temp path");
    assert_eq!(fs.dest, None, "a file was left at the destination path");
}

#[test]
fn lock_contention_loser_fails_fast_without_residue() {
    let mut d = Downloader::new(String::from("shared_dest"), true);
    let mut fs = SimFs { temp: None, dest: None };
    drive(
        &mut d,
        &mut fs,
        &[
            (Event::OpenOk, vec![]),
            (Event::LockFailed, vec![]),
            (Event::RemoveOk, vec![]),
        ],
    );
    assert_eq!(d.outcome(), Some(Err(DownloadError::Lock)));
    assert_eq!(fs.temp, None, "the losing call left a residual temp file");
    assert_eq!(fs.dest, None);
}

#[test]
fn open_failure_is_terminal_and_owes_no_cleanup() {
    let mut d = Downloader::new(String::from("f"), false);
    assert_eq!(d.next_action(), Action::OpenTemp { exclusive: true });
    d.step(Event::OpenFailed);
    assert_eq!(d.outcome(), Some(Err(DownloadError::Open)));
    assert_eq!(d.next_action(), Action::Done);
}

#[test]
fn failed_cleanup_reports_residue_and_original_error() {
    let mut d = Downloader::new(String::from("f"), true);
    let mut fs = SimFs { temp: None, dest: None };
    drive(
        &mut d,
        &mut fs,
        &[
            (Event::OpenOk, vec![]),
            (Event::LockOk, vec![]),
            (Event::RequestFailed, vec![]),
            (Event::RemoveFailed, vec![]),
        ],
    );
    assert_eq!(d.outcome(), Some(Err(DownloadError::Request)));
    assert!(matches!(
        d.phase(),
        Phase::DoneErr { error: DownloadError::Request, residue: true }
    ));
    assert!(fs.temp.is_some(), "the machine claims residue but the temp file is gone");
}

#[test]
fn allocate_sync_and_rename_failures_surface_their_phase() {
    let mut d = Downloader::new(String::from("f"), false);
    d.step(Event::OpenOk);
    d.step(Event::Response { status: 200, content_length: Some(1) });
    d.step(Event::AllocateFailed);
    d.step(Event::RemoveOk);
    assert_eq!(d.outcome(), Some(Err(DownloadError::Allocate)));

    let mut d = Downloader::new(String::from("f"), false);
    d.step(Event::OpenOk);
    d.step(Event::Response { status: 200, content_length: None });
    d.step(Event::BodyEnd);
    d.step(Event::SyncFailed);
    d.step(Event::RemoveOk);
    assert_eq!(d.outcome(), Some(Err(DownloadError::Sync)));

    let mut d = Downloader::new(String::from("f"), false);
    d.step(Event::OpenOk);
    d.step(Event::Response { status: 200, content_length: None });
    d.step(Event::BodyEnd);
    d.step(Event::SyncOk);
    d.step(Event::RenameFailed);
    d.step(Event::RemoveOk);
    assert_eq!(d.outcome(), Some(Err(DownloadError::Rename)));
}

#[test]
fn body_outgrowing_largest_file_size_is_a_write_failure() {
    let mut d = Downloader::new(String::from("f"), false);
    d.step(Event::OpenOk);
    d.step(Event::Response { status: 200, content_length: None });
    d.step(Event::Chunk { len: u64::MAX });
    d.step(Event::WriteOk);
    assert!(matches!(
        d.phase(),
        Phase::Streaming { declared: None, written: u64::MAX }
    ));
    d.step(Event::Chunk { len: 1 });
    assert!(matches!(d.phase(), Phase::Cleanup { error: DownloadError::Write }));
}

#[test]
fn accepts_only_outcomes_of_the_pending_action() {
    let mut d = Downloader::new(String::from("f"), true);
    assert!(d.accepts(&Event::OpenOk));
    assert!(d.accepts(&Event::OpenFailed));
    assert!(!d.accepts(&Event::LockOk));
    assert!(!d.accepts(&Event::RenameOk));
    d.step(Event::OpenOk);
    d.step(Event::LockOk);
    assert!(d.accepts(&Event::Response { status: 200, content_length: None }));
    assert!(!d.accepts(&Event::Chunk { len: 1 }));
    d.step(Event::RequestFailed);
    d.step(Event::RemoveOk);
    // terminal: no event fits any more
    assert!(!d.accepts(&Event::RemoveOk));
    assert!(!d.accepts(&Event::OpenOk));
}

#[test]
fn outcome_is_none_while_under_way() {
    let mut d = Downloader::new(String::from("f"), true);
    assert_eq!(d.outcome(), None);
    d.step(Event::OpenOk);
    assert_eq!(d.outcome(), None);
    d.step(Event::LockOk);
    assert_eq!(d.outcome(), None);
}

#[test]
fn redirect_status_is_not_success() {
    // only 2xx statuses are success; a redirect the HTTP client did not follow
    // is a failure of this download
    let mut d = Downloader::new(String::from("f"), false);
    d.step(Event::OpenOk);
    d.step(Event::Response { status: 301, content_length: None });
    assert!(matches!(
        d.phase(),
        Phase::Cleanup { error: DownloadError::Status { code: 301 } }
    ));
}

#[test]
fn length_ok_agrees_with_declared_length() {
    assert!(length_ok(None, 42));
    assert!(length_ok(Some(42), 42));
    assert!(!length_ok(Some(42), 41));
    assert!(!length_ok(Some(0), 1));
    assert!(length_ok(Some(0), 0));
}
