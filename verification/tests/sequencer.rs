use unlink_probe::sequencer::done_marker;
use unlink_probe::sequencer::file_path;
use unlink_probe::sequencer::Event;
use unlink_probe::sequencer::FileKind;
use unlink_probe::sequencer::Op;
use unlink_probe::sequencer::Probe;
use unlink_probe::sequencer::STEP_COUNT;

/// Drives a whole run, answering each operation with `events_for`, and
/// returns the final probe state and the transcript (headers and lines, in
/// print order). Stops early if a report is fatal, as the binary would.
fn run_probe(events_for: impl Fn(&Op) -> Event) -> (Probe, Vec<String>) {
    let mut probe = Probe::new();
    let mut transcript: Vec<String> = Vec::new();
    while let Some(op) = probe.current_op() {
        if let Some(h) = probe.current_header() {
            transcript.push(h);
        }
        let report = probe.advance(events_for(&op));
        for line in report.lines {
            transcript.push(line);
        }
        if report.fatal {
            break;
        }
    }
    (probe, transcript)
}

/// The outcomes of a run where the engine and the filesystem behave as the
/// experiment expects: setup succeeds, the post-unlink operations succeed,
/// and the invalid statement raises an error.
fn expected_outcomes(op: &Op) -> Event {
    match op {
        Op::CheckExists(_) => Event::Present(true),
        Op::ReadCount => Event::Count(2),
        Op::InvalidStatement => Event::Failed("near \"INVALID\": syntax error".to_string()),
        _ => Event::Completed,
    }
}

const HEADERS: [&str; 11] = [
    "1. Creating database and opening connection...",
    "2. Enabling WAL mode...",
    "3. Creating table and inserting data...",
    "4. Verifying files exist...",
    "5. UNLINKING DATABASE FILE...",
    "6. Attempting write after unlink...",
    "7. Demonstrating logs are still connected...",
    "8. Attempting read after unlink...",
    "9. Creating another table after unlink...",
    "10. Closing connection...",
    "11. Cleaning up remaining files...",
];

#[test]
fn file_paths_are_fixed() {
    assert_eq!(file_path(FileKind::Primary), "test.db");
    assert_eq!(file_path(FileKind::Wal), "test.db-wal");
    assert_eq!(file_path(FileKind::Shm), "test.db-shm");
}

#[test]
fn full_run_prints_all_headers_in_order() {
    let (probe, transcript) = run_probe(expected_outcomes);
    assert_eq!(probe.step, STEP_COUNT);
    assert!(!probe.aborted);
    let seen: Vec<&String> =
        transcript.iter().filter(|l| HEADERS.contains(&l.as_str())).collect();
    assert_eq!(seen.len(), 11);
    for (i, h) in HEADERS.iter().enumerate() {
        assert_eq!(seen[i], h);
    }
    assert_eq!(done_marker(), "Done");
}

#[test]
fn full_run_transcript_reports_each_phase() {
    let (_, transcript) = run_probe(expected_outcomes);
    assert!(transcript.contains(&"  test.db exists".to_string()));
    assert!(transcript.contains(&"  test.db-wal exists".to_string()));
    assert!(transcript.contains(&"  test.db-shm exists".to_string()));
    assert!(transcript.contains(&"  test.db has been unlinked!".to_string()));
    assert!(transcript.contains(&"  Write succeeded after unlink".to_string()));
    assert!(
        transcript.contains(&"Expected error: near \"INVALID\": syntax error".to_string())
    );
    assert!(transcript.contains(&"  Read succeeded, count: 2".to_string()));
    assert!(transcript.contains(&"  Table creation succeeded after unlink".to_string()));
}

#[test]
fn full_run_leaves_no_file_behind() {
    let (probe, _) = run_probe(expected_outcomes);
    assert!(!probe.primary_present);
    assert!(!probe.wal_present);
    assert!(!probe.shm_present);
    assert!(!probe.handle_open);
}

#[test]
fn running_twice_ends_in_the_same_absence_state() {
    let (first, _) = run_probe(expected_outcomes);
    let (second, _) = run_probe(expected_outcomes);
    assert_eq!(first.primary_present, second.primary_present);
    assert_eq!(first.wal_present, second.wal_present);
    assert_eq!(first.shm_present, second.shm_present);
    assert!(!second.primary_present && !second.wal_present && !second.shm_present);
}

#[test]
fn unlink_leaves_handle_open_and_primary_absent() {
    let mut probe = Probe::new();
    while probe.current_op() != Some(Op::Unlink) {
        probe.advance(expected_outcomes(&probe.current_op().unwrap()));
    }
    assert!(probe.handle_open);
    let report = probe.advance(Event::Completed);
    assert!(!report.fatal);
    assert!(!probe.primary_present);
    assert!(probe.handle_open);
    assert_eq!(report.lines, vec!["  test.db has been unlinked!".to_string()]);
    // the schedule still reaches the post-unlink write through the open handle
    let mut saw_write = false;
    while let Some(op) = probe.current_op() {
        if op == Op::WriteAfterUnlink {
            assert!(probe.handle_open);
            saw_write = true;
        }
        probe.advance(expected_outcomes(&op));
    }
    assert!(saw_write);
}

#[test]
fn setup_failure_aborts_the_run() {
    let (probe, transcript) = run_probe(|op| match op {
        Op::Open => Event::Failed("unable to open database file".to_string()),
        _ => Event::Completed,
    });
    assert!(probe.aborted);
    assert!(probe.current_op().is_none());
    // only the first header was printed before the abort
    assert_eq!(transcript, vec![HEADERS[0].to_string()]);
}

#[test]
fn wal_mode_failure_aborts_the_run() {
    let (probe, _) = run_probe(|op| match op {
        Op::EnableWal => Event::Failed("cannot change into wal mode".to_string()),
        _ => Event::Completed,
    });
    assert!(probe.aborted);
}

#[test]
fn schema_failure_aborts_the_run() {
    let (probe, _) = run_probe(|op| match op {
        Op::CreateSchema => Event::Failed("table test already exists".to_string()),
        _ => Event::Completed,
    });
    assert!(probe.aborted);
}

#[test]
fn experiment_failures_are_observed_not_fatal() {
    let (probe, transcript) = run_probe(|op| match op {
        Op::CheckExists(_) => Event::Present(true),
        Op::WriteAfterUnlink => Event::Failed("disk I/O error".to_string()),
        Op::InvalidStatement => Event::Failed("near \"INVALID\": syntax error".to_string()),
        Op::ReadCount => Event::Failed("disk I/O error".to_string()),
        Op::CreateSecondTable => Event::Failed("disk I/O error".to_string()),
        _ => Event::Completed,
    });
    assert!(!probe.aborted);
    assert_eq!(probe.step, STEP_COUNT);
    assert!(transcript.contains(&"  Write failed: disk I/O error".to_string()));
    assert!(transcript.contains(&"  Read failed: disk I/O error".to_string()));
    assert!(transcript.contains(&"  Table creation failed: disk I/O error".to_string()));
}

#[test]
fn invalid_statement_success_is_flagged_unexpected() {
    let (probe, transcript) = run_probe(|op| match op {
        Op::CheckExists(_) => Event::Present(true),
        Op::ReadCount => Event::Count(2),
        _ => Event::Completed,
    });
    assert!(!probe.aborted);
    assert!(transcript.contains(&"Unexpected success".to_string()));
}

#[test]
fn missing_files_are_reported_as_missing() {
    let (_, transcript) = run_probe(|op| match op {
        Op::CheckExists(_) => Event::Present(false),
        Op::ReadCount => Event::Count(1),
        _ => Event::Completed,
    });
    assert!(transcript.contains(&"  test.db missing".to_string()));
    assert!(transcript.contains(&"  test.db-wal missing".to_string()));
    assert!(transcript.contains(&"  test.db-shm missing".to_string()));
}

#[test]
fn unlink_failure_is_observed_and_run_continues() {
    let (probe, transcript) = run_probe(|op| match op {
        Op::CheckExists(_) => Event::Present(true),
        Op::ReadCount => Event::Count(1),
        Op::Unlink => Event::Failed("permission denied".to_string()),
        _ => Event::Completed,
    });
    assert!(!probe.aborted);
    assert_eq!(probe.step, STEP_COUNT);
    assert!(transcript.contains(&"  Unlink failed: permission denied".to_string()));
    // the primary file was never confirmed absent
    assert!(probe.primary_present);
}

#[test]
fn schedule_runs_in_the_fixed_order() {
    let mut probe = Probe::new();
    let expected = [
        Op::CleanupRemove(FileKind::Primary),
        Op::CleanupRemove(FileKind::Wal),
        Op::CleanupRemove(FileKind::Shm),
        Op::Open,
        Op::EnableWal,
        Op::CreateSchema,
        Op::InsertSeed,
        Op::CheckExists(FileKind::Primary),
        Op::CheckExists(FileKind::Wal),
        Op::CheckExists(FileKind::Shm),
        Op::Unlink,
        Op::Pause,
        Op::WriteAfterUnlink,
        Op::InvalidStatement,
        Op::ReadCount,
        Op::CreateSecondTable,
        Op::Close,
        Op::FinalRemove(FileKind::Wal),
        Op::FinalRemove(FileKind::Shm),
    ];
    for want in expected {
        assert_eq!(probe.current_op(), Some(want));
        probe.advance(expected_outcomes(&want));
    }
    assert_eq!(probe.current_op(), None);
}
