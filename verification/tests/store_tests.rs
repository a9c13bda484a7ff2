use market_research_core::progress::ProgressTracker;
use market_research_core::store::{
    check_readable, delete_step, has_report_extension, list_reports, list_step, read_step,
    save_step, select_reports, DeleteState, DirectoryEntry, IoStep, ListState, PathProbe, ReadState,
    ReportManager, SaveState, StoreError, StoreEvent, MAX_REPORT_BYTES, TEMP_SUFFIX,
};

fn probe(exists: bool, is_file: bool, size: u64) -> PathProbe {
    PathProbe { exists, is_file, size: Ok(size) }
}

fn file(name: &str) -> DirectoryEntry {
    DirectoryEntry { name: Some(name.to_string()), is_file: true }
}

fn ok() -> StoreEvent {
    StoreEvent::Finished(Ok(()))
}

fn failed(cause: &str) -> StoreEvent {
    StoreEvent::Finished(Err(cause.to_string()))
}

#[test]
fn manager_keeps_its_directory() {
    let manager = ReportManager::new("reports/2024");
    assert_eq!(manager.reports_dir(), "reports/2024");
    assert_eq!(MAX_REPORT_BYTES, 52_428_800);
    assert_eq!(TEMP_SUFFIX, ".tmp");
}

#[test]
fn save_goes_through_the_temporary_file() {
    let manager = ReportManager::new("reports");
    let state = manager.save_report("q1.md", "# Q1\n\u{e9}");
    match &state {
        SaveState::EnsureParent { directory, name, temp_path, content } => {
            assert_eq!(directory, "reports");
            assert_eq!(name, "q1.md");
            assert_eq!(temp_path, "q1.md.tmp");
            assert_eq!(content, "# Q1\n\u{e9}");
        },
        other => panic!("unexpected state: {:?}", other),
    }
    let state = save_step(state, ok());
    match &state {
        SaveState::WriteTemp { directory, name, temp_path, content } => {
            assert_eq!(directory, "reports");
            assert_eq!(name, "q1.md");
            assert_eq!(temp_path, "q1.md.tmp");
            assert_eq!(content, "# Q1\n\u{e9}");
        },
        other => panic!("unexpected state: {:?}", other),
    }
    let state = save_step(state, ok());
    match &state {
        SaveState::Rename { directory, name, temp_path } => {
            assert_eq!(directory, "reports");
            assert_eq!(name, "q1.md");
            assert_eq!(temp_path, "q1.md.tmp");
        },
        other => panic!("unexpected state: {:?}", other),
    }
    let state = save_step(state, ok());
    assert!(matches!(&state, SaveState::Done(Ok(name)) if name == "q1.md"));
    let state = save_step(state, failed("late"));
    assert!(matches!(&state, SaveState::Done(Ok(name)) if name == "q1.md"));
}

#[test]
fn save_reports_the_step_that_failed() {
    let manager = ReportManager::new("reports");
    let state = save_step(manager.save_report("a.md", "x"), failed("denied"));
    assert!(matches!(
        &state,
        SaveState::Done(Err(StoreError::Io { step: IoStep::CreateDirectory, cause })) if cause == "denied"
    ));
    let state = save_step(save_step(manager.save_report("a.md", "x"), ok()), failed("disk full"));
    assert!(matches!(
        &state,
        SaveState::Done(Err(StoreError::Io { step: IoStep::WriteTemp, cause })) if cause == "disk full"
    ));
}

#[test]
fn a_failed_move_removes_the_temporary_file_first() {
    let manager = ReportManager::new("reports");
    let renaming = || save_step(save_step(manager.save_report("a.md", "x"), ok()), ok());
    let state = save_step(renaming(), failed("cross-device link"));
    match &state {
        SaveState::RemoveTemp { temp_path, cause } => {
            assert_eq!(temp_path, "a.md.tmp");
            assert_eq!(cause, "cross-device link");
        },
        other => panic!("unexpected state: {:?}", other),
    }
    let removed = save_step(state, ok());
    assert!(matches!(
        &removed,
        SaveState::Done(Err(StoreError::Io { step: IoStep::Rename, cause })) if cause == "cross-device link"
    ));
    let state = save_step(renaming(), failed("cross-device link"));
    let not_removed = save_step(state, failed("gone already"));
    assert!(matches!(
        &not_removed,
        SaveState::Done(Err(StoreError::Io { step: IoStep::Rename, cause })) if cause == "cross-device link"
    ));
}

#[test]
fn save_ignores_events_out_of_turn() {
    let manager = ReportManager::new("reports");
    let state = save_step(manager.save_report("a.md", "x"), StoreEvent::Probed(probe(true, true, 1)));
    assert!(matches!(&state, SaveState::EnsureParent { .. }));
    let state = save_step(state, StoreEvent::Content(Ok("y".to_string())));
    assert!(matches!(&state, SaveState::EnsureParent { content, .. } if content == "x"));
}

#[test]
fn read_checks_before_it_reads() {
    let manager = ReportManager::new("reports");
    let start = || manager.read_report("q1.md");
    assert!(matches!(&start(), ReadState::Probe { directory, name } if directory == "reports" && name == "q1.md"));
    let state = read_step(start(), StoreEvent::Probed(probe(false, false, 0)));
    assert!(matches!(&state, ReadState::Done(Err(StoreError::NotFound))));
    let state = read_step(start(), StoreEvent::Probed(probe(true, false, 4096)));
    assert!(matches!(&state, ReadState::Done(Err(StoreError::NotAFile))));
    let state = read_step(
        start(),
        StoreEvent::Probed(PathProbe { exists: true, is_file: true, size: Err("denied".to_string()) }),
    );
    assert!(matches!(
        &state,
        ReadState::Done(Err(StoreError::Io { step: IoStep::Metadata, cause })) if cause == "denied"
    ));
    let state = read_step(start(), StoreEvent::Probed(probe(true, true, 12)));
    assert!(matches!(&state, ReadState::Read { directory, name } if directory == "reports" && name == "q1.md"));
    let done = read_step(state, StoreEvent::Content(Ok("# Q1\n".to_string())));
    assert!(matches!(&done, ReadState::Done(Ok(content)) if content == "# Q1\n"));
    let state = read_step(start(), StoreEvent::Probed(probe(true, true, 12)));
    let done = read_step(state, StoreEvent::Content(Err("invalid UTF-8".to_string())));
    assert!(matches!(
        &done,
        ReadState::Done(Err(StoreError::Io { step: IoStep::Read, cause })) if cause == "invalid UTF-8"
    ));
}

#[test]
fn read_refuses_large_files_at_the_probe() {
    let manager = ReportManager::new("reports");
    let state = read_step(manager.read_report("big.md"), StoreEvent::Probed(probe(true, true, MAX_REPORT_BYTES)));
    assert!(matches!(&state, ReadState::Read { .. }));
    let state =
        read_step(manager.read_report("big.md"), StoreEvent::Probed(probe(true, true, MAX_REPORT_BYTES + 1)));
    assert!(matches!(&state, ReadState::Done(Err(StoreError::TooLarge { megabytes: 50 }))));
    // content that arrives all the same is not taken
    let state = read_step(state, StoreEvent::Content(Ok("x".to_string())));
    assert!(matches!(&state, ReadState::Done(Err(StoreError::TooLarge { megabytes: 50 }))));
    let state =
        read_step(manager.read_report("big.md"), StoreEvent::Probed(probe(true, true, 3 * 1024 * 1024 * 1024)));
    assert!(matches!(&state, ReadState::Done(Err(StoreError::TooLarge { megabytes: 3072 }))));
    assert!(matches!(check_readable(probe(true, true, u64::MAX)), Some(StoreError::TooLarge { megabytes: 17_592_186_044_415 })));
    assert!(check_readable(probe(true, true, 0)).is_none());
    assert!(matches!(check_readable(probe(false, true, u64::MAX)), Some(StoreError::NotFound)));
}

#[test]
fn read_does_not_take_content_before_the_probe() {
    let manager = ReportManager::new("reports");
    let state = read_step(manager.read_report("a.md"), StoreEvent::Content(Ok("x".to_string())));
    assert!(matches!(&state, ReadState::Probe { .. }));
}

#[test]
fn delete_of_a_missing_report_is_no_error() {
    let manager = ReportManager::new("reports");
    let state = delete_step(manager.delete_report("gone.md"), StoreEvent::Probed(probe(false, false, 0)));
    assert!(matches!(&state, DeleteState::Done(Ok(false))));
}

#[test]
fn delete_removes_what_exists() {
    let manager = ReportManager::new("reports");
    let state = delete_step(manager.delete_report("q1.md"), StoreEvent::Probed(probe(true, true, 10)));
    assert!(matches!(&state, DeleteState::Remove { directory, name } if directory == "reports" && name == "q1.md"));
    let done = delete_step(state, ok());
    assert!(matches!(&done, DeleteState::Done(Ok(true))));
    let state = delete_step(manager.delete_report("q1.md"), StoreEvent::Probed(probe(true, false, 10)));
    let done = delete_step(state, failed("is a directory"));
    assert!(matches!(
        &done,
        DeleteState::Done(Err(StoreError::Io { step: IoStep::Delete, cause })) if cause == "is a directory"
    ));
}

#[test]
fn report_names_end_in_the_extension() {
    assert!(has_report_extension("a.md"));
    assert!(has_report_extension("report.final.md"));
    assert!(has_report_extension("..md"));
    assert!(has_report_extension("\u{e9}.md"));
    assert!(!has_report_extension(".md"));
    assert!(!has_report_extension("md"));
    assert!(!has_report_extension(""));
    assert!(!has_report_extension("a.MD"));
    assert!(!has_report_extension("a.md.tmp"));
    assert!(!has_report_extension("a.mdx"));
    assert!(!has_report_extension("a.md "));
    assert!(!has_report_extension("amd"));
    let names = ["a.md", ".md", "..md", "x.y.md", "md", "a.md.tmp", "a.", "a.markdown", "\u{4e2d}.md"];
    for name in names.iter() {
        let expected = std::path::Path::new(name).extension().and_then(|e| e.to_str()) == Some("md");
        assert_eq!(has_report_extension(name), expected, "{}", name);
    }
}

#[test]
fn listing_picks_the_report_files() {
    let entries = vec![
        file("b.md"),
        file("notes.txt"),
        DirectoryEntry { name: Some("archive.md".to_string()), is_file: false },
        DirectoryEntry { name: None, is_file: true },
        file("a.md"),
        file("a.md.tmp"),
        file(".md"),
        file("b.md"),
    ];
    assert_eq!(select_reports(&entries), vec!["b.md".to_string(), "a.md".to_string(), "b.md".to_string()]);
    assert!(select_reports(&Vec::new()).is_empty());
}

#[test]
fn listing_needs_the_directory() {
    let manager = ReportManager::new("reports");
    assert!(matches!(&manager.get_all_reports(), ListState::Probe { directory } if directory == "reports"));
    assert!(matches!(&list_reports("elsewhere"), ListState::Probe { directory } if directory == "elsewhere"));
    let state = list_step(list_reports("reports"), StoreEvent::Probed(probe(false, false, 0)));
    assert!(matches!(&state, ListState::Done(Err(StoreError::MissingDirectory))));
    let state = list_step(list_reports("reports"), StoreEvent::Probed(probe(true, false, 0)));
    assert!(matches!(&state, ListState::ReadEntries { directory } if directory == "reports"));
    let done = list_step(state, StoreEvent::Entries(Ok(vec![file("x.md"), file("y.txt")])));
    assert!(matches!(&done, ListState::Done(Ok(names)) if names == &vec!["x.md".to_string()]));
    let state = list_step(list_reports("reports"), StoreEvent::Probed(probe(true, false, 0)));
    let done = list_step(state, StoreEvent::Entries(Err("denied".to_string())));
    assert!(matches!(
        &done,
        ListState::Done(Err(StoreError::Io { step: IoStep::List, cause })) if cause == "denied"
    ));
    let state = list_step(list_reports("reports"), StoreEvent::Entries(Ok(vec![file("x.md")])));
    assert!(matches!(&state, ListState::Probe { .. }));
}

#[test]
fn a_new_tracker_shows_the_first_state() {
    let tracker = ProgressTracker::new(1_000);
    let snapshot = tracker.get_progress(1_500);
    assert_eq!(f32::from_bits(snapshot.percentage_bits), 0.0);
    assert_eq!(snapshot.stage, "Initializing");
    assert_eq!(snapshot.agent, "System");
    assert_eq!(snapshot.activity, "Starting up");
    assert_eq!(snapshot.elapsed_nanos, 500);
}

#[test]
fn update_replaces_all_four_values() {
    let mut tracker = ProgressTracker::new(10);
    tracker.update(42.5f32.to_bits(), "Research", "Analyst", "Reading filings");
    let snapshot = tracker.get_progress(110);
    assert_eq!(f32::from_bits(snapshot.percentage_bits), 42.5);
    assert_eq!(snapshot.stage, "Research");
    assert_eq!(snapshot.agent, "Analyst");
    assert_eq!(snapshot.activity, "Reading filings");
    assert_eq!(snapshot.elapsed_nanos, 100);
    tracker.update(150.0f32.to_bits(), "", "", "");
    let snapshot = tracker.get_progress(111);
    assert_eq!(f32::from_bits(snapshot.percentage_bits), 150.0);
    assert_eq!(snapshot.stage, "");
    assert_eq!(snapshot.elapsed_nanos, 101);
}

#[test]
fn reset_restores_the_first_state_and_restarts_the_time() {
    let mut tracker = ProgressTracker::new(0);
    tracker.update(99.0f32.to_bits(), "Writing", "Editor", "Polishing");
    tracker.reset(5_000_000_000);
    let snapshot = tracker.get_progress(5_000_000_010);
    assert_eq!(f32::from_bits(snapshot.percentage_bits), 0.0);
    assert_eq!(snapshot.stage, "Initializing");
    assert_eq!(snapshot.agent, "System");
    assert_eq!(snapshot.activity, "Starting up");
    assert_eq!(snapshot.elapsed_nanos, 10);
    assert!((snapshot.elapsed_nanos as f64) / 1e9 < 0.001);
    assert_eq!(tracker.get_elapsed_nanos(5_000_000_000), 0);
}

#[test]
fn elapsed_time_never_runs_backwards() {
    let tracker = ProgressTracker::new(1_000);
    assert_eq!(tracker.get_elapsed_nanos(999), 0);
    assert_eq!(tracker.get_elapsed_nanos(1_000), 0);
    assert_eq!(tracker.get_elapsed_nanos(u64::MAX), u64::MAX - 1_000);
}
