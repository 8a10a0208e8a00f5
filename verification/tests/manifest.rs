use krypto::experiment::manifest::{DataInfo, GitInfo, RunStatus};

#[test]
fn status_texts() {
    assert_eq!(RunStatus::Running.text(), "running");
    assert_eq!(RunStatus::Completed.text(), "completed");
    assert_eq!(RunStatus::Failed.text(), "failed");
    assert_eq!(RunStatus::Cancelled.text(), "cancelled");
}

#[test]
fn git_info_from_outputs() {
    let g = GitInfo::from_command_outputs(
        Some("abc123\n".to_string()),
        Some("  main\n".to_string()),
        Some(" M src/lib.rs\n".to_string()),
        Some("git@example.com:x.git\n".to_string()),
    );
    assert_eq!(g.commit_hash, "abc123");
    assert_eq!(g.branch, "main");
    assert!(g.dirty);
    assert_eq!(g.remote.as_deref(), Some("git@example.com:x.git"));

    let clean = GitInfo::from_command_outputs(None, None, Some("\n\t \n".to_string()), None);
    assert_eq!(clean.commit_hash, "unknown");
    assert_eq!(clean.branch, "unknown");
    assert!(!clean.dirty);
    assert!(clean.remote.is_none());
}

#[test]
fn data_info_starts_empty() {
    let d = DataInfo::default();
    assert!(d.symbols.is_empty());
    assert!(d.candles_per_symbol.is_empty());
    assert!(d.date_range.is_none());
    assert!(d.checksums.is_empty());
}
