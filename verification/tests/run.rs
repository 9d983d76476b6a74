use bigcp_core::analysis::{add_to_class, size_class, size_class_label, SIZE_CLASSES};
use bigcp_core::file::{worker_dispatch, WorkerDispatch};
use bigcp_core::identity::{
    path_hash, path_pair_hash, validate_audit_layout, validate_audit_paths, PathIdentity,
};
use bigcp_core::model::FileOutcome;
use bigcp_core::path::WidePath;
use bigcp_core::phase::{
    PhaseTracker, PHASE_COORD_ENTRY, PHASE_COORD_ENUM_JOIN, PHASE_COORD_FINISH, PHASE_CREATE_DST,
    PHASE_LIST_STREAMS, PHASE_NAMES, PHASE_OPEN_SRC, PHASE_READ, PHASE_SET_META, PHASE_WRITE,
};
use bigcp_core::report::{check_report_version, completed_exit, VerificationSummary};
use bigcp_core::transport::TransportProfile;
use bigcp_core::{BigcpError, Counters, REPORT_SCHEMA_VERSION};

#[test]
fn redirector_dispatches_streamed_files_but_keeps_checkpoint_owners_inline() {
    const MIB: u64 = 1024 * 1024;
    const MIB_USIZE: usize = 1024 * 1024;
    let transport = TransportProfile::redirector(8 * MIB_USIZE);
    assert_eq!(
        worker_dispatch(transport, false, true, 64 * MIB, 16 * MIB, 256 * MIB, false),
        Some(WorkerDispatch {
            promote_threshold: Some(256 * MIB),
            directory_affine: false,
        })
    );
    assert_eq!(
        worker_dispatch(transport, false, true, 256 * MIB, 16 * MIB, 256 * MIB, false),
        None
    );
    assert_eq!(
        worker_dispatch(transport, false, true, 8 * MIB, 16 * MIB, 256 * MIB, true),
        None
    );
}

#[test]
fn standard_transport_dispatch_remains_small_file_only() {
    const MIB: u64 = 1024 * 1024;
    const MIB_USIZE: usize = 1024 * 1024;
    let transport = TransportProfile::standard(8 * MIB_USIZE);
    assert!(
        worker_dispatch(transport, false, true, 8 * MIB, 16 * MIB, 256 * MIB, false).is_some()
    );
    assert_eq!(
        worker_dispatch(transport, false, true, 64 * MIB, 16 * MIB, 256 * MIB, false),
        None
    );
}

#[test]
fn wsl_destination_stripes_small_files_without_changing_other_affinity() {
    const MIB: u64 = 1024 * 1024;
    const MIB_USIZE: usize = 1024 * 1024;
    let transport = TransportProfile::wsl(8 * MIB_USIZE);
    let wsl = worker_dispatch(transport, true, true, 8 * MIB, 16 * MIB, 256 * MIB, false);
    assert!(wsl.is_some_and(|dispatch| !dispatch.directory_affine));

    let local_destination =
        worker_dispatch(transport, false, true, 8 * MIB, 16 * MIB, 256 * MIB, false);
    assert!(local_destination.is_some_and(|dispatch| dispatch.directory_affine));
}

#[test]
fn every_completed_failure_universe_controls_the_exit_code() {
    assert_eq!(completed_exit(true, false, &Counters::default(), None), 3);
    // The breaker outranks cancellation and per-object failures: exit 4
    // names the actionable cause.
    assert_eq!(completed_exit(false, true, &Counters::default(), None), 4);
    assert_eq!(completed_exit(true, true, &Counters::default(), None), 4);
    assert_eq!(
        completed_exit(
            false,
            true,
            &Counters { failed: 1, ..Counters::default() },
            None
        ),
        4
    );

    for counters in [
        Counters { failed: 1, ..Counters::default() },
        Counters { dirs_failed: 1, ..Counters::default() },
        Counters { dirs_meta_failed: 1, ..Counters::default() },
        Counters { links_failed: 1, ..Counters::default() },
    ] {
        assert_eq!(completed_exit(false, false, &counters, None), 2);
    }

    let verification = VerificationSummary { failed: 1, ..VerificationSummary::default() };
    assert_eq!(
        completed_exit(false, false, &Counters::default(), Some(&verification)),
        2
    );
    assert_eq!(completed_exit(false, false, &Counters::default(), None), 0);
}

fn identity(path: &str) -> PathIdentity {
    PathIdentity {
        exact: WidePath::from_text(path),
        folded: Ok(WidePath::from_text(&path.to_uppercase())),
        case_sensitive: false,
    }
}

#[test]
fn destination_lock_identity_is_case_insensitive() {
    let upper = path_hash(&identity(r"\\?\C:\CopyTarget"));
    let lower = path_hash(&identity(r"\\?\c:\copytarget"));
    assert!(upper.is_ok());
    assert_eq!(upper.ok(), lower.ok());
}

#[test]
fn audit_artifact_roles_cannot_collide() {
    let state = r"\\?\C:\safe\state";
    let journal = identity(&format!(r"{state}\journal.jsonl"));
    let log = format!(r"{state}\run.log.jsonl");
    let report = format!(r"{state}\run.report.json");
    let layout = |log: &str, report: &str| {
        validate_audit_layout(&identity(state), &journal, &identity(log), &identity(report))
    };
    assert!(layout(&log, &report).is_ok());
    assert!(layout(&log, &log).is_err());
    assert!(layout(&log, &format!(r"{state}\journal.jsonl")).is_err());
    assert!(layout(r"\\?\C:\safe", &report).is_err());
}

#[test]
fn hashes_are_hex_of_sha256() {
    let one = path_hash(&identity("a")).ok().unwrap();
    assert_eq!(one.len(), 64);
    assert!(one.chars().all(|c| c.is_ascii_hexdigit() && !c.is_ascii_uppercase()));
    let pair = path_pair_hash(&identity("a"), &identity("b")).ok().unwrap();
    let swapped = path_pair_hash(&identity("b"), &identity("a")).ok().unwrap();
    assert_ne!(pair, one);
    assert_ne!(pair, swapped);
    let mut exact = identity("a");
    exact.case_sensitive = true;
    assert_ne!(path_hash(&exact).ok().unwrap(), one);
}

#[test]
fn artifacts_stay_outside_both_trees() {
    let verdict = |log: &str| {
        validate_audit_paths(
            &identity(r"C:\state"),
            &identity(r"C:\state\journal.jsonl"),
            &identity(log),
            &identity(r"C:\state\run.report.json"),
            &identity(r"C:\source"),
            &identity(r"D:\backup"),
        )
    };
    assert!(verdict(r"C:\state\run.log.jsonl").is_ok());
    assert!(matches!(verdict(r"C:\SOURCE\run.log.jsonl"), Err(BigcpError::Invalid(_))));
    assert!(matches!(verdict(r"d:\backup\x\run.log.jsonl"), Err(BigcpError::Invalid(_))));
    assert!(verdict(r"D:\backups\run.log.jsonl").is_ok());
}

#[test]
fn file_outcomes_reconcile_exactly() {
    let mut counters = Counters::default();
    counters.note_file_discovered(4);
    counters.apply_file(&FileOutcome::CopiedNew { bytes: 4, digest: None });
    counters.note_file_discovered(5);
    counters.apply_file(&FileOutcome::SkippedSame { bytes: 5 });
    assert!(counters.reconcile().is_ok());
    assert_eq!(counters.files_discovered, 2);
    assert_eq!(counters.bytes_enumerated, 9);
    assert_eq!(counters.bytes_logical_discovered, 9);
}

#[test]
fn dropped_outcome_is_loud() {
    // Discovery without a terminal outcome must fail reconciliation.
    let mut counters = Counters::default();
    counters.note_file_discovered(1);
    assert!(counters.reconcile().is_err());
}

#[test]
fn outcome_without_discovery_is_loud() {
    let mut counters = Counters::default();
    counters.apply_file(&FileOutcome::SkippedSame { bytes: 1 });
    assert!(counters.reconcile().is_err());
}

#[test]
fn measurements_are_isolated_per_run() {
    let mut first = PhaseTracker::new();
    let second = PhaseTracker::new();
    first.record(PHASE_OPEN_SRC, 10_000);

    assert!(first.summary().contains("open_src:"));
    assert!(second.summary().is_empty());
}

#[test]
fn phase_index_constants_match_their_reported_names() {
    assert_eq!(PHASE_NAMES[PHASE_OPEN_SRC], "open_src");
    assert_eq!(PHASE_NAMES[PHASE_LIST_STREAMS], "list_streams");
    assert_eq!(PHASE_NAMES[PHASE_READ], "read");
    assert_eq!(PHASE_NAMES[PHASE_CREATE_DST], "create_dst");
    assert_eq!(PHASE_NAMES[PHASE_WRITE], "write");
    assert_eq!(PHASE_NAMES[PHASE_SET_META], "set_meta");
    assert_eq!(PHASE_NAMES[PHASE_COORD_ENUM_JOIN], "coord_enum_join");
    assert_eq!(PHASE_NAMES[PHASE_COORD_ENTRY], "coord_entry");
    assert_eq!(PHASE_NAMES[PHASE_COORD_FINISH], "coord_finish");
}

#[test]
fn files_fall_into_the_first_size_class_that_holds_them() {
    const KIB: u64 = 1024;
    const MIB: u64 = 1024 * 1024;
    assert_eq!(size_class(0), 0);
    assert_eq!(size_class(64 * KIB), 0);
    assert_eq!(size_class(64 * KIB + 1), 1);
    assert_eq!(size_class(MIB), 1);
    assert_eq!(size_class(MIB + 1), 2);
    assert_eq!(size_class(16 * MIB), 2);
    assert_eq!(size_class(16 * MIB + 1), 3);
    assert_eq!(size_class(256 * MIB), 3);
    assert_eq!(size_class(256 * MIB + 1), 4);
    assert_eq!(size_class(u64::MAX), 4);
    let labels: Vec<&str> = (0..SIZE_CLASSES).map(size_class_label).collect();
    assert_eq!(labels, vec!["<=64KiB", "<=1MiB", "<=16MiB", "<=256MiB", ">256MiB"]);
}

#[test]
fn a_file_counts_in_its_size_class_alone() {
    let mut totals = vec![(0_u64, 0_u64); SIZE_CLASSES];
    add_to_class(&mut totals, 10);
    add_to_class(&mut totals, 64 * 1024);
    add_to_class(&mut totals, 2 * 1024 * 1024);
    assert_eq!(totals, vec![(2, 65_546), (0, 0), (1, 2_097_152), (0, 0), (0, 0)]);
    add_to_class(&mut totals, u64::MAX);
    add_to_class(&mut totals, u64::MAX);
    assert_eq!(totals[4], (2, u64::MAX));
}

#[test]
fn only_reports_of_this_version_are_read() {
    assert_eq!(check_report_version(REPORT_SCHEMA_VERSION), Ok(()));
    assert_eq!(
        check_report_version(7),
        Err(BigcpError::Format(
            "unsupported report schema 7; this build supports 1".to_owned()
        ))
    );
}
