use nrv_rs::apply::{
    check_digest, classify, diff, io_failure, plan_actions, ApplyDecision, ApplyError,
    ApplyOptions, ApplyOutcome, ApplyStatus, ApplyStrategy, FsAction, ReadOutcome,
};
use nrv_rs::llm::toolkit::{apply_plan, ApplyPlan, PlanReport, PlanRun, ScaffoldDiff};
use nrv_rs::paths::append_suffix;

const CREATE_NOTE: &str = "--- /dev/null\n+++ b/note.txt\n@@ -0,0 +1 @@\n+hello world\n";
const HELLO_TO_WORLD: &str = "--- a/note.txt\n+++ b/note.txt\n@@ -1 +1 @@\n-hello\n+world\n";
const HELLO_SHA256: &str = "5891b5b522d5df086d0ff0b110fbd9d21bb4fc7163af34d08286a2e846f6be03";
const EMPTY_SHA256: &str = "e3b0c44298fc1c149afbf4c8996fb92427ae41e4649b934ca495991b7852b855";

fn options(path: &str, diff_text: &str, strategy: ApplyStrategy, checksum: Option<&str>) -> ApplyOptions {
    ApplyOptions {
        path: path.into(),
        diff: diff_text.into(),
        strategy,
        checksum: checksum.map(|c| c.to_string()),
    }
}

fn found(text: &str) -> ReadOutcome {
    ReadOutcome::Found(text.as_bytes().to_vec())
}

fn mkdir(path: &str) -> FsAction {
    FsAction::CreateDirAll { path: path.into() }
}

fn write(path: &str, text: &str) -> FsAction {
    FsAction::Write { path: path.into(), bytes: text.as_bytes().to_vec() }
}

fn backup(path: &str, text: &str) -> FsAction {
    FsAction::Backup { path: path.into(), bytes: text.as_bytes().to_vec() }
}

#[test]
fn apply_new_file() {
    let decision = diff(
        options("work/note.txt", CREATE_NOTE, ApplyStrategy::Write, None),
        ReadOutcome::Missing,
    )
    .expect("apply");

    assert_eq!(decision.outcome.status, ApplyStatus::Applied);
    assert_eq!(decision.outcome.hunks_applied, 1);
    assert_eq!(decision.actions, vec![mkdir("work"), write("work/note.txt", "hello world\n")]);
}

#[test]
fn apply_dry_run_does_not_write() {
    let decision = diff(
        options("work/note.txt", CREATE_NOTE, ApplyStrategy::DryRun, None),
        ReadOutcome::Missing,
    )
    .expect("apply");

    assert_eq!(decision.outcome.status, ApplyStatus::Applied);
    assert!(decision.actions.is_empty());
}

#[test]
fn checksum_mismatch_errors() {
    let result = diff(
        options("work/note.txt", HELLO_TO_WORLD, ApplyStrategy::Write, Some("deadbeef")),
        found("hello\n"),
    );

    assert!(matches!(result, Err(ApplyError::ChecksumMismatch { .. })));
}

#[test]
fn write_backup_captures_previous_contents() {
    let decision = diff(
        options(
            "work/note.txt",
            HELLO_TO_WORLD,
            ApplyStrategy::WriteBackup { backup_suffix: ".bak" },
            None,
        ),
        found("hello\n"),
    )
    .expect("apply");

    assert_eq!(
        decision.actions,
        vec![
            mkdir("work"),
            backup("work/note.txt.bak", "hello\n"),
            write("work/note.txt", "world\n"),
        ]
    );
}

#[test]
fn apply_plan_new_file() {
    let plan = ApplyPlan {
        diffs: vec![ScaffoldDiff {
            path: "work/note.txt".into(),
            checksum: None,
            diff: CREATE_NOTE.into(),
        }],
    };

    let report = apply_plan(&plan, ApplyStrategy::Write, &vec![ReadOutcome::Missing]);
    let outcomes = report.result.expect("apply");
    assert_eq!(outcomes.len(), 1);
    assert_eq!(outcomes[0].hunks_applied, 1);
    assert_eq!(
        report.committed,
        vec![vec![mkdir("work"), write("work/note.txt", "hello world\n")]]
    );
}

#[test]
fn apply_plan_checksum_mismatch_errors() {
    let actual = HELLO_SHA256;
    assert_eq!(actual.len(), 64);

    let plan = ApplyPlan {
        diffs: vec![ScaffoldDiff {
            path: "work/note.txt".into(),
            checksum: Some("deadbeef".into()),
            diff: HELLO_TO_WORLD.into(),
        }],
    };

    let report = apply_plan(&plan, ApplyStrategy::Write, &vec![found("hello\n")]);
    assert!(matches!(report.result, Err(ApplyError::ChecksumMismatch { .. })));
    assert!(report.committed.is_empty());
}

#[test]
fn apply_plan_dry_run_does_not_write() {
    let plan = ApplyPlan {
        diffs: vec![ScaffoldDiff {
            path: "work/note.txt".into(),
            checksum: None,
            diff: CREATE_NOTE.into(),
        }],
    };

    let report = apply_plan(&plan, ApplyStrategy::DryRun, &vec![ReadOutcome::Missing]);
    let outcomes = report.result.expect("apply");
    assert_eq!(outcomes.len(), 1);
    assert_eq!(report.committed, vec![Vec::<FsAction>::new()]);
}

#[test]
fn module_is_named_apply() {
    assert_eq!(nrv_rs::apply::module_name(), "apply");
}

#[test]
fn default_strategy_writes() {
    assert_eq!(ApplyStrategy::default(), ApplyStrategy::Write);
    let made = ApplyOptions::new("a.txt".into(), "d".into());
    assert_eq!(made.path, "a.txt");
    assert_eq!(made.diff, "d");
    assert_eq!(made.strategy, ApplyStrategy::Write);
    assert_eq!(made.checksum, None);
    assert_eq!(
        ApplyOutcome::new(ApplyStatus::Noop, 3),
        ApplyOutcome { status: ApplyStatus::Noop, hunks_applied: 3, warnings: vec![] }
    );
}

#[test]
fn matching_checksum_lets_the_diff_through() {
    let decision = diff(
        options("work/note.txt", HELLO_TO_WORLD, ApplyStrategy::Write, Some(HELLO_SHA256)),
        found("hello\n"),
    )
    .expect("apply");
    assert_eq!(decision.outcome, ApplyOutcome::new(ApplyStatus::Applied, 1));
    assert_eq!(decision.actions, vec![mkdir("work"), write("work/note.txt", "world\n")]);
}

#[test]
fn checksum_mismatch_carries_both_values() {
    let err = diff(
        options("work/note.txt", HELLO_TO_WORLD, ApplyStrategy::Write, Some("deadbeef")),
        found("hello\n"),
    )
    .expect_err("mismatch");
    assert_eq!(
        err,
        ApplyError::ChecksumMismatch {
            path: "work/note.txt".into(),
            expected: "deadbeef".into(),
            actual: HELLO_SHA256.into(),
        }
    );
}

#[test]
fn checksum_is_lowercase_hex() {
    let upper = HELLO_SHA256.to_uppercase();
    let err = diff(
        options("note.txt", HELLO_TO_WORLD, ApplyStrategy::DryRun, Some(&upper)),
        found("hello\n"),
    )
    .expect_err("case matters");
    assert!(matches!(err, ApplyError::ChecksumMismatch { ref actual, .. } if actual == HELLO_SHA256));
}

#[test]
fn missing_file_has_the_checksum_of_nothing() {
    let decision = diff(
        options("work/note.txt", CREATE_NOTE, ApplyStrategy::DryRun, Some(EMPTY_SHA256)),
        ReadOutcome::Missing,
    )
    .expect("apply");
    assert_eq!(decision.outcome.status, ApplyStatus::Applied);
}

#[test]
fn checksum_is_held_before_the_text_is_decoded() {
    let err = diff(
        options("note.txt", HELLO_TO_WORLD, ApplyStrategy::Write, Some("deadbeef")),
        ReadOutcome::Found(vec![0xff, 0xfe]),
    )
    .expect_err("mismatch first");
    assert!(matches!(err, ApplyError::ChecksumMismatch { .. }));
}

#[test]
fn pre_image_must_be_text() {
    let err = diff(
        options("note.bin", "not even a diff", ApplyStrategy::Write, None),
        ReadOutcome::Found(vec![0xff, 0xfe, 0x00]),
    )
    .expect_err("invalid utf-8");
    assert_eq!(err, ApplyError::InvalidUtf8 { path: "note.bin".into() });
}

#[test]
fn malformed_diff_is_invalid() {
    let err = diff(
        options("note.txt", "--- a/note.txt\n+++ b/note.txt\n@@ broken @@\n", ApplyStrategy::Write, None),
        found("hello\n"),
    )
    .expect_err("parse");
    match err {
        ApplyError::InvalidDiff { message } => assert!(message.contains("error parsing patch")),
        other => panic!("unexpected error {other:?}"),
    }
}

#[test]
fn diff_that_does_not_fit_is_invalid() {
    let err = diff(
        options("note.txt", HELLO_TO_WORLD, ApplyStrategy::Write, None),
        found("something else\n"),
    )
    .expect_err("context mismatch");
    assert_eq!(err, ApplyError::InvalidDiff { message: "error applying hunk #1".into() });
}

#[test]
fn reapplying_a_replacement_fails_on_the_patched_text() {
    let first = diff(
        options("note.txt", HELLO_TO_WORLD, ApplyStrategy::DryRun, None),
        found("hello\n"),
    )
    .expect("first");
    assert_eq!(first.outcome.status, ApplyStatus::Applied);
    let again = diff(
        options("note.txt", HELLO_TO_WORLD, ApplyStrategy::DryRun, None),
        found("world\n"),
    );
    assert!(matches!(again, Err(ApplyError::InvalidDiff { .. })));
}

#[test]
fn reapplying_applies_again_where_the_context_repeats() {
    let insert = "--- a/f\n+++ b/f\n@@ -1,2 +1,3 @@\n a\n+x\n b\n";
    let first = diff(options("f", insert, ApplyStrategy::Write, None), found("a\nb\na\nb\n"))
        .expect("first");
    assert_eq!(first.actions.last(), Some(&write("f", "a\nx\nb\na\nb\n")));
    let again = diff(options("f", insert, ApplyStrategy::Write, None), found("a\nx\nb\na\nb\n"))
        .expect("again");
    assert_eq!(again.outcome.status, ApplyStatus::Applied);
    assert_eq!(again.actions.last(), Some(&write("f", "a\nx\nb\na\nx\nb\n")));
}

#[test]
fn diff_without_hunks_is_a_noop() {
    let decision = diff(
        options("work/note.txt", "--- a/note.txt\n+++ b/note.txt\n", ApplyStrategy::Write, None),
        found("hello\n"),
    )
    .expect("apply");
    assert_eq!(decision.outcome, ApplyOutcome::new(ApplyStatus::Noop, 0));
    assert_eq!(decision.actions, vec![mkdir("work"), write("work/note.txt", "hello\n")]);
}

#[test]
fn failed_read_is_an_io_error() {
    let err = diff(
        options("work/note.txt", CREATE_NOTE, ApplyStrategy::Write, None),
        ReadOutcome::Failed("permission denied".into()),
    )
    .expect_err("io");
    assert_eq!(
        err,
        ApplyError::Io {
            operation: "read",
            path: "work/note.txt".into(),
            source: "permission denied".into()
        }
    );
}

#[test]
fn backup_is_skipped_for_a_new_file() {
    let decision = diff(
        options(
            "work/note.txt",
            CREATE_NOTE,
            ApplyStrategy::WriteBackup { backup_suffix: ".bak" },
            None,
        ),
        ReadOutcome::Missing,
    )
    .expect("apply");
    assert_eq!(decision.actions, vec![mkdir("work"), write("work/note.txt", "hello world\n")]);
}

#[test]
fn backup_keeps_the_exact_pre_image() {
    let patch = "--- a/data.txt\n+++ b/data.txt\n@@ -1 +1 @@\n-alpha\n\\ No newline at end of file\n+beta\n\\ No newline at end of file\n";
    let decision = diff(
        options(
            "data.txt",
            patch,
            ApplyStrategy::WriteBackup { backup_suffix: ".bak" },
            None,
        ),
        found("alpha"),
    )
    .expect("apply");
    assert_eq!(
        decision,
        ApplyDecision {
            outcome: ApplyOutcome::new(ApplyStatus::Applied, 1),
            actions: vec![mkdir(""), backup("data.txt.bak", "alpha"), write("data.txt", "beta")],
        }
    );
}

#[test]
fn steps_follow_the_strategy() {
    let none = plan_actions("d/f".into(), ApplyStrategy::DryRun, true, vec![1], vec![2]);
    assert!(none.is_empty());
    let plain = plan_actions("d/f".into(), ApplyStrategy::Write, true, vec![1], vec![2]);
    assert_eq!(
        plain,
        vec![mkdir("d"), FsAction::Write { path: "d/f".into(), bytes: vec![2] }]
    );
    let kept = plan_actions(
        "d/f".into(),
        ApplyStrategy::WriteBackup { backup_suffix: "~" },
        true,
        vec![1],
        vec![2],
    );
    assert_eq!(
        kept,
        vec![
            mkdir("d"),
            FsAction::Backup { path: "d/f~".into(), bytes: vec![1] },
            FsAction::Write { path: "d/f".into(), bytes: vec![2] },
        ]
    );
    let root = plan_actions("/".into(), ApplyStrategy::Write, false, vec![], vec![]);
    assert_eq!(root, vec![FsAction::Write { path: "/".into(), bytes: vec![] }]);
}

#[test]
fn digest_is_held_against_the_expected_checksum() {
    let path = "p".to_string();
    assert_eq!(check_digest(&path, "00ff10ab".into(), &vec![0x00, 0xff, 0x10, 0xab]), Ok(()));
    assert_eq!(check_digest(&path, "".into(), &vec![]), Ok(()));
    assert_eq!(
        check_digest(&path, "00FF".into(), &vec![0x00, 0xff]),
        Err(ApplyError::ChecksumMismatch {
            path: "p".into(),
            expected: "00FF".into(),
            actual: "00ff".into()
        })
    );
}

#[test]
fn status_is_noop_only_for_identical_text() {
    assert_eq!(classify(&"a\n".to_string(), &"a\n".to_string()), ApplyStatus::Noop);
    assert_eq!(classify(&"a\n".to_string(), &"a".to_string()), ApplyStatus::Applied);
}

#[test]
fn failed_step_names_operation_and_path() {
    let steps = [
        (mkdir("d"), "create_dir_all", "d"),
        (backup("d/f.bak", "x"), "backup", "d/f.bak"),
        (write("d/f", "y"), "write", "d/f"),
    ];
    for (step, operation, path) in steps {
        assert_eq!(step.operation(), operation);
        assert_eq!(step.path(), path);
        assert_eq!(
            io_failure(&step, "disk full".into()),
            ApplyError::Io { operation, path: path.into(), source: "disk full".into() }
        );
    }
}

#[test]
fn read_outcome_is_copied_faithfully() {
    for read in [found("abc"), ReadOutcome::Missing, ReadOutcome::Failed("why".into())] {
        assert_eq!(read.duplicate(), read);
    }
}

#[test]
fn suffix_is_appended_to_the_file_name() {
    assert_eq!(append_suffix(&"dir/note.txt".to_string(), ".bak"), "dir/note.txt.bak");
    assert_eq!(append_suffix(&"note.txt".to_string(), ".bak"), "note.txt.bak");
    assert_eq!(append_suffix(&"/abs/dir/note".to_string(), "~"), "/abs/dir/note~");
    assert_eq!(append_suffix(&"dir/note.txt/".to_string(), ".bak"), "dir/note.txt.bak");
    assert_eq!(append_suffix(&"..".to_string(), ".bak"), "...bak");
    assert_eq!(append_suffix(&"/".to_string(), ".bak"), "/.bak");
}

fn entry(path: &str, diff_text: &str) -> ScaffoldDiff {
    ScaffoldDiff { path: path.into(), checksum: None, diff: diff_text.into() }
}

#[test]
fn plan_stops_at_the_first_failure() {
    let plan = ApplyPlan {
        diffs: vec![
            entry("a/one.txt", CREATE_NOTE),
            entry("a/two.txt", "@@ nonsense\n"),
            entry("a/three.txt", CREATE_NOTE),
        ],
    };
    let reads = vec![ReadOutcome::Missing, ReadOutcome::Missing, ReadOutcome::Failed("x".into())];
    let report = apply_plan(&plan, ApplyStrategy::Write, &reads);
    assert!(matches!(report.result, Err(ApplyError::InvalidDiff { .. })));
    assert_eq!(report.committed, vec![vec![mkdir("a"), write("a/one.txt", "hello world\n")]]);
}

#[test]
fn plan_keeps_the_order_of_its_entries() {
    let plan = ApplyPlan {
        diffs: vec![
            entry("b.txt", HELLO_TO_WORLD),
            entry("a.txt", CREATE_NOTE),
            entry("c.txt", "--- a/c.txt\n+++ b/c.txt\n"),
        ],
    };
    let reads = vec![found("hello\n"), ReadOutcome::Missing, found("same\n")];
    let report = apply_plan(&plan, ApplyStrategy::Write, &reads);
    assert_eq!(
        report,
        PlanReport {
            committed: vec![
                vec![mkdir(""), write("b.txt", "world\n")],
                vec![mkdir(""), write("a.txt", "hello world\n")],
                vec![mkdir(""), write("c.txt", "same\n")],
            ],
            result: Ok(vec![
                ApplyOutcome::new(ApplyStatus::Applied, 1),
                ApplyOutcome::new(ApplyStatus::Applied, 1),
                ApplyOutcome::new(ApplyStatus::Noop, 0),
            ]),
        }
    );
}

#[test]
fn plan_uses_each_entry_checksum() {
    let plan = ApplyPlan {
        diffs: vec![
            ScaffoldDiff {
                path: "n.txt".into(),
                checksum: Some(HELLO_SHA256.into()),
                diff: HELLO_TO_WORLD.into(),
            },
            ScaffoldDiff {
                path: "m.txt".into(),
                checksum: Some(HELLO_SHA256.into()),
                diff: HELLO_TO_WORLD.into(),
            },
        ],
    };
    let reads = vec![found("hello\n"), found("hello!\n")];
    let report = apply_plan(&plan, ApplyStrategy::DryRun, &reads);
    assert!(matches!(
        report.result,
        Err(ApplyError::ChecksumMismatch { ref path, .. }) if path == "m.txt"
    ));
    assert_eq!(report.committed, vec![Vec::<FsAction>::new()]);
}

#[test]
fn empty_plan_applies_nothing() {
    let report = apply_plan(&ApplyPlan::default(), ApplyStrategy::Write, &vec![]);
    assert_eq!(report, PlanReport { committed: vec![], result: Ok(vec![]) });
}

#[test]
fn entry_without_a_read_is_not_attempted() {
    let plan = ApplyPlan { diffs: vec![entry("a.txt", CREATE_NOTE), entry("b.txt", CREATE_NOTE)] };
    let report = apply_plan(&plan, ApplyStrategy::DryRun, &vec![ReadOutcome::Missing]);
    assert_eq!(report.result, Ok(vec![ApplyOutcome::new(ApplyStatus::Applied, 1)]));
}

#[test]
fn run_takes_the_entries_one_by_one() {
    let plan = ApplyPlan { diffs: vec![entry("a.txt", CREATE_NOTE), entry("b.txt", HELLO_TO_WORLD)] };
    let run = PlanRun::start(&plan, ApplyStrategy::Write);
    assert_eq!(run.pending().map(|next| next.path.as_str()), Some("a.txt"));
    let (run, steps) = run.feed(ReadOutcome::Missing).ok().expect("first");
    assert_eq!(steps, vec![mkdir(""), write("a.txt", "hello world\n")]);
    assert_eq!(run.pending().map(|next| next.path.as_str()), Some("b.txt"));
    let (run, steps) = run.feed(found("hello\n")).ok().expect("second");
    assert_eq!(steps, vec![mkdir(""), write("b.txt", "world\n")]);
    assert!(run.pending().is_none());
    let (run, steps) = run.feed(found("ignored")).ok().expect("nothing pending");
    assert!(steps.is_empty());
    assert_eq!(
        run.finish(),
        vec![ApplyOutcome::new(ApplyStatus::Applied, 1), ApplyOutcome::new(ApplyStatus::Applied, 1)]
    );
}

#[test]
fn run_is_gone_after_a_failure() {
    let plan = ApplyPlan { diffs: vec![entry("a.txt", HELLO_TO_WORLD), entry("b.txt", CREATE_NOTE)] };
    let run = PlanRun::start(&plan, ApplyStrategy::Write);
    let failure = run.feed(found("other\n")).err().expect("does not fit");
    assert_eq!(failure, ApplyError::InvalidDiff { message: "error applying hunk #1".into() });
}
