use unica_coder::index::{
    background_failure_message, decide_after_info, parse_info_value, readiness_debug,
    readiness_from_info, ready_db_path, status_after_info, status_after_primary, BslIndexStatus,
    IndexBackgroundJob, IndexCommand, IndexDecision, IndexOutput, IndexReadiness,
    WorkspaceIndexService,
};
use unica_coder::workspace::{lock_path, status_path, Platform, WorkspaceContext};

fn info(success: bool, stdout: &str, stderr: &str) -> IndexOutput {
    IndexOutput {
        status_success: success,
        status: if success { "exit status: 0".to_string() } else { "exit status: 1".to_string() },
        stdout: stdout.to_string(),
        stderr: stderr.to_string(),
        timed_out: false,
    }
}

fn context() -> WorkspaceContext {
    WorkspaceContext {
        cwd: "/w".to_string(),
        workspace_root: "/w".to_string(),
        cache_root: "/w/.build/unica".to_string(),
        workspace_epoch: 1,
        platform: Platform::Unix,
    }
}

#[test]
fn fresh_info_is_ready_at_its_database() {
    let r = readiness_from_info(&info(true, "Index: /tmp/bsl_index.db\n  Status:   fresh\n", ""));
    match r {
        IndexReadiness::Ready { db_path } => assert_eq!(db_path, "/tmp/bsl_index.db"),
        _ => panic!("expected ready"),
    }
}

#[test]
fn info_states() {
    assert!(matches!(
        readiness_from_info(&info(true, "Index not found: /tmp/bsl_index.db", "")),
        IndexReadiness::Missing
    ));
    assert!(matches!(
        readiness_from_info(&info(true, "Index: /tmp/bsl_index.db\n  Status:   stale (age)\n", "")),
        IndexReadiness::Stale
    ));
    match readiness_from_info(&info(false, "", "  boom \n")) {
        IndexReadiness::Unavailable(m) => assert_eq!(m, "boom"),
        _ => panic!("expected unavailable"),
    }
    match readiness_from_info(&info(true, "Status: fresh\n", "")) {
        IndexReadiness::Unavailable(m) => assert_eq!(m, "RLM index info did not report DB path"),
        _ => panic!("expected unavailable"),
    }
    match readiness_from_info(&info(true, "Status: broken\n", "")) {
        IndexReadiness::Unavailable(m) => assert_eq!(m, "RLM index status is broken"),
        _ => panic!("expected unavailable"),
    }
    match readiness_from_info(&info(true, "nothing\n", "")) {
        IndexReadiness::Unavailable(m) => assert_eq!(m, "RLM index info did not report status"),
        _ => panic!("expected unavailable"),
    }
}

#[test]
fn info_values_are_read_from_the_first_matching_line() {
    assert_eq!(parse_info_value("a\n  Key:  one \nKey: two", "Key").as_deref(), Some("one"));
    assert_eq!(parse_info_value("Key:   \nKey: two", "Key").as_deref(), Some("two"));
    assert_eq!(parse_info_value("Other: x", "Key"), None);
}

#[test]
fn decisions_after_info() {
    assert!(matches!(
        decide_after_info(IndexReadiness::Missing),
        IndexDecision::StartBackground { action: "build", update: false, warning: "rlm index build started" }
    ));
    assert!(matches!(
        decide_after_info(IndexReadiness::Stale),
        IndexDecision::StartBackground { action: "update", update: true, warning: "rlm index building" }
    ));
    assert!(matches!(decide_after_info(IndexReadiness::Building), IndexDecision::Warn("rlm index building")));
    match decide_after_info(IndexReadiness::Failed("x".to_string())) {
        IndexDecision::RecordUnavailable(m) => assert_eq!(m, "x"),
        _ => panic!("expected a record"),
    }
}

#[test]
fn statuses_and_paths() {
    let ready = BslIndexStatus::ready("/w/src", "/db", 5);
    assert_eq!(ready_db_path(&ready).as_deref(), Some("/db"));
    let building = BslIndexStatus::building("build", Some("/w/src"), 6);
    assert_eq!(building.message.as_deref(), Some("rlm index build started"));
    assert_eq!(ready_db_path(&building), None);
    assert_eq!(status_path(&context()), "/w/.build/unica/caches/bsl_index_status.json");
    assert_eq!(lock_path(&context()), "/w/.build/unica/locks/bsl_index.lock");
}

#[test]
fn index_commands_name_the_launcher_and_index_dir() {
    let service = WorkspaceIndexService::new();
    let commands = service.commands(&context(), "/w/src", Some("/p"), true).ok().unwrap();
    assert_eq!(commands.info.program, "/p/scripts/run-rlm-bsl-index.sh");
    assert_eq!(commands.info.args, vec!["index", "info", "/w/src"]);
    assert_eq!(commands.build.args, vec!["index", "build", "/w/src"]);
    assert_eq!(commands.update.args, vec!["index", "update", "/w/src"]);
    assert_eq!(commands.info.env, vec![("RLM_INDEX_DIR".to_string(), "/w/.build/unica/rlm-tools-bsl".to_string())]);
    assert_eq!(commands.info.timeout_secs, 30);
    assert_eq!(commands.build.timeout_secs, 86400);
    match service.commands(&context(), "/w/src", Some("/p"), false) {
        Err(e) => assert_eq!(e, "internal RLM index launcher not found: /p/scripts/run-rlm-bsl-index.sh"),
        Ok(_) => panic!("expected an error"),
    }
}

#[test]
fn background_failures() {
    let mut out = info(false, "", " disk full \n");
    assert_eq!(background_failure_message("build", &out), "rlm index build failed: exit status: 1 disk full");
    out.timed_out = true;
    assert_eq!(background_failure_message("update", &out), "rlm index update timed out");
}

use unica_coder::index::source_root_candidates;
use unica_coder::json::{JsonObject, JsonValue};
use unica_coder::index_flow::{LockResult, ReadyAction, ReadyState, StartAction, StartEvent, StartState};

fn success(stdout: &str) -> IndexOutput {
    info(true, stdout, "")
}

fn drive(events: Vec<StartEvent>, dry_run: bool) -> Vec<StartAction> {
    let service = WorkspaceIndexService::new();
    let ctx = context();
    let mut state = StartState::Begin;
    let mut actions = Vec::new();
    for event in events {
        let (next, action) = service.start_step(&ctx, dry_run, 100, state, event);
        state = next;
        actions.push(action);
    }
    actions
}

fn finish_warnings(action: &StartAction) -> Vec<String> {
    match action {
        StartAction::Finish { report, .. } => report.warnings.clone(),
        _ => panic!("expected the end"),
    }
}

#[test]
fn dry_run_does_not_start_indexing_or_write_state() {
    let actions = drive(vec![StartEvent::Started], true);
    match &actions[0] {
        StartAction::Finish { remove_lock, status, report } => {
            assert!(!remove_lock);
            assert!(status.is_none());
            assert!(report.warnings.is_empty());
        }
        _ => panic!("a dry run ends at once"),
    }
}

#[test]
fn first_non_dry_run_starts_background_build_when_index_is_missing() {
    let actions = drive(
        vec![
            StartEvent::Started,
            StartEvent::SourceRoot(Some("/w/src".to_string())),
            StartEvent::LockActive(false),
            StartEvent::Launcher { plugin_root: Some("/p".to_string()), launcher_exists: true },
            StartEvent::Info(Ok(success("Index not found: /tmp/bsl_index.db"))),
            StartEvent::LockDir(Ok(())),
            StartEvent::Lock(LockResult::Acquired),
            StartEvent::JobStarted(Ok(())),
        ],
        false,
    );
    assert!(matches!(actions[0], StartAction::ResolveSourceRoot));
    assert!(matches!(actions[1], StartAction::CheckLock));
    assert!(matches!(actions[2], StartAction::FindLauncher));
    match &actions[3] {
        StartAction::RunInfo(c) => assert_eq!(&c.args[0..2], ["index", "info"]),
        _ => panic!("expected index info"),
    }
    assert!(matches!(actions[4], StartAction::CreateLockDir));
    assert!(matches!(actions[5], StartAction::CreateLock));
    match &actions[6] {
        StartAction::StartJob { status, job } => {
            assert_eq!(status.status, "building");
            assert_eq!(status.message.as_deref(), Some("rlm index build started"));
            assert_eq!(&job.primary.args[0..2], ["index", "build"]);
            assert_eq!(job.primary.env[0].0, "RLM_INDEX_DIR");
            assert!(job.primary.env[0].1.contains(".build/unica/rlm-tools-bsl"));
            assert_eq!(job.lock_path, "/w/.build/unica/locks/bsl_index.lock");
        }
        _ => panic!("expected the job"),
    }
    assert_eq!(finish_warnings(&actions[7]), vec!["rlm index build started"]);
}

#[test]
fn repeated_detect_does_not_start_duplicate_indexing_while_lock_exists() {
    let actions = drive(
        vec![StartEvent::Started, StartEvent::SourceRoot(Some("/w/src".to_string())), StartEvent::LockActive(true)],
        false,
    );
    assert_eq!(finish_warnings(&actions[2]), vec!["rlm index building"]);
}

#[test]
fn ready_info_writes_ready_status_and_does_not_start_background_job() {
    let actions = drive(
        vec![
            StartEvent::Started,
            StartEvent::SourceRoot(Some("/w/src".to_string())),
            StartEvent::LockActive(false),
            StartEvent::Launcher { plugin_root: Some("/p".to_string()), launcher_exists: true },
            StartEvent::Info(Ok(success("Index: /c/a/bsl_index.db\n  Status:   fresh\n"))),
        ],
        false,
    );
    match &actions[4] {
        StartAction::Finish { remove_lock, status, report } => {
            assert!(!remove_lock);
            let status = status.as_ref().unwrap();
            assert_eq!(status.status, "ready");
            assert_eq!(status.db_path.as_deref(), Some("/c/a/bsl_index.db"));
            assert_eq!(status.updated_at, 100);
            assert!(report.warnings.is_empty());
        }
        _ => panic!("expected the end"),
    }
}

#[test]
fn stale_index_starts_background_update() {
    let actions = drive(
        vec![
            StartEvent::Started,
            StartEvent::SourceRoot(Some("/w/src".to_string())),
            StartEvent::LockActive(false),
            StartEvent::Launcher { plugin_root: Some("/p".to_string()), launcher_exists: true },
            StartEvent::Info(Ok(success("Index: /tmp/bsl_index.db\n  Status:   stale (age)\n"))),
            StartEvent::LockDir(Ok(())),
            StartEvent::Lock(LockResult::Acquired),
            StartEvent::JobStarted(Ok(())),
        ],
        false,
    );
    match &actions[6] {
        StartAction::StartJob { job, .. } => assert_eq!(&job.primary.args[0..2], ["index", "update"]),
        _ => panic!("expected the job"),
    }
    assert_eq!(finish_warnings(&actions[7]), vec!["rlm index building"]);
}

#[test]
fn failures_are_recorded() {
    let unresolved = drive(vec![StartEvent::Started, StartEvent::SourceRoot(None)], false);
    match &unresolved[1] {
        StartAction::Finish { status: Some(s), .. } => {
            assert_eq!(s.status, "unavailable");
            assert_eq!(s.message.as_deref(), Some("could not resolve 1C source root"));
            assert!(s.source_root.is_none());
        }
        _ => panic!("expected a recorded failure"),
    }
    let job_failed = drive(
        vec![
            StartEvent::Started,
            StartEvent::SourceRoot(Some("/w/src".to_string())),
            StartEvent::LockActive(false),
            StartEvent::Launcher { plugin_root: Some("/p".to_string()), launcher_exists: true },
            StartEvent::Info(Ok(success("Index not found"))),
            StartEvent::LockDir(Ok(())),
            StartEvent::Lock(LockResult::Acquired),
            StartEvent::JobStarted(Err("no threads".to_string())),
        ],
        false,
    );
    match &job_failed[7] {
        StartAction::Finish { remove_lock, status: Some(s), report } => {
            assert!(*remove_lock);
            assert_eq!(s.status, "failed");
            assert_eq!(s.message.as_deref(), Some("no threads"));
            assert!(report.warnings.is_empty());
        }
        _ => panic!("expected the lock to be released"),
    }
    let taken = drive(
        vec![
            StartEvent::Started,
            StartEvent::SourceRoot(Some("/w/src".to_string())),
            StartEvent::LockActive(false),
            StartEvent::Launcher { plugin_root: Some("/p".to_string()), launcher_exists: true },
            StartEvent::Info(Ok(success("Index not found"))),
            StartEvent::LockDir(Ok(())),
            StartEvent::Lock(LockResult::AlreadyExists),
        ],
        false,
    );
    assert_eq!(finish_warnings(&taken[6]), vec!["rlm index building"]);
}

#[test]
fn readiness_is_asked_lock_first() {
    let service = WorkspaceIndexService::new();
    let ctx = context();
    let (s, a) = service.ready_step(&ctx, 1, ReadyState::Begin, StartEvent::Started);
    assert!(matches!(a, ReadyAction::CheckLock));
    let (_, a) = service.ready_step(&ctx, 1, s, StartEvent::LockActive(true));
    match a {
        ReadyAction::Answer { status, readiness } => {
            assert!(status.is_none());
            assert!(matches!(readiness, IndexReadiness::Building));
        }
        _ => panic!("expected an answer"),
    }
    let (s, _) = service.ready_step(&ctx, 1, ReadyState::Begin, StartEvent::Started);
    let (s, _) = service.ready_step(&ctx, 1, s, StartEvent::LockActive(false));
    let (s, _) = service.ready_step(&ctx, 1, s, StartEvent::SourceRoot(Some("/w/src".to_string())));
    let (s, a) = service.ready_step(&ctx, 1, s, StartEvent::Launcher { plugin_root: Some("/p".to_string()), launcher_exists: true });
    assert!(matches!(a, ReadyAction::RunInfo(_)));
    let (_, a) = service.ready_step(&ctx, 1, s, StartEvent::Info(Ok(success("Index: /db\nStatus: fresh"))));
    match a {
        ReadyAction::Answer { status, readiness } => {
            assert_eq!(status.unwrap().status, "ready");
            assert!(matches!(readiness, IndexReadiness::Ready { .. }));
        }
        _ => panic!("expected an answer"),
    }
}

#[test]
fn source_roots_are_tried_in_order() {
    let mut args = JsonObject::new();
    args.insert("path".to_string(), JsonValue::String("rel/src".to_string()));
    args.insert("sourceDir".to_string(), JsonValue::String("/abs/src".to_string()));
    assert_eq!(
        source_root_candidates(&context(), &args),
        vec!["/abs/src", "/w/rel/src", "/w/src", "/w/src/cf", "/w"]
    );
}

fn command(action: &str) -> IndexCommand {
    IndexCommand {
        program: "/p/scripts/run-rlm-bsl-index.sh".to_string(),
        args: vec![action.to_string()],
        cwd: "/w".to_string(),
        env: Vec::new(),
        timeout_secs: 10,
    }
}

fn job() -> IndexBackgroundJob {
    WorkspaceIndexService::background_job(&context(), "build", "/w/src".to_string(), command("build"), command("info"))
}

#[test]
fn background_job_waits_for_info_after_a_successful_build() {
    assert!(status_after_primary(&job(), &Ok(info(true, "", "")), 5).is_none());
}

#[test]
fn background_job_records_a_failed_build() {
    let s = status_after_primary(&job(), &Ok(info(false, "", " disk full \n")), 5).unwrap();
    assert_eq!(s.status, "failed");
    assert_eq!(s.message.as_deref(), Some("rlm index build failed: exit status: 1 disk full"));
    assert_eq!(s.source_root.as_deref(), Some("/w/src"));
    assert_eq!(s.updated_at, 5);
    let s = status_after_primary(&job(), &Err("failed to execute RLM index process: nope".to_string()), 6).unwrap();
    assert_eq!(s.status, "failed");
    assert_eq!(s.message.as_deref(), Some("failed to execute RLM index process: nope"));
}

#[test]
fn background_job_records_what_info_reports() {
    let ready = status_after_info(&job(), &Ok(info(true, "Index: /tmp/bsl.db\n  Status:   fresh\n", "")), 7);
    assert_eq!(ready.status, "ready");
    assert_eq!(ready.db_path.as_deref(), Some("/tmp/bsl.db"));
    assert_eq!(ready.source_root.as_deref(), Some("/w/src"));
    assert!(ready.message.is_none());
    let missing = status_after_info(&job(), &Ok(info(true, "Index not found: /tmp/bsl.db", "")), 8);
    assert_eq!(missing.status, "failed");
    assert_eq!(missing.message.as_deref(), Some("rlm index build finished but info is Missing"));
    let broken = status_after_info(&job(), &Ok(info(false, "", "say \"hi\"")), 9);
    assert_eq!(
        broken.message.as_deref(),
        Some("rlm index build finished but info is Unavailable(\"say \\\"hi\\\"\")")
    );
    let lost = status_after_info(&job(), &Err("failed to poll RLM index process".to_string()), 10);
    assert_eq!(lost.status, "failed");
    assert_eq!(lost.message.as_deref(), Some("failed to poll RLM index process"));
}

#[test]
fn readiness_prints_as_its_debug_form() {
    for r in [
        IndexReadiness::Missing,
        IndexReadiness::Stale,
        IndexReadiness::Building,
        IndexReadiness::Failed("a\"b".to_string()),
        IndexReadiness::Unavailable("x".to_string()),
        IndexReadiness::Ready { db_path: "/d.db".to_string() },
    ] {
        assert_eq!(readiness_debug(&r), format!("{:?}", r));
    }
}
