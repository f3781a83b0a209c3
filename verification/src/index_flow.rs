//! Starting the code index for a tool call, and asking whether it is ready,
//! as steps: each step takes what the caller found out and says what the
//! caller does next.  The caller looks at the file system, runs the
//! launcher, takes the lock and starts the background job.

use vstd::prelude::*;
use crate::index::{
    decide_after_info, index_command_ok, index_launcher_spec,
    readiness_from_info, readiness_ok, BslIndexStatus, IndexBackgroundJob, IndexCommand,
    IndexDecision, IndexOutput, IndexReadiness, IndexStartReport, WorkspaceIndexService,
    INDEX_BUILD_TIMEOUT_SECS, INDEX_INFO_TIMEOUT_SECS,
};
use crate::text::{concat, views};
use crate::workspace::{lock_path_spec, status_path_spec, WorkspaceContext};

verus! {

/// A status record of a given kind.
pub open spec fn status_ok(
    s: BslIndexStatus,
    kind: Seq<char>,
    source_root: Option<Seq<char>>,
    db_path: Option<Seq<char>>,
    message: Option<Seq<char>>,
    now: u64,
) -> bool {
    &&& s.status@ == kind
    &&& match s.source_root {
        Some(r) => source_root == Some(r@),
        None => source_root is None,
    }
    &&& match s.db_path {
        Some(d) => db_path == Some(d@),
        None => db_path is None,
    }
    &&& match s.message {
        Some(m) => message == Some(m@),
        None => message is None,
    }
    &&& s.updated_at == now
}

// ---------------------------------------------------------------------------
// Starting the index
// ---------------------------------------------------------------------------

/// Where starting the index stands.
pub enum StartState {
    /// Nothing was asked yet.
    Begin,
    /// The source root is being resolved.
    Resolving,
    /// The lock of a running build is being looked for.
    CheckingLock { source_root: String },
    /// The launcher is being looked up.
    FindingLauncher { source_root: String },
    /// `index info` runs with this launcher.
    Querying { source_root: String, launcher: String },
    /// The directory of the lock is being created for this job.
    LockingDir { job: IndexBackgroundJob, warning: &'static str },
    /// The lock file is being created for this job.
    Locking { job: IndexBackgroundJob, warning: &'static str },
    /// The job was handed to the runner.
    Starting { warning: &'static str },
    /// Finished.
    Done,
}

/// How taking the lock went.
pub enum LockResult {
    Acquired,
    AlreadyExists,
    Failed(String),
}

/// What the caller found out.
pub enum StartEvent {
    /// The start was asked for.
    Started,
    /// The 1C source root of the call, if one was found.
    SourceRoot(Option<String>),
    /// Whether the lock file of a running build exists.
    LockActive(bool),
    /// Where the plugin was found, and whether its index launcher exists.
    Launcher { plugin_root: Option<String>, launcher_exists: bool },
    /// What `index info` returned, or why it could not run.
    Info(Result<IndexOutput, String>),
    /// Whether the lock directory could be created.
    LockDir(Result<(), String>),
    /// Whether the lock was taken.
    Lock(LockResult),
    /// Whether the background job started.
    JobStarted(Result<(), String>),
}

/// What the caller does next.
pub enum StartAction {
    ResolveSourceRoot,
    CheckLock,
    FindLauncher,
    RunInfo(IndexCommand),
    /// Create the directory of the job's lock file.
    CreateLockDir,
    /// Create the job's lock file, failing if it exists.
    CreateLock,
    /// Record the status (a failure to write it is ignored), then start the
    /// job.
    StartJob { status: BslIndexStatus, job: IndexBackgroundJob },
    /// Remove the lock file if asked, record the status if there is one
    /// (failures ignored), and end with the report.
    Finish { remove_lock: bool, status: Option<BslIndexStatus>, report: IndexStartReport },
}

/// Ends without writing anything, with these warnings.
pub open spec fn finishes_quietly(a: StartAction, warnings: Seq<Seq<char>>) -> bool {
    a matches StartAction::Finish { remove_lock, status, report } && !remove_lock && status is None
        && views(report.warnings@) == warnings
}

/// Ends after recording a status of `kind`, without warnings.
pub open spec fn finishes_recording(
    a: StartAction,
    remove: bool,
    kind: Seq<char>,
    source_root: Option<Seq<char>>,
    db_path: Option<Seq<char>>,
    message: Option<Seq<char>>,
    now: u64,
) -> bool {
    a matches StartAction::Finish { remove_lock, status, report } && remove_lock == remove
        && report.warnings@.len() == 0 && (status matches Some(s) && status_ok(
        s,
        kind,
        source_root,
        db_path,
        message,
        now,
    ))
}

/// The job that builds (or updates) the index of a source root with a
/// launcher.
pub open spec fn job_ok(
    job: IndexBackgroundJob,
    context: WorkspaceContext,
    action: Seq<char>,
    source_root: Seq<char>,
    launcher: Seq<char>,
) -> bool {
    &&& job.action@ == action
    &&& job.source_root@ == source_root
    &&& index_command_ok(job.primary, launcher, action, source_root, context, INDEX_BUILD_TIMEOUT_SECS)
    &&& index_command_ok(job.info, launcher, "info"@, source_root, context, INDEX_INFO_TIMEOUT_SECS)
    &&& job.status_path@ == status_path_spec(context.cache_root@, context.platform)
    &&& job.lock_path@ == lock_path_spec(context.cache_root@, context.platform)
}

/// What follows `index info`.
pub open spec fn after_info_ok(
    next: StartState,
    a: StartAction,
    context: WorkspaceContext,
    source_root: Seq<char>,
    launcher: Seq<char>,
    readiness: IndexReadiness,
    now: u64,
) -> bool {
    match readiness {
        IndexReadiness::Ready { db_path } => next is Done && finishes_recording(
            a,
            false,
            "ready"@,
            Some(source_root),
            Some(db_path@),
            None,
            now,
        ),
        IndexReadiness::Missing => a is CreateLockDir && (next matches StartState::LockingDir { job, warning }
            && job_ok(job, context, "build"@, source_root, launcher) && warning@ == "rlm index build started"@),
        IndexReadiness::Stale => a is CreateLockDir && (next matches StartState::LockingDir { job, warning }
            && job_ok(job, context, "update"@, source_root, launcher) && warning@ == "rlm index building"@),
        IndexReadiness::Building => next is Done && finishes_quietly(a, seq!["rlm index building"@]),
        IndexReadiness::Failed(m) => next is Done && finishes_recording(
            a,
            false,
            "unavailable"@,
            Some(source_root),
            None,
            Some(m@),
            now,
        ),
        IndexReadiness::Unavailable(m) => next is Done && finishes_recording(
            a,
            false,
            "unavailable"@,
            Some(source_root),
            None,
            Some(m@),
            now,
        ),
    }
}

/// One step of starting the index.  A dry run ends at once.  Otherwise:
/// resolve the source root (none: record it unavailable), look for the
/// lock of a running build (found: warn that the index is building), look
/// up the launcher (missing: record unavailable), run `index info`, and act
/// on its answer: record a ready index, warn about a building one, record a
/// failure, or build a missing index (update a stale one) in the background
/// under the lock.  An event that does not answer the last action ends the
/// start quietly.
pub open spec fn start_step_ok(
    context: WorkspaceContext,
    dry_run: bool,
    now: u64,
    state: StartState,
    event: StartEvent,
    next: StartState,
    a: StartAction,
) -> bool {
    match (state, event) {
        (StartState::Begin, StartEvent::Started) => if dry_run {
            next is Done && finishes_quietly(a, seq![])
        } else {
            next is Resolving && a is ResolveSourceRoot
        },
        (StartState::Resolving, StartEvent::SourceRoot(None)) => next is Done && finishes_recording(
            a,
            false,
            "unavailable"@,
            None,
            None,
            Some("could not resolve 1C source root"@),
            now,
        ),
        (StartState::Resolving, StartEvent::SourceRoot(Some(root))) => a is CheckLock && (next matches StartState::CheckingLock {
            source_root,
        } && source_root@ == root@),
        (StartState::CheckingLock { source_root }, StartEvent::LockActive(true)) => next is Done
            && finishes_quietly(a, seq!["rlm index building"@]),
        (StartState::CheckingLock { source_root }, StartEvent::LockActive(false)) => a is FindLauncher
            && (next matches StartState::FindingLauncher { source_root: r } && r@ == source_root@),
        (StartState::FindingLauncher { source_root }, StartEvent::Launcher { plugin_root, launcher_exists }) => match plugin_root {
            None => next is Done && finishes_recording(
                a,
                false,
                "unavailable"@,
                Some(source_root@),
                None,
                Some("could not locate Unica plugin root for internal RLM index adapter lookup"@),
                now,
            ),
            Some(root) => if !launcher_exists {
                next is Done && finishes_recording(
                    a,
                    false,
                    "unavailable"@,
                    Some(source_root@),
                    None,
                    Some("internal RLM index launcher not found: "@ + index_launcher_spec(root@, context.platform)),
                    now,
                )
            } else {
                (next matches StartState::Querying { source_root: r, launcher } && r@ == source_root@
                    && launcher@ == index_launcher_spec(root@, context.platform)) && (a matches StartAction::RunInfo(c)
                    && index_command_ok(c, index_launcher_spec(root@, context.platform), "info"@, source_root@, context, INDEX_INFO_TIMEOUT_SECS))
            },
        },
        (StartState::Querying { source_root, launcher }, StartEvent::Info(Err(e))) => next is Done
            && finishes_recording(a, false, "unavailable"@, Some(source_root@), None, Some(e@), now),
        (StartState::Querying { source_root, launcher }, StartEvent::Info(Ok(out))) => exists|r: IndexReadiness|
            #[trigger] readiness_ok(r, out) && after_info_ok(next, a, context, source_root@, launcher@, r, now),
        (StartState::LockingDir { job, warning }, StartEvent::LockDir(Err(e))) => next is Done
            && finishes_recording(
            a,
            false,
            "failed"@,
            Some(job.source_root@),
            None,
            Some("failed to create RLM index lock directory: "@ + e@),
            now,
        ),
        (StartState::LockingDir { job, warning }, StartEvent::LockDir(Ok(()))) => a is CreateLock
            && (next matches StartState::Locking { job: j, warning: w } && j == job && w == warning),
        (StartState::Locking { job, warning }, StartEvent::Lock(LockResult::AlreadyExists)) => next is Done
            && finishes_quietly(a, seq!["rlm index building"@]),
        (StartState::Locking { job, warning }, StartEvent::Lock(LockResult::Failed(e))) => next is Done
            && finishes_recording(
            a,
            false,
            "failed"@,
            Some(job.source_root@),
            None,
            Some("failed to acquire RLM index lock: "@ + e@),
            now,
        ),
        (StartState::Locking { job, warning }, StartEvent::Lock(LockResult::Acquired)) => next matches StartState::Starting {
            warning: w,
        } && w == warning && (a matches StartAction::StartJob { status, job: j } && j == job
            && status_ok(
            status,
            "building"@,
            Some(job.source_root@),
            None,
            Some("rlm index "@ + job.action@ + " started"@),
            now,
        )),
        (StartState::Starting { warning }, StartEvent::JobStarted(Err(e))) => next is Done
            && finishes_recording(a, true, "failed"@, None, None, Some(e@), now),
        (StartState::Starting { warning }, StartEvent::JobStarted(Ok(()))) => next is Done
            && finishes_quietly(a, seq![warning@]),
        _ => next is Done && finishes_quietly(a, seq![]),
    }
}

fn finish_quietly(report: IndexStartReport) -> (r: (StartState, StartAction))
    ensures
        r.0 is Done,
        r.1 matches StartAction::Finish { remove_lock, status, report: rep } && !remove_lock && status is None
            && rep == report,
{
    (StartState::Done, StartAction::Finish { remove_lock: false, status: None, report })
}

fn finish_recording(remove_lock: bool, status: BslIndexStatus) -> (r: (StartState, StartAction))
    ensures
        r.0 is Done,
        r.1 matches StartAction::Finish { remove_lock: x, status: s, report } && x == remove_lock && s == Some(
            status,
        ) && report.warnings@.len() == 0,
{
    (StartState::Done, StartAction::Finish { remove_lock, status: Some(status), report: IndexStartReport::empty() })
}

fn after_info(
    context: &WorkspaceContext,
    source_root: String,
    launcher: String,
    output: &IndexOutput,
    now: u64,
) -> (r: (StartState, StartAction))
    ensures
        exists|x: IndexReadiness|
            #[trigger] readiness_ok(x, *output) && after_info_ok(
                r.0,
                r.1,
                *context,
                source_root@,
                launcher@,
                x,
                now,
            ),
{
    let readiness = readiness_from_info(output);
    let decision = decide_after_info(readiness);
    match decision {
        IndexDecision::RecordReady { db_path } => {
            finish_recording(false, BslIndexStatus::ready(source_root.as_str(), db_path.as_str(), now))
        },
        IndexDecision::StartBackground { action, update, warning } => {
            let primary = crate::index::index_command(
                launcher.as_str(),
                action,
                source_root.as_str(),
                context,
                INDEX_BUILD_TIMEOUT_SECS,
            );
            let info = crate::index::index_command(
                launcher.as_str(),
                "info",
                source_root.as_str(),
                context,
                INDEX_INFO_TIMEOUT_SECS,
            );
            let job = WorkspaceIndexService::background_job(context, action, source_root, primary, info);
            (StartState::LockingDir { job, warning }, StartAction::CreateLockDir)
        },
        IndexDecision::Warn(w) => {
            let r = finish_quietly(IndexStartReport::warning(w));
            proof {
                let rep = r.1->Finish_report;
                assert(views(rep.warnings@) =~= seq![w@]);
            }
            r
        },
        IndexDecision::RecordUnavailable(message) => {
            finish_recording(
                false,
                BslIndexStatus::unavailable(message.as_str(), Some(source_root.as_str()), now),
            )
        },
    }
}

impl WorkspaceIndexService {
    /// One step of starting the index for a tool call (see
    /// [`start_step_ok`]); the first step takes `Started` in `Begin`.
    pub fn start_step(
        &self,
        context: &WorkspaceContext,
        dry_run: bool,
        now: u64,
        state: StartState,
        event: StartEvent,
    ) -> (r: (StartState, StartAction))
        ensures
            start_step_ok(*context, dry_run, now, state, event, r.0, r.1),
    {
        match (state, event) {
            (StartState::Begin, StartEvent::Started) => {
                if dry_run {
                    let r = finish_quietly(IndexStartReport::empty());
                    assert(views(r.1->Finish_report.warnings@) =~= seq![]);
                    r
                } else {
                    (StartState::Resolving, StartAction::ResolveSourceRoot)
                }
            },
            (StartState::Resolving, StartEvent::SourceRoot(None)) => finish_recording(
                false,
                BslIndexStatus::unavailable("could not resolve 1C source root", None, now),
            ),
            (StartState::Resolving, StartEvent::SourceRoot(Some(root))) => (
                StartState::CheckingLock { source_root: root },
                StartAction::CheckLock,
            ),
            (StartState::CheckingLock { source_root }, StartEvent::LockActive(active)) => {
                if active {
                    let r = finish_quietly(IndexStartReport::warning("rlm index building"));
                    assert(views(r.1->Finish_report.warnings@) =~= seq!["rlm index building"@]);
                    r
                } else {
                    (StartState::FindingLauncher { source_root }, StartAction::FindLauncher)
                }
            },
            (StartState::FindingLauncher { source_root }, StartEvent::Launcher { plugin_root, launcher_exists }) => {
                let root = match plugin_root {
                    Some(root) => root,
                    None => {
                        return finish_recording(
                            false,
                            BslIndexStatus::unavailable(
                                "could not locate Unica plugin root for internal RLM index adapter lookup",
                                Some(source_root.as_str()),
                                now,
                            ),
                        );
                    },
                };
                let launcher = WorkspaceIndexService::launcher_path(root.as_str(), context.platform);
                if !launcher_exists {
                    let message = concat("internal RLM index launcher not found: ", launcher.as_str());
                    return finish_recording(
                        false,
                        BslIndexStatus::unavailable(message.as_str(), Some(source_root.as_str()), now),
                    );
                }
                let info = crate::index::index_command(
                    launcher.as_str(),
                    "info",
                    source_root.as_str(),
                    context,
                    INDEX_INFO_TIMEOUT_SECS,
                );
                (StartState::Querying { source_root, launcher }, StartAction::RunInfo(info))
            },
            (StartState::Querying { source_root, launcher }, StartEvent::Info(result)) => match result {
                Err(e) => finish_recording(
                    false,
                    BslIndexStatus::unavailable(e.as_str(), Some(source_root.as_str()), now),
                ),
                Ok(output) => after_info(context, source_root, launcher, &output, now),
            },
            (StartState::LockingDir { job, warning }, StartEvent::LockDir(result)) => match result {
                Err(e) => {
                    let message = concat("failed to create RLM index lock directory: ", e.as_str());
                    finish_recording(
                        false,
                        BslIndexStatus::failed(message.as_str(), Some(job.source_root.as_str()), now),
                    )
                },
                Ok(()) => (StartState::Locking { job, warning }, StartAction::CreateLock),
            },
            (StartState::Locking { job, warning }, StartEvent::Lock(result)) => match result {
                LockResult::AlreadyExists => {
                    let r = finish_quietly(IndexStartReport::warning("rlm index building"));
                    assert(views(r.1->Finish_report.warnings@) =~= seq!["rlm index building"@]);
                    r
                },
                LockResult::Failed(e) => {
                    let message = concat("failed to acquire RLM index lock: ", e.as_str());
                    finish_recording(
                        false,
                        BslIndexStatus::failed(message.as_str(), Some(job.source_root.as_str()), now),
                    )
                },
                LockResult::Acquired => {
                    let status = BslIndexStatus::building(job.action.as_str(), Some(job.source_root.as_str()), now);
                    (StartState::Starting { warning }, StartAction::StartJob { status, job })
                },
            },
            (StartState::Starting { warning }, StartEvent::JobStarted(result)) => match result {
                Err(e) => finish_recording(true, BslIndexStatus::failed(e.as_str(), None, now)),
                Ok(()) => {
                    let r = finish_quietly(IndexStartReport::warning(warning));
                    assert(views(r.1->Finish_report.warnings@) =~= seq![warning@]);
                    r
                },
            },
            _ => {
                let r = finish_quietly(IndexStartReport::empty());
                assert(views(r.1->Finish_report.warnings@) =~= seq![]);
                r
            },
        }
    }
}


/// A dry run starts nothing: its first step ends the start without
/// recording anything and without warnings.
pub proof fn lemma_dry_run_starts_nothing(
    context: WorkspaceContext,
    now: u64,
    next: StartState,
    a: StartAction,
)
    requires
        start_step_ok(context, true, now, StartState::Begin, StartEvent::Started, next, a),
    ensures
        next is Done,
        finishes_quietly(a, seq![]),
{
}

/// A background job is started only once its lock was taken.
pub proof fn lemma_job_starts_only_under_lock(
    context: WorkspaceContext,
    dry_run: bool,
    now: u64,
    state: StartState,
    event: StartEvent,
    next: StartState,
    a: StartAction,
)
    requires
        start_step_ok(context, dry_run, now, state, event, next, a),
        a is StartJob,
    ensures
        state is Locking,
        event matches StartEvent::Lock(LockResult::Acquired),
{
}

/// The lock is removed only when the job it was taken for did not start.
pub proof fn lemma_lock_removed_only_when_job_failed(
    context: WorkspaceContext,
    dry_run: bool,
    now: u64,
    state: StartState,
    event: StartEvent,
    next: StartState,
    a: StartAction,
)
    requires
        start_step_ok(context, dry_run, now, state, event, next, a),
        a matches StartAction::Finish { remove_lock, .. } && remove_lock,
    ensures
        state is Starting,
        event matches StartEvent::JobStarted(Err(_)),
{
}

// ---------------------------------------------------------------------------
// Asking whether the index is ready
// ---------------------------------------------------------------------------

/// Where asking for the index stands.
pub enum ReadyState {
    Begin,
    CheckingLock,
    Resolving,
    FindingLauncher { source_root: String },
    Querying { source_root: String },
    Done,
}

/// What the caller does next.
pub enum ReadyAction {
    CheckLock,
    ResolveSourceRoot,
    FindLauncher,
    RunInfo(IndexCommand),
    /// Record the status if there is one (failures ignored), and answer.
    Answer { status: Option<BslIndexStatus>, readiness: IndexReadiness },
}

/// Answers without recording anything.
pub open spec fn answers_unavailable(a: ReadyAction, message: Seq<char>) -> bool {
    a matches ReadyAction::Answer { status, readiness } && status is None && (readiness matches IndexReadiness::Unavailable(m)
        && m@ == message)
}

/// One step of asking whether the index is ready: a running build answers
/// `Building`; then the source root, the launcher and `index info` are
/// needed, each failure answering `Unavailable`; `index info` decides, and a
/// ready index is recorded as ready.  An event that does not answer the last
/// action answers that the index is unavailable.
pub open spec fn ready_step_ok(
    context: WorkspaceContext,
    now: u64,
    state: ReadyState,
    event: StartEvent,
    next: ReadyState,
    a: ReadyAction,
) -> bool {
    match (state, event) {
        (ReadyState::Begin, StartEvent::Started) => next is CheckingLock && a is CheckLock,
        (ReadyState::CheckingLock, StartEvent::LockActive(true)) => next is Done && (a matches ReadyAction::Answer {
            status,
            readiness,
        } && status is None && readiness is Building),
        (ReadyState::CheckingLock, StartEvent::LockActive(false)) => next is Resolving && a is ResolveSourceRoot,
        (ReadyState::Resolving, StartEvent::SourceRoot(None)) => next is Done && answers_unavailable(
            a,
            "could not resolve 1C source root"@,
        ),
        (ReadyState::Resolving, StartEvent::SourceRoot(Some(root))) => a is FindLauncher && (next matches ReadyState::FindingLauncher {
            source_root,
        } && source_root@ == root@),
        (ReadyState::FindingLauncher { source_root }, StartEvent::Launcher { plugin_root, launcher_exists }) => match plugin_root {
            None => next is Done && answers_unavailable(
                a,
                "could not locate Unica plugin root for internal RLM index adapter lookup"@,
            ),
            Some(root) => if !launcher_exists {
                next is Done && answers_unavailable(
                    a,
                    "internal RLM index launcher not found: "@ + index_launcher_spec(root@, context.platform),
                )
            } else {
                (next matches ReadyState::Querying { source_root: r } && r@ == source_root@) && (a matches ReadyAction::RunInfo(
                    c,
                ) && index_command_ok(
                    c,
                    index_launcher_spec(root@, context.platform),
                    "info"@,
                    source_root@,
                    context,
                    INDEX_INFO_TIMEOUT_SECS,
                ))
            },
        },
        (ReadyState::Querying { source_root }, StartEvent::Info(Err(e))) => next is Done && answers_unavailable(a, e@),
        (ReadyState::Querying { source_root }, StartEvent::Info(Ok(out))) => next is Done && (a matches ReadyAction::Answer {
            status,
            readiness,
        } && readiness_ok(readiness, out) && match readiness {
            IndexReadiness::Ready { db_path } => status matches Some(s) && status_ok(
                s,
                "ready"@,
                Some(source_root@),
                Some(db_path@),
                None,
                now,
            ),
            _ => status is None,
        }),
        _ => next is Done && answers_unavailable(a, "index readiness was not asked in order"@),
    }
}

fn answer_unavailable(message: &str) -> (r: (ReadyState, ReadyAction))
    ensures
        r.0 is Done,
        answers_unavailable(r.1, message@),
{
    (ReadyState::Done, ReadyAction::Answer { status: None, readiness: IndexReadiness::Unavailable(message.to_string()) })
}

impl WorkspaceIndexService {
    /// One step of asking whether the index is ready (see
    /// [`ready_step_ok`]); the first step takes `Started` in `Begin`.
    pub fn ready_step(
        &self,
        context: &WorkspaceContext,
        now: u64,
        state: ReadyState,
        event: StartEvent,
    ) -> (r: (ReadyState, ReadyAction))
        ensures
            ready_step_ok(*context, now, state, event, r.0, r.1),
    {
        match (state, event) {
            (ReadyState::Begin, StartEvent::Started) => (ReadyState::CheckingLock, ReadyAction::CheckLock),
            (ReadyState::CheckingLock, StartEvent::LockActive(active)) => {
                if active {
                    (ReadyState::Done, ReadyAction::Answer { status: None, readiness: IndexReadiness::Building })
                } else {
                    (ReadyState::Resolving, ReadyAction::ResolveSourceRoot)
                }
            },
            (ReadyState::Resolving, StartEvent::SourceRoot(root)) => match root {
                None => answer_unavailable("could not resolve 1C source root"),
                Some(source_root) => (ReadyState::FindingLauncher { source_root }, ReadyAction::FindLauncher),
            },
            (ReadyState::FindingLauncher { source_root }, StartEvent::Launcher { plugin_root, launcher_exists }) => {
                let root = match plugin_root {
                    Some(root) => root,
                    None => {
                        return answer_unavailable(
                            "could not locate Unica plugin root for internal RLM index adapter lookup",
                        );
                    },
                };
                let launcher = WorkspaceIndexService::launcher_path(root.as_str(), context.platform);
                if !launcher_exists {
                    let message = concat("internal RLM index launcher not found: ", launcher.as_str());
                    return answer_unavailable(message.as_str());
                }
                let info = crate::index::index_command(
                    launcher.as_str(),
                    "info",
                    source_root.as_str(),
                    context,
                    INDEX_INFO_TIMEOUT_SECS,
                );
                (ReadyState::Querying { source_root }, ReadyAction::RunInfo(info))
            },
            (ReadyState::Querying { source_root }, StartEvent::Info(result)) => match result {
                Err(e) => answer_unavailable(e.as_str()),
                Ok(output) => {
                    let readiness = readiness_from_info(&output);
                    let status = match &readiness {
                        IndexReadiness::Ready { db_path } => Some(
                            BslIndexStatus::ready(source_root.as_str(), db_path.as_str(), now),
                        ),
                        _ => None,
                    };
                    (ReadyState::Done, ReadyAction::Answer { status, readiness })
                },
            },
            _ => answer_unavailable("index readiness was not asked in order"),
        }
    }
}

} // verus!
