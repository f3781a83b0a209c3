//! The RLM code index of a workspace: the commands that query and build it,
//! how its `index info` report is read, and what is done about each state.
//! Running the commands, the lock file and the status file are the caller's.

use vstd::prelude::*;
use crate::text::{
    views, chars_of, concat, contains, debug_text, lines, lines_seq, seq_contains, seq_starts_with,
    slice_string, starts_with, str_debug, str_eq, trim, trim_chars, trim_seq,
};
use crate::workspace::{
    lock_path, lock_path_spec, path_join, path_join_spec, rlm_index_dir, status_path,
    status_path_spec, Platform, WorkspaceContext,
};

verus! {

/// How long `index info` may take, in seconds.
pub const INDEX_INFO_TIMEOUT_SECS: u64 = 30;

/// How long an index build or update may take, in seconds (a day).
pub const INDEX_BUILD_TIMEOUT_SECS: u64 = 86400;

/// The state of the code index, as `index info` reports it.
#[derive(Debug)]
pub enum IndexReadiness {
    Ready { db_path: String },
    Missing,
    Stale,
    Building,
    Failed(String),
    Unavailable(String),
}

/// Warnings that starting the index adds to a tool's answer.
pub struct IndexStartReport {
    pub warnings: Vec<String>,
}

impl IndexStartReport {
    pub fn empty() -> (r: Self)
        ensures
            r.warnings@.len() == 0,
    {
        IndexStartReport { warnings: Vec::new() }
    }

    pub fn warning(text: &str) -> (r: Self)
        ensures
            r.warnings@.len() == 1,
            r.warnings@[0]@ == text@,
    {
        let mut warnings = Vec::new();
        warnings.push(text.to_string());
        IndexStartReport { warnings }
    }
}

impl Default for IndexStartReport {
    fn default() -> (r: Self)
        ensures
            r.warnings@.len() == 0,
    {
        IndexStartReport::empty()
    }
}

/// What the status file records about the index.
pub struct BslIndexStatus {
    pub status: String,
    pub source_root: Option<String>,
    pub db_path: Option<String>,
    pub message: Option<String>,
    pub updated_at: u64,
}

fn copy_opt(s: Option<&str>) -> (r: Option<String>)
    ensures
        r is Some == s is Some,
        r matches Some(x) ==> x@ == s->0@,
{
    match s {
        Some(x) => Some(x.to_string()),
        None => None,
    }
}

impl BslIndexStatus {
    pub fn ready(source_root: &str, db_path: &str, now: u64) -> (s: Self)
        ensures
            s.status@ == "ready"@,
            s.source_root matches Some(r) && r@ == source_root@,
            s.db_path matches Some(d) && d@ == db_path@,
            s.message is None,
            s.updated_at == now,
    {
        BslIndexStatus {
            status: "ready".to_string(),
            source_root: Some(source_root.to_string()),
            db_path: Some(db_path.to_string()),
            message: None,
            updated_at: now,
        }
    }

    pub fn building(action: &str, source_root: Option<&str>, now: u64) -> (s: Self)
        ensures
            s.status@ == "building"@,
            s.source_root is Some == source_root is Some,
            s.source_root matches Some(r) ==> r@ == source_root->0@,
            s.db_path is None,
            s.message matches Some(m) && m@ == "rlm index "@ + action@ + " started"@,
            s.updated_at == now,
    {
        BslIndexStatus {
            status: "building".to_string(),
            source_root: copy_opt(source_root),
            db_path: None,
            message: Some(crate::text::concat3("rlm index ", action, " started")),
            updated_at: now,
        }
    }

    pub fn failed(message: &str, source_root: Option<&str>, now: u64) -> (s: Self)
        ensures
            s.status@ == "failed"@,
            s.source_root is Some == source_root is Some,
            s.source_root matches Some(r) ==> r@ == source_root->0@,
            s.db_path is None,
            s.message matches Some(m) && m@ == message@,
            s.updated_at == now,
    {
        BslIndexStatus {
            status: "failed".to_string(),
            source_root: copy_opt(source_root),
            db_path: None,
            message: Some(message.to_string()),
            updated_at: now,
        }
    }

    pub fn unavailable(message: &str, source_root: Option<&str>, now: u64) -> (s: Self)
        ensures
            s.status@ == "unavailable"@,
            s.source_root is Some == source_root is Some,
            s.source_root matches Some(r) ==> r@ == source_root->0@,
            s.db_path is None,
            s.message matches Some(m) && m@ == message@,
            s.updated_at == now,
    {
        BslIndexStatus {
            status: "unavailable".to_string(),
            source_root: copy_opt(source_root),
            db_path: None,
            message: Some(message.to_string()),
            updated_at: now,
        }
    }
}

/// The database to check when a recorded status says the index is ready:
/// only a `ready` status with a database path names one.
pub fn ready_db_path(status: &BslIndexStatus) -> (r: Option<String>)
    ensures
        r is Some == (status.status@ == "ready"@ && status.db_path is Some),
        r matches Some(p) ==> p@ == status.db_path->0@,
{
    if !str_eq(status.status.as_str(), "ready") {
        return None;
    }
    match &status.db_path {
        Some(p) => Some(p.clone()),
        None => None,
    }
}

/// A command of the RLM index launcher.
pub struct IndexCommand {
    pub program: String,
    pub args: Vec<String>,
    pub cwd: String,
    pub env: Vec<(String, String)>,
    pub timeout_secs: u64,
}

/// What an index command left.
pub struct IndexOutput {
    pub status_success: bool,
    pub status: String,
    pub stdout: String,
    pub stderr: String,
    pub timed_out: bool,
}

/// A build or update to run in the background, with the files that record
/// its progress.
pub struct IndexBackgroundJob {
    pub action: String,
    pub source_root: String,
    pub primary: IndexCommand,
    pub info: IndexCommand,
    pub status_path: String,
    pub lock_path: String,
}

/// The three commands of the index launcher for one source root.
pub struct IndexCommands {
    pub info: IndexCommand,
    pub build: IndexCommand,
    pub update: IndexCommand,
}

/// The service that keeps a workspace's code index up to date.
pub struct WorkspaceIndexService;

/// `<plugin root>/scripts/run-rlm-bsl-index.sh`.
pub open spec fn index_launcher_spec(root: Seq<char>, platform: Platform) -> Seq<char> {
    path_join_spec(path_join_spec(root, "scripts"@, platform), "run-rlm-bsl-index.sh"@, platform)
}

/// A launcher command `index <verb> <source root>` with the index directory
/// in its environment.
pub open spec fn index_command_ok(
    c: IndexCommand,
    launcher: Seq<char>,
    verb: Seq<char>,
    source_root: Seq<char>,
    context: WorkspaceContext,
    timeout: u64,
) -> bool {
    &&& c.program@ == launcher
    &&& c.args@.len() == 3
    &&& c.args@[0]@ == "index"@
    &&& c.args@[1]@ == verb
    &&& c.args@[2]@ == source_root
    &&& c.cwd@ == context.cwd@
    &&& c.env@.len() == 1
    &&& c.env@[0].0@ == "RLM_INDEX_DIR"@
    &&& c.env@[0].1@ == path_join_spec(context.cache_root@, "rlm-tools-bsl"@, context.platform)
    &&& c.timeout_secs == timeout
}

pub fn index_command(launcher: &str, verb: &str, source_root: &str, context: &WorkspaceContext, timeout: u64) -> (c: IndexCommand)
    ensures
        index_command_ok(c, launcher@, verb@, source_root@, *context, timeout),
{
    let mut args = Vec::new();
    args.push("index".to_string());
    args.push(verb.to_string());
    args.push(source_root.to_string());
    let mut env = Vec::new();
    env.push(("RLM_INDEX_DIR".to_string(), rlm_index_dir(context)));
    IndexCommand {
        program: launcher.to_string(),
        args,
        cwd: context.cwd.clone(),
        env,
        timeout_secs: timeout,
    }
}

impl WorkspaceIndexService {
    pub fn new() -> (s: Self) {
        WorkspaceIndexService
    }

    pub fn launcher_path(plugin_root: &str, platform: Platform) -> (p: String)
        ensures
            p@ == index_launcher_spec(plugin_root@, platform),
    {
        let dir = path_join(plugin_root, "scripts", platform);
        path_join(dir.as_str(), "run-rlm-bsl-index.sh", platform)
    }

    /// The `info`, `build` and `update` commands for a source root.
    /// `plugin_root` is where the plugin was found; `launcher_exists` tells
    /// whether the launcher under it exists.
    pub fn commands(
        &self,
        context: &WorkspaceContext,
        source_root: &str,
        plugin_root: Option<&str>,
        launcher_exists: bool,
    ) -> (r: Result<IndexCommands, String>)
        ensures
            match plugin_root {
                None => r matches Err(e) && e@
                    == "could not locate Unica plugin root for internal RLM index adapter lookup"@,
                Some(root) => if !launcher_exists {
                    r matches Err(e) && e@ == "internal RLM index launcher not found: "@
                        + index_launcher_spec(root@, context.platform)
                } else {
                    r matches Ok(c) && {
                        let l = index_launcher_spec(root@, context.platform);
                        &&& index_command_ok(c.info, l, "info"@, source_root@, *context, INDEX_INFO_TIMEOUT_SECS)
                        &&& index_command_ok(c.build, l, "build"@, source_root@, *context, INDEX_BUILD_TIMEOUT_SECS)
                        &&& index_command_ok(c.update, l, "update"@, source_root@, *context, INDEX_BUILD_TIMEOUT_SECS)
                    }
                },
            },
    {
        let root = match plugin_root {
            Some(root) => root,
            None => {
                return Err(
                    "could not locate Unica plugin root for internal RLM index adapter lookup".to_string(),
                );
            },
        };
        let launcher = Self::launcher_path(root, context.platform);
        if !launcher_exists {
            return Err(concat("internal RLM index launcher not found: ", launcher.as_str()));
        }
        Ok(
            IndexCommands {
                info: index_command(launcher.as_str(), "info", source_root, context, INDEX_INFO_TIMEOUT_SECS),
                build: index_command(launcher.as_str(), "build", source_root, context, INDEX_BUILD_TIMEOUT_SECS),
                update: index_command(launcher.as_str(), "update", source_root, context, INDEX_BUILD_TIMEOUT_SECS),
            },
        )
    }

    /// The job that builds or updates the index in the background, with the
    /// status and lock files of the workspace.
    pub fn background_job(
        context: &WorkspaceContext,
        action: &str,
        source_root: String,
        primary: IndexCommand,
        info: IndexCommand,
    ) -> (j: IndexBackgroundJob)
        ensures
            j.action@ == action@,
            j.source_root == source_root,
            j.primary == primary,
            j.info == info,
            j.status_path@ == status_path_spec(context.cache_root@, context.platform),
            j.lock_path@ == lock_path_spec(context.cache_root@, context.platform),
    {
        IndexBackgroundJob {
            action: action.to_string(),
            source_root,
            primary,
            info,
            status_path: status_path(context),
            lock_path: lock_path(context),
        }
    }
}

// ---------------------------------------------------------------------------
// Reading `index info`
// ---------------------------------------------------------------------------

/// The value after `<key>:` on a line, trimmed; `None` when the line does not
/// start with the key or the value is empty.
pub open spec fn line_value(line: Seq<char>, prefix: Seq<char>) -> Option<Seq<char>> {
    let t = trim_seq(line);
    if seq_starts_with(t, prefix) {
        let v = trim_seq(t.subrange(prefix.len() as int, t.len() as int));
        if v.len() > 0 {
            Some(v)
        } else {
            None
        }
    } else {
        None
    }
}

/// The first non-empty value of `<key>:` among the lines.
pub open spec fn first_line_value(lines: Seq<Seq<char>>, prefix: Seq<char>) -> Option<Seq<char>>
    decreases lines.len(),
{
    if lines.len() == 0 {
        None
    } else {
        match line_value(lines[0], prefix) {
            Some(v) => Some(v),
            None => first_line_value(lines.drop_first(), prefix),
        }
    }
}

pub open spec fn info_value_spec(stdout: Seq<char>, key: Seq<char>) -> Option<Seq<char>> {
    first_line_value(lines_seq(stdout), key + ":"@)
}

fn line_value_exec(line: &str, prefix: &str) -> (r: Option<String>)
    ensures
        r is Some == line_value(line@, prefix@) is Some,
        r matches Some(v) ==> line_value(line@, prefix@) == Some(v@),
{
    let t = trim(line);
    if !starts_with(t.as_str(), prefix) {
        return None;
    }
    let tv = chars_of(t.as_str());
    let n = prefix.unicode_len();
    let rest = slice_string(tv.as_slice(), n, tv.len());
    let v = trim(rest.as_str());
    if v.as_str().unicode_len() > 0 {
        Some(v)
    } else {
        None
    }
}

/// The value that `index info` prints after `<key>:`.
pub fn parse_info_value(stdout: &str, key: &str) -> (r: Option<String>)
    ensures
        r is Some == info_value_spec(stdout@, key@) is Some,
        r matches Some(v) ==> info_value_spec(stdout@, key@) == Some(v@),
{
    let prefix = concat(key, ":");
    let ls = lines(stdout);
    let ghost all = lines_seq(stdout@);
    let mut i: usize = 0;
    assert(all.subrange(0, all.len() as int) =~= all);
    while i < ls.len()
        invariant
            all == lines_seq(stdout@),
            prefix@ == key@ + ":"@,
            ls@.len() == all.len(),
            forall|k: int| 0 <= k < ls@.len() ==> #[trigger] ls@[k]@ == all[k],
            i <= ls@.len(),
            first_line_value(all, prefix@) == first_line_value(all.subrange(i as int, all.len() as int), prefix@),
        decreases ls@.len() - i,
    {
        let ghost rest = all.subrange(i as int, all.len() as int);
        assert(rest[0] == ls@[i as int]@);
        assert(rest.drop_first() =~= all.subrange(i + 1, all.len() as int));
        match line_value_exec(ls[i].as_str(), prefix.as_str()) {
            Some(v) => {
                return Some(v);
            },
            None => {},
        }
        i += 1;
    }
    None
}

pub open spec fn readiness_ok(r: IndexReadiness, out: IndexOutput) -> bool {
    if !out.status_success {
        r matches IndexReadiness::Unavailable(m) && m@ == trim_seq(out.stderr@)
    } else if seq_contains(out.stdout@, "Index not found"@) {
        r is Missing
    } else {
        match info_value_spec(out.stdout@, "Status"@) {
            Some(s) => if s == "fresh"@ {
                match info_value_spec(out.stdout@, "Index"@) {
                    Some(db) => r matches IndexReadiness::Ready { db_path } && db_path@ == db,
                    None => r matches IndexReadiness::Unavailable(m) && m@
                        == "RLM index info did not report DB path"@,
                }
            } else if seq_starts_with(s, "stale"@) {
                r is Stale
            } else {
                r matches IndexReadiness::Unavailable(m) && m@ == "RLM index status is "@ + s
            },
            None => r matches IndexReadiness::Unavailable(m) && m@
                == "RLM index info did not report status"@,
        }
    }
}

/// Reads the report of `index info`: a failed command leaves the index
/// unavailable; `Index not found` means missing; otherwise the `Status:`
/// line decides, and a fresh index needs its `Index:` path.
pub fn readiness_from_info(output: &IndexOutput) -> (r: IndexReadiness)
    ensures
        readiness_ok(r, *output),
{
    if !output.status_success {
        return IndexReadiness::Unavailable(trim(output.stderr.as_str()));
    }
    if contains(output.stdout.as_str(), "Index not found") {
        return IndexReadiness::Missing;
    }
    let status = parse_info_value(output.stdout.as_str(), "Status");
    let db_path = parse_info_value(output.stdout.as_str(), "Index");
    match status {
        Some(value) => {
            if str_eq(value.as_str(), "fresh") {
                match db_path {
                    Some(db_path) => IndexReadiness::Ready { db_path },
                    None => IndexReadiness::Unavailable(
                        "RLM index info did not report DB path".to_string(),
                    ),
                }
            } else if starts_with(value.as_str(), "stale") {
                IndexReadiness::Stale
            } else {
                IndexReadiness::Unavailable(concat("RLM index status is ", value.as_str()))
            }
        },
        None => IndexReadiness::Unavailable("RLM index info did not report status".to_string()),
    }
}

// ---------------------------------------------------------------------------
// What is done about each state
// ---------------------------------------------------------------------------

/// What starting the index does once `index info` has answered.
pub enum IndexDecision {
    /// Record the index as ready at this database.
    RecordReady { db_path: String },
    /// Run `build` (or `update`) in the background and warn with the text.
    StartBackground { action: &'static str, update: bool, warning: &'static str },
    /// Only warn.
    Warn(&'static str),
    /// Record the index as unavailable with this message.
    RecordUnavailable(String),
}

pub open spec fn decision_ok(d: IndexDecision, r: IndexReadiness) -> bool {
    match r {
        IndexReadiness::Ready { db_path } => d matches IndexDecision::RecordReady { db_path: p } && p == db_path,
        IndexReadiness::Missing => d matches IndexDecision::StartBackground { action, update, warning }
            && action@ == "build"@ && !update && warning@ == "rlm index build started"@,
        IndexReadiness::Stale => d matches IndexDecision::StartBackground { action, update, warning }
            && action@ == "update"@ && update && warning@ == "rlm index building"@,
        IndexReadiness::Building => d matches IndexDecision::Warn(w) && w@ == "rlm index building"@,
        IndexReadiness::Failed(m) => d matches IndexDecision::RecordUnavailable(x) && x == m,
        IndexReadiness::Unavailable(m) => d matches IndexDecision::RecordUnavailable(x) && x == m,
    }
}

/// A missing index is built, a stale one updated, a ready one recorded, a
/// building one only reported; failures are recorded as unavailable.
pub fn decide_after_info(readiness: IndexReadiness) -> (d: IndexDecision)
    ensures
        decision_ok(d, readiness),
{
    match readiness {
        IndexReadiness::Ready { db_path } => IndexDecision::RecordReady { db_path },
        IndexReadiness::Missing => IndexDecision::StartBackground {
            action: "build",
            update: false,
            warning: "rlm index build started",
        },
        IndexReadiness::Stale => IndexDecision::StartBackground {
            action: "update",
            update: true,
            warning: "rlm index building",
        },
        IndexReadiness::Building => IndexDecision::Warn("rlm index building"),
        IndexReadiness::Failed(message) => IndexDecision::RecordUnavailable(message),
        IndexReadiness::Unavailable(message) => IndexDecision::RecordUnavailable(message),
    }
}

/// A background job is started only for a missing or stale index.
pub proof fn lemma_background_only_when_missing_or_stale(d: IndexDecision, r: IndexReadiness)
    requires
        decision_ok(d, r),
        d is StartBackground,
    ensures
        r is Missing || r is Stale,
{
}

/// `rlm index <action> timed out`, or `rlm index <action> failed: <status> <stderr>`.
pub open spec fn background_failure_spec(action: Seq<char>, output: IndexOutput) -> Seq<char> {
    if output.timed_out {
        "rlm index "@ + action + " timed out"@
    } else {
        "rlm index "@ + action + " failed: "@ + output.status@ + " "@ + trim_seq(output.stderr@)
    }
}

pub fn background_failure_message(action: &str, output: &IndexOutput) -> (m: String)
    ensures
        m@ == background_failure_spec(action@, *output),
{
    if output.timed_out {
        crate::text::concat3("rlm index ", action, " timed out")
    } else {
        let head = crate::text::concat4("rlm index ", action, " failed: ", output.status.as_str());
        let err = trim(output.stderr.as_str());
        crate::text::concat3(head.as_str(), " ", err.as_str())
    }
}

/// A readiness as `{:?}` prints it (the derived `Debug`).
pub open spec fn readiness_debug_spec(r: IndexReadiness) -> Seq<char> {
    match r {
        IndexReadiness::Ready { db_path } => "Ready { db_path: "@ + str_debug(db_path@) + " }"@,
        IndexReadiness::Missing => "Missing"@,
        IndexReadiness::Stale => "Stale"@,
        IndexReadiness::Building => "Building"@,
        IndexReadiness::Failed(m) => "Failed("@ + str_debug(m@) + ")"@,
        IndexReadiness::Unavailable(m) => "Unavailable("@ + str_debug(m@) + ")"@,
    }
}

pub fn readiness_debug(r: &IndexReadiness) -> (t: String)
    ensures
        t@ == readiness_debug_spec(*r),
{
    match r {
        IndexReadiness::Ready { db_path } => {
            let d = debug_text(db_path.as_str());
            crate::text::concat3("Ready { db_path: ", d.as_str(), " }")
        },
        IndexReadiness::Missing => "Missing".to_string(),
        IndexReadiness::Stale => "Stale".to_string(),
        IndexReadiness::Building => "Building".to_string(),
        IndexReadiness::Failed(m) => {
            let d = debug_text(m.as_str());
            crate::text::concat3("Failed(", d.as_str(), ")")
        },
        IndexReadiness::Unavailable(m) => {
            let d = debug_text(m.as_str());
            crate::text::concat3("Unavailable(", d.as_str(), ")")
        },
    }
}

/// A `failed` status for `root` with `message`, recorded at `now`.
pub open spec fn is_failed_status(s: BslIndexStatus, message: Seq<char>, root: Seq<char>, now: u64) -> bool {
    &&& s.status@ == "failed"@
    &&& s.source_root matches Some(r) && r@ == root
    &&& s.db_path is None
    &&& s.message matches Some(m) && m@ == message
    &&& s.updated_at == now
}

/// A `ready` status for `root` with the index at `db`, recorded at `now`.
pub open spec fn is_ready_status(s: BslIndexStatus, root: Seq<char>, db: Seq<char>, now: u64) -> bool {
    &&& s.status@ == "ready"@
    &&& s.source_root matches Some(r) && r@ == root
    &&& s.db_path matches Some(d) && d@ == db
    &&& s.message is None
    &&& s.updated_at == now
}

/// What a background build or update records once its primary command has
/// run: nothing yet when the command succeeded, since the `info` command
/// decides then; otherwise the failure, for the job's source root.
pub fn status_after_primary(job: &IndexBackgroundJob, primary: &Result<IndexOutput, String>, now: u64) -> (r: Option<BslIndexStatus>)
    ensures
        match primary {
            Ok(o) => if o.status_success {
                r is None
            } else {
                r matches Some(s) && is_failed_status(
                    s,
                    background_failure_spec(job.action@, *o),
                    job.source_root@,
                    now,
                )
            },
            Err(e) => r matches Some(s) && is_failed_status(s, e@, job.source_root@, now),
        },
{
    let root = job.source_root.as_str();
    match primary {
        Ok(o) => {
            if o.status_success {
                None
            } else {
                let message = background_failure_message(job.action.as_str(), o);
                Some(BslIndexStatus::failed(message.as_str(), Some(root), now))
            }
        },
        Err(e) => Some(BslIndexStatus::failed(e.as_str(), Some(root), now)),
    }
}

/// The status that an `info` report leaves after a background build or
/// update: `ready` with the index path when the index is fresh; otherwise
/// `failed`, naming the readiness that was found.
pub open spec fn info_status_ok(s: BslIndexStatus, r: IndexReadiness, job: IndexBackgroundJob, now: u64) -> bool {
    match r {
        IndexReadiness::Ready { db_path } => is_ready_status(s, job.source_root@, db_path@, now),
        _ => is_failed_status(
            s,
            "rlm index "@ + job.action@ + " finished but info is "@ + readiness_debug_spec(r),
            job.source_root@,
            now,
        ),
    }
}

/// What a background build or update records after its `info` command ran
/// (the primary command having succeeded).
pub fn status_after_info(job: &IndexBackgroundJob, info: &Result<IndexOutput, String>, now: u64) -> (s: BslIndexStatus)
    ensures
        match info {
            Ok(o) => forall|r: IndexReadiness| readiness_ok(r, *o) ==> info_status_ok(s, r, *job, now),
            Err(e) => is_failed_status(s, e@, job.source_root@, now),
        },
{
    let root = job.source_root.as_str();
    match info {
        Ok(o) => {
            let readiness = readiness_from_info(o);
            match &readiness {
                IndexReadiness::Ready { db_path } => BslIndexStatus::ready(root, db_path.as_str(), now),
                other => {
                    let shown = readiness_debug(other);
                    let message = crate::text::concat3(
                        "rlm index ",
                        job.action.as_str(),
                        " finished but info is ",
                    );
                    let message = concat(message.as_str(), shown.as_str());
                    BslIndexStatus::failed(message.as_str(), Some(root), now)
                },
            }
        },
        Err(e) => BslIndexStatus::failed(e.as_str(), Some(root), now),
    }
}

// ---------------------------------------------------------------------------
// Where the 1C sources may be
// ---------------------------------------------------------------------------

/// The directories that may hold the 1C sources of a call, in the order
/// they are tried: the `sourceDir` and `path` arguments (relative to the
/// working directory), then `src`, `src/cf` and the workspace root itself.
pub open spec fn source_root_candidates_spec(context: WorkspaceContext, args: Seq<(String, crate::json::JsonValue)>) -> Seq<Seq<char>> {
    let given = |key: Seq<char>|
        match crate::json::arg_str(args, key) {
            Some(v) => seq![path_join_spec(context.cwd@, v, context.platform)],
            None => Seq::<Seq<char>>::empty(),
        };
    given("sourceDir"@) + given("path"@) + seq![
        path_join_spec(context.workspace_root@, "src"@, context.platform),
        path_join_spec(path_join_spec(context.workspace_root@, "src"@, context.platform), "cf"@, context.platform),
        context.workspace_root@,
    ]
}

pub fn source_root_candidates(context: &WorkspaceContext, args: &crate::json::JsonObject) -> (r: Vec<String>)
    ensures
        views(r@) == source_root_candidates_spec(*context, args.entries@),
{
    let mut r: Vec<String> = Vec::new();
    match crate::json::get_str(args, "sourceDir") {
        Some(v) => crate::argv::push_arg(&mut r, path_join(context.cwd.as_str(), v, context.platform).as_str()),
        None => {},
    }
    match crate::json::get_str(args, "path") {
        Some(v) => crate::argv::push_arg(&mut r, path_join(context.cwd.as_str(), v, context.platform).as_str()),
        None => {},
    }
    let src = path_join(context.workspace_root.as_str(), "src", context.platform);
    crate::argv::push_arg(&mut r, src.as_str());
    crate::argv::push_arg(&mut r, path_join(src.as_str(), "cf", context.platform).as_str());
    crate::argv::push_arg(&mut r, context.workspace_root.as_str());
    assert(views(r@) =~= source_root_candidates_spec(*context, args.entries@));
    r
}

} // verus!
