//! What an adapter reports of one tool call, and what the server answers.

use vstd::prelude::*;

verus! {

/// The result of one adapter call.
pub struct AdapterOutcome {
    pub ok: bool,
    pub summary: String,
    pub changes: Vec<String>,
    pub warnings: Vec<String>,
    pub errors: Vec<String>,
    pub artifacts: Vec<String>,
    pub stdout: Option<String>,
    pub stderr: Option<String>,
    pub command: Option<Vec<String>>,
}

impl AdapterOutcome {
    /// A successful outcome with a summary and nothing else.
    pub fn ok(summary: String) -> (o: AdapterOutcome)
        ensures
            o.ok,
            o.summary == summary,
            o.changes@.len() == 0,
            o.warnings@.len() == 0,
            o.errors@.len() == 0,
            o.artifacts@.len() == 0,
            o.stdout is None,
            o.stderr is None,
            o.command is None,
    {
        AdapterOutcome {
            ok: true,
            summary,
            changes: Vec::new(),
            warnings: Vec::new(),
            errors: Vec::new(),
            artifacts: Vec::new(),
            stdout: None,
            stderr: None,
            command: None,
        }
    }

    /// A failed outcome: a summary, one error and the given artifacts.
    pub fn failure(summary: String, error: String, artifacts: Vec<String>) -> (o: AdapterOutcome)
        ensures
            !o.ok,
            o.summary == summary,
            o.changes@.len() == 0,
            o.warnings@.len() == 0,
            o.errors@ == seq![error],
            o.artifacts == artifacts,
            o.stdout is None,
            o.stderr is None,
            o.command is None,
    {
        let mut errors = Vec::new();
        errors.push(error);
        AdapterOutcome {
            ok: false,
            summary,
            changes: Vec::new(),
            warnings: Vec::new(),
            errors,
            artifacts,
            stdout: None,
            stderr: None,
            command: None,
        }
    }
}

/// The caches a tool call touched, as the server reports them.
pub struct CacheReport {
    pub mode: String,
    pub root: String,
    pub workspace_epoch: u64,
    pub events: Vec<String>,
    pub invalidated: Vec<String>,
    pub refreshed: Vec<String>,
    pub lazy_rebuilt: Vec<String>,
    pub stale: Vec<String>,
    pub fresh: Vec<String>,
}

/// The answer to one tool call.
pub struct OperationResult {
    pub ok: bool,
    pub summary: String,
    pub changes: Vec<String>,
    pub warnings: Vec<String>,
    pub errors: Vec<String>,
    pub artifacts: Vec<String>,
    pub cache: CacheReport,
    pub stdout: Option<String>,
    pub stderr: Option<String>,
    pub command: Option<Vec<String>>,
}

/// The answer to a call: the adapter's outcome, the index warnings after
/// the adapter's own, and the cache report.
pub open spec fn operation_result_ok(
    r: OperationResult,
    outcome: AdapterOutcome,
    index_warnings: Seq<String>,
    cache: CacheReport,
) -> bool {
    &&& r.ok == outcome.ok
    &&& r.summary == outcome.summary
    &&& r.changes == outcome.changes
    &&& r.warnings@ == outcome.warnings@ + index_warnings
    &&& r.errors == outcome.errors
    &&& r.artifacts == outcome.artifacts
    &&& r.cache == cache
    &&& r.stdout == outcome.stdout
    &&& r.stderr == outcome.stderr
    &&& r.command == outcome.command
}

/// Assembles the answer (see [`operation_result_ok`]).
pub fn operation_result(outcome: AdapterOutcome, index_warnings: Vec<String>, cache: CacheReport) -> (r: OperationResult)
    ensures
        operation_result_ok(r, outcome, index_warnings@, cache),
{
    let mut warnings = outcome.warnings;
    let mut extra = index_warnings;
    warnings.append(&mut extra);
    OperationResult {
        ok: outcome.ok,
        summary: outcome.summary,
        changes: outcome.changes,
        warnings,
        errors: outcome.errors,
        artifacts: outcome.artifacts,
        cache,
        stdout: outcome.stdout,
        stderr: outcome.stderr,
        command: outcome.command,
    }
}

} // verus!
