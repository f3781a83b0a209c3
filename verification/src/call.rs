//! One tool call, as steps: find the tool, discover the workspace, start
//! the code index, run the tool's adapter, report the caches, answer.  The
//! caller performs each step's action and hands back what came of it.

use vstd::prelude::*;
use crate::application::{
    call_events, domain_events_spec, dry_run_spec, event_views, route, route_ok, tool_index,
    unknown_tool_error, Route, UnicaApplication,
};
use crate::events::{DomainEvent, DomainEventKind};
use crate::index::IndexStartReport;
use crate::json::{arg_str, get_str, JsonObject, JsonValue};
use crate::outcome::{operation_result, operation_result_ok, AdapterOutcome, CacheReport, OperationResult};
use crate::tools::{catalog, CacheAccess, ToolSpec};

verus! {

/// Where a tool call stands.
pub enum CallState {
    Begin,
    /// The tool is known; the workspace is being discovered.
    Discovering { spec: ToolSpec, dry_run: bool },
    /// The code index is being started.
    Indexing { spec: ToolSpec, dry_run: bool },
    /// The tool's adapter runs.
    Running { spec: ToolSpec, dry_run: bool, index_warnings: Vec<String> },
    /// The caches are being reported.
    Reporting { outcome: AdapterOutcome, index_warnings: Vec<String> },
    Done,
}

/// What the caller found out.
pub enum CallEvent {
    /// The call of the tool with this name was asked for.
    Called { name: String },
    /// Whether the workspace was discovered (the caller keeps it).
    Workspace(Result<(), String>),
    /// What starting the code index reported.
    IndexStarted(IndexStartReport),
    /// What the adapter gave.
    AdapterDone(Result<AdapterOutcome, String>),
    /// What reporting the caches gave.
    CacheReported(Result<CacheReport, String>),
}

/// What the caller does next.
pub enum CallAction {
    /// Discover the workspace around `cwd`, or around the process's working
    /// directory when there is none.
    DiscoverWorkspace { cwd: Option<String> },
    /// Start the code index for the workspace.
    StartIndex { dry_run: bool },
    /// Carry out the tool through the adapter of `route`.
    RunAdapter { route: Route, tool_name: &'static str, mutating: bool, dry_run: bool },
    /// Report what the call did to the caches.
    ReportCache { events: Vec<DomainEvent>, dry_run: bool, cache_access: CacheAccess },
    /// Answer the call.
    Finish(Result<OperationResult, String>),
}

pub open spec fn fails_with(a: CallAction, e: Seq<char>) -> bool {
    a matches CallAction::Finish(Err(m)) && m@ == e
}

/// One step of a call.  An unknown tool is refused.  The call runs dry
/// when `dryRun` says so, or by default when the tool changes things; it
/// discovers the workspace around the `cwd` argument, starts the index,
/// runs the adapter that the tool routes to, and reports the caches with
/// the events of the call (see `call_events`).  A failure of any of these
/// ends the call with its error; otherwise the answer is the adapter's
/// outcome with the index warnings after its own, and the cache report.  An
/// event that does not answer the last action ends the call with an error.
pub open spec fn call_step_ok(
    args: Seq<(String, JsonValue)>,
    state: CallState,
    event: CallEvent,
    next: CallState,
    a: CallAction,
) -> bool {
    match (state, event) {
        (CallState::Begin, CallEvent::Called { name }) => match tool_index(catalog(), name@) {
            None => next is Done && fails_with(a, unknown_tool_error(name@)),
            Some(i) => (next matches CallState::Discovering { spec, dry_run } && spec@ == catalog()[i]
                && dry_run == dry_run_spec(spec.mutating, args)) && (a matches CallAction::DiscoverWorkspace {
                cwd,
            } && match arg_str(args, "cwd"@) {
                Some(c) => cwd matches Some(x) && x@ == c,
                None => cwd is None,
            }),
        },
        (CallState::Discovering { spec, dry_run }, CallEvent::Workspace(Err(e))) => next is Done
            && fails_with(a, e@),
        (CallState::Discovering { spec, dry_run }, CallEvent::Workspace(Ok(()))) => next == CallState::Indexing {
            spec,
            dry_run,
        } && a == CallAction::StartIndex { dry_run },
        (CallState::Indexing { spec, dry_run }, CallEvent::IndexStarted(report)) => (next matches CallState::Running {
            spec: s,
            dry_run: d,
            index_warnings,
        } && s == spec && d == dry_run && index_warnings == report.warnings) && (a matches CallAction::RunAdapter {
            route: r,
            tool_name,
            mutating,
            dry_run: d,
        } && route_ok(r, spec.handler) && tool_name == spec.name && mutating == spec.mutating && d
            == dry_run),
        (CallState::Running { spec, dry_run, index_warnings }, CallEvent::AdapterDone(Err(e))) => next is Done
            && fails_with(a, e@),
        (CallState::Running { spec, dry_run, index_warnings }, CallEvent::AdapterDone(Ok(o))) => next
            == CallState::Reporting { outcome: o, index_warnings } && (a matches CallAction::ReportCache {
            events,
            dry_run: d,
            cache_access,
        } && d == dry_run && cache_access == spec.cache_access && event_views(events@) == if spec.mutating
            && (dry_run || o.ok) {
            domain_events_spec(spec@, args)
        } else {
            Seq::<(DomainEventKind, Seq<char>)>::empty()
        }),
        (CallState::Reporting { outcome, index_warnings }, CallEvent::CacheReported(Err(e))) => next is Done
            && fails_with(a, e@),
        (CallState::Reporting { outcome, index_warnings }, CallEvent::CacheReported(Ok(cache))) => next is Done
            && (a matches CallAction::Finish(Ok(r)) && operation_result_ok(r, outcome, index_warnings@, cache)),
        _ => next is Done && fails_with(a, "tool call steps came out of order"@),
    }
}

fn fail(e: String) -> (r: (CallState, CallAction))
    ensures
        r.0 is Done,
        fails_with(r.1, e@),
{
    (CallState::Done, CallAction::Finish(Err(e)))
}

impl UnicaApplication {
    /// One step of a tool call with arguments `args` (see
    /// [`call_step_ok`]); the first step takes `Called` in `Begin`.
    pub fn call_step(&self, args: &JsonObject, state: CallState, event: CallEvent) -> (r: (CallState, CallAction))
        ensures
            call_step_ok(args.entries@, state, event, r.0, r.1),
    {
        match (state, event) {
            (CallState::Begin, CallEvent::Called { name }) => match self.find_tool(name.as_str()) {
                Err(e) => fail(e),
                Ok(spec) => {
                    let dry_run = crate::application::dry_run_for(&spec, args);
                    let cwd = match get_str(args, "cwd") {
                        Some(c) => Some(c.to_string()),
                        None => None,
                    };
                    (CallState::Discovering { spec, dry_run }, CallAction::DiscoverWorkspace { cwd })
                },
            },
            (CallState::Discovering { spec, dry_run }, CallEvent::Workspace(found)) => match found {
                Err(e) => fail(e),
                Ok(()) => (CallState::Indexing { spec, dry_run }, CallAction::StartIndex { dry_run }),
            },
            (CallState::Indexing { spec, dry_run }, CallEvent::IndexStarted(report)) => {
                let r = route(&spec);
                (
                    CallState::Running { spec, dry_run, index_warnings: report.warnings },
                    CallAction::RunAdapter { route: r, tool_name: spec.name, mutating: spec.mutating, dry_run },
                )
            },
            (CallState::Running { spec, dry_run, index_warnings }, CallEvent::AdapterDone(done)) => match done {
                Err(e) => fail(e),
                Ok(outcome) => {
                    let events = call_events(&spec, dry_run, &outcome, args);
                    (
                        CallState::Reporting { outcome, index_warnings },
                        CallAction::ReportCache { events, dry_run, cache_access: spec.cache_access },
                    )
                },
            },
            (CallState::Reporting { outcome, index_warnings }, CallEvent::CacheReported(reported)) => match reported {
                Err(e) => fail(e),
                Ok(cache) => {
                    let result = operation_result(outcome, index_warnings, cache);
                    (CallState::Done, CallAction::Finish(Ok(result)))
                },
            },
            _ => fail("tool call steps came out of order".to_string()),
        }
    }
}

/// A call of a tool that changes things runs dry unless its `dryRun`
/// argument says otherwise.
pub proof fn lemma_mutating_calls_run_dry_by_default(
    args: Seq<(String, JsonValue)>,
    name: String,
    next: CallState,
    a: CallAction,
)
    requires
        call_step_ok(args, CallState::Begin, CallEvent::Called { name }, next, a),
        crate::json::arg_bool(args, "dryRun"@) is None,
        next matches CallState::Discovering { spec, .. } && spec.mutating,
    ensures
        next matches CallState::Discovering { dry_run, .. } && dry_run,
{
}

/// The adapter runs only once the workspace was found and the index
/// started, and an unknown tool runs nothing.
pub proof fn lemma_adapter_runs_after_workspace_and_index(
    args: Seq<(String, JsonValue)>,
    state: CallState,
    event: CallEvent,
    next: CallState,
    a: CallAction,
)
    requires
        call_step_ok(args, state, event, next, a),
        a is RunAdapter,
    ensures
        state is Indexing,
        event is IndexStarted,
{
}

} // verus!
