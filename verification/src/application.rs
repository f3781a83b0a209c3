//! Decisions of one tool call that depend on the tool and its arguments:
//! which tool is meant, whether it runs dry, and which domain events it emits.

use vstd::prelude::*;
use crate::events::{DomainEvent, DomainEventKind};
use crate::json::{arg_bool, arg_str, get_bool, get_str, JsonObject, JsonValue};
use crate::outcome::AdapterOutcome;
use crate::text::{concat, concat4, seq_starts_with, str_eq};
use crate::tools::{
    adapter_catalog, cache_access_spec, catalog, configuration_catalog, strs, tool_views, tools,
    HandlerView,
    ToolHandler, ToolSpec, ToolView,
};
use crate::workspace::WorkspaceContext;

verus! {

/// The application: the catalogue of tools behind the server.
pub struct UnicaApplication;

/// Index of the first tool of the catalogue with the given name.
pub open spec fn tool_index(tools: Seq<ToolView>, name: Seq<char>) -> Option<int>
    decreases tools.len(),
{
    if tools.len() == 0 {
        None
    } else if tools[0].name == name {
        Some(0)
    } else {
        match tool_index(tools.drop_first(), name) {
            Some(i) => Some(i + 1),
            None => None,
        }
    }
}

proof fn lemma_tool_index(tools: Seq<ToolView>, name: Seq<char>, i: int)
    requires
        0 <= i <= tools.len(),
        forall|j: int| 0 <= j < i ==> tools[j].name != name,
        i == tools.len() || tools[i].name == name,
    ensures
        tool_index(tools, name) == (if i < tools.len() {
            Some(i)
        } else {
            None::<int>
        }),
    decreases i,
{
    if i > 0 {
        let t = tools.drop_first();
        assert forall|j: int| 0 <= j < i - 1 implies t[j].name != name by {
            assert(t[j] == tools[j + 1]);
        }
        if i < tools.len() {
            assert(t[i - 1] == tools[i]);
        }
        lemma_tool_index(t, name, i - 1);
    }
}

pub open spec fn unknown_tool_error(name: Seq<char>) -> Seq<char> {
    "unknown unica tool: "@ + name
}

impl UnicaApplication {
    pub fn new() -> (app: Self) {
        UnicaApplication
    }

    pub fn tools(&self) -> (r: Vec<ToolSpec>)
        ensures
            tool_views(r@) == catalog(),
    {
        tools()
    }

    /// The tool with the given name, or the error that names the unknown tool.
    pub fn find_tool(&self, name: &str) -> (r: Result<ToolSpec, String>)
        ensures
            match tool_index(catalog(), name@) {
                Some(i) => r matches Ok(t) && t@ == catalog()[i],
                None => r matches Err(e) && e@ == unknown_tool_error(name@),
            },
    {
        let all = tools();
        let mut i: usize = 0;
        while i < all.len()
            invariant
                tool_views(all@) == catalog(),
                i <= all@.len(),
                forall|j: int| 0 <= j < i ==> catalog()[j].name != name@,
            decreases all@.len() - i,
        {
            assert(tool_views(all@)[i as int] == all@[i as int]@);
            if str_eq(all[i].name, name) {
                proof {
                    lemma_tool_index(catalog(), name@, i as int);
                }
                return Ok(all[i]);
            }
            i += 1;
        }
        proof {
            lemma_tool_index(catalog(), name@, i as int);
        }
        Err(concat("unknown unica tool: ", name))
    }
}

impl Default for UnicaApplication {
    fn default() -> (app: Self) {
        UnicaApplication::new()
    }
}

/// Whether a call runs dry: the `dryRun` argument when it is a boolean,
/// otherwise whether the tool changes anything.
pub open spec fn dry_run_spec(mutating: bool, args: Seq<(String, JsonValue)>) -> bool {
    match arg_bool(args, "dryRun"@) {
        Some(b) => b,
        None => mutating,
    }
}

pub fn dry_run_for(spec: &ToolSpec, args: &JsonObject) -> (r: bool)
    ensures
        r == dry_run_spec(spec.mutating, args.entries@),
{
    match get_bool(args, "dryRun") {
        Some(b) => b,
        None => spec.mutating,
    }
}

/// A tool that changes things runs dry unless the caller asks otherwise.
pub proof fn lemma_mutating_defaults_to_dry_run(mutating: bool, args: Seq<(String, JsonValue)>)
    requires
        mutating,
        arg_bool(args, "dryRun"@) is None,
    ensures
        dry_run_spec(mutating, args),
{
}

/// Domain events are emitted only for tools that change things, and only
/// when the call ran dry or succeeded.
pub fn should_emit_events(spec: &ToolSpec, dry_run: bool, outcome: &AdapterOutcome) -> (r: bool)
    ensures
        r == (spec.mutating && (dry_run || outcome.ok)),
{
    spec.mutating && (dry_run || outcome.ok)
}

/// The event that a runtime operation causes: operations that produce
/// sources change the source set, operations that build or load complete a
/// build, the others cause none.
pub open spec fn runtime_event_spec(args: Seq<(String, JsonValue)>) -> Option<DomainEventKind> {
    match arg_str(args, "operation"@) {
        Some(op) => if op == "config-init"@ || op == "init"@ || op == "convert"@ || op == "dump"@ {
            Some(DomainEventKind::SourceSetChanged)
        } else if op == "build"@ || op == "load"@ || op == "extensions"@ || op == "test"@ {
            Some(DomainEventKind::BuildCompleted)
        } else {
            None
        },
        None => None,
    }
}

pub fn runtime_event(args: &JsonObject) -> (r: Option<DomainEventKind>)
    ensures
        r == runtime_event_spec(args.entries@),
{
    match get_str(args, "operation") {
        Some(op) => {
            if str_eq(op, "config-init") || str_eq(op, "init") || str_eq(op, "convert") || str_eq(
                op,
                "dump",
            ) {
                Some(DomainEventKind::SourceSetChanged)
            } else if str_eq(op, "build") || str_eq(op, "load") || str_eq(op, "extensions")
                || str_eq(op, "test") {
                Some(DomainEventKind::BuildCompleted)
            } else {
                None
            }
        },
        None => None,
    }
}

/// The events of the runtime operations: `build`, `load`, `extensions` and
/// `test` complete a build; `config-init`, `init`, `convert` and `dump`
/// change the source set; every other operation, and a call without an
/// operation, causes none.
pub proof fn lemma_runtime_operation_events(args: Seq<(String, JsonValue)>)
    ensures
        arg_str(args, "operation"@) is None ==> runtime_event_spec(args) is None,
        arg_str(args, "operation"@) matches Some(op) && (op == "build"@ || op == "load"@ || op
            == "extensions"@ || op == "test"@) ==> runtime_event_spec(args) == Some(
            DomainEventKind::BuildCompleted,
        ),
        arg_str(args, "operation"@) matches Some(op) && (op == "config-init"@ || op == "init"@ || op
            == "convert"@ || op == "dump"@) ==> runtime_event_spec(args) == Some(
            DomainEventKind::SourceSetChanged,
        ),
        arg_str(args, "operation"@) matches Some(op) && !(op == "build"@ || op == "load"@ || op
            == "extensions"@ || op == "test"@ || op == "config-init"@ || op == "init"@ || op
            == "convert"@ || op == "dump"@) ==> runtime_event_spec(args) is None,
{
    reveal_strlit("build");
    reveal_strlit("load");
    reveal_strlit("extensions");
    reveal_strlit("test");
    reveal_strlit("config-init");
    reveal_strlit("init");
    reveal_strlit("convert");
    reveal_strlit("dump");
    let changing = seq!["config-init"@, "init"@, "convert"@, "dump"@];
    let building = seq!["build"@, "load"@, "extensions"@, "test"@];
    assert forall|a: int, b: int| 0 <= a < 4 && 0 <= b < 4 implies #[trigger] building[a] != #[trigger] changing[b] by {
        assert(building[a][0] != changing[b][0] || building[a].len() != changing[b].len());
    }
    assert(building[0] == "build"@ && building[1] == "load"@ && building[2] == "extensions"@ && building[3] == "test"@);
    assert(changing[0] == "config-init"@ && changing[1] == "init"@ && changing[2] == "convert"@ && changing[3] == "dump"@);
}

/// The model of an event: its kind and its artifact.
pub open spec fn event_views(events: Seq<DomainEvent>) -> Seq<(DomainEventKind, Seq<char>)> {
    events.map_values(|e: DomainEvent| (e.kind, e.artifact@))
}

/// The events a call emits: the tool's declared event, or for the runtime
/// tool the event of its operation, each with the tool's name as artifact.
pub open spec fn domain_events_spec(tool: ToolView, args: Seq<(String, JsonValue)>) -> Seq<(DomainEventKind, Seq<char>)> {
    match tool.handler {
        HandlerView::LegacyScript { event: Some(e), .. } => seq![(e, tool.name)],
        HandlerView::NativeOperation { event: Some(e), .. } => seq![(e, tool.name)],
        HandlerView::BuildRuntime { event: Some(e), .. } => seq![(e, tool.name)],
        HandlerView::RuntimeAdapter => match runtime_event_spec(args) {
            Some(e) => seq![(e, tool.name)],
            None => seq![],
        },
        _ => seq![],
    }
}

fn single_event(kind: DomainEventKind, name: &str) -> (r: Vec<DomainEvent>)
    ensures
        event_views(r@) == seq![(kind, name@)],
{
    let mut r = Vec::new();
    r.push(DomainEvent::new(kind, name));
    assert(event_views(r@) =~= seq![(kind, name@)]);
    r
}

pub fn domain_events(spec: &ToolSpec, args: &JsonObject) -> (r: Vec<DomainEvent>)
    ensures
        event_views(r@) == domain_events_spec(spec@, args.entries@),
{
    match spec.handler {
        ToolHandler::LegacyScript { event: Some(event), .. } => single_event(event, spec.name),
        ToolHandler::NativeOperation { event: Some(event), .. } => single_event(event, spec.name),
        ToolHandler::BuildRuntime { event: Some(event), .. } => single_event(event, spec.name),
        ToolHandler::RuntimeAdapter => match runtime_event(args) {
            Some(event) => single_event(event, spec.name),
            None => {
                let r = Vec::new();
                assert(event_views(r@) =~= Seq::<(DomainEventKind, Seq<char>)>::empty());
                r
            },
        },
        _ => {
            let r = Vec::new();
            assert(event_views(r@) =~= Seq::<(DomainEventKind, Seq<char>)>::empty());
            r
        },
    }
}

/// The events of a finished call: those of the tool when it may emit them
/// (see [`should_emit_events`]), none otherwise.
pub fn call_events(spec: &ToolSpec, dry_run: bool, outcome: &AdapterOutcome, args: &JsonObject) -> (r: Vec<DomainEvent>)
    ensures
        event_views(r@) == if spec.mutating && (dry_run || outcome.ok) {
            domain_events_spec(spec@, args.entries@)
        } else {
            Seq::<(DomainEventKind, Seq<char>)>::empty()
        },
{
    if should_emit_events(spec, dry_run, outcome) {
        domain_events(spec, args)
    } else {
        let r = Vec::new();
        assert(event_views(r@) =~= Seq::<(DomainEventKind, Seq<char>)>::empty());
        r
    }
}

/// The outcome of `unica.project.status`: the workspace and cache roots.
pub fn project_status(context: &WorkspaceContext) -> (o: AdapterOutcome)
    ensures
        o.ok,
        o.summary@ == "workspace root: "@ + context.workspace_root@ + "; cache root: "@
            + context.cache_root@,
        o.artifacts@.len() == 2,
        o.artifacts@[0]@ == context.workspace_root@,
        o.artifacts@[1]@ == context.cache_root@,
        o.changes@.len() == 0,
        o.warnings@.len() == 0,
        o.errors@.len() == 0,
        o.stdout is None && o.stderr is None && o.command is None,
{
    let mut outcome = AdapterOutcome::ok(
        concat4(
            "workspace root: ",
            context.workspace_root.as_str(),
            "; cache root: ",
            context.cache_root.as_str(),
        ),
    );
    outcome.artifacts.push(context.workspace_root.clone());
    outcome.artifacts.push(context.cache_root.clone());
    outcome
}

// ---------------------------------------------------------------------------
// Laws of the catalogue
// ---------------------------------------------------------------------------

/// Every configuration tool runs a native operation; it changes things
/// exactly when it declares an event, and then it invalidates the metadata
/// graph and reads nothing.
pub proof fn lemma_configuration_tools_are_native_operations(i: int)
    requires
        0 <= i < configuration_catalog().len(),
    ensures
        catalog()[i].handler is NativeOperation,
        catalog()[i].mutating == (catalog()[i].handler->NativeOperation_event is Some),
        catalog()[i].mutating ==> catalog()[i].writes == seq!["metadata_graph"@]
            && catalog()[i].reads.len() == 0,
        !catalog()[i].mutating ==> catalog()[i].writes.len() == 0,
{
    assert(catalog()[i] == configuration_catalog()[i]);
}

/// `.` and `_` written as `-`.
pub open spec fn dashed(c: char) -> char {
    if c == '.' || c == '_' {
        '-'
    } else {
        c
    }
}

/// The operation that a configuration tool's name calls for: the name
/// without `unica.`, with `.` and `_` written as `-`.
pub open spec fn operation_named(name: Seq<char>) -> Seq<char> {
    name.skip(6).map_values(|c: char| dashed(c))
}

/// Every configuration tool is named after the native operation it runs:
/// its name is `unica.` followed by the operation, where the operation's
/// `-` may be written `.` or `_`; it changes things exactly when it declares
/// an event; and its cache access is the one that its operation and event
/// call for.
#[verifier::rlimit(100)]
pub proof fn lemma_configuration_tools_named_by_operation(i: int)
    requires
        0 <= i < configuration_catalog().len(),
    ensures
        seq_starts_with(catalog()[i].name, "unica."@),
        catalog()[i].handler matches HandlerView::NativeOperation { operation, event } && {
            &&& operation == operation_named(catalog()[i].name)
            &&& catalog()[i].mutating == event is Some
            &&& catalog()[i].reads == cache_access_spec(operation, event).0
            &&& catalog()[i].writes == cache_access_spec(operation, event).1
        },
{
    reveal_strlit("unica.");
    let t = configuration_catalog()[i];
    assert(catalog()[i] == t);
    lemma_configuration_tools_are_native_operations(i);
    if i == 0 {
        reveal_strlit("unica.cf.edit");
        reveal_strlit("cf-edit");
        assert(t.name.subrange(0, 6) =~= "unica."@);
        assert(operation_named(t.name) =~= "cf-edit"@);
    } else if i == 1 {
        reveal_strlit("unica.cf.info");
        reveal_strlit("cf-info");
        assert(t.name.subrange(0, 6) =~= "unica."@);
        assert(operation_named(t.name) =~= "cf-info"@);
    } else if i == 2 {
        reveal_strlit("unica.cf.init");
        reveal_strlit("cf-init");
        assert(t.name.subrange(0, 6) =~= "unica."@);
        assert(operation_named(t.name) =~= "cf-init"@);
    } else if i == 3 {
        reveal_strlit("unica.cf.validate");
        reveal_strlit("cf-validate");
        assert(t.name.subrange(0, 6) =~= "unica."@);
        assert(operation_named(t.name) =~= "cf-validate"@);
    } else if i == 4 {
        reveal_strlit("unica.cfe.borrow");
        reveal_strlit("cfe-borrow");
        assert(t.name.subrange(0, 6) =~= "unica."@);
        assert(operation_named(t.name) =~= "cfe-borrow"@);
    } else if i == 5 {
        reveal_strlit("unica.cfe.diff");
        reveal_strlit("cfe-diff");
        assert(t.name.subrange(0, 6) =~= "unica."@);
        assert(operation_named(t.name) =~= "cfe-diff"@);
    } else if i == 6 {
        reveal_strlit("unica.cfe.init");
        reveal_strlit("cfe-init");
        assert(t.name.subrange(0, 6) =~= "unica."@);
        assert(operation_named(t.name) =~= "cfe-init"@);
    } else if i == 7 {
        reveal_strlit("unica.cfe.patch_method");
        reveal_strlit("cfe-patch-method");
        assert(t.name.subrange(0, 6) =~= "unica."@);
        assert(operation_named(t.name) =~= "cfe-patch-method"@);
    } else if i == 8 {
        reveal_strlit("unica.cfe.validate");
        reveal_strlit("cfe-validate");
        assert(t.name.subrange(0, 6) =~= "unica."@);
        assert(operation_named(t.name) =~= "cfe-validate"@);
    } else if i == 9 {
        reveal_strlit("unica.meta.compile");
        reveal_strlit("meta-compile");
        assert(t.name.subrange(0, 6) =~= "unica."@);
        assert(operation_named(t.name) =~= "meta-compile"@);
    } else if i == 10 {
        reveal_strlit("unica.meta.edit");
        reveal_strlit("meta-edit");
        assert(t.name.subrange(0, 6) =~= "unica."@);
        assert(operation_named(t.name) =~= "meta-edit"@);
    } else if i == 11 {
        reveal_strlit("unica.meta.info");
        reveal_strlit("meta-info");
        assert(t.name.subrange(0, 6) =~= "unica."@);
        assert(operation_named(t.name) =~= "meta-info"@);
    } else if i == 12 {
        reveal_strlit("unica.meta.remove");
        reveal_strlit("meta-remove");
        assert(t.name.subrange(0, 6) =~= "unica."@);
        assert(operation_named(t.name) =~= "meta-remove"@);
    } else if i == 13 {
        reveal_strlit("unica.meta.validate");
        reveal_strlit("meta-validate");
        assert(t.name.subrange(0, 6) =~= "unica."@);
        assert(operation_named(t.name) =~= "meta-validate"@);
    } else if i == 14 {
        reveal_strlit("unica.form.add");
        reveal_strlit("form-add");
        assert(t.name.subrange(0, 6) =~= "unica."@);
        assert(operation_named(t.name) =~= "form-add"@);
    } else if i == 15 {
        reveal_strlit("unica.form.compile");
        reveal_strlit("form-compile");
        assert(t.name.subrange(0, 6) =~= "unica."@);
        assert(operation_named(t.name) =~= "form-compile"@);
    } else if i == 16 {
        reveal_strlit("unica.form.edit");
        reveal_strlit("form-edit");
        assert(t.name.subrange(0, 6) =~= "unica."@);
        assert(operation_named(t.name) =~= "form-edit"@);
    } else if i == 17 {
        reveal_strlit("unica.form.info");
        reveal_strlit("form-info");
        assert(t.name.subrange(0, 6) =~= "unica."@);
        assert(operation_named(t.name) =~= "form-info"@);
    } else if i == 18 {
        reveal_strlit("unica.form.remove");
        reveal_strlit("form-remove");
        assert(t.name.subrange(0, 6) =~= "unica."@);
        assert(operation_named(t.name) =~= "form-remove"@);
    } else if i == 19 {
        reveal_strlit("unica.form.validate");
        reveal_strlit("form-validate");
        assert(t.name.subrange(0, 6) =~= "unica."@);
        assert(operation_named(t.name) =~= "form-validate"@);
    } else if i == 20 {
        reveal_strlit("unica.interface.edit");
        reveal_strlit("interface-edit");
        assert(t.name.subrange(0, 6) =~= "unica."@);
        assert(operation_named(t.name) =~= "interface-edit"@);
    } else if i == 21 {
        reveal_strlit("unica.interface.validate");
        reveal_strlit("interface-validate");
        assert(t.name.subrange(0, 6) =~= "unica."@);
        assert(operation_named(t.name) =~= "interface-validate"@);
    } else if i == 22 {
        reveal_strlit("unica.subsystem.compile");
        reveal_strlit("subsystem-compile");
        assert(t.name.subrange(0, 6) =~= "unica."@);
        assert(operation_named(t.name) =~= "subsystem-compile"@);
    } else if i == 23 {
        reveal_strlit("unica.subsystem.edit");
        reveal_strlit("subsystem-edit");
        assert(t.name.subrange(0, 6) =~= "unica."@);
        assert(operation_named(t.name) =~= "subsystem-edit"@);
    } else if i == 24 {
        reveal_strlit("unica.subsystem.info");
        reveal_strlit("subsystem-info");
        assert(t.name.subrange(0, 6) =~= "unica."@);
        assert(operation_named(t.name) =~= "subsystem-info"@);
    } else if i == 25 {
        reveal_strlit("unica.subsystem.validate");
        reveal_strlit("subsystem-validate");
        assert(t.name.subrange(0, 6) =~= "unica."@);
        assert(operation_named(t.name) =~= "subsystem-validate"@);
    } else if i == 26 {
        reveal_strlit("unica.template.add");
        reveal_strlit("template-add");
        assert(t.name.subrange(0, 6) =~= "unica."@);
        assert(operation_named(t.name) =~= "template-add"@);
    } else if i == 27 {
        reveal_strlit("unica.template.remove");
        reveal_strlit("template-remove");
        assert(t.name.subrange(0, 6) =~= "unica."@);
        assert(operation_named(t.name) =~= "template-remove"@);
    } else if i == 28 {
        reveal_strlit("unica.skd.compile");
        reveal_strlit("skd-compile");
        assert(t.name.subrange(0, 6) =~= "unica."@);
        assert(operation_named(t.name) =~= "skd-compile"@);
    } else if i == 29 {
        reveal_strlit("unica.skd.edit");
        reveal_strlit("skd-edit");
        assert(t.name.subrange(0, 6) =~= "unica."@);
        assert(operation_named(t.name) =~= "skd-edit"@);
    } else if i == 30 {
        reveal_strlit("unica.skd.info");
        reveal_strlit("skd-info");
        assert(t.name.subrange(0, 6) =~= "unica."@);
        assert(operation_named(t.name) =~= "skd-info"@);
    } else if i == 31 {
        reveal_strlit("unica.skd.validate");
        reveal_strlit("skd-validate");
        assert(t.name.subrange(0, 6) =~= "unica."@);
        assert(operation_named(t.name) =~= "skd-validate"@);
    } else if i == 32 {
        reveal_strlit("unica.mxl.compile");
        reveal_strlit("mxl-compile");
        assert(t.name.subrange(0, 6) =~= "unica."@);
        assert(operation_named(t.name) =~= "mxl-compile"@);
    } else if i == 33 {
        reveal_strlit("unica.mxl.decompile");
        reveal_strlit("mxl-decompile");
        assert(t.name.subrange(0, 6) =~= "unica."@);
        assert(operation_named(t.name) =~= "mxl-decompile"@);
    } else if i == 34 {
        reveal_strlit("unica.mxl.info");
        reveal_strlit("mxl-info");
        assert(t.name.subrange(0, 6) =~= "unica."@);
        assert(operation_named(t.name) =~= "mxl-info"@);
    } else if i == 35 {
        reveal_strlit("unica.mxl.validate");
        reveal_strlit("mxl-validate");
        assert(t.name.subrange(0, 6) =~= "unica."@);
        assert(operation_named(t.name) =~= "mxl-validate"@);
    } else if i == 36 {
        reveal_strlit("unica.role.compile");
        reveal_strlit("role-compile");
        assert(t.name.subrange(0, 6) =~= "unica."@);
        assert(operation_named(t.name) =~= "role-compile"@);
    } else if i == 37 {
        reveal_strlit("unica.role.info");
        reveal_strlit("role-info");
        assert(t.name.subrange(0, 6) =~= "unica."@);
        assert(operation_named(t.name) =~= "role-info"@);
    } else if i == 38 {
        reveal_strlit("unica.role.validate");
        reveal_strlit("role-validate");
        assert(t.name.subrange(0, 6) =~= "unica."@);
        assert(operation_named(t.name) =~= "role-validate"@);
    }
}

/// The status, code and standards tools only read.
pub proof fn lemma_inspecting_tools_do_not_mutate(i: int)
    requires
        0 <= i < catalog().len(),
        catalog()[i].handler is ProjectStatus || catalog()[i].handler is CodeAdapter
            || catalog()[i].handler is StandardsAdapter,
    ensures
        !catalog()[i].mutating,
        catalog()[i].writes.len() == 0,
{
    let c = configuration_catalog().len() as int;
    if i < c {
        lemma_configuration_tools_are_native_operations(i);
    } else {
        assert(catalog()[i] == adapter_catalog()[i - c]);
    }
}


// ---------------------------------------------------------------------------
// Which adapter carries out a tool
// ---------------------------------------------------------------------------

/// The adapter that carries out a tool call.
#[derive(Debug, Clone, Copy)]
pub enum Route {
    LegacyScript { skill: &'static str, script: &'static str },
    NativeOperation { operation: &'static str },
    ProjectStatus,
    /// A launcher script called with a fixed command and the tool arguments
    /// as flags.
    Cli { launcher: &'static str, command: &'static [&'static str], label: &'static str },
    Runtime,
    CodeSearch,
    Standards { operation: &'static str },
}

/// Build and runtime tools call v8-runner; code tools call the analyzer,
/// except that its `search` command also consults the code index.
pub open spec fn route_ok(r: Route, h: ToolHandler) -> bool {
    match h {
        ToolHandler::LegacyScript { skill, script, .. } => r == Route::LegacyScript { skill, script },
        ToolHandler::NativeOperation { operation, .. } => r == Route::NativeOperation { operation },
        ToolHandler::ProjectStatus => r is ProjectStatus,
        ToolHandler::BuildRuntime { command, .. } => r matches Route::Cli { launcher, command: c, label }
            && launcher@ == "run-v8-runner.sh"@ && c == command && label@ == "build/runtime"@,
        ToolHandler::RuntimeAdapter => r is Runtime,
        ToolHandler::CodeAdapter { command } => if strs(command@) == seq!["search"@] {
            r is CodeSearch
        } else {
            r matches Route::Cli { launcher, command: c, label } && launcher@ == "run-bsl-analyzer.sh"@
                && c == command && label@ == "code analysis"@
        },
        ToolHandler::StandardsAdapter { operation } => r == Route::Standards { operation },
    }
}

fn is_search_command(command: &'static [&'static str]) -> (r: bool)
    ensures
        r == (strs(command@) == seq!["search"@]),
{
    if command.len() == 1 && str_eq(command[0], "search") {
        assert(strs(command@) =~= seq!["search"@]);
        true
    } else {
        proof {
            if strs(command@) == seq!["search"@] {
                assert(strs(command@).len() == 1);
                assert(command@.len() == 1);
                assert(strs(command@)[0] == "search"@);
                assert(command@[0]@ == strs(command@)[0]);
            }
        }
        false
    }
}

pub fn route(spec: &ToolSpec) -> (r: Route)
    ensures
        route_ok(r, spec.handler),
{
    match spec.handler {
        ToolHandler::LegacyScript { skill, script, .. } => Route::LegacyScript { skill, script },
        ToolHandler::NativeOperation { operation, .. } => Route::NativeOperation { operation },
        ToolHandler::ProjectStatus => Route::ProjectStatus,
        ToolHandler::BuildRuntime { command, .. } => Route::Cli {
            launcher: "run-v8-runner.sh",
            command,
            label: "build/runtime",
        },
        ToolHandler::RuntimeAdapter => Route::Runtime,
        ToolHandler::CodeAdapter { command } => if is_search_command(command) {
            Route::CodeSearch
        } else {
            Route::Cli { launcher: "run-bsl-analyzer.sh", command, label: "code analysis" }
        },
        ToolHandler::StandardsAdapter { operation } => Route::Standards { operation },
    }
}

} // verus!
