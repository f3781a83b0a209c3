//! The catalogue of tools that the server offers, and the routing and event
//! decisions that depend on a tool's description alone.

use vstd::prelude::*;
use crate::events::{DomainEvent, DomainEventKind};
use crate::json::{arg_bool, arg_str, get_bool, get_str, JsonObject};
use crate::text::{seq_starts_with, starts_with, str_eq};

verus! {

/// The caches that a tool reads and the caches that its changes invalidate.
#[derive(Debug, Clone, Copy)]
pub struct CacheAccess {
    pub reads: &'static [&'static str],
    pub writes: &'static [&'static str],
}

pub open spec fn strs(s: Seq<&'static str>) -> Seq<Seq<char>> {
    s.map_values(|x: &'static str| x@)
}

impl CacheAccess {
    pub open spec fn reads_view(self) -> Seq<Seq<char>> {
        strs(self.reads@)
    }

    pub open spec fn writes_view(self) -> Seq<Seq<char>> {
        strs(self.writes@)
    }

    /// No cache read, none written.
    pub fn none() -> (c: CacheAccess)
        ensures
            c.reads@.len() == 0,
            c.writes@.len() == 0,
    {
        CacheAccess { reads: &[], writes: &[] }
    }
}

impl Default for CacheAccess {
    fn default() -> (c: CacheAccess)
        ensures
            c.reads@.len() == 0,
            c.writes@.len() == 0,
    {
        CacheAccess::none()
    }
}

/// How a tool is carried out.
#[derive(Debug, Clone, Copy)]
pub enum ToolHandler {
    LegacyScript { skill: &'static str, script: &'static str, event: Option<DomainEventKind> },
    NativeOperation { operation: &'static str, event: Option<DomainEventKind> },
    ProjectStatus,
    BuildRuntime { command: &'static [&'static str], event: Option<DomainEventKind> },
    RuntimeAdapter,
    CodeAdapter { command: &'static [&'static str] },
    StandardsAdapter { operation: &'static str },
}

/// The model of a handler: its words as character sequences.
#[verifier::ext_equal]
pub enum HandlerView {
    LegacyScript { skill: Seq<char>, script: Seq<char>, event: Option<DomainEventKind> },
    NativeOperation { operation: Seq<char>, event: Option<DomainEventKind> },
    ProjectStatus,
    BuildRuntime { command: Seq<Seq<char>>, event: Option<DomainEventKind> },
    RuntimeAdapter,
    CodeAdapter { command: Seq<Seq<char>> },
    StandardsAdapter { operation: Seq<char> },
}

impl View for ToolHandler {
    type V = HandlerView;

    open spec fn view(&self) -> HandlerView {
        match *self {
            ToolHandler::LegacyScript { skill, script, event } => HandlerView::LegacyScript {
                skill: skill@,
                script: script@,
                event,
            },
            ToolHandler::NativeOperation { operation, event } => HandlerView::NativeOperation {
                operation: operation@,
                event,
            },
            ToolHandler::ProjectStatus => HandlerView::ProjectStatus,
            ToolHandler::BuildRuntime { command, event } => HandlerView::BuildRuntime {
                command: strs(command@),
                event,
            },
            ToolHandler::RuntimeAdapter => HandlerView::RuntimeAdapter,
            ToolHandler::CodeAdapter { command } => HandlerView::CodeAdapter { command: strs(command@) },
            ToolHandler::StandardsAdapter { operation } => HandlerView::StandardsAdapter {
                operation: operation@,
            },
        }
    }
}

/// A tool that the server offers.
#[derive(Debug, Clone, Copy)]
pub struct ToolSpec {
    pub name: &'static str,
    pub description: &'static str,
    pub mutating: bool,
    pub cache_access: CacheAccess,
    pub handler: ToolHandler,
}

/// The model of a tool.
#[verifier::ext_equal]
pub struct ToolView {
    pub name: Seq<char>,
    pub description: Seq<char>,
    pub mutating: bool,
    pub reads: Seq<Seq<char>>,
    pub writes: Seq<Seq<char>>,
    pub handler: HandlerView,
}

impl View for ToolSpec {
    type V = ToolView;

    open spec fn view(&self) -> ToolView {
        ToolView {
            name: self.name@,
            description: self.description@,
            mutating: self.mutating,
            reads: self.cache_access.reads_view(),
            writes: self.cache_access.writes_view(),
            handler: self.handler@,
        }
    }
}

pub open spec fn tool_views(tools: Seq<ToolSpec>) -> Seq<ToolView> {
    tools.map_values(|t: ToolSpec| t@)
}

// ---------------------------------------------------------------------------
// Cache access of configuration tools
// ---------------------------------------------------------------------------

/// Reads and writes of a configuration operation: a changing operation
/// invalidates the metadata graph; an inspecting one reads the metadata graph
/// and the graph of its own object family.
pub open spec fn cache_access_spec(operation: Seq<char>, event: Option<DomainEventKind>) -> (Seq<Seq<char>>, Seq<Seq<char>>) {
    if event is Some {
        (seq![], seq!["metadata_graph"@])
    } else if seq_starts_with(operation, "form-"@) {
        (seq!["metadata_graph"@, "form_graph"@], seq![])
    } else if seq_starts_with(operation, "role-"@) {
        (seq!["metadata_graph"@, "rights_graph"@], seq![])
    } else if seq_starts_with(operation, "skd-"@) {
        (seq!["metadata_graph"@, "skd_graph"@], seq![])
    } else if seq_starts_with(operation, "mxl-"@) {
        (seq!["metadata_graph"@, "mxl_graph"@], seq![])
    } else if seq_starts_with(operation, "subsystem-"@) || seq_starts_with(operation, "interface-"@) {
        (seq!["metadata_graph"@, "subsystem_graph"@, "command_interface_graph"@], seq![])
    } else {
        (seq!["workspace_graph"@, "metadata_graph"@], seq![])
    }
}

fn access(reads: &'static [&'static str], writes: &'static [&'static str]) -> (c: CacheAccess)
    ensures
        c.reads == reads,
        c.writes == writes,
{
    CacheAccess { reads, writes }
}

pub fn cache_access_for(operation: &str, event: Option<DomainEventKind>) -> (c: CacheAccess)
    ensures
        (c.reads_view(), c.writes_view()) == cache_access_spec(operation@, event),
{
    let c = if event.is_some() {
        access(&[], &["metadata_graph"])
    } else if starts_with(operation, "form-") {
        access(&["metadata_graph", "form_graph"], &[])
    } else if starts_with(operation, "role-") {
        access(&["metadata_graph", "rights_graph"], &[])
    } else if starts_with(operation, "skd-") {
        access(&["metadata_graph", "skd_graph"], &[])
    } else if starts_with(operation, "mxl-") {
        access(&["metadata_graph", "mxl_graph"], &[])
    } else if starts_with(operation, "subsystem-") || starts_with(operation, "interface-") {
        access(&["metadata_graph", "subsystem_graph", "command_interface_graph"], &[])
    } else {
        access(&["workspace_graph", "metadata_graph"], &[])
    };
    assert((c.reads_view(), c.writes_view()) =~~= cache_access_spec(operation@, event));
    c
}

// ---------------------------------------------------------------------------
// The catalogue
// ---------------------------------------------------------------------------

/// The model of a configuration tool: a native operation whose cache access
/// follows from its operation and event.
pub open spec fn config_view(
    name: Seq<char>,
    description: Seq<char>,
    mutating: bool,
    operation: Seq<char>,
    event: Option<DomainEventKind>,
) -> ToolView {
    ToolView {
        name,
        description,
        mutating,
        reads: cache_access_spec(operation, event).0,
        writes: cache_access_spec(operation, event).1,
        handler: HandlerView::NativeOperation { operation, event },
    }
}

fn config_tool(
    name: &'static str,
    description: &'static str,
    mutating: bool,
    operation: &'static str,
    event: Option<DomainEventKind>,
) -> (t: ToolSpec)
    ensures
        t@ == config_view(name@, description@, mutating, operation@, event),
{
    ToolSpec {
        name,
        description,
        mutating,
        cache_access: cache_access_for(operation, event),
        handler: ToolHandler::NativeOperation { operation, event },
    }
}

/// The configuration tools: configuration, extension, metadata, form,
/// command interface, subsystem, template, data composition schema,
/// spreadsheet and role operations.
pub open spec fn configuration_catalog() -> Seq<ToolView> {
    seq![
        config_view("unica.cf.edit"@, "Edit root Configuration.xml properties, ChildObjects, panels, and home page."@, true, "cf-edit"@, Some(DomainEventKind::ConfigXmlChanged)),
        config_view("unica.cf.info"@, "Inspect root Configuration.xml."@, false, "cf-info"@, None),
        config_view("unica.cf.init"@, "Create empty 1C configuration XML scaffold."@, true, "cf-init"@, Some(DomainEventKind::ConfigXmlChanged)),
        config_view("unica.cf.validate"@, "Validate root configuration XML structure."@, false, "cf-validate"@, None),
        config_view("unica.cfe.borrow"@, "Borrow configuration objects/forms into an extension."@, true, "cfe-borrow"@, Some(DomainEventKind::CfeChanged)),
        config_view("unica.cfe.diff"@, "Inspect extension contents and transferred insertion blocks."@, false, "cfe-diff"@, None),
        config_view("unica.cfe.init"@, "Create extension XML scaffold."@, true, "cfe-init"@, Some(DomainEventKind::CfeChanged)),
        config_view("unica.cfe.patch_method"@, "Generate a CFE method interceptor."@, true, "cfe-patch-method"@, Some(DomainEventKind::ModuleChanged)),
        config_view("unica.cfe.validate"@, "Validate extension XML structure."@, false, "cfe-validate"@, None),
        config_view("unica.meta.compile"@, "Compile metadata object XML from JSON DSL."@, true, "meta-compile"@, Some(DomainEventKind::MetadataChanged)),
        config_view("unica.meta.edit"@, "Edit metadata object XML."@, true, "meta-edit"@, Some(DomainEventKind::MetadataChanged)),
        config_view("unica.meta.info"@, "Inspect metadata object XML."@, false, "meta-info"@, None),
        config_view("unica.meta.remove"@, "Remove metadata object XML and registration."@, true, "meta-remove"@, Some(DomainEventKind::MetadataChanged)),
        config_view("unica.meta.validate"@, "Validate metadata object XML."@, false, "meta-validate"@, None),
        config_view("unica.form.add"@, "Add managed form metadata and files."@, true, "form-add"@, Some(DomainEventKind::FormChanged)),
        config_view("unica.form.compile"@, "Compile managed Form.xml from JSON DSL or metadata."@, true, "form-compile"@, Some(DomainEventKind::FormChanged)),
        config_view("unica.form.edit"@, "Edit managed Form.xml elements, attributes, and commands."@, true, "form-edit"@, Some(DomainEventKind::FormChanged)),
        config_view("unica.form.info"@, "Inspect managed Form.xml."@, false, "form-info"@, None),
        config_view("unica.form.remove"@, "Remove a managed form and registration."@, true, "form-remove"@, Some(DomainEventKind::FormChanged)),
        config_view("unica.form.validate"@, "Validate managed Form.xml."@, false, "form-validate"@, None),
        config_view("unica.interface.edit"@, "Edit subsystem CommandInterface.xml."@, true, "interface-edit"@, Some(DomainEventKind::SubsystemChanged)),
        config_view("unica.interface.validate"@, "Validate CommandInterface.xml."@, false, "interface-validate"@, None),
        config_view("unica.subsystem.compile"@, "Compile subsystem XML from JSON DSL."@, true, "subsystem-compile"@, Some(DomainEventKind::SubsystemChanged)),
        config_view("unica.subsystem.edit"@, "Edit subsystem XML content and hierarchy."@, true, "subsystem-edit"@, Some(DomainEventKind::SubsystemChanged)),
        config_view("unica.subsystem.info"@, "Inspect subsystem XML and command interface."@, false, "subsystem-info"@, None),
        config_view("unica.subsystem.validate"@, "Validate subsystem XML."@, false, "subsystem-validate"@, None),
        config_view("unica.template.add"@, "Add a template to an object and register it."@, true, "template-add"@, Some(DomainEventKind::TemplateChanged)),
        config_view("unica.template.remove"@, "Remove a template from an object."@, true, "template-remove"@, Some(DomainEventKind::TemplateChanged)),
        config_view("unica.skd.compile"@, "Compile Data Composition Schema XML from JSON DSL."@, true, "skd-compile"@, Some(DomainEventKind::SkdChanged)),
        config_view("unica.skd.edit"@, "Edit Data Composition Schema Template.xml."@, true, "skd-edit"@, Some(DomainEventKind::SkdChanged)),
        config_view("unica.skd.info"@, "Inspect Data Composition Schema Template.xml."@, false, "skd-info"@, None),
        config_view("unica.skd.validate"@, "Validate Data Composition Schema Template.xml."@, false, "skd-validate"@, None),
        config_view("unica.mxl.compile"@, "Compile spreadsheet Template.xml from JSON DSL."@, true, "mxl-compile"@, Some(DomainEventKind::MxlChanged)),
        config_view("unica.mxl.decompile"@, "Decompile spreadsheet Template.xml to JSON DSL."@, false, "mxl-decompile"@, None),
        config_view("unica.mxl.info"@, "Inspect spreadsheet Template.xml."@, false, "mxl-info"@, None),
        config_view("unica.mxl.validate"@, "Validate spreadsheet Template.xml."@, false, "mxl-validate"@, None),
        config_view("unica.role.compile"@, "Compile role metadata and Rights.xml from JSON DSL."@, true, "role-compile"@, Some(DomainEventKind::RoleChanged)),
        config_view("unica.role.info"@, "Inspect role Rights.xml."@, false, "role-info"@, None),
        config_view("unica.role.validate"@, "Validate role Rights.xml."@, false, "role-validate"@, None),
    ]
}

/// The tools that run build, runtime, code and standards adapters.
pub open spec fn adapter_catalog() -> Seq<ToolView> {
    seq![
        ToolView {
            name: "unica.project.status"@,
            description: "Inspect current Unica workspace, source set, and cache state."@,
            mutating: false,
            reads: seq![],
            writes: seq![],
            handler: HandlerView::ProjectStatus,
        },
        ToolView {
            name: "unica.build.dump"@,
            description: "Dump source set through the internal build/runtime adapter."@,
            mutating: true,
            reads: seq![],
            writes: seq!["workspace_graph"@, "metadata_graph"@],
            handler: HandlerView::BuildRuntime { command: seq!["dump"@], event: Some(DomainEventKind::SourceSetChanged) },
        },
        ToolView {
            name: "unica.build.load"@,
            description: "Load/build XML source set through the internal build/runtime adapter."@,
            mutating: true,
            reads: seq![],
            writes: seq!["workspace_graph"@, "metadata_graph"@],
            handler: HandlerView::BuildRuntime { command: seq!["build"@], event: Some(DomainEventKind::BuildCompleted) },
        },
        ToolView {
            name: "unica.build.update"@,
            description: "Apply built configuration changes through the internal build/runtime adapter."@,
            mutating: true,
            reads: seq![],
            writes: seq!["workspace_graph"@, "metadata_graph"@],
            handler: HandlerView::BuildRuntime { command: seq!["build"@, "--update"@], event: Some(DomainEventKind::BuildCompleted) },
        },
        ToolView {
            name: "unica.build.make"@,
            description: "Create CF/CFE artifact through the internal build/runtime adapter."@,
            mutating: true,
            reads: seq![],
            writes: seq![],
            handler: HandlerView::BuildRuntime { command: seq!["make"@], event: None },
        },
        ToolView {
            name: "unica.build.run"@,
            description: "Launch 1C runtime or Designer through the internal build/runtime adapter."@,
            mutating: true,
            reads: seq![],
            writes: seq![],
            handler: HandlerView::BuildRuntime { command: seq!["launch"@], event: None },
        },
        ToolView {
            name: "unica.runtime.execute"@,
            description: "Execute typed v8-runner runtime workflows through the single Unica MCP boundary."@,
            mutating: true,
            reads: seq![],
            writes: seq!["workspace_graph"@, "metadata_graph"@],
            handler: HandlerView::RuntimeAdapter,
        },
        ToolView {
            name: "unica.code.search"@,
            description: "Search BSL code through the internal code index adapter."@,
            mutating: false,
            reads: seq!["bsl_index"@],
            writes: seq![],
            handler: HandlerView::CodeAdapter { command: seq!["search"@] },
        },
        ToolView {
            name: "unica.code.diagnostics"@,
            description: "Run BSL diagnostics through the internal code analysis adapter."@,
            mutating: false,
            reads: seq!["bsl_diagnostics"@],
            writes: seq![],
            handler: HandlerView::CodeAdapter { command: seq!["analyze"@] },
        },
        ToolView {
            name: "unica.standards.search"@,
            description: "Search 1C standards through the internal standards adapter."@,
            mutating: false,
            reads: seq![],
            writes: seq![],
            handler: HandlerView::StandardsAdapter { operation: "search"@ },
        },
        ToolView {
            name: "unica.standards.explain"@,
            description: "Explain 1C diagnostics or standards through the internal standards adapter."@,
            mutating: false,
            reads: seq![],
            writes: seq![],
            handler: HandlerView::StandardsAdapter { operation: "explain"@ },
        },
    ]
}

/// Every tool, configuration tools first.
pub open spec fn catalog() -> Seq<ToolView> {
    configuration_catalog() + adapter_catalog()
}

pub fn configuration_tools() -> (r: Vec<ToolSpec>)
    ensures
        tool_views(r@) == configuration_catalog(),
{
    let mut r: Vec<ToolSpec> = Vec::new();
    r.push(config_tool("unica.cf.edit", "Edit root Configuration.xml properties, ChildObjects, panels, and home page.", true, "cf-edit", Some(DomainEventKind::ConfigXmlChanged)));
    r.push(config_tool("unica.cf.info", "Inspect root Configuration.xml.", false, "cf-info", None));
    r.push(config_tool("unica.cf.init", "Create empty 1C configuration XML scaffold.", true, "cf-init", Some(DomainEventKind::ConfigXmlChanged)));
    r.push(config_tool("unica.cf.validate", "Validate root configuration XML structure.", false, "cf-validate", None));
    r.push(config_tool("unica.cfe.borrow", "Borrow configuration objects/forms into an extension.", true, "cfe-borrow", Some(DomainEventKind::CfeChanged)));
    r.push(config_tool("unica.cfe.diff", "Inspect extension contents and transferred insertion blocks.", false, "cfe-diff", None));
    r.push(config_tool("unica.cfe.init", "Create extension XML scaffold.", true, "cfe-init", Some(DomainEventKind::CfeChanged)));
    r.push(config_tool("unica.cfe.patch_method", "Generate a CFE method interceptor.", true, "cfe-patch-method", Some(DomainEventKind::ModuleChanged)));
    r.push(config_tool("unica.cfe.validate", "Validate extension XML structure.", false, "cfe-validate", None));
    r.push(config_tool("unica.meta.compile", "Compile metadata object XML from JSON DSL.", true, "meta-compile", Some(DomainEventKind::MetadataChanged)));
    r.push(config_tool("unica.meta.edit", "Edit metadata object XML.", true, "meta-edit", Some(DomainEventKind::MetadataChanged)));
    r.push(config_tool("unica.meta.info", "Inspect metadata object XML.", false, "meta-info", None));
    r.push(config_tool("unica.meta.remove", "Remove metadata object XML and registration.", true, "meta-remove", Some(DomainEventKind::MetadataChanged)));
    r.push(config_tool("unica.meta.validate", "Validate metadata object XML.", false, "meta-validate", None));
    r.push(config_tool("unica.form.add", "Add managed form metadata and files.", true, "form-add", Some(DomainEventKind::FormChanged)));
    r.push(config_tool("unica.form.compile", "Compile managed Form.xml from JSON DSL or metadata.", true, "form-compile", Some(DomainEventKind::FormChanged)));
    r.push(config_tool("unica.form.edit", "Edit managed Form.xml elements, attributes, and commands.", true, "form-edit", Some(DomainEventKind::FormChanged)));
    r.push(config_tool("unica.form.info", "Inspect managed Form.xml.", false, "form-info", None));
    r.push(config_tool("unica.form.remove", "Remove a managed form and registration.", true, "form-remove", Some(DomainEventKind::FormChanged)));
    r.push(config_tool("unica.form.validate", "Validate managed Form.xml.", false, "form-validate", None));
    r.push(config_tool("unica.interface.edit", "Edit subsystem CommandInterface.xml.", true, "interface-edit", Some(DomainEventKind::SubsystemChanged)));
    r.push(config_tool("unica.interface.validate", "Validate CommandInterface.xml.", false, "interface-validate", None));
    r.push(config_tool("unica.subsystem.compile", "Compile subsystem XML from JSON DSL.", true, "subsystem-compile", Some(DomainEventKind::SubsystemChanged)));
    r.push(config_tool("unica.subsystem.edit", "Edit subsystem XML content and hierarchy.", true, "subsystem-edit", Some(DomainEventKind::SubsystemChanged)));
    r.push(config_tool("unica.subsystem.info", "Inspect subsystem XML and command interface.", false, "subsystem-info", None));
    r.push(config_tool("unica.subsystem.validate", "Validate subsystem XML.", false, "subsystem-validate", None));
    r.push(config_tool("unica.template.add", "Add a template to an object and register it.", true, "template-add", Some(DomainEventKind::TemplateChanged)));
    r.push(config_tool("unica.template.remove", "Remove a template from an object.", true, "template-remove", Some(DomainEventKind::TemplateChanged)));
    r.push(config_tool("unica.skd.compile", "Compile Data Composition Schema XML from JSON DSL.", true, "skd-compile", Some(DomainEventKind::SkdChanged)));
    r.push(config_tool("unica.skd.edit", "Edit Data Composition Schema Template.xml.", true, "skd-edit", Some(DomainEventKind::SkdChanged)));
    r.push(config_tool("unica.skd.info", "Inspect Data Composition Schema Template.xml.", false, "skd-info", None));
    r.push(config_tool("unica.skd.validate", "Validate Data Composition Schema Template.xml.", false, "skd-validate", None));
    r.push(config_tool("unica.mxl.compile", "Compile spreadsheet Template.xml from JSON DSL.", true, "mxl-compile", Some(DomainEventKind::MxlChanged)));
    r.push(config_tool("unica.mxl.decompile", "Decompile spreadsheet Template.xml to JSON DSL.", false, "mxl-decompile", None));
    r.push(config_tool("unica.mxl.info", "Inspect spreadsheet Template.xml.", false, "mxl-info", None));
    r.push(config_tool("unica.mxl.validate", "Validate spreadsheet Template.xml.", false, "mxl-validate", None));
    r.push(config_tool("unica.role.compile", "Compile role metadata and Rights.xml from JSON DSL.", true, "role-compile", Some(DomainEventKind::RoleChanged)));
    r.push(config_tool("unica.role.info", "Inspect role Rights.xml.", false, "role-info", None));
    r.push(config_tool("unica.role.validate", "Validate role Rights.xml.", false, "role-validate", None));
    assert(tool_views(r@) =~= configuration_catalog());
    r
}

fn build_runtime(command: &'static [&'static str], event: Option<DomainEventKind>) -> (h: ToolHandler)
    ensures
        h == (ToolHandler::BuildRuntime { command, event }),
{
    ToolHandler::BuildRuntime { command, event }
}

fn code_adapter(command: &'static [&'static str]) -> (h: ToolHandler)
    ensures
        h == (ToolHandler::CodeAdapter { command }),
{
    ToolHandler::CodeAdapter { command }
}

fn adapter_tools() -> (r: Vec<ToolSpec>)
    ensures
        tool_views(r@) == adapter_catalog(),
{
    let mut r: Vec<ToolSpec> = Vec::new();
    r.push(ToolSpec {
        name: "unica.project.status",
        description: "Inspect current Unica workspace, source set, and cache state.",
        mutating: false,
        cache_access: CacheAccess::none(),
        handler: ToolHandler::ProjectStatus,
    });
    r.push(ToolSpec {
        name: "unica.build.dump",
        description: "Dump source set through the internal build/runtime adapter.",
        mutating: true,
        cache_access: access(&[], &["workspace_graph", "metadata_graph"]),
        handler: build_runtime(&["dump"], Some(DomainEventKind::SourceSetChanged)),
    });
    r.push(ToolSpec {
        name: "unica.build.load",
        description: "Load/build XML source set through the internal build/runtime adapter.",
        mutating: true,
        cache_access: access(&[], &["workspace_graph", "metadata_graph"]),
        handler: build_runtime(&["build"], Some(DomainEventKind::BuildCompleted)),
    });
    r.push(ToolSpec {
        name: "unica.build.update",
        description: "Apply built configuration changes through the internal build/runtime adapter.",
        mutating: true,
        cache_access: access(&[], &["workspace_graph", "metadata_graph"]),
        handler: build_runtime(&["build", "--update"], Some(DomainEventKind::BuildCompleted)),
    });
    r.push(ToolSpec {
        name: "unica.build.make",
        description: "Create CF/CFE artifact through the internal build/runtime adapter.",
        mutating: true,
        cache_access: CacheAccess::none(),
        handler: build_runtime(&["make"], None),
    });
    r.push(ToolSpec {
        name: "unica.build.run",
        description: "Launch 1C runtime or Designer through the internal build/runtime adapter.",
        mutating: true,
        cache_access: CacheAccess::none(),
        handler: build_runtime(&["launch"], None),
    });
    r.push(ToolSpec {
        name: "unica.runtime.execute",
        description: "Execute typed v8-runner runtime workflows through the single Unica MCP boundary.",
        mutating: true,
        cache_access: access(&[], &["workspace_graph", "metadata_graph"]),
        handler: ToolHandler::RuntimeAdapter,
    });
    r.push(ToolSpec {
        name: "unica.code.search",
        description: "Search BSL code through the internal code index adapter.",
        mutating: false,
        cache_access: access(&["bsl_index"], &[]),
        handler: code_adapter(&["search"]),
    });
    r.push(ToolSpec {
        name: "unica.code.diagnostics",
        description: "Run BSL diagnostics through the internal code analysis adapter.",
        mutating: false,
        cache_access: access(&["bsl_diagnostics"], &[]),
        handler: code_adapter(&["analyze"]),
    });
    r.push(ToolSpec {
        name: "unica.standards.search",
        description: "Search 1C standards through the internal standards adapter.",
        mutating: false,
        cache_access: CacheAccess::none(),
        handler: ToolHandler::StandardsAdapter { operation: "search" },
    });
    r.push(ToolSpec {
        name: "unica.standards.explain",
        description: "Explain 1C diagnostics or standards through the internal standards adapter.",
        mutating: false,
        cache_access: CacheAccess::none(),
        handler: ToolHandler::StandardsAdapter { operation: "explain" },
    });
    proof {
        assert(r@[0].cache_access.reads_view() =~= seq![]);
        assert(r@[0].cache_access.writes_view() =~= seq![]);
        assert(tool_views(r@)[0] =~~= adapter_catalog()[0]);
        assert(r@[1].cache_access.reads_view() =~= seq![]);
        assert(r@[1].cache_access.writes_view() =~= seq!["workspace_graph"@, "metadata_graph"@]);
        assert(r@[1].handler@ =~~= HandlerView::BuildRuntime { command: seq!["dump"@], event: Some(DomainEventKind::SourceSetChanged) });
        assert(tool_views(r@)[1] =~~= adapter_catalog()[1]);
        assert(r@[2].cache_access.reads_view() =~= seq![]);
        assert(r@[2].cache_access.writes_view() =~= seq!["workspace_graph"@, "metadata_graph"@]);
        assert(r@[2].handler@ =~~= HandlerView::BuildRuntime { command: seq!["build"@], event: Some(DomainEventKind::BuildCompleted) });
        assert(tool_views(r@)[2] =~~= adapter_catalog()[2]);
        assert(r@[3].cache_access.reads_view() =~= seq![]);
        assert(r@[3].cache_access.writes_view() =~= seq!["workspace_graph"@, "metadata_graph"@]);
        assert(r@[3].handler@ =~~= HandlerView::BuildRuntime { command: seq!["build"@, "--update"@], event: Some(DomainEventKind::BuildCompleted) });
        assert(tool_views(r@)[3] =~~= adapter_catalog()[3]);
        assert(r@[4].cache_access.reads_view() =~= seq![]);
        assert(r@[4].cache_access.writes_view() =~= seq![]);
        assert(r@[4].handler@ =~~= HandlerView::BuildRuntime { command: seq!["make"@], event: None });
        assert(tool_views(r@)[4] =~~= adapter_catalog()[4]);
        assert(r@[5].cache_access.reads_view() =~= seq![]);
        assert(r@[5].cache_access.writes_view() =~= seq![]);
        assert(r@[5].handler@ =~~= HandlerView::BuildRuntime { command: seq!["launch"@], event: None });
        assert(tool_views(r@)[5] =~~= adapter_catalog()[5]);
        assert(r@[6].cache_access.reads_view() =~= seq![]);
        assert(r@[6].cache_access.writes_view() =~= seq!["workspace_graph"@, "metadata_graph"@]);
        assert(tool_views(r@)[6] =~~= adapter_catalog()[6]);
        assert(r@[7].cache_access.reads_view() =~= seq!["bsl_index"@]);
        assert(r@[7].cache_access.writes_view() =~= seq![]);
        assert(r@[7].handler@ =~~= HandlerView::CodeAdapter { command: seq!["search"@] });
        assert(tool_views(r@)[7] =~~= adapter_catalog()[7]);
        assert(r@[8].cache_access.reads_view() =~= seq!["bsl_diagnostics"@]);
        assert(r@[8].cache_access.writes_view() =~= seq![]);
        assert(r@[8].handler@ =~~= HandlerView::CodeAdapter { command: seq!["analyze"@] });
        assert(tool_views(r@)[8] =~~= adapter_catalog()[8]);
        assert(r@[9].cache_access.reads_view() =~= seq![]);
        assert(r@[9].cache_access.writes_view() =~= seq![]);
        assert(tool_views(r@)[9] =~~= adapter_catalog()[9]);
        assert(r@[10].cache_access.reads_view() =~= seq![]);
        assert(r@[10].cache_access.writes_view() =~= seq![]);
        assert(tool_views(r@)[10] =~~= adapter_catalog()[10]);
    }
    assert(tool_views(r@) =~~= adapter_catalog());
    r
}

/// All tools that the server offers.
pub fn tools() -> (r: Vec<ToolSpec>)
    ensures
        tool_views(r@) == catalog(),
{
    let mut specs = configuration_tools();
    let mut more = adapter_tools();
    specs.append(&mut more);
    assert(tool_views(specs@) =~= catalog());
    specs
}

} // verus!
