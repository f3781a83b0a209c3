//! Domain events: what a tool that changes things reports having changed.

use vstd::prelude::*;

verus! {

/// Kinds of domain events that a mutating tool reports.
#[derive(Debug, Clone, Copy, PartialEq, Eq, Structural)]
pub enum DomainEventKind {
    ConfigXmlChanged,
    CfeChanged,
    MetadataChanged,
    FormChanged,
    ModuleChanged,
    RoleChanged,
    SkdChanged,
    MxlChanged,
    SubsystemChanged,
    TemplateChanged,
    SourceSetChanged,
    BuildCompleted,
}

/// The stable textual name of an event kind.
pub open spec fn kind_name(kind: DomainEventKind) -> Seq<char> {
    match kind {
        DomainEventKind::ConfigXmlChanged => "ConfigXmlChanged"@,
        DomainEventKind::CfeChanged => "CfeChanged"@,
        DomainEventKind::MetadataChanged => "MetadataChanged"@,
        DomainEventKind::FormChanged => "FormChanged"@,
        DomainEventKind::ModuleChanged => "ModuleChanged"@,
        DomainEventKind::RoleChanged => "RoleChanged"@,
        DomainEventKind::SkdChanged => "SkdChanged"@,
        DomainEventKind::MxlChanged => "MxlChanged"@,
        DomainEventKind::SubsystemChanged => "SubsystemChanged"@,
        DomainEventKind::TemplateChanged => "TemplateChanged"@,
        DomainEventKind::SourceSetChanged => "SourceSetChanged"@,
        DomainEventKind::BuildCompleted => "BuildCompleted"@,
    }
}

impl DomainEventKind {
    pub fn as_str(self) -> (name: &'static str)
        ensures
            name@ == kind_name(self),
    {
        match self {
            DomainEventKind::ConfigXmlChanged => "ConfigXmlChanged",
            DomainEventKind::CfeChanged => "CfeChanged",
            DomainEventKind::MetadataChanged => "MetadataChanged",
            DomainEventKind::FormChanged => "FormChanged",
            DomainEventKind::ModuleChanged => "ModuleChanged",
            DomainEventKind::RoleChanged => "RoleChanged",
            DomainEventKind::SkdChanged => "SkdChanged",
            DomainEventKind::MxlChanged => "MxlChanged",
            DomainEventKind::SubsystemChanged => "SubsystemChanged",
            DomainEventKind::TemplateChanged => "TemplateChanged",
            DomainEventKind::SourceSetChanged => "SourceSetChanged",
            DomainEventKind::BuildCompleted => "BuildCompleted",
        }
    }
}

/// Distinct event kinds have distinct names, so a reported name identifies its kind.
pub proof fn lemma_kind_name_injective(a: DomainEventKind, b: DomainEventKind)
    requires
        kind_name(a) == kind_name(b),
    ensures
        a == b,
{
    reveal_strlit("ConfigXmlChanged");
    reveal_strlit("CfeChanged");
    reveal_strlit("MetadataChanged");
    reveal_strlit("FormChanged");
    reveal_strlit("ModuleChanged");
    reveal_strlit("RoleChanged");
    reveal_strlit("SkdChanged");
    reveal_strlit("MxlChanged");
    reveal_strlit("SubsystemChanged");
    reveal_strlit("TemplateChanged");
    reveal_strlit("SourceSetChanged");
    reveal_strlit("BuildCompleted");
    match a {
        DomainEventKind::ConfigXmlChanged => {
            match b {
                DomainEventKind::ConfigXmlChanged => {},
                DomainEventKind::CfeChanged => { assert(kind_name(a).len() == 16 && kind_name(b).len() == 10); },
                DomainEventKind::MetadataChanged => { assert(kind_name(a).len() == 16 && kind_name(b).len() == 15); },
                DomainEventKind::FormChanged => { assert(kind_name(a).len() == 16 && kind_name(b).len() == 11); },
                DomainEventKind::ModuleChanged => { assert(kind_name(a).len() == 16 && kind_name(b).len() == 13); },
                DomainEventKind::RoleChanged => { assert(kind_name(a).len() == 16 && kind_name(b).len() == 11); },
                DomainEventKind::SkdChanged => { assert(kind_name(a).len() == 16 && kind_name(b).len() == 10); },
                DomainEventKind::MxlChanged => { assert(kind_name(a).len() == 16 && kind_name(b).len() == 10); },
                DomainEventKind::SubsystemChanged => { assert(kind_name(a)[0] == 'C' && kind_name(b)[0] == 'S'); },
                DomainEventKind::TemplateChanged => { assert(kind_name(a).len() == 16 && kind_name(b).len() == 15); },
                DomainEventKind::SourceSetChanged => { assert(kind_name(a)[0] == 'C' && kind_name(b)[0] == 'S'); },
                DomainEventKind::BuildCompleted => { assert(kind_name(a).len() == 16 && kind_name(b).len() == 14); },
            }
        },
        DomainEventKind::CfeChanged => {
            match b {
                DomainEventKind::ConfigXmlChanged => { assert(kind_name(a).len() == 10 && kind_name(b).len() == 16); },
                DomainEventKind::CfeChanged => {},
                DomainEventKind::MetadataChanged => { assert(kind_name(a).len() == 10 && kind_name(b).len() == 15); },
                DomainEventKind::FormChanged => { assert(kind_name(a).len() == 10 && kind_name(b).len() == 11); },
                DomainEventKind::ModuleChanged => { assert(kind_name(a).len() == 10 && kind_name(b).len() == 13); },
                DomainEventKind::RoleChanged => { assert(kind_name(a).len() == 10 && kind_name(b).len() == 11); },
                DomainEventKind::SkdChanged => { assert(kind_name(a)[0] == 'C' && kind_name(b)[0] == 'S'); },
                DomainEventKind::MxlChanged => { assert(kind_name(a)[0] == 'C' && kind_name(b)[0] == 'M'); },
                DomainEventKind::SubsystemChanged => { assert(kind_name(a).len() == 10 && kind_name(b).len() == 16); },
                DomainEventKind::TemplateChanged => { assert(kind_name(a).len() == 10 && kind_name(b).len() == 15); },
                DomainEventKind::SourceSetChanged => { assert(kind_name(a).len() == 10 && kind_name(b).len() == 16); },
                DomainEventKind::BuildCompleted => { assert(kind_name(a).len() == 10 && kind_name(b).len() == 14); },
            }
        },
        DomainEventKind::MetadataChanged => {
            match b {
                DomainEventKind::ConfigXmlChanged => { assert(kind_name(a).len() == 15 && kind_name(b).len() == 16); },
                DomainEventKind::CfeChanged => { assert(kind_name(a).len() == 15 && kind_name(b).len() == 10); },
                DomainEventKind::MetadataChanged => {},
                DomainEventKind::FormChanged => { assert(kind_name(a).len() == 15 && kind_name(b).len() == 11); },
                DomainEventKind::ModuleChanged => { assert(kind_name(a).len() == 15 && kind_name(b).len() == 13); },
                DomainEventKind::RoleChanged => { assert(kind_name(a).len() == 15 && kind_name(b).len() == 11); },
                DomainEventKind::SkdChanged => { assert(kind_name(a).len() == 15 && kind_name(b).len() == 10); },
                DomainEventKind::MxlChanged => { assert(kind_name(a).len() == 15 && kind_name(b).len() == 10); },
                DomainEventKind::SubsystemChanged => { assert(kind_name(a).len() == 15 && kind_name(b).len() == 16); },
                DomainEventKind::TemplateChanged => { assert(kind_name(a)[0] == 'M' && kind_name(b)[0] == 'T'); },
                DomainEventKind::SourceSetChanged => { assert(kind_name(a).len() == 15 && kind_name(b).len() == 16); },
                DomainEventKind::BuildCompleted => { assert(kind_name(a).len() == 15 && kind_name(b).len() == 14); },
            }
        },
        DomainEventKind::FormChanged => {
            match b {
                DomainEventKind::ConfigXmlChanged => { assert(kind_name(a).len() == 11 && kind_name(b).len() == 16); },
                DomainEventKind::CfeChanged => { assert(kind_name(a).len() == 11 && kind_name(b).len() == 10); },
                DomainEventKind::MetadataChanged => { assert(kind_name(a).len() == 11 && kind_name(b).len() == 15); },
                DomainEventKind::FormChanged => {},
                DomainEventKind::ModuleChanged => { assert(kind_name(a).len() == 11 && kind_name(b).len() == 13); },
                DomainEventKind::RoleChanged => { assert(kind_name(a)[0] == 'F' && kind_name(b)[0] == 'R'); },
                DomainEventKind::SkdChanged => { assert(kind_name(a).len() == 11 && kind_name(b).len() == 10); },
                DomainEventKind::MxlChanged => { assert(kind_name(a).len() == 11 && kind_name(b).len() == 10); },
                DomainEventKind::SubsystemChanged => { assert(kind_name(a).len() == 11 && kind_name(b).len() == 16); },
                DomainEventKind::TemplateChanged => { assert(kind_name(a).len() == 11 && kind_name(b).len() == 15); },
                DomainEventKind::SourceSetChanged => { assert(kind_name(a).len() == 11 && kind_name(b).len() == 16); },
                DomainEventKind::BuildCompleted => { assert(kind_name(a).len() == 11 && kind_name(b).len() == 14); },
            }
        },
        DomainEventKind::ModuleChanged => {
            match b {
                DomainEventKind::ConfigXmlChanged => { assert(kind_name(a).len() == 13 && kind_name(b).len() == 16); },
                DomainEventKind::CfeChanged => { assert(kind_name(a).len() == 13 && kind_name(b).len() == 10); },
                DomainEventKind::MetadataChanged => { assert(kind_name(a).len() == 13 && kind_name(b).len() == 15); },
                DomainEventKind::FormChanged => { assert(kind_name(a).len() == 13 && kind_name(b).len() == 11); },
                DomainEventKind::ModuleChanged => {},
                DomainEventKind::RoleChanged => { assert(kind_name(a).len() == 13 && kind_name(b).len() == 11); },
                DomainEventKind::SkdChanged => { assert(kind_name(a).len() == 13 && kind_name(b).len() == 10); },
                DomainEventKind::MxlChanged => { assert(kind_name(a).len() == 13 && kind_name(b).len() == 10); },
                DomainEventKind::SubsystemChanged => { assert(kind_name(a).len() == 13 && kind_name(b).len() == 16); },
                DomainEventKind::TemplateChanged => { assert(kind_name(a).len() == 13 && kind_name(b).len() == 15); },
                DomainEventKind::SourceSetChanged => { assert(kind_name(a).len() == 13 && kind_name(b).len() == 16); },
                DomainEventKind::BuildCompleted => { assert(kind_name(a).len() == 13 && kind_name(b).len() == 14); },
            }
        },
        DomainEventKind::RoleChanged => {
            match b {
                DomainEventKind::ConfigXmlChanged => { assert(kind_name(a).len() == 11 && kind_name(b).len() == 16); },
                DomainEventKind::CfeChanged => { assert(kind_name(a).len() == 11 && kind_name(b).len() == 10); },
                DomainEventKind::MetadataChanged => { assert(kind_name(a).len() == 11 && kind_name(b).len() == 15); },
                DomainEventKind::FormChanged => { assert(kind_name(a)[0] == 'R' && kind_name(b)[0] == 'F'); },
                DomainEventKind::ModuleChanged => { assert(kind_name(a).len() == 11 && kind_name(b).len() == 13); },
                DomainEventKind::RoleChanged => {},
                DomainEventKind::SkdChanged => { assert(kind_name(a).len() == 11 && kind_name(b).len() == 10); },
                DomainEventKind::MxlChanged => { assert(kind_name(a).len() == 11 && kind_name(b).len() == 10); },
                DomainEventKind::SubsystemChanged => { assert(kind_name(a).len() == 11 && kind_name(b).len() == 16); },
                DomainEventKind::TemplateChanged => { assert(kind_name(a).len() == 11 && kind_name(b).len() == 15); },
                DomainEventKind::SourceSetChanged => { assert(kind_name(a).len() == 11 && kind_name(b).len() == 16); },
                DomainEventKind::BuildCompleted => { assert(kind_name(a).len() == 11 && kind_name(b).len() == 14); },
            }
        },
        DomainEventKind::SkdChanged => {
            match b {
                DomainEventKind::ConfigXmlChanged => { assert(kind_name(a).len() == 10 && kind_name(b).len() == 16); },
                DomainEventKind::CfeChanged => { assert(kind_name(a)[0] == 'S' && kind_name(b)[0] == 'C'); },
                DomainEventKind::MetadataChanged => { assert(kind_name(a).len() == 10 && kind_name(b).len() == 15); },
                DomainEventKind::FormChanged => { assert(kind_name(a).len() == 10 && kind_name(b).len() == 11); },
                DomainEventKind::ModuleChanged => { assert(kind_name(a).len() == 10 && kind_name(b).len() == 13); },
                DomainEventKind::RoleChanged => { assert(kind_name(a).len() == 10 && kind_name(b).len() == 11); },
                DomainEventKind::SkdChanged => {},
                DomainEventKind::MxlChanged => { assert(kind_name(a)[0] == 'S' && kind_name(b)[0] == 'M'); },
                DomainEventKind::SubsystemChanged => { assert(kind_name(a).len() == 10 && kind_name(b).len() == 16); },
                DomainEventKind::TemplateChanged => { assert(kind_name(a).len() == 10 && kind_name(b).len() == 15); },
                DomainEventKind::SourceSetChanged => { assert(kind_name(a).len() == 10 && kind_name(b).len() == 16); },
                DomainEventKind::BuildCompleted => { assert(kind_name(a).len() == 10 && kind_name(b).len() == 14); },
            }
        },
        DomainEventKind::MxlChanged => {
            match b {
                DomainEventKind::ConfigXmlChanged => { assert(kind_name(a).len() == 10 && kind_name(b).len() == 16); },
                DomainEventKind::CfeChanged => { assert(kind_name(a)[0] == 'M' && kind_name(b)[0] == 'C'); },
                DomainEventKind::MetadataChanged => { assert(kind_name(a).len() == 10 && kind_name(b).len() == 15); },
                DomainEventKind::FormChanged => { assert(kind_name(a).len() == 10 && kind_name(b).len() == 11); },
                DomainEventKind::ModuleChanged => { assert(kind_name(a).len() == 10 && kind_name(b).len() == 13); },
                DomainEventKind::RoleChanged => { assert(kind_name(a).len() == 10 && kind_name(b).len() == 11); },
                DomainEventKind::SkdChanged => { assert(kind_name(a)[0] == 'M' && kind_name(b)[0] == 'S'); },
                DomainEventKind::MxlChanged => {},
                DomainEventKind::SubsystemChanged => { assert(kind_name(a).len() == 10 && kind_name(b).len() == 16); },
                DomainEventKind::TemplateChanged => { assert(kind_name(a).len() == 10 && kind_name(b).len() == 15); },
                DomainEventKind::SourceSetChanged => { assert(kind_name(a).len() == 10 && kind_name(b).len() == 16); },
                DomainEventKind::BuildCompleted => { assert(kind_name(a).len() == 10 && kind_name(b).len() == 14); },
            }
        },
        DomainEventKind::SubsystemChanged => {
            match b {
                DomainEventKind::ConfigXmlChanged => { assert(kind_name(a)[0] == 'S' && kind_name(b)[0] == 'C'); },
                DomainEventKind::CfeChanged => { assert(kind_name(a).len() == 16 && kind_name(b).len() == 10); },
                DomainEventKind::MetadataChanged => { assert(kind_name(a).len() == 16 && kind_name(b).len() == 15); },
                DomainEventKind::FormChanged => { assert(kind_name(a).len() == 16 && kind_name(b).len() == 11); },
                DomainEventKind::ModuleChanged => { assert(kind_name(a).len() == 16 && kind_name(b).len() == 13); },
                DomainEventKind::RoleChanged => { assert(kind_name(a).len() == 16 && kind_name(b).len() == 11); },
                DomainEventKind::SkdChanged => { assert(kind_name(a).len() == 16 && kind_name(b).len() == 10); },
                DomainEventKind::MxlChanged => { assert(kind_name(a).len() == 16 && kind_name(b).len() == 10); },
                DomainEventKind::SubsystemChanged => {},
                DomainEventKind::TemplateChanged => { assert(kind_name(a).len() == 16 && kind_name(b).len() == 15); },
                DomainEventKind::SourceSetChanged => { assert(kind_name(a)[1] == 'u' && kind_name(b)[1] == 'o'); },
                DomainEventKind::BuildCompleted => { assert(kind_name(a).len() == 16 && kind_name(b).len() == 14); },
            }
        },
        DomainEventKind::TemplateChanged => {
            match b {
                DomainEventKind::ConfigXmlChanged => { assert(kind_name(a).len() == 15 && kind_name(b).len() == 16); },
                DomainEventKind::CfeChanged => { assert(kind_name(a).len() == 15 && kind_name(b).len() == 10); },
                DomainEventKind::MetadataChanged => { assert(kind_name(a)[0] == 'T' && kind_name(b)[0] == 'M'); },
                DomainEventKind::FormChanged => { assert(kind_name(a).len() == 15 && kind_name(b).len() == 11); },
                DomainEventKind::ModuleChanged => { assert(kind_name(a).len() == 15 && kind_name(b).len() == 13); },
                DomainEventKind::RoleChanged => { assert(kind_name(a).len() == 15 && kind_name(b).len() == 11); },
                DomainEventKind::SkdChanged => { assert(kind_name(a).len() == 15 && kind_name(b).len() == 10); },
                DomainEventKind::MxlChanged => { assert(kind_name(a).len() == 15 && kind_name(b).len() == 10); },
                DomainEventKind::SubsystemChanged => { assert(kind_name(a).len() == 15 && kind_name(b).len() == 16); },
                DomainEventKind::TemplateChanged => {},
                DomainEventKind::SourceSetChanged => { assert(kind_name(a).len() == 15 && kind_name(b).len() == 16); },
                DomainEventKind::BuildCompleted => { assert(kind_name(a).len() == 15 && kind_name(b).len() == 14); },
            }
        },
        DomainEventKind::SourceSetChanged => {
            match b {
                DomainEventKind::ConfigXmlChanged => { assert(kind_name(a)[0] == 'S' && kind_name(b)[0] == 'C'); },
                DomainEventKind::CfeChanged => { assert(kind_name(a).len() == 16 && kind_name(b).len() == 10); },
                DomainEventKind::MetadataChanged => { assert(kind_name(a).len() == 16 && kind_name(b).len() == 15); },
                DomainEventKind::FormChanged => { assert(kind_name(a).len() == 16 && kind_name(b).len() == 11); },
                DomainEventKind::ModuleChanged => { assert(kind_name(a).len() == 16 && kind_name(b).len() == 13); },
                DomainEventKind::RoleChanged => { assert(kind_name(a).len() == 16 && kind_name(b).len() == 11); },
                DomainEventKind::SkdChanged => { assert(kind_name(a).len() == 16 && kind_name(b).len() == 10); },
                DomainEventKind::MxlChanged => { assert(kind_name(a).len() == 16 && kind_name(b).len() == 10); },
                DomainEventKind::SubsystemChanged => { assert(kind_name(a)[1] == 'o' && kind_name(b)[1] == 'u'); },
                DomainEventKind::TemplateChanged => { assert(kind_name(a).len() == 16 && kind_name(b).len() == 15); },
                DomainEventKind::SourceSetChanged => {},
                DomainEventKind::BuildCompleted => { assert(kind_name(a).len() == 16 && kind_name(b).len() == 14); },
            }
        },
        DomainEventKind::BuildCompleted => {
            match b {
                DomainEventKind::ConfigXmlChanged => { assert(kind_name(a).len() == 14 && kind_name(b).len() == 16); },
                DomainEventKind::CfeChanged => { assert(kind_name(a).len() == 14 && kind_name(b).len() == 10); },
                DomainEventKind::MetadataChanged => { assert(kind_name(a).len() == 14 && kind_name(b).len() == 15); },
                DomainEventKind::FormChanged => { assert(kind_name(a).len() == 14 && kind_name(b).len() == 11); },
                DomainEventKind::ModuleChanged => { assert(kind_name(a).len() == 14 && kind_name(b).len() == 13); },
                DomainEventKind::RoleChanged => { assert(kind_name(a).len() == 14 && kind_name(b).len() == 11); },
                DomainEventKind::SkdChanged => { assert(kind_name(a).len() == 14 && kind_name(b).len() == 10); },
                DomainEventKind::MxlChanged => { assert(kind_name(a).len() == 14 && kind_name(b).len() == 10); },
                DomainEventKind::SubsystemChanged => { assert(kind_name(a).len() == 14 && kind_name(b).len() == 16); },
                DomainEventKind::TemplateChanged => { assert(kind_name(a).len() == 14 && kind_name(b).len() == 15); },
                DomainEventKind::SourceSetChanged => { assert(kind_name(a).len() == 14 && kind_name(b).len() == 16); },
                DomainEventKind::BuildCompleted => {},
            }
        },
    }
}

/// A domain event: what changed, and the artifact (tool) that changed it.
#[derive(Debug, Clone)]
pub struct DomainEvent {
    pub kind: DomainEventKind,
    pub artifact: String,
}

impl DomainEvent {
    pub fn new(kind: DomainEventKind, artifact: &str) -> (event: Self)
        ensures
            event.kind == kind,
            event.artifact@ == artifact@,
    {
        DomainEvent { kind, artifact: artifact.to_string() }
    }

    pub fn name(&self) -> (name: &'static str)
        ensures
            name@ == kind_name(self.kind),
    {
        self.kind.as_str()
    }
}

} // verus!
