//! The kinds of project that are told apart.

use vstd::prelude::*;
use vstd::std_specs::convert::FromSpecImpl;
use vstd::string::*;
use crate::text::same_text;

verus! {

/// The kind of a project as the scan reports it.
#[derive(Debug, Clone, Copy, PartialEq, Eq, Structural)]
pub enum ProjectType {
    Cargo,
    Node,
    Unity,
    Stack,
    SBT,
    Maven,
    Unreal,
}

/// The kind of a project as it is handed to the user interface. The set is
/// closed: there is no variant for a kind that is not known.
#[derive(Debug, Clone, Copy, PartialEq, Eq, Structural)]
pub enum SerializableProjectType {
    Cargo,
    Node,
    Unity,
    Stack,
    SBT,
    Maven,
    Unreal,
}

/// The kind handed out for a scanned kind: the variant of the same name.
pub open spec fn wire_kind(p: ProjectType) -> SerializableProjectType {
    match p {
        ProjectType::Cargo => SerializableProjectType::Cargo,
        ProjectType::Node => SerializableProjectType::Node,
        ProjectType::Unity => SerializableProjectType::Unity,
        ProjectType::Stack => SerializableProjectType::Stack,
        ProjectType::SBT => SerializableProjectType::SBT,
        ProjectType::Maven => SerializableProjectType::Maven,
        ProjectType::Unreal => SerializableProjectType::Unreal,
    }
}

/// The scanned kind that a handed-out kind stands for: the variant of the
/// same name.
pub open spec fn scanned_kind(p: SerializableProjectType) -> ProjectType {
    match p {
        SerializableProjectType::Cargo => ProjectType::Cargo,
        SerializableProjectType::Node => ProjectType::Node,
        SerializableProjectType::Unity => ProjectType::Unity,
        SerializableProjectType::Stack => ProjectType::Stack,
        SerializableProjectType::SBT => ProjectType::SBT,
        SerializableProjectType::Maven => ProjectType::Maven,
        SerializableProjectType::Unreal => ProjectType::Unreal,
    }
}

impl From<ProjectType> for SerializableProjectType {
    fn from(p: ProjectType) -> (wire: Self) {
        match p {
            ProjectType::Cargo => Self::Cargo,
            ProjectType::Node => Self::Node,
            ProjectType::Unity => Self::Unity,
            ProjectType::Stack => Self::Stack,
            ProjectType::SBT => Self::SBT,
            ProjectType::Maven => Self::Maven,
            ProjectType::Unreal => Self::Unreal,
        }
    }
}

impl FromSpecImpl<ProjectType> for SerializableProjectType {
    open spec fn obeys_from_spec() -> bool {
        true
    }

    open spec fn from_spec(p: ProjectType) -> Self {
        wire_kind(p)
    }
}

impl From<SerializableProjectType> for ProjectType {
    fn from(p: SerializableProjectType) -> (kind: Self) {
        match p {
            SerializableProjectType::Cargo => Self::Cargo,
            SerializableProjectType::Node => Self::Node,
            SerializableProjectType::Unity => Self::Unity,
            SerializableProjectType::Stack => Self::Stack,
            SerializableProjectType::SBT => Self::SBT,
            SerializableProjectType::Maven => Self::Maven,
            SerializableProjectType::Unreal => Self::Unreal,
        }
    }
}

impl FromSpecImpl<SerializableProjectType> for ProjectType {
    open spec fn obeys_from_spec() -> bool {
        true
    }

    open spec fn from_spec(p: SerializableProjectType) -> Self {
        scanned_kind(p)
    }
}

/// The name of a scanned kind.
pub open spec fn kind_name(p: ProjectType) -> Seq<char> {
    match p {
        ProjectType::Cargo => "Cargo"@,
        ProjectType::Node => "Node"@,
        ProjectType::Unity => "Unity"@,
        ProjectType::Stack => "Stack"@,
        ProjectType::SBT => "SBT"@,
        ProjectType::Maven => "Maven"@,
        ProjectType::Unreal => "Unreal"@,
    }
}

/// The scanned kind of a given name, if it is one of those told apart.
pub open spec fn kind_named(name: Seq<char>) -> Option<ProjectType> {
    if name == "Cargo"@ {
        Some(ProjectType::Cargo)
    } else if name == "Node"@ {
        Some(ProjectType::Node)
    } else if name == "Unity"@ {
        Some(ProjectType::Unity)
    } else if name == "Stack"@ {
        Some(ProjectType::Stack)
    } else if name == "SBT"@ {
        Some(ProjectType::SBT)
    } else if name == "Maven"@ {
        Some(ProjectType::Maven)
    } else if name == "Unreal"@ {
        Some(ProjectType::Unreal)
    } else {
        None
    }
}

impl ProjectType {
    /// The name of this kind.
    pub fn name(&self) -> (name: String)
        ensures
            name@ == kind_name(*self),
    {
        match self {
            ProjectType::Cargo => String::from_str("Cargo"),
            ProjectType::Node => String::from_str("Node"),
            ProjectType::Unity => String::from_str("Unity"),
            ProjectType::Stack => String::from_str("Stack"),
            ProjectType::SBT => String::from_str("SBT"),
            ProjectType::Maven => String::from_str("Maven"),
            ProjectType::Unreal => String::from_str("Unreal"),
        }
    }

    /// The kind of the name `name`, or `None` where the name is that of no
    /// kind told apart here: a project of such a kind cannot be handed out.
    pub fn from_name(name: &str) -> (kind: Option<Self>)
        ensures
            kind == kind_named(name@),
    {
        if same_text(name, "Cargo") {
            Some(ProjectType::Cargo)
        } else if same_text(name, "Node") {
            Some(ProjectType::Node)
        } else if same_text(name, "Unity") {
            Some(ProjectType::Unity)
        } else if same_text(name, "Stack") {
            Some(ProjectType::Stack)
        } else if same_text(name, "SBT") {
            Some(ProjectType::SBT)
        } else if same_text(name, "Maven") {
            Some(ProjectType::Maven)
        } else if same_text(name, "Unreal") {
            Some(ProjectType::Unreal)
        } else {
            None
        }
    }
}

/// A kind is found again by its name, and a name that is found is the name
/// of the kind found.
pub proof fn lemma_kind_names(p: ProjectType, name: Seq<char>)
    ensures
        kind_named(kind_name(p)) == Some(p),
        kind_named(name) matches Some(found) ==> kind_name(found) == name,
{
    reveal_strlit("Cargo");
    reveal_strlit("Node");
    reveal_strlit("Unity");
    reveal_strlit("Stack");
    reveal_strlit("SBT");
    reveal_strlit("Maven");
    reveal_strlit("Unreal");
    assert("Cargo"@[0] == 'C');
    assert("Node"@[0] == 'N');
    assert("Unity"@[1] == 'n');
    assert("Stack"@[1] == 't');
    assert("SBT"@[1] == 'B');
    assert("Maven"@[0] == 'M');
    assert("Unreal"@.len() == 6);
    assert("Unity"@.len() == 5);
}

/// Handing a kind out and taking it back gives the kind again, and so does
/// the other way round: the two sets of kinds correspond one to one.
pub proof fn lemma_kinds_correspond(p: ProjectType, w: SerializableProjectType)
    ensures
        scanned_kind(wire_kind(p)) == p,
        wire_kind(scanned_kind(w)) == w,
{
}

} // verus!
