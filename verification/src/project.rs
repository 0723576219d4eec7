//! Projects as the scan reports them and as they are handed to the user
//! interface, and the conversion between the two.

use vstd::prelude::*;
use vstd::std_specs::convert::FromSpecImpl;
use vstd::string::*;
use crate::kind::{scanned_kind, wire_kind, ProjectType, SerializableProjectType};
use crate::paths::{
    absolute_form, display_form, lemma_round_trip_absolute, lemma_round_trip_under_home,
    names_home_backslash, path_absolute, path_userlocal, under_home,
};
use crate::size::{
    entries_total, pretty_size, pretty_size_text, DirEntryView, ProjectSize,
    ProjectSizeView,
};

verus! {

/// A project found on disk: its kind and the absolute path of its root.
#[derive(Debug, Clone, PartialEq, Eq)]
pub struct Project {
    pub project_type: ProjectType,
    pub path: String,
}

/// What a `Project` holds.
pub struct ProjectView {
    pub project_type: ProjectType,
    pub path: Seq<char>,
}

impl View for Project {
    type V = ProjectView;

    open spec fn view(&self) -> ProjectView {
        ProjectView { project_type: self.project_type, path: self.path@ }
    }
}

/// One directory directly below a project's root, as it is handed out.
#[derive(Debug, Clone, PartialEq, Eq)]
pub struct ProjectDir {
    pub file_name: String,
    pub size: u64,
    pub pretty_size: String,
    pub is_artifact: bool,
}

/// What a `ProjectDir` holds.
pub struct ProjectDirView {
    pub file_name: Seq<char>,
    pub size: u64,
    pub pretty_size: Seq<char>,
    pub is_artifact: bool,
}

impl View for ProjectDir {
    type V = ProjectDirView;

    open spec fn view(&self) -> ProjectDirView {
        ProjectDirView {
            file_name: self.file_name@,
            size: self.size,
            pretty_size: self.pretty_size@,
            is_artifact: self.is_artifact,
        }
    }
}

/// The sizes of a project as they are handed out.
#[derive(Debug, Clone, PartialEq, Eq)]
pub struct SerializableProjectSize {
    pub artifact_size: u64,
    pub non_artifact_size: u64,
    pub artifact_size_pretty: String,
    pub non_artifact_size_pretty: String,
    pub dirs: Vec<ProjectDir>,
}

/// What a `SerializableProjectSize` holds.
pub struct SerializableProjectSizeView {
    pub artifact_size: u64,
    pub non_artifact_size: u64,
    pub artifact_size_pretty: Seq<char>,
    pub non_artifact_size_pretty: Seq<char>,
    pub dirs: Seq<ProjectDirView>,
}

impl View for SerializableProjectSize {
    type V = SerializableProjectSizeView;

    open spec fn view(&self) -> SerializableProjectSizeView {
        SerializableProjectSizeView {
            artifact_size: self.artifact_size,
            non_artifact_size: self.non_artifact_size,
            artifact_size_pretty: self.artifact_size_pretty@,
            non_artifact_size_pretty: self.non_artifact_size_pretty@,
            dirs: self.dirs@.map_values(|d: ProjectDir| d@),
        }
    }
}

/// A project as it is handed out: its kind, its path in the form in which
/// it is shown, and its sizes.
#[derive(Debug, Clone, PartialEq, Eq)]
pub struct SerializableProject {
    pub project_type: SerializableProjectType,
    pub path: String,
    pub size: SerializableProjectSize,
}

/// What a `SerializableProject` holds.
pub struct SerializableProjectView {
    pub project_type: SerializableProjectType,
    pub path: Seq<char>,
    pub size: SerializableProjectSizeView,
}

impl View for SerializableProject {
    type V = SerializableProjectView;

    open spec fn view(&self) -> SerializableProjectView {
        SerializableProjectView {
            project_type: self.project_type,
            path: self.path@,
            size: self.size@,
        }
    }
}

/// A directory entry as it is handed out: name, bytes and mark are kept,
/// and the bytes are given once more as text.
pub open spec fn wire_dir(dir: DirEntryView) -> ProjectDirView {
    ProjectDirView {
        file_name: dir.0,
        size: dir.1,
        pretty_size: pretty_size_text(dir.1),
        is_artifact: dir.2,
    }
}

/// The directory entry that a handed-out entry stands for.
pub open spec fn entry_of_wire(dir: ProjectDirView) -> DirEntryView {
    (dir.file_name, dir.size, dir.is_artifact)
}

/// Sizes as they are handed out: both sizes are kept and given once more as
/// text, and each directory is handed out in its place.
pub open spec fn wire_size(sz: ProjectSizeView) -> SerializableProjectSizeView {
    SerializableProjectSizeView {
        artifact_size: sz.artifact_size,
        non_artifact_size: sz.non_artifact_size,
        artifact_size_pretty: pretty_size_text(sz.artifact_size),
        non_artifact_size_pretty: pretty_size_text(sz.non_artifact_size),
        dirs: sz.dirs.map_values(|d: DirEntryView| wire_dir(d)),
    }
}

/// A project as it is handed out, for a user whose home directory is
/// `home`.
pub open spec fn wire_project(p: ProjectView, sz: ProjectSizeView, home: Seq<char>)
    -> SerializableProjectView {
    SerializableProjectView {
        project_type: wire_kind(p.project_type),
        path: display_form(p.path, home),
        size: wire_size(sz),
    }
}

/// The project that a handed-out project stands for.
pub open spec fn project_of_wire(w: SerializableProjectView, home: Seq<char>) -> ProjectView {
    ProjectView { project_type: scanned_kind(w.project_type), path: absolute_form(w.path, home) }
}

impl From<(String, u64, bool)> for ProjectDir {
    /// Hands a directory entry out.
    fn from(dir: (String, u64, bool)) -> (wire: Self)
        ensures
            wire@ == wire_dir(dir@),
    {
        let pretty = pretty_size(dir.1);
        ProjectDir { file_name: dir.0, size: dir.1, pretty_size: pretty, is_artifact: dir.2 }
    }
}

/// The conversion is stated by the `ensures` of `from`: a spec function
/// cannot build the text fields.
impl FromSpecImpl<(String, u64, bool)> for ProjectDir {
    open spec fn obeys_from_spec() -> bool {
        false
    }

    open spec fn from_spec(dir: (String, u64, bool)) -> Self {
        arbitrary()
    }
}

impl SerializableProjectSize {
    /// Hands the sizes of a project out, directory by directory and in
    /// their order.
    pub fn of(sz: &ProjectSize) -> (wire: Self)
        ensures
            wire@ == wire_size(sz@),
    {
        let mut dirs: Vec<ProjectDir> = Vec::new();
        let n: usize = sz.dirs.len();
        let mut i: usize = 0;
        while i < n
            invariant
                i <= n,
                n == sz.dirs@.len(),
                dirs@.len() == i,
                forall|j: int| 0 <= j < i ==> (#[trigger] dirs@[j])@ == wire_dir(sz.dirs@[j]@),
            decreases n - i,
        {
            let name = sz.dirs[i].0.clone();
            dirs.push(ProjectDir::from((name, sz.dirs[i].1, sz.dirs[i].2)));
            i = i + 1;
        }
        let wire = SerializableProjectSize {
            artifact_size: sz.artifact_size,
            non_artifact_size: sz.non_artifact_size,
            artifact_size_pretty: pretty_size(sz.artifact_size),
            non_artifact_size_pretty: pretty_size(sz.non_artifact_size),
            dirs,
        };
        assert(wire@.dirs =~= wire_size(sz@).dirs);
        wire
    }
}

impl From<ProjectSize> for SerializableProjectSize {
    /// Hands the sizes of a project out, directory by directory and in
    /// their order.
    fn from(sz: ProjectSize) -> (wire: Self)
        ensures
            wire@ == wire_size(sz@),
    {
        SerializableProjectSize::of(&sz)
    }
}

/// The conversion is stated by the `ensures` of `from`: a spec function
/// cannot build the text fields.
impl FromSpecImpl<ProjectSize> for SerializableProjectSize {
    open spec fn obeys_from_spec() -> bool {
        false
    }

    open spec fn from_spec(sz: ProjectSize) -> Self {
        arbitrary()
    }
}

impl SerializableProject {
    /// Hands out the project `p`, whose sizes are `size`, for a user whose
    /// home directory is `home`.
    pub fn of(p: &Project, size: &ProjectSize, home: &str) -> (wire: Self)
        ensures
            wire@ == wire_project(p@, size@, home@),
    {
        SerializableProject {
            project_type: SerializableProjectType::from(p.project_type),
            path: path_userlocal(p.path.clone(), home),
            size: SerializableProjectSize::of(size),
        }
    }

    /// Hands out the project `p`, whose sizes are `size`, for a user whose
    /// home directory is `home`.
    pub fn from(p: Project, size: ProjectSize, home: &str) -> (wire: Self)
        ensures
            wire@ == wire_project(p@, size@, home@),
    {
        SerializableProject::of(&p, &size, home)
    }
}

impl Project {
    /// The project that `p` stands for, with its path made absolute again
    /// for a user whose home directory is `home`.
    ///
    /// A path that begins with `~\` is expanded on Windows only, so for
    /// such a path either result is allowed.
    pub fn from(p: SerializableProject, home: &str) -> (project: Self)
        ensures
            project@.project_type == scanned_kind(p@.project_type),
            !names_home_backslash(p@.path) ==> project@ == project_of_wire(p@, home@),
            names_home_backslash(p@.path) ==> project@.path == p@.path || project@.path == home@
                + p@.path.skip(1),
    {
        Project {
            project_type: ProjectType::from(p.project_type),
            path: path_absolute(p.path.as_str(), home),
        }
    }
}

/// A project whose root is the home directory or lies below it comes back
/// with the same kind and the same absolute path after it was handed out
/// and taken back.
pub proof fn lemma_project_round_trip(p: ProjectView, sz: ProjectSizeView, home: Seq<char>)
    requires
        under_home(p.path, home),
    ensures
        !names_home_backslash(wire_project(p, sz, home).path),
        project_of_wire(wire_project(p, sz, home), home) == p,
{
    lemma_round_trip_under_home(p.path, home);
}

/// A project whose root is neither the home directory nor below it, and
/// does not begin with `~`, is handed out under its own path and comes back
/// unchanged.
pub proof fn lemma_project_round_trip_elsewhere(
    p: ProjectView,
    sz: ProjectSizeView,
    home: Seq<char>,
)
    requires
        !under_home(p.path, home),
        p.path.len() == 0 || p.path[0] != '~',
    ensures
        wire_project(p, sz, home).path == p.path,
        !names_home_backslash(wire_project(p, sz, home).path),
        project_of_wire(wire_project(p, sz, home), home) == p,
{
}

/// A project whose root is an absolute path comes back with the same kind
/// and the same path after it was handed out and taken back, whatever the
/// home directory is.
pub proof fn lemma_project_round_trip_absolute(
    p: ProjectView,
    sz: ProjectSizeView,
    home: Seq<char>,
)
    requires
        p.path.len() > 0,
        p.path[0] == '/',
    ensures
        !names_home_backslash(wire_project(p, sz, home).path),
        project_of_wire(wire_project(p, sz, home), home) == p,
{
    lemma_round_trip_absolute(p.path, home);
}

/// Handing sizes out keeps every directory in its place, with its name, its
/// bytes and its mark, so sizes that are the sums over the directories stay
/// so.
pub proof fn lemma_wire_size_keeps_entries(sz: ProjectSizeView)
    ensures
        wire_size(sz).dirs.len() == sz.dirs.len(),
        wire_size(sz).dirs.map_values(|d: ProjectDirView| entry_of_wire(d)) == sz.dirs,
        wire_size(sz).artifact_size == sz.artifact_size,
        wire_size(sz).non_artifact_size == sz.non_artifact_size,
        sz.balanced() ==> wire_size(sz).artifact_size == entries_total(
            wire_size(sz).dirs.map_values(|d: ProjectDirView| entry_of_wire(d)),
            true,
        ) && wire_size(sz).non_artifact_size == entries_total(
            wire_size(sz).dirs.map_values(|d: ProjectDirView| entry_of_wire(d)),
            false,
        ),
{
    assert(wire_size(sz).dirs.map_values(|d: ProjectDirView| entry_of_wire(d)) =~= sz.dirs);
}

} // verus!
