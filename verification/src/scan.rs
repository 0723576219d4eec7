//! Gathering what was found below several roots into one answer.

use vstd::prelude::*;
use vstd::string::*;
use crate::paths::{display_form, path_userlocal};
use crate::project::{
    wire_project, Project, ProjectView, SerializableProject, SerializableProjectView,
};
use crate::size::{ProjectSize, ProjectSizeView};

verus! {

/// One root that was searched, with the projects found below it and their
/// sizes, in the order in which the search found them.
#[derive(Debug, Clone, PartialEq, Eq)]
pub struct RootScan {
    pub root: String,
    pub found: Vec<(Project, ProjectSize)>,
}

/// What a `RootScan` holds.
pub struct RootScanView {
    pub root: Seq<char>,
    pub found: Seq<(ProjectView, ProjectSizeView)>,
}

impl View for RootScan {
    type V = RootScanView;

    open spec fn view(&self) -> RootScanView {
        RootScanView {
            root: self.root@,
            found: self.found@.map_values(|f: (Project, ProjectSize)| f@),
        }
    }
}

/// The answer to a search: every project found, and every root that was
/// searched in the form in which it is shown.
#[derive(Debug, Clone, PartialEq, Eq)]
pub struct ReadResponse {
    pub projects: Vec<SerializableProject>,
    pub search_paths: Vec<String>,
}

/// What a `ReadResponse` holds.
pub struct ReadResponseView {
    pub projects: Seq<SerializableProjectView>,
    pub search_paths: Seq<Seq<char>>,
}

impl View for ReadResponse {
    type V = ReadResponseView;

    open spec fn view(&self) -> ReadResponseView {
        ReadResponseView {
            projects: project_views(self.projects@),
            search_paths: self.search_paths@.map_values(|p: String| p@),
        }
    }
}

/// What a list of handed-out projects holds.
pub open spec fn project_views(projects: Seq<SerializableProject>) -> Seq<SerializableProjectView> {
    projects.map_values(|p: SerializableProject| p@)
}

/// What a list of searched roots holds.
pub open spec fn scan_views(scans: Seq<RootScan>) -> Seq<RootScanView> {
    scans.map_values(|s: RootScan| s@)
}

/// The projects found below one root, each handed out, in their order.
pub open spec fn found_wire(found: Seq<(ProjectView, ProjectSizeView)>, home: Seq<char>) -> Seq<
    SerializableProjectView,
> {
    found.map_values(|f: (ProjectView, ProjectSizeView)| wire_project(f.0, f.1, home))
}

/// The projects of all roots in one list: root after root, and below each
/// root in the order of the search. Nothing is sorted and nothing is left
/// out, so a project found below two roots stands in the list twice.
pub open spec fn aggregate(scans: Seq<RootScanView>, home: Seq<char>) -> Seq<
    SerializableProjectView,
>
    decreases scans.len(),
{
    if scans.len() == 0 {
        Seq::empty()
    } else {
        aggregate(scans.drop_last(), home) + found_wire(scans.last().found, home)
    }
}

/// Every root that was searched, in the form in which it is shown, whether
/// anything was found below it or not.
pub open spec fn searched(scans: Seq<RootScanView>, home: Seq<char>) -> Seq<Seq<char>> {
    scans.map_values(|s: RootScanView| display_form(s.root, home))
}

/// How many projects were found below all roots together.
pub open spec fn found_count(scans: Seq<RootScanView>) -> nat
    decreases scans.len(),
{
    if scans.len() == 0 {
        0
    } else {
        found_count(scans.drop_last()) + scans.last().found.len()
    }
}

/// The answer to a search over `scans`.
pub open spec fn response_of(scans: Seq<RootScanView>, home: Seq<char>) -> ReadResponseView {
    ReadResponseView { projects: aggregate(scans, home), search_paths: searched(scans, home) }
}

/// Hands out the projects of all roots in one list.
pub fn scan_many(ps: Vec<RootScan>, home: &str) -> (projects: Vec<SerializableProject>)
    ensures
        project_views(projects@) == aggregate(scan_views(ps@), home@),
{
    let ghost scans = scan_views(ps@);
    let mut projects: Vec<SerializableProject> = Vec::new();
    let n: usize = ps.len();
    let mut i: usize = 0;
    while i < n
        invariant
            i <= n,
            n == ps@.len(),
            scans == scan_views(ps@),
            project_views(projects@) == aggregate(scans.take(i as int), home@),
        decreases n - i,
    {
        let scan = &ps[i];
        let ghost before = project_views(projects@);
        let ghost found = scans[i as int].found;
        let m: usize = scan.found.len();
        let mut j: usize = 0;
        while j < m
            invariant
                j <= m,
                m == scan.found@.len(),
                found == scan@.found,
                project_views(projects@) == before + found_wire(found.take(j as int), home@),
            decreases m - j,
        {
            let wire = SerializableProject::of(&scan.found[j].0, &scan.found[j].1, home);
            let ghost sofar = project_views(projects@);
            let ghost handed = wire@;
            projects.push(wire);
            proof {
                assert(found[j as int] == scan.found@[j as int]@);
                assert(project_views(projects@) =~= sofar.push(handed));
                assert(found_wire(found.take(j + 1), home@) =~= found_wire(
                    found.take(j as int),
                    home@,
                ).push(handed));
                assert(project_views(projects@) =~= before + found_wire(
                    found.take(j + 1),
                    home@,
                ));
            }
            j = j + 1;
        }
        proof {
            assert(found.take(m as int) =~= found);
            assert(scans.take(i + 1).drop_last() =~= scans.take(i as int));
            assert(scans.take(i + 1).last() == scans[i as int]);
        }
        i = i + 1;
    }
    assert(scans.take(n as int) =~= scans);
    projects
}

/// The reason given where no root was chosen.
pub open spec fn pick_aborted() -> Seq<char> {
    "Pick aborted"@
}

/// Answers a search. `picked` holds the roots that the user chose, each
/// with what was found below it, or `None` where the user chose nothing.
///
/// A search without any root was never made: it is answered with the reason
/// `Pick aborted`, never with an empty answer. A search over at least one
/// root always has an answer, which names every root even where nothing was
/// found.
pub fn read(picked: Option<Vec<RootScan>>, home: &str) -> (response: Result<ReadResponse, String>)
    ensures
        match picked {
            Some(scans) if scans@.len() > 0 => response matches Ok(r) && r@ == response_of(
                scan_views(scans@),
                home@,
            ),
            _ => response matches Err(reason) && reason@ == pick_aborted(),
        },
{
    match picked {
        Some(scans) => {
            let n: usize = scans.len();
            if n == 0 {
                return Err(String::from_str("Pick aborted"));
            }
            let mut search_paths: Vec<String> = Vec::new();
            let mut i: usize = 0;
            while i < n
                invariant
                    i <= n,
                    n == scans@.len(),
                    search_paths@.len() == i,
                    forall|k: int|
                        0 <= k < i ==> (#[trigger] search_paths@[k])@ == display_form(
                            scans@[k].root@,
                            home@,
                        ),
                decreases n - i,
            {
                search_paths.push(path_userlocal(scans[i].root.clone(), home));
                i = i + 1;
            }
            let ghost roots = scan_views(scans@);
            let projects = scan_many(scans, home);
            let response = ReadResponse { projects, search_paths };
            assert(response@.search_paths =~= searched(roots, home@));
            Ok(response)
        },
        None => Err(String::from_str("Pick aborted")),
    }
}

/// Searching two lists of roots one after the other finds what searching
/// the first finds, followed by what searching the second finds.
pub proof fn lemma_aggregate_concat(
    first: Seq<RootScanView>,
    second: Seq<RootScanView>,
    home: Seq<char>,
)
    ensures
        aggregate(first + second, home) == aggregate(first, home) + aggregate(second, home),
    decreases second.len(),
{
    if second.len() == 0 {
        assert(first + second =~= first);
        assert(aggregate(first, home) + aggregate(second, home) =~= aggregate(first, home));
    } else {
        assert((first + second).drop_last() =~= first + second.drop_last());
        assert((first + second).last() == second.last());
        lemma_aggregate_concat(first, second.drop_last(), home);
        assert(aggregate(first + second, home) =~= aggregate(first, home) + aggregate(
            second,
            home,
        ));
    }
}

/// A single root gives its own projects, in their order.
pub proof fn lemma_aggregate_one(scan: RootScanView, home: Seq<char>)
    ensures
        aggregate(seq![scan], home) == found_wire(scan.found, home),
{
    let one = seq![scan];
    assert(one.len() == 1);
    assert(one.last() == scan);
    assert(one.drop_last() =~= Seq::<RootScanView>::empty());
    assert(aggregate(one.drop_last(), home) =~= Seq::<SerializableProjectView>::empty());
    assert(aggregate(one, home) =~= found_wire(scan.found, home));
}

/// Two roots give the projects of the first and then those of the second,
/// however many each has, and both roots are named as searched.
pub proof fn lemma_two_roots(a: RootScanView, b: RootScanView, home: Seq<char>)
    ensures
        aggregate(seq![a, b], home) == found_wire(a.found, home) + found_wire(b.found, home),
        searched(seq![a, b], home) == seq![display_form(a.root, home), display_form(b.root, home)],
{
    assert(seq![a, b] =~= seq![a] + seq![b]);
    lemma_aggregate_concat(seq![a], seq![b], home);
    lemma_aggregate_one(a, home);
    lemma_aggregate_one(b, home);
    assert(searched(seq![a, b], home) =~= seq![
        display_form(a.root, home),
        display_form(b.root, home),
    ]);
}

/// A root below which nothing was found adds no project, yet it is named
/// among the roots that were searched.
pub proof fn lemma_empty_root(scans: Seq<RootScanView>, root: Seq<char>, home: Seq<char>)
    ensures
        aggregate(scans.push(RootScanView { root, found: Seq::empty() }), home) == aggregate(
            scans,
            home,
        ),
        searched(scans.push(RootScanView { root, found: Seq::empty() }), home) == searched(
            scans,
            home,
        ).push(display_form(root, home)),
{
    let last = RootScanView { root, found: Seq::empty() };
    assert(scans.push(last).drop_last() =~= scans);
    assert(found_wire(last.found, home) =~= Seq::<SerializableProjectView>::empty());
    assert(aggregate(scans.push(last), home) =~= aggregate(scans, home));
    assert(searched(scans.push(last), home) =~= searched(scans, home).push(
        display_form(root, home),
    ));
}

/// The answer names as many roots as were searched, and holds as many
/// projects as were found below all of them together.
pub proof fn lemma_response_counts(scans: Seq<RootScanView>, home: Seq<char>)
    ensures
        response_of(scans, home).search_paths.len() == scans.len(),
        response_of(scans, home).projects.len() == found_count(scans),
    decreases scans.len(),
{
    if scans.len() > 0 {
        lemma_response_counts(scans.drop_last(), home);
    }
}

} // verus!
