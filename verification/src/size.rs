//! How many bytes of a project are build output, and how many are not.

use vstd::prelude::*;
use vstd::string::*;

verus! {

/// The text that `kondo_lib::pretty_size` gives for a number of bytes.
pub uninterp spec fn pretty_size_text(size: u64) -> Seq<char>;

/// Calls `kondo_lib::pretty_size`. Not proved: that the text depends on the
/// number alone.
#[verifier::external_body]
pub(crate) fn pretty_size(size: u64) -> (text: String)
    ensures
        text@ == pretty_size_text(size),
{
    kondo_lib::pretty_size(size)
}

/// One directory directly below a project's root, as `(name, bytes,
/// is build output)`.
pub type DirEntryView = (Seq<char>, u64, bool);

/// The bytes of those entries of `dirs` whose mark equals `artifact`, added
/// up.
pub open spec fn entries_total(dirs: Seq<DirEntryView>, artifact: bool) -> nat
    decreases dirs.len(),
{
    if dirs.len() == 0 {
        0
    } else {
        entries_total(dirs.drop_last(), artifact) + if dirs.last().2 == artifact {
            dirs.last().1 as nat
        } else {
            0
        }
    }
}

/// What a list of directory entries holds.
pub open spec fn entry_views(dirs: Seq<(String, u64, bool)>) -> Seq<DirEntryView> {
    dirs.map_values(|d: (String, u64, bool)| d@)
}

/// The sizes of a project: its build output, the rest, and the directories
/// directly below its root in the order in which the scan found them.
#[derive(Debug, Clone, PartialEq, Eq)]
pub struct ProjectSize {
    pub artifact_size: u64,
    pub non_artifact_size: u64,
    pub dirs: Vec<(String, u64, bool)>,
}

/// What a `ProjectSize` holds.
pub struct ProjectSizeView {
    pub artifact_size: u64,
    pub non_artifact_size: u64,
    pub dirs: Seq<DirEntryView>,
}

impl ProjectSizeView {
    /// The two sizes are the sums over the directories: the build output
    /// over those marked as such, the rest over the others.
    pub open spec fn balanced(self) -> bool {
        &&& self.artifact_size == entries_total(self.dirs, true)
        &&& self.non_artifact_size == entries_total(self.dirs, false)
    }
}

impl View for ProjectSize {
    type V = ProjectSizeView;

    open spec fn view(&self) -> ProjectSizeView {
        ProjectSizeView {
            artifact_size: self.artifact_size,
            non_artifact_size: self.non_artifact_size,
            dirs: entry_views(self.dirs@),
        }
    }
}

/// A sum over the first entries is at most the sum over all of them.
pub proof fn lemma_entries_total_grows(dirs: Seq<DirEntryView>, upto: int, artifact: bool)
    requires
        0 <= upto <= dirs.len(),
    ensures
        entries_total(dirs.take(upto), artifact) <= entries_total(dirs, artifact),
    decreases dirs.len(),
{
    if upto == dirs.len() {
        assert(dirs.take(upto) =~= dirs);
    } else {
        assert(dirs.drop_last().take(upto) =~= dirs.take(upto));
        lemma_entries_total_grows(dirs.drop_last(), upto, artifact);
    }
}

/// Both sums over `dirs`, the build output first, or `None` where one of
/// them does not fit in 64 bits.
fn totals(dirs: &Vec<(String, u64, bool)>) -> (sums: Option<(u64, u64)>)
    ensures
        sums is Some <==> entries_total(entry_views(dirs@), true) <= u64::MAX && entries_total(
            entry_views(dirs@),
            false,
        ) <= u64::MAX,
        sums matches Some(found) ==> found.0 == entries_total(entry_views(dirs@), true) && found.1
            == entries_total(entry_views(dirs@), false),
{
    let ghost all = entry_views(dirs@);
    let mut artifact_size: u64 = 0;
    let mut non_artifact_size: u64 = 0;
    let n: usize = dirs.len();
    let mut i: usize = 0;
    while i < n
        invariant
            i <= n,
            n == dirs@.len(),
            all == entry_views(dirs@),
            artifact_size == entries_total(all.take(i as int), true),
            non_artifact_size == entries_total(all.take(i as int), false),
        decreases n - i,
    {
        let size: u64 = dirs[i].1;
        let marked: bool = dirs[i].2;
        proof {
            assert(all.take(i + 1).drop_last() =~= all.take(i as int));
            assert(all.take(i + 1).last() == dirs@[i as int]@);
            lemma_entries_total_grows(all, i + 1, true);
            lemma_entries_total_grows(all, i + 1, false);
        }
        let sum = if marked {
            artifact_size.checked_add(size)
        } else {
            non_artifact_size.checked_add(size)
        };
        match sum {
            Some(sum) => {
                if marked {
                    artifact_size = sum;
                } else {
                    non_artifact_size = sum;
                }
            },
            None => {
                return None;
            },
        }
        i = i + 1;
    }
    assert(all.take(n as int) =~= all);
    Some((artifact_size, non_artifact_size))
}

impl ProjectSize {
    /// The sizes of a project whose directories are `dirs`, or `None` where
    /// one of the two sums does not fit in 64 bits.
    pub fn from_entries(dirs: Vec<(String, u64, bool)>) -> (sized: Option<ProjectSize>)
        ensures
            sized is Some <==> entries_total(entry_views(dirs@), true) <= u64::MAX
                && entries_total(entry_views(dirs@), false) <= u64::MAX,
            sized matches Some(s) ==> s.dirs == dirs && s@.balanced(),
    {
        match totals(&dirs) {
            Some((artifact_size, non_artifact_size)) => Some(
                ProjectSize { artifact_size, non_artifact_size, dirs },
            ),
            None => None,
        }
    }

    /// Whether the two sizes are the sums over the directories.
    pub fn is_balanced(&self) -> (balanced: bool)
        ensures
            balanced == self@.balanced(),
    {
        match totals(&self.dirs) {
            Some((artifact_size, non_artifact_size)) => artifact_size == self.artifact_size
                && non_artifact_size == self.non_artifact_size,
            None => false,
        }
    }
}

} // verus!
