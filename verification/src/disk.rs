//! What a run does to the directories below a project's root.
//!
//! A [`Disk`] says which directories are there and which of them cannot be
//! deleted. Directories are told apart by their names and none lies inside
//! another. A run is played against such a disk by answering each of its
//! requests as the disk would, and what comes out is stated and proved here.

use vstd::prelude::*;
use crate::clean::{
    next_action, start, step, CleanActionView, CleanEventView, CleanPhaseView, CleanRunView,
};

verus! {

/// The directories below a project's root.
pub struct Disk {
    /// The names of the directories that are there.
    pub present: Set<Seq<char>>,
    /// The names of the directories that cannot be deleted, each with the
    /// error that an attempt gives.
    pub stuck: Map<Seq<char>, Seq<char>>,
}

impl Disk {
    /// Whether the directory `name` is there and cannot be deleted.
    pub open spec fn blocks(self, name: Seq<char>) -> bool {
        self.present.contains(name) && self.stuck.dom().contains(name)
    }

    /// The disk without the directory `name`.
    pub open spec fn without(self, name: Seq<char>) -> Disk {
        Disk { present: self.present.remove(name), stuck: self.stuck }
    }

    /// The answer of the disk to a request, and the disk after it. Looking
    /// for a directory changes nothing. Deleting one that is stuck fails
    /// with its error and changes nothing; deleting any other leaves the
    /// disk without it.
    pub open spec fn answer(self, request: CleanActionView) -> (CleanEventView, Disk) {
        match request {
            CleanActionView::Probe(name) => (
                CleanEventView::Exists(self.present.contains(name)),
                self,
            ),
            CleanActionView::Remove(name) => if self.stuck.dom().contains(name) {
                (CleanEventView::Removed(Err(self.stuck[name])), self)
            } else {
                (CleanEventView::Removed(Ok(())), self.without(name))
            },
            CleanActionView::Finish(_) => (CleanEventView::Exists(false), self),
        }
    }
}

/// How a run ended: its result, the disk it left, and the names of the
/// directories that it asked to delete, in that order.
pub struct Ending {
    pub result: Result<(), Seq<char>>,
    pub disk: Disk,
    pub attempts: Seq<Seq<char>>,
}

/// The number of requests that the run `s` can still make.
pub open spec fn requests_left(s: CleanRunView) -> nat {
    match s.phase {
        CleanPhaseView::Probing => (2 * (s.dirs.len() - s.next)) as nat,
        CleanPhaseView::Removing => (2 * (s.dirs.len() - s.next) - 1) as nat,
        _ => 0,
    }
}

/// The run `s` played to its end against `disk`: each request is answered
/// as the disk answers it, and the answer is handed to the run.
pub open spec fn play(s: CleanRunView, disk: Disk) -> Ending
    decreases requests_left(s),
{
    if !s.wf() {
        Ending { result: Ok(()), disk, attempts: Seq::empty() }
    } else {
        match s.phase {
            CleanPhaseView::Succeeded => Ending { result: Ok(()), disk, attempts: Seq::empty() },
            CleanPhaseView::Failed(why) => Ending {
                result: Err(why),
                disk,
                attempts: Seq::empty(),
            },
            CleanPhaseView::Probing => {
                let (event, after) = disk.answer(next_action(s));
                play(step(s, event), after)
            },
            CleanPhaseView::Removing => {
                let (event, after) = disk.answer(next_action(s));
                let rest = play(step(s, event), after);
                Ending { attempts: seq![s.dirs[s.next]] + rest.attempts, ..rest }
            },
        }
    }
}

/// What deleting the directories `dirs`, from the one at `from` on, makes
/// of `disk`: a directory that is not there is passed over, the first that
/// is stuck ends the sweep with its error, and any other is deleted.
pub open spec fn sweep(dirs: Seq<Seq<char>>, from: int, disk: Disk) -> Ending
    decreases dirs.len() - from,
{
    if from < 0 || from >= dirs.len() {
        Ending { result: Ok(()), disk, attempts: Seq::empty() }
    } else if !disk.present.contains(dirs[from]) {
        sweep(dirs, from + 1, disk)
    } else if disk.stuck.dom().contains(dirs[from]) {
        Ending { result: Err(disk.stuck[dirs[from]]), disk, attempts: seq![dirs[from]] }
    } else {
        let rest = sweep(dirs, from + 1, disk.without(dirs[from]));
        Ending { attempts: seq![dirs[from]] + rest.attempts, ..rest }
    }
}

/// A run that looks for the directory at `from` next.
pub open spec fn probing_at(root: Seq<char>, dirs: Seq<Seq<char>>, from: int) -> CleanRunView {
    CleanRunView {
        root,
        dirs,
        next: from,
        phase: if from < dirs.len() {
            CleanPhaseView::Probing
        } else {
            CleanPhaseView::Succeeded
        },
    }
}

/// A run that has reached the directory at `from` ends as the sweep from
/// there on does.
pub proof fn lemma_play_is_sweep(root: Seq<char>, dirs: Seq<Seq<char>>, from: int, disk: Disk)
    requires
        0 <= from <= dirs.len(),
    ensures
        play(probing_at(root, dirs, from), disk) == sweep(dirs, from, disk),
    decreases dirs.len() - from,
{
    let s = probing_at(root, dirs, from);
    if from < dirs.len() {
        let name = dirs[from];
        assert(s.passed() == probing_at(root, dirs, from + 1));
        if !disk.present.contains(name) {
            assert(step(s, CleanEventView::Exists(false)) == s.passed());
            lemma_play_is_sweep(root, dirs, from + 1, disk);
        } else {
            let removing = CleanRunView { phase: CleanPhaseView::Removing, ..s };
            assert(step(s, CleanEventView::Exists(true)) == removing);
            assert(play(s, disk) == play(removing, disk));
            assert(removing.passed() == probing_at(root, dirs, from + 1));
            if disk.stuck.dom().contains(name) {
                let failed = CleanRunView {
                    phase: CleanPhaseView::Failed(disk.stuck[name]),
                    ..removing
                };
                assert(step(removing, CleanEventView::Removed(Err(disk.stuck[name]))) == failed);
                assert(play(failed, disk).attempts =~= Seq::<Seq<char>>::empty());
                assert(play(removing, disk).attempts =~= seq![name]);
            } else {
                assert(step(removing, CleanEventView::Removed(Ok(()))) == removing.passed());
                lemma_play_is_sweep(root, dirs, from + 1, disk.without(name));
            }
        }
    }
}

/// A run from its start ends as the sweep over all its directories does.
pub proof fn lemma_run_is_sweep(root: Seq<char>, dirs: Seq<Seq<char>>, disk: Disk)
    ensures
        play(start(root, dirs), disk) == sweep(dirs, 0, disk),
{
    assert(start(root, dirs) == probing_at(root, dirs, 0));
    lemma_play_is_sweep(root, dirs, 0, disk);
}

/// A sweep only deletes: what is there afterwards was there before, and
/// which directories are stuck does not change.
pub proof fn lemma_sweep_only_deletes(dirs: Seq<Seq<char>>, from: int, disk: Disk)
    ensures
        sweep(dirs, from, disk).disk.present.subset_of(disk.present),
        sweep(dirs, from, disk).disk.stuck == disk.stuck,
    decreases dirs.len() - from,
{
    if 0 <= from < dirs.len() && disk.present.contains(dirs[from]) {
        if !disk.stuck.dom().contains(dirs[from]) {
            lemma_sweep_only_deletes(dirs, from + 1, disk.without(dirs[from]));
        }
    } else if 0 <= from < dirs.len() {
        lemma_sweep_only_deletes(dirs, from + 1, disk);
    }
}

/// After a sweep that ended well, none of the directories it went over is
/// there.
pub proof fn lemma_sweep_clears(dirs: Seq<Seq<char>>, from: int, disk: Disk)
    requires
        0 <= from,
        sweep(dirs, from, disk).result is Ok,
    ensures
        forall|j: int|
            from <= j < dirs.len() ==> !sweep(dirs, from, disk).disk.present.contains(
                #[trigger] dirs[j],
            ),
    decreases dirs.len() - from,
{
    if from < dirs.len() {
        let name = dirs[from];
        if !disk.present.contains(name) {
            lemma_sweep_clears(dirs, from + 1, disk);
            lemma_sweep_only_deletes(dirs, from + 1, disk);
        } else {
            lemma_sweep_clears(dirs, from + 1, disk.without(name));
            lemma_sweep_only_deletes(dirs, from + 1, disk.without(name));
        }
    }
}

/// A sweep over directories of which none is there asks for no deletion,
/// ends well and leaves the disk as it was.
pub proof fn lemma_sweep_nothing_there(dirs: Seq<Seq<char>>, from: int, disk: Disk)
    requires
        0 <= from,
        forall|j: int| from <= j < dirs.len() ==> !disk.present.contains(#[trigger] dirs[j]),
    ensures
        sweep(dirs, from, disk) == (Ending { result: Ok(()), disk, attempts: Seq::empty() }),
    decreases dirs.len() - from,
{
    if from < dirs.len() {
        assert(!disk.present.contains(dirs[from]));
        lemma_sweep_nothing_there(dirs, from + 1, disk);
    }
}

/// A sweep ends well exactly when none of the directories it goes over is
/// there and stuck.
pub proof fn lemma_sweep_succeeds_iff(dirs: Seq<Seq<char>>, from: int, disk: Disk)
    requires
        0 <= from,
    ensures
        sweep(dirs, from, disk).result is Ok <==> forall|j: int|
            from <= j < dirs.len() ==> !disk.blocks(#[trigger] dirs[j]),
    decreases dirs.len() - from,
{
    if from < dirs.len() {
        let name = dirs[from];
        if !disk.present.contains(name) {
            lemma_sweep_succeeds_iff(dirs, from + 1, disk);
            assert(!disk.blocks(dirs[from]));
        } else if disk.stuck.dom().contains(name) {
            assert(disk.blocks(dirs[from]));
        } else {
            let rest = disk.without(name);
            lemma_sweep_succeeds_iff(dirs, from + 1, rest);
            assert(!disk.blocks(dirs[from]));
            assert forall|j: int| from + 1 <= j < dirs.len() implies (rest.blocks(
                #[trigger] dirs[j],
            ) <==> disk.blocks(dirs[j])) by {
                if dirs[j] == name {
                    assert(!disk.blocks(dirs[j]));
                }
            }
        }
    }
}

/// A sweep that meets its first stuck directory at `at` ends with that
/// directory's error. The directories before it are gone, and every other
/// directory, the stuck one and those after it among them, is there or not
/// as it was before.
pub proof fn lemma_sweep_stops_at(dirs: Seq<Seq<char>>, from: int, disk: Disk, at: int)
    requires
        0 <= from <= at < dirs.len(),
        disk.blocks(dirs[at]),
        forall|j: int| from <= j < at ==> !disk.blocks(#[trigger] dirs[j]),
    ensures
        sweep(dirs, from, disk).result == Err::<(), Seq<char>>(disk.stuck[dirs[at]]),
        sweep(dirs, from, disk).disk.stuck == disk.stuck,
        forall|j: int|
            from <= j < at ==> !sweep(dirs, from, disk).disk.present.contains(#[trigger] dirs[j]),
        forall|name: Seq<char>|
            (forall|j: int| from <= j < at ==> #[trigger] dirs[j] != name) ==> (sweep(
                dirs,
                from,
                disk,
            ).disk.present.contains(name) <==> disk.present.contains(name)),
    decreases at - from,
{
    if from < at {
        let name = dirs[from];
        assert(!disk.blocks(dirs[from]));
        let rest = if disk.present.contains(name) {
            disk.without(name)
        } else {
            disk
        };
        assert(sweep(dirs, from, disk).result == sweep(dirs, from + 1, rest).result);
        assert(sweep(dirs, from, disk).disk == sweep(dirs, from + 1, rest).disk);
        assert(dirs[at] != name);
        assert(rest.blocks(dirs[at]));
        assert forall|j: int| from + 1 <= j < at implies !rest.blocks(#[trigger] dirs[j]) by {
            assert(!disk.blocks(dirs[j]));
        }
        lemma_sweep_stops_at(dirs, from + 1, rest, at);
        lemma_sweep_only_deletes(dirs, from + 1, rest);
        let end = sweep(dirs, from + 1, rest).disk;
        assert(!end.present.contains(name)) by {
            assert(!rest.present.contains(name));
            assert(end.present.subset_of(rest.present));
        }
        assert forall|other: Seq<char>|
            (forall|j: int| from <= j < at ==> #[trigger] dirs[j] != other) implies (
        end.present.contains(other) <==> disk.present.contains(other)) by {
            assert(dirs[from] != other);
            assert(forall|j: int| from + 1 <= j < at ==> #[trigger] dirs[j] != other);
        }
    }
}

/// Deleting twice: where the first run ends well, a second run over the
/// same directories ends well too, asks for no deletion and leaves the disk
/// as the first run left it.
pub proof fn lemma_clean_twice(root: Seq<char>, dirs: Seq<Seq<char>>, disk: Disk)
    requires
        play(start(root, dirs), disk).result is Ok,
    ensures
        play(start(root, dirs), play(start(root, dirs), disk).disk) == (Ending {
            result: Ok(()),
            disk: play(start(root, dirs), disk).disk,
            attempts: Seq::empty(),
        }),
{
    lemma_run_is_sweep(root, dirs, disk);
    let left = sweep(dirs, 0, disk).disk;
    lemma_sweep_clears(dirs, 0, disk);
    lemma_run_is_sweep(root, dirs, left);
    lemma_sweep_nothing_there(dirs, 0, left);
}

/// Stopping half way: where the directory at `at` is the first that is
/// there and cannot be deleted, the run ends with that directory's error.
/// Afterwards the directories before it are gone, and every directory that
/// is not one of those, the failing one and all after it among them, is
/// there or not as it was before.
pub proof fn lemma_partial_failure(root: Seq<char>, dirs: Seq<Seq<char>>, disk: Disk, at: int)
    requires
        0 <= at < dirs.len(),
        disk.blocks(dirs[at]),
        forall|j: int| 0 <= j < at ==> !disk.blocks(#[trigger] dirs[j]),
    ensures
        play(start(root, dirs), disk).result == Err::<(), Seq<char>>(disk.stuck[dirs[at]]),
        forall|j: int|
            0 <= j < at ==> !play(start(root, dirs), disk).disk.present.contains(
                #[trigger] dirs[j],
            ),
        forall|name: Seq<char>|
            !dirs.take(at).contains(name) ==> (play(start(root, dirs), disk).disk.present.contains(
                name,
            ) <==> disk.present.contains(name)),
        play(start(root, dirs), disk).disk.stuck == disk.stuck,
{
    lemma_run_is_sweep(root, dirs, disk);
    lemma_sweep_stops_at(dirs, 0, disk, at);
    let end = sweep(dirs, 0, disk).disk;
    assert forall|name: Seq<char>| !dirs.take(at).contains(name) implies (end.present.contains(
        name,
    ) <==> disk.present.contains(name)) by {
        assert forall|j: int| 0 <= j < at implies #[trigger] dirs[j] != name by {
            assert(dirs.take(at)[j] == dirs[j]);
        }
    }
}

/// A run ends well exactly when no directory is there and stuck, and then
/// none of its directories is there any more.
pub proof fn lemma_run_succeeds_iff(root: Seq<char>, dirs: Seq<Seq<char>>, disk: Disk)
    ensures
        play(start(root, dirs), disk).result is Ok <==> forall|j: int|
            0 <= j < dirs.len() ==> !disk.blocks(#[trigger] dirs[j]),
        play(start(root, dirs), disk).result is Ok ==> forall|j: int|
            0 <= j < dirs.len() ==> !play(start(root, dirs), disk).disk.present.contains(
                #[trigger] dirs[j],
            ),
{
    lemma_run_is_sweep(root, dirs, disk);
    lemma_sweep_succeeds_iff(dirs, 0, disk);
    if sweep(dirs, 0, disk).result is Ok {
        lemma_sweep_clears(dirs, 0, disk);
    }
}

} // verus!
