//! Deleting the build output of one project.
//!
//! The directories that hold build output are tried in the order in which
//! they were named. One that is not there is passed over. The first one that
//! cannot be deleted ends the run with its error; what was deleted before
//! stays deleted.
//!
//! Looking at the disk and deleting are the caller's part. A [`CleanRun`]
//! says what to do next and takes the answer.

use vstd::prelude::*;
use vstd::string::*;

verus! {

/// Where a run stands.
#[derive(Debug, Clone, PartialEq, Eq)]
pub enum CleanPhase {
    /// The directory in turn is to be looked for.
    Probing,
    /// The directory in turn is there and is to be deleted.
    Removing,
    /// Every directory was deleted or was not there.
    Succeeded,
    /// A directory could not be deleted, for the reason held.
    Failed(String),
}

/// What a `CleanPhase` holds.
pub enum CleanPhaseView {
    Probing,
    Removing,
    Succeeded,
    Failed(Seq<char>),
}

impl View for CleanPhase {
    type V = CleanPhaseView;

    open spec fn view(&self) -> CleanPhaseView {
        match self {
            CleanPhase::Probing => CleanPhaseView::Probing,
            CleanPhase::Removing => CleanPhaseView::Removing,
            CleanPhase::Succeeded => CleanPhaseView::Succeeded,
            CleanPhase::Failed(why) => CleanPhaseView::Failed(why@),
        }
    }
}

/// What the caller is to do next.
#[derive(Debug, PartialEq, Eq)]
pub enum CleanAction {
    /// Say whether the directory of this name, below the project's root,
    /// is there.
    Probe(String),
    /// Delete the directory of this name, below the project's root, with
    /// all that it holds.
    Remove(String),
    /// Nothing more: the run has ended with this result.
    Finish(Result<(), String>),
}

/// What a `CleanAction` holds.
pub enum CleanActionView {
    Probe(Seq<char>),
    Remove(Seq<char>),
    Finish(Result<(), Seq<char>>),
}

impl View for CleanAction {
    type V = CleanActionView;

    open spec fn view(&self) -> CleanActionView {
        match self {
            CleanAction::Probe(name) => CleanActionView::Probe(name@),
            CleanAction::Remove(name) => CleanActionView::Remove(name@),
            CleanAction::Finish(Ok(())) => CleanActionView::Finish(Ok(())),
            CleanAction::Finish(Err(why)) => CleanActionView::Finish(Err(why@)),
        }
    }
}

/// What the caller found or did.
#[derive(Debug, PartialEq, Eq)]
pub enum CleanEvent {
    /// Whether the directory asked for is there.
    Exists(bool),
    /// How deleting the directory went.
    Removed(Result<(), String>),
}

/// What a `CleanEvent` holds.
pub enum CleanEventView {
    Exists(bool),
    Removed(Result<(), Seq<char>>),
}

impl View for CleanEvent {
    type V = CleanEventView;

    open spec fn view(&self) -> CleanEventView {
        match self {
            CleanEvent::Exists(there) => CleanEventView::Exists(*there),
            CleanEvent::Removed(Ok(())) => CleanEventView::Removed(Ok(())),
            CleanEvent::Removed(Err(why)) => CleanEventView::Removed(Err(why@)),
        }
    }
}

/// What a run holds: the project's root, the names of the directories to
/// delete, the place of the one in turn, and where the run stands.
pub struct CleanRunView {
    pub root: Seq<char>,
    pub dirs: Seq<Seq<char>>,
    pub next: int,
    pub phase: CleanPhaseView,
}

impl CleanRunView {
    /// While a run has not ended, there is a directory in turn.
    pub open spec fn wf(self) -> bool {
        &&& 0 <= self.next <= self.dirs.len()
        &&& (self.phase is Probing || self.phase is Removing) ==> self.next < self.dirs.len()
    }

    /// Whether the run has ended.
    pub open spec fn ended(self) -> bool {
        self.phase is Succeeded || self.phase is Failed
    }

    /// The run with the next directory in turn, or at its good end where
    /// there is none.
    pub open spec fn passed(self) -> CleanRunView {
        CleanRunView {
            next: self.next + 1,
            phase: if self.next + 1 < self.dirs.len() {
                CleanPhaseView::Probing
            } else {
                CleanPhaseView::Succeeded
            },
            ..self
        }
    }
}

/// The run at its start: the first directory is in turn, and a run over no
/// directory has ended well.
pub open spec fn start(root: Seq<char>, dirs: Seq<Seq<char>>) -> CleanRunView {
    CleanRunView {
        root,
        dirs,
        next: 0,
        phase: if dirs.len() > 0 {
            CleanPhaseView::Probing
        } else {
            CleanPhaseView::Succeeded
        },
    }
}

/// What the caller is to do next in the run `s`.
pub open spec fn next_action(s: CleanRunView) -> CleanActionView {
    match s.phase {
        CleanPhaseView::Probing => CleanActionView::Probe(s.dirs[s.next]),
        CleanPhaseView::Removing => CleanActionView::Remove(s.dirs[s.next]),
        CleanPhaseView::Succeeded => CleanActionView::Finish(Ok(())),
        CleanPhaseView::Failed(why) => CleanActionView::Finish(Err(why)),
    }
}

/// The run after the caller's answer `e`. A directory that is there is
/// deleted next; one that is not there is passed over; one that was deleted
/// is followed by the next; one that could not be deleted ends the run with
/// its error. An answer that the run did not ask for changes nothing.
pub open spec fn step(s: CleanRunView, e: CleanEventView) -> CleanRunView {
    match (s.phase, e) {
        (CleanPhaseView::Probing, CleanEventView::Exists(true)) => CleanRunView {
            phase: CleanPhaseView::Removing,
            ..s
        },
        (CleanPhaseView::Probing, CleanEventView::Exists(false)) => s.passed(),
        (CleanPhaseView::Removing, CleanEventView::Removed(Ok(()))) => s.passed(),
        (CleanPhaseView::Removing, CleanEventView::Removed(Err(why))) => CleanRunView {
            phase: CleanPhaseView::Failed(why),
            ..s
        },
        _ => s,
    }
}

/// What a list of names holds.
pub open spec fn name_views(names: Seq<String>) -> Seq<Seq<char>> {
    names.map_values(|n: String| n@)
}

/// The deletion of one project's build output, step by step.
#[derive(Debug, PartialEq, Eq)]
pub struct CleanRun {
    root: String,
    dirs: Vec<String>,
    next: usize,
    phase: CleanPhase,
}

impl View for CleanRun {
    type V = CleanRunView;

    closed spec fn view(&self) -> CleanRunView {
        CleanRunView {
            root: self.root@,
            dirs: name_views(self.dirs@),
            next: self.next as int,
            phase: self.phase@,
        }
    }
}

impl CleanRun {
    #[verifier::type_invariant]
    spec fn inv(self) -> bool {
        self@.wf()
    }

    /// A run over the project whose absolute path is `root` and whose build
    /// output lies in the directories `dirs` below it.
    pub fn new(root: String, dirs: Vec<String>) -> (run: Self)
        ensures
            run@ == start(root@, name_views(dirs@)),
            run@.wf(),
    {
        let phase = if dirs.len() > 0 {
            CleanPhase::Probing
        } else {
            CleanPhase::Succeeded
        };
        CleanRun { root, dirs, next: 0, phase }
    }

    /// The absolute path of the project's root.
    pub fn root(&self) -> (root: &String)
        ensures
            root@ == self@.root,
    {
        &self.root
    }

    /// What the caller is to do next.
    pub fn action(&self) -> (action: CleanAction)
        ensures
            self@.wf(),
            action@ == next_action(self@),
    {
        proof {
            use_type_invariant(self);
        }
        match &self.phase {
            CleanPhase::Probing => CleanAction::Probe(self.dirs[self.next].clone()),
            CleanPhase::Removing => CleanAction::Remove(self.dirs[self.next].clone()),
            CleanPhase::Succeeded => CleanAction::Finish(Ok(())),
            CleanPhase::Failed(why) => CleanAction::Finish(Err(why.clone())),
        }
    }

    /// Takes the caller's answer.
    pub fn advance(&mut self, event: CleanEvent)
        ensures
            old(self)@.wf(),
            final(self)@.wf(),
            final(self)@ == step(old(self)@, event@),
    {
        proof {
            use_type_invariant(&*self);
        }
        let last: bool = self.dirs.len() - self.next <= 1;
        match (&self.phase, event) {
            (CleanPhase::Probing, CleanEvent::Exists(true)) => {
                self.phase = CleanPhase::Removing;
            },
            (CleanPhase::Probing, CleanEvent::Exists(false)) => {
                self.phase = if last {
                    CleanPhase::Succeeded
                } else {
                    CleanPhase::Probing
                };
                self.next = self.next + 1;
            },
            (CleanPhase::Removing, CleanEvent::Removed(Ok(()))) => {
                self.phase = if last {
                    CleanPhase::Succeeded
                } else {
                    CleanPhase::Probing
                };
                self.next = self.next + 1;
            },
            (CleanPhase::Removing, CleanEvent::Removed(Err(why))) => {
                self.phase = CleanPhase::Failed(why);
            },
            _ => {},
        }
    }

    /// The result of the run, once it has ended.
    pub fn result(&self) -> (result: Option<Result<(), String>>)
        ensures
            match self@.phase {
                CleanPhaseView::Succeeded => result == Some(Ok::<(), String>(())),
                CleanPhaseView::Failed(why) => result matches Some(Err(reason)) && reason@ == why,
                _ => result is None,
            },
    {
        match &self.phase {
            CleanPhase::Succeeded => Some(Ok(())),
            CleanPhase::Failed(why) => Some(Err(why.clone())),
            _ => None,
        }
    }
}

} // verus!
