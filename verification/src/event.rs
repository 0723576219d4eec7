//! What the user interface is told about a search that the user started
//! from the menu.
//!
//! Such a search is announced as pending before the user is asked for
//! folders, and is settled once: as fulfilled, with the answer, or as
//! rejected, with the reason. Each of the three is sent on a channel of its
//! own.

use vstd::prelude::*;
use vstd::string::*;
use crate::scan::{pick_aborted, read, response_of, scan_views, ReadResponse, ReadResponseView, RootScan};

verus! {

/// A message to the user interface.
#[derive(Debug, Clone, PartialEq, Eq)]
pub enum Event {
    AddProjectsFulfilled(ReadResponse),
    AddProjectsRejected(String),
    AddProjectsPending,
}

/// What an `Event` holds.
pub enum EventView {
    AddProjectsFulfilled(ReadResponseView),
    AddProjectsRejected(Seq<char>),
    AddProjectsPending,
}

impl View for Event {
    type V = EventView;

    open spec fn view(&self) -> EventView {
        match self {
            Event::AddProjectsFulfilled(response) => EventView::AddProjectsFulfilled(response@),
            Event::AddProjectsRejected(reason) => EventView::AddProjectsRejected(reason@),
            Event::AddProjectsPending => EventView::AddProjectsPending,
        }
    }
}

/// The channel on which an event is sent.
pub open spec fn channel_of(event: EventView) -> Seq<char> {
    match event {
        EventView::AddProjectsFulfilled(_) => "kondo://add_projects/fulfilled"@,
        EventView::AddProjectsRejected(_) => "kondo://add_projects/rejected"@,
        EventView::AddProjectsPending => "kondo://add_projects/pending"@,
    }
}

/// The event that settles a search in which the user chose `picked`.
pub open spec fn settled_for(picked: Option<Seq<RootScan>>, home: Seq<char>) -> EventView {
    match picked {
        Some(scans) if scans.len() > 0 => EventView::AddProjectsFulfilled(
            response_of(scan_views(scans), home),
        ),
        _ => EventView::AddProjectsRejected(pick_aborted()),
    }
}

impl Event {
    /// The channel on which this event is sent.
    pub fn channel(&self) -> (name: String)
        ensures
            name@ == channel_of(self@),
    {
        match self {
            Event::AddProjectsFulfilled(_) => String::from_str("kondo://add_projects/fulfilled"),
            Event::AddProjectsRejected(_) => String::from_str("kondo://add_projects/rejected"),
            Event::AddProjectsPending => String::from_str("kondo://add_projects/pending"),
        }
    }

    /// Whether this event settles a search.
    pub fn is_settled(&self) -> (settled: bool)
        ensures
            settled == !(self@ is AddProjectsPending),
    {
        match self {
            Event::AddProjectsPending => false,
            _ => true,
        }
    }

    /// The event that settles a search which was answered with `outcome`.
    pub fn settle(outcome: Result<ReadResponse, String>) -> (event: Self)
        ensures
            match outcome {
                Ok(response) => event@ == EventView::AddProjectsFulfilled(response@),
                Err(reason) => event@ == EventView::AddProjectsRejected(reason@),
            },
    {
        match outcome {
            Ok(response) => Event::AddProjectsFulfilled(response),
            Err(reason) => Event::AddProjectsRejected(reason),
        }
    }

    /// The event that settles a search started from the menu. `picked`
    /// holds the roots that the user chose, each with what was found below
    /// it, or `None` where the user chose nothing.
    ///
    /// The event carries what a search asked for directly is answered with.
    pub fn add_projects(picked: Option<Vec<RootScan>>, home: &str) -> (event: Self)
        ensures
            event@ == settled_for(
                match picked {
                    Some(scans) => Some(scans@),
                    None => None,
                },
                home@,
            ),
    {
        Event::settle(read(picked, home))
    }
}

/// The three channels differ, so the channel tells which of the three
/// events came.
pub proof fn lemma_channels_differ(a: EventView, b: EventView)
    ensures
        channel_of(a) == channel_of(b) <==> (a is AddProjectsFulfilled && b is AddProjectsFulfilled)
            || (a is AddProjectsRejected && b is AddProjectsRejected) || (a is AddProjectsPending
            && b is AddProjectsPending),
{
    reveal_strlit("kondo://add_projects/fulfilled");
    reveal_strlit("kondo://add_projects/rejected");
    reveal_strlit("kondo://add_projects/pending");
    assert("kondo://add_projects/fulfilled"@.len() == 30);
    assert("kondo://add_projects/rejected"@.len() == 29);
    assert("kondo://add_projects/pending"@.len() == 28);
}

/// A search is settled as rejected exactly when the user chose no root, and
/// then the reason says so; a search over at least one root is settled as
/// fulfilled, though nothing may have been found.
pub proof fn lemma_rejected_iff_nothing_picked(picked: Option<Seq<RootScan>>, home: Seq<char>)
    ensures
        settled_for(picked, home) is AddProjectsRejected <==> (picked is None || picked->0.len()
            == 0),
        settled_for(picked, home) is AddProjectsRejected ==> settled_for(picked, home)
            == EventView::AddProjectsRejected(pick_aborted()),
        !(settled_for(picked, home) is AddProjectsPending),
        settled_for(picked, home) matches EventView::AddProjectsFulfilled(response)
            ==> response.search_paths.len() > 0,
{
}

} // verus!
