//! The entries of the menu that this tool adds, and what choosing one asks
//! for.

use vstd::prelude::*;
use vstd::string::*;
use crate::event::{Event, EventView};
use crate::text::same_text;

verus! {

/// An entry of the menu.
#[derive(Debug, Clone, Copy, PartialEq, Eq, Structural)]
pub enum KondoMenuItem {
    Preferences,
    Open,
}

/// A window to open.
#[derive(Debug, Clone, PartialEq, Eq)]
pub struct WindowPlan {
    /// The label by which the window is known.
    pub label: String,
    /// The page that it shows.
    pub url: String,
    /// Its title.
    pub title: String,
    /// Whether its background is transparent.
    pub transparent: bool,
    /// Whether it gets the glass effect once it is open.
    pub glass: bool,
}

/// What a `WindowPlan` holds.
pub struct WindowPlanView {
    pub label: Seq<char>,
    pub url: Seq<char>,
    pub title: Seq<char>,
    pub transparent: bool,
    pub glass: bool,
}

impl View for WindowPlan {
    type V = WindowPlanView;

    open spec fn view(&self) -> WindowPlanView {
        WindowPlanView {
            label: self.label@,
            url: self.url@,
            title: self.title@,
            transparent: self.transparent,
            glass: self.glass,
        }
    }
}

/// What choosing a menu entry asks of the caller.
#[derive(Debug, Clone, PartialEq, Eq)]
pub enum MenuAction {
    /// Open this window.
    OpenWindow(WindowPlan),
    /// Send this event, then let the user choose folders, search them, and
    /// send the event that settles the search.
    ChooseFolders(Event),
}

/// What a `MenuAction` holds.
pub enum MenuActionView {
    OpenWindow(WindowPlanView),
    ChooseFolders(EventView),
}

impl View for MenuAction {
    type V = MenuActionView;

    open spec fn view(&self) -> MenuActionView {
        match self {
            MenuAction::OpenWindow(plan) => MenuActionView::OpenWindow(plan@),
            MenuAction::ChooseFolders(event) => MenuActionView::ChooseFolders(event@),
        }
    }
}

/// The name by which a menu entry is known to the menu.
pub open spec fn item_id(item: KondoMenuItem) -> Seq<char> {
    match item {
        KondoMenuItem::Preferences => "preferences"@,
        KondoMenuItem::Open => "open"@,
    }
}

/// The menu entry of a given name, if there is one.
pub open spec fn item_of(id: Seq<char>) -> Option<KondoMenuItem> {
    if id == "open"@ {
        Some(KondoMenuItem::Open)
    } else if id == "preferences"@ {
        Some(KondoMenuItem::Preferences)
    } else {
        None
    }
}

/// The window in which the preferences are shown.
pub open spec fn preferences_window() -> WindowPlanView {
    WindowPlanView {
        label: "preferences"@,
        url: "/preferences"@,
        title: "Kondo - Preferences"@,
        transparent: true,
        glass: true,
    }
}

/// What choosing `item` asks for: the preferences open in a window of their
/// own, and a search is announced as pending before the user is asked for
/// folders.
pub open spec fn action_of(item: KondoMenuItem) -> MenuActionView {
    match item {
        KondoMenuItem::Preferences => MenuActionView::OpenWindow(preferences_window()),
        KondoMenuItem::Open => MenuActionView::ChooseFolders(EventView::AddProjectsPending),
    }
}

impl KondoMenuItem {
    /// What choosing this entry asks of the caller.
    pub fn execute(self) -> (action: MenuAction)
        ensures
            action@ == action_of(self),
    {
        match self {
            KondoMenuItem::Preferences => MenuAction::OpenWindow(
                WindowPlan {
                    label: String::from_str("preferences"),
                    url: String::from_str("/preferences"),
                    title: String::from_str("Kondo - Preferences"),
                    transparent: true,
                    glass: true,
                },
            ),
            KondoMenuItem::Open => MenuAction::ChooseFolders(Event::AddProjectsPending),
        }
    }

    /// The menu entry of the name `item_id`, or `None` where no entry has
    /// that name.
    pub fn from<'a>(item_id: &'a str) -> (item: Option<Self>)
        ensures
            item == item_of(item_id@),
    {
        if same_text(item_id, "open") {
            Some(Self::Open)
        } else if same_text(item_id, "preferences") {
            Some(Self::Preferences)
        } else {
            None
        }
    }

    /// The name by which this entry is known to the menu.
    pub fn to_string(&self) -> (id: String)
        ensures
            id@ == item_id(*self),
    {
        match self {
            KondoMenuItem::Preferences => String::from_str("preferences"),
            KondoMenuItem::Open => String::from_str("open"),
        }
    }
}

/// An entry is found again by its name, and a name that is found is the
/// name of the entry found.
pub proof fn lemma_item_names(item: KondoMenuItem, id: Seq<char>)
    ensures
        item_of(item_id(item)) == Some(item),
        item_of(id) matches Some(found) ==> item_id(found) == id,
{
    reveal_strlit("open");
    reveal_strlit("preferences");
    assert("open"@.len() == 4);
    assert("preferences"@.len() == 11);
}

} // verus!
