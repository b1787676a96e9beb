use vstd::prelude::*;
use crate::cursor::{advanced, clamped, Cursor, Step};
use crate::records::Skill;
use crate::sheet::{pick, CharacterSheet};
use crate::store::{skill_count, Compendium};

verus! {

/// The top-level views: home page, character detail, skill browser, gear
/// browser and background text.
#[derive(Clone, Copy, Debug, PartialEq, Eq, Structural)]
pub enum MenuItem {
    Home,
    Character,
    Skills,
    Items,
    Lore,
}

/// The position of a view's tab in the menu bar.
pub open spec fn tab_index(m: MenuItem) -> usize {
    match m {
        MenuItem::Home => 0,
        MenuItem::Character => 1,
        MenuItem::Skills => 2,
        MenuItem::Items => 3,
        MenuItem::Lore => 4,
    }
}

impl From<MenuItem> for usize {
    fn from(input: MenuItem) -> (r: usize) {
        match input {
            MenuItem::Home => 0,
            MenuItem::Character => 1,
            MenuItem::Skills => 2,
            MenuItem::Items => 3,
            MenuItem::Lore => 4,
        }
    }
}

impl vstd::std_specs::convert::FromSpecImpl<MenuItem> for usize {
    open spec fn obeys_from_spec() -> bool {
        true
    }

    open spec fn from_spec(v: MenuItem) -> usize {
        tab_index(v)
    }
}

/// Which of the two lists of the character view takes up / down keys: the
/// roster on the left or the character's skills on the right.
#[derive(Clone, Copy, Debug, PartialEq, Eq, Structural)]
pub enum Focus {
    Roster,
    Skills,
}

/// The lowest scroll offset of the background text.
pub const SCROLL_MIN: u16 = 1;

/// The highest scroll offset of the background text.
pub const SCROLL_MAX: u16 = 15;

/// A state change asked for by one input event.
#[derive(Clone, Copy, Debug, PartialEq, Eq, Structural)]
pub enum Request {
    /// Make a view the active one.
    Show(MenuItem),
    /// Step the cursor that the active view and focus designate.
    Move(Step),
    /// Give up / down keys to one of the character view's lists.
    FocusOn(Focus),
    /// Open or close the skill description popup.
    TogglePopup,
    /// Leave the program.
    Quit,
    /// Nothing to do.
    Ignore,
}

/// The whole navigation state: the active view, the primary cursor (the
/// roster in the character view, the flat list in the browsers), the
/// secondary cursor over the selected character's skills, which of the two
/// has focus, whether the skill popup is shown, and the scroll offset of
/// the background text.
#[derive(Clone, Copy, Debug, PartialEq, Eq, Structural)]
pub struct Navigation {
    pub view: MenuItem,
    pub primary: Cursor,
    pub secondary: Cursor,
    pub focus: Focus,
    pub popup: bool,
    pub scroll: u16,
}

/// The scroll offset after one step, kept within its bounds.
pub open spec fn scrolled(scroll: int, step: Step) -> int {
    match step {
        Step::Next => if scroll + 1 >= SCROLL_MAX { SCROLL_MAX as int } else { scroll + 1 },
        Step::Prev => if scroll - 1 <= 0 { SCROLL_MIN as int } else { scroll - 1 },
    }
}

impl Navigation {
    /// The state at start-up: the home view, both cursors on the first
    /// element, the roster focused, no popup, the text at its top.
    pub fn new() -> (r: Navigation)
        ensures
            r.view == MenuItem::Home,
            r.primary == (Cursor { index: 0, length: 0 }),
            r.secondary == (Cursor { index: 0, length: 0 }),
            r.focus == Focus::Roster,
            !r.popup,
            r.scroll == SCROLL_MIN,
            r.wf(),
    {
        Navigation {
            view: MenuItem::Home,
            primary: Cursor::new(),
            secondary: Cursor::new(),
            focus: Focus::Roster,
            popup: false,
            scroll: SCROLL_MIN,
        }
    }

    pub open spec fn wf(&self) -> bool {
        &&& self.primary.wf()
        &&& self.secondary.wf()
        &&& SCROLL_MIN <= self.scroll <= SCROLL_MAX
    }

    /// The state after the request, the lists being as `data` holds them
    /// now.
    pub open spec fn after(self, request: Request, data: Compendium) -> Navigation {
        match request {
            Request::Show(v) => Navigation {
                view: v,
                popup: if v == MenuItem::Character { self.popup } else { false },
                ..self
            },
            Request::Move(step) => match self.view {
                MenuItem::Character => match self.focus {
                    Focus::Roster => Navigation {
                        primary: self.primary.spec_stepped(step, data.characters@.len() as int),
                        ..self
                    },
                    Focus::Skills => Navigation {
                        secondary: self.secondary.spec_stepped(
                            step,
                            skill_count(data, self.primary.index as int),
                        ),
                        ..self
                    },
                },
                MenuItem::Skills => Navigation {
                    primary: self.primary.spec_stepped(step, data.skills@.len() as int),
                    ..self
                },
                MenuItem::Items => Navigation {
                    primary: self.primary.spec_stepped(step, data.items@.len() as int),
                    ..self
                },
                MenuItem::Lore => Navigation { scroll: scrolled(self.scroll as int, step) as u16, ..self },
                MenuItem::Home => self,
            },
            Request::FocusOn(f) => Navigation { focus: f, ..self },
            Request::TogglePopup => Navigation { popup: !self.popup, ..self },
            Request::Quit | Request::Ignore => self,
        }
    }

    /// The state with its cursors checked against the lists as `data` holds
    /// them now: the primary cursor against the active view's list and, in
    /// the character view, the secondary cursor against the selected
    /// character's skills.
    pub open spec fn refreshed_by(self, data: Compendium) -> Navigation {
        match self.view {
            MenuItem::Character => {
                let p = self.primary.spec_revalidated(data.characters@.len() as int);
                Navigation {
                    primary: p,
                    secondary: self.secondary.spec_revalidated(skill_count(data, p.index as int)),
                    ..self
                }
            },
            MenuItem::Skills => Navigation {
                primary: self.primary.spec_revalidated(data.skills@.len() as int),
                ..self
            },
            MenuItem::Items => Navigation {
                primary: self.primary.spec_revalidated(data.items@.len() as int),
                ..self
            },
            MenuItem::Home | MenuItem::Lore => self,
        }
    }
}

impl Navigation {
    /// Applies one request, reading the length of the list to step over
    /// from `data` as it is now. Switching to another view than the
    /// character view closes the skill popup; nothing else is reset.
    pub fn apply(self, request: Request, data: &Compendium) -> (r: Navigation)
        requires
            self.wf(),
        ensures
            r == self.after(request, *data),
            r.wf(),
    {
        match request {
            Request::Show(v) => Navigation {
                view: v,
                popup: if v == MenuItem::Character { self.popup } else { false },
                ..self
            },
            Request::Move(step) => match self.view {
                MenuItem::Character => match self.focus {
                    Focus::Roster => Navigation {
                        primary: self.primary.stepped(step, data.characters.len()),
                        ..self
                    },
                    Focus::Skills => Navigation {
                        secondary: self.secondary.stepped(step, data.skill_count(self.primary.index)),
                        ..self
                    },
                },
                MenuItem::Skills => Navigation {
                    primary: self.primary.stepped(step, data.skills.len()),
                    ..self
                },
                MenuItem::Items => Navigation {
                    primary: self.primary.stepped(step, data.items.len()),
                    ..self
                },
                MenuItem::Lore => Navigation { scroll: scroll_step(self.scroll, step), ..self },
                MenuItem::Home => self,
            },
            Request::FocusOn(f) => Navigation { focus: f, ..self },
            Request::TogglePopup => Navigation { popup: !self.popup, ..self },
            Request::Quit | Request::Ignore => self,
        }
    }
}

impl Navigation {
    /// Checks the cursors against the freshly read lists, as each render
    /// pass does before it draws: an index that no longer fits goes back
    /// to the first element.
    pub fn refreshed(self, data: &Compendium) -> (r: Navigation)
        requires
            self.wf(),
        ensures
            r == self.refreshed_by(*data),
            r.wf(),
    {
        match self.view {
            MenuItem::Character => {
                let p = self.primary.revalidated(data.characters.len());
                Navigation {
                    primary: p,
                    secondary: self.secondary.revalidated(data.skill_count(p.index)),
                    ..self
                }
            },
            MenuItem::Skills => Navigation {
                primary: self.primary.revalidated(data.skills.len()),
                ..self
            },
            MenuItem::Items => Navigation { primary: self.primary.revalidated(data.items.len()), ..self },
            MenuItem::Home | MenuItem::Lore => self,
        }
    }

    /// The skill that the popup describes: the one at the secondary
    /// cursor in the selected character's skill list (a stale index
    /// reading as the first), while the popup is shown in the character
    /// view and that list is not empty.
    pub fn popup_skill<'a>(&self, sheet: &CharacterSheet<'a>) -> (r: Option<&'a Skill>)
        ensures
            r == (if self.popup && self.view == MenuItem::Character && sheet.skills@.len() > 0 {
                Some(sheet.skills@[clamped(self.secondary.index as int, sheet.skills@.len() as int)])
            } else {
                None::<&Skill>
            }),
    {
        if self.popup && self.view == MenuItem::Character {
            match pick(&sheet.skills, self.secondary.index) {
                Some(s) => Some(*s),
                None => None,
            }
        } else {
            None
        }
    }
}

/// In the character view the two cursors move independently: stepping
/// the focused one leaves the other's stored index as it was, and moving
/// the focus or toggling the popup moves neither.
pub proof fn lemma_cursors_independent(nav: Navigation, data: Compendium, step: Step, f: Focus)
    requires
        nav.view == MenuItem::Character,
    ensures
        nav.focus == Focus::Skills ==> nav.after(Request::Move(step), data).primary == nav.primary,
        nav.focus == Focus::Roster ==> nav.after(Request::Move(step), data).secondary == nav.secondary,
        nav.after(Request::FocusOn(f), data).primary == nav.primary,
        nav.after(Request::FocusOn(f), data).secondary == nav.secondary,
        nav.after(Request::TogglePopup, data).primary == nav.primary,
        nav.after(Request::TogglePopup, data).secondary == nav.secondary,
{
}

/// When the selected character now has fewer skills than the secondary
/// cursor's stored index, the next step on that list reads the index as
/// the first position and then wraps as usual, landing inside the list.
pub proof fn lemma_stale_secondary_recovers(nav: Navigation, data: Compendium, step: Step)
    requires
        nav.view == MenuItem::Character,
        nav.focus == Focus::Skills,
        skill_count(data, nav.primary.index as int) > 0,
        nav.secondary.index >= skill_count(data, nav.primary.index as int),
    ensures
        nav.after(Request::Move(step), data).secondary.index == advanced(
            0,
            step,
            skill_count(data, nav.primary.index as int),
        ),
        nav.after(Request::Move(step), data).secondary.index < skill_count(
            data,
            nav.primary.index as int,
        ),
{
}

/// One step of the background text's scroll offset, kept within
/// `SCROLL_MIN..=SCROLL_MAX`.
pub fn scroll_step(scroll: u16, step: Step) -> (r: u16)
    requires
        SCROLL_MIN <= scroll <= SCROLL_MAX,
    ensures
        r == scrolled(scroll as int, step),
        SCROLL_MIN <= r <= SCROLL_MAX,
{
    match step {
        Step::Next => if scroll + 1 >= SCROLL_MAX { SCROLL_MAX } else { scroll + 1 },
        Step::Prev => if scroll - 1 <= 0 { SCROLL_MIN } else { scroll - 1 },
    }
}

} // verus!
