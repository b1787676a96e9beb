use vstd::prelude::*;
use crate::cursor::Step;
use crate::navigation::{Focus, MenuItem, Navigation, Request};

verus! {

/// A key press, as far as navigation tells keys apart.
#[derive(Clone, Copy, Debug, PartialEq, Eq, Structural)]
pub enum Key {
    Char(char),
    Up,
    Down,
    Left,
    Right,
    Enter,
    Other,
}

/// The view that a letter key switches to: `h`ome, `k`haracters,
/// `t`alents, `u`tility gear, `l`ore.
pub open spec fn view_key(c: char) -> Option<MenuItem> {
    if c == 'h' {
        Some(MenuItem::Home)
    } else if c == 'k' {
        Some(MenuItem::Character)
    } else if c == 't' {
        Some(MenuItem::Skills)
    } else if c == 'u' {
        Some(MenuItem::Items)
    } else if c == 'l' {
        Some(MenuItem::Lore)
    } else {
        None
    }
}

/// The key that leaves the program.
pub const QUIT_KEY: char = 'a';

/// Whether up / down keys move something in a view.
pub open spec fn scrollable(v: MenuItem) -> bool {
    v != MenuItem::Home
}

/// The request that `key` makes in state `nav`.
pub open spec fn request_of(nav: Navigation, key: Key) -> Request {
    match key {
        Key::Char(c) => if c == QUIT_KEY {
            Request::Quit
        } else {
            match view_key(c) {
                Some(v) => Request::Show(v),
                None => Request::Ignore,
            }
        },
        Key::Down => if scrollable(nav.view) { Request::Move(Step::Next) } else { Request::Ignore },
        Key::Up => if scrollable(nav.view) { Request::Move(Step::Prev) } else { Request::Ignore },
        Key::Right => if nav.view == MenuItem::Character {
            Request::FocusOn(Focus::Skills)
        } else {
            Request::Ignore
        },
        Key::Left => if nav.view == MenuItem::Character {
            Request::FocusOn(Focus::Roster)
        } else {
            Request::Ignore
        },
        Key::Enter => if nav.view == MenuItem::Character {
            Request::TogglePopup
        } else {
            Request::Ignore
        },
        Key::Other => Request::Ignore,
    }
}

/// Maps a key press to the request it makes in the current state; keys
/// that mean nothing there are ignored.
pub fn request_for(nav: &Navigation, key: Key) -> (r: Request)
    ensures
        r == request_of(*nav, key),
{
    match key {
        Key::Char(c) => if c == QUIT_KEY {
            Request::Quit
        } else if c == 'h' {
            Request::Show(MenuItem::Home)
        } else if c == 'k' {
            Request::Show(MenuItem::Character)
        } else if c == 't' {
            Request::Show(MenuItem::Skills)
        } else if c == 'u' {
            Request::Show(MenuItem::Items)
        } else if c == 'l' {
            Request::Show(MenuItem::Lore)
        } else {
            Request::Ignore
        },
        Key::Down => if nav.view != MenuItem::Home { Request::Move(Step::Next) } else { Request::Ignore },
        Key::Up => if nav.view != MenuItem::Home { Request::Move(Step::Prev) } else { Request::Ignore },
        Key::Right => if nav.view == MenuItem::Character {
            Request::FocusOn(Focus::Skills)
        } else {
            Request::Ignore
        },
        Key::Left => if nav.view == MenuItem::Character {
            Request::FocusOn(Focus::Roster)
        } else {
            Request::Ignore
        },
        Key::Enter => if nav.view == MenuItem::Character { Request::TogglePopup } else { Request::Ignore },
        Key::Other => Request::Ignore,
    }
}

} // verus!
