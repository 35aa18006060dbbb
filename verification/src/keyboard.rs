//! Input translation: from a raw key press to a semantic command.
//!
//! The mapping is total and pure: the same key press always yields the
//! same command (or none), whatever mode the session is in.  How a
//! command is then interpreted is the session's business, not the
//! translator's.  Only `Press` transitions yield a command; repeats
//! and releases yield nothing.
//!
//! A [`KeyboardEvent`] also carries the raw terminal event, untouched,
//! so that the search box can consume keys the translator does not
//! map (plain text entry).

use vstd::prelude::*;

verus! {

/// Cursor movements over the package list.
#[derive(Clone, Copy, PartialEq, Eq, Structural, Debug)]
pub enum Move {
    First,
    Last,
    Next,
    Previous,
    JumpUp,
    JumpDown,
}

/// The fixed command vocabulary the translator produces.
#[derive(Clone, Copy, PartialEq, Eq, Structural, Debug)]
pub enum Events {
    Quit,
    Back,
    Search,
    Confirm,
    Filter,
    Select,
    SelectUpgradables,
    Navigate(Move),
    Tab(Move),
    Sync,
}

/// The keys the translator distinguishes.  Anything else is `Other`.
#[derive(Clone, Copy, PartialEq, Eq, Structural, Debug)]
pub enum Key {
    Char(char),
    Up,
    Down,
    Home,
    End,
    Tab,
    BackTab,
    Esc,
    Enter,
    Other,
}

/// Whether a key transition is an initial press, a held repeat or a
/// release.
#[derive(Clone, Copy, PartialEq, Eq, Structural, Debug)]
pub enum KeyKind {
    Press,
    Repeat,
    Release,
}

/// A raw key transition, reduced to plain values.
#[derive(Clone, Copy, PartialEq, Eq, Structural, Debug)]
pub struct KeyPress {
    pub key: Key,
    pub ctrl: bool,
    pub alt: bool,
    pub shift: bool,
    pub kind: KeyKind,
}

/// The translation table.  Total over every [`KeyPress`]: a pair that
/// no row names maps to `None`.
pub open spec fn spec_translate(k: KeyPress) -> Option<Events> {
    if k.kind != KeyKind::Press {
        None
    } else {
        match k.key {
            Key::Char('j') | Key::Down => Some(Events::Navigate(Move::Next)),
            Key::Char('k') | Key::Up => Some(Events::Navigate(Move::Previous)),
            Key::Char('g') | Key::Home => Some(Events::Navigate(Move::First)),
            Key::Char('G') | Key::End => Some(Events::Navigate(Move::Last)),
            Key::Tab => Some(Events::Tab(Move::Next)),
            Key::BackTab => Some(Events::Tab(Move::Previous)),
            Key::Char('x') => Some(Events::Select),
            Key::Char('/') => Some(Events::Search),
            Key::Char('q') => Some(Events::Quit),
            Key::Esc => Some(Events::Back),
            Key::Enter => Some(Events::Confirm),
            Key::Char('u') => if k.ctrl && !k.alt && !k.shift {
                Some(Events::Navigate(Move::JumpUp))
            } else if k.alt && !k.ctrl && !k.shift {
                Some(Events::Filter)
            } else {
                None
            },
            Key::Char('d') => if k.ctrl && !k.alt && !k.shift {
                Some(Events::Navigate(Move::JumpDown))
            } else {
                None
            },
            Key::Char('X') => if k.shift && !k.ctrl && !k.alt {
                Some(Events::SelectUpgradables)
            } else {
                None
            },
            Key::Char('S') => if k.shift && !k.ctrl && !k.alt {
                Some(Events::Sync)
            } else {
                None
            },
            _ => None,
        }
    }
}

/// Translate one raw key transition into at most one command.
pub fn translate(k: &KeyPress) -> (r: Option<Events>)
    ensures
        r == spec_translate(*k),
{
    if !matches!(k.kind, KeyKind::Press) {
        return None;
    }
    match k.key {
        Key::Down => Some(Events::Navigate(Move::Next)),
        Key::Up => Some(Events::Navigate(Move::Previous)),
        Key::Home => Some(Events::Navigate(Move::First)),
        Key::End => Some(Events::Navigate(Move::Last)),
        Key::Tab => Some(Events::Tab(Move::Next)),
        Key::BackTab => Some(Events::Tab(Move::Previous)),
        Key::Esc => Some(Events::Back),
        Key::Enter => Some(Events::Confirm),
        Key::Char(c) => {
            if c == 'j' {
                Some(Events::Navigate(Move::Next))
            } else if c == 'k' {
                Some(Events::Navigate(Move::Previous))
            } else if c == 'g' {
                Some(Events::Navigate(Move::First))
            } else if c == 'G' {
                Some(Events::Navigate(Move::Last))
            } else if c == 'x' {
                Some(Events::Select)
            } else if c == '/' {
                Some(Events::Search)
            } else if c == 'q' {
                Some(Events::Quit)
            } else if c == 'u' {
                if k.ctrl && !k.alt && !k.shift {
                    Some(Events::Navigate(Move::JumpUp))
                } else if k.alt && !k.ctrl && !k.shift {
                    Some(Events::Filter)
                } else {
                    None
                }
            } else if c == 'd' {
                if k.ctrl && !k.alt && !k.shift {
                    Some(Events::Navigate(Move::JumpDown))
                } else {
                    None
                }
            } else if c == 'X' {
                if k.shift && !k.ctrl && !k.alt {
                    Some(Events::SelectUpgradables)
                } else {
                    None
                }
            } else if c == 'S' {
                if k.shift && !k.ctrl && !k.alt {
                    Some(Events::Sync)
                } else {
                    None
                }
            } else {
                None
            }
        },
        Key::Other => None,
    }
}

/// Terminal events come from crossterm; the session never looks
/// inside one, it only hands it on to the search box.
#[verifier::external_type_specification]
#[verifier::external_body]
pub struct ExCrosstermEvent(crossterm::event::Event);

/// One raw terminal event together with its translation, if any.
pub struct KeyboardEvent {
    /// The translated command, when the translation table maps the
    /// event to one.
    pub event: Option<Events>,
    /// The raw terminal event, for text entry in searching mode.
    pub raw: crossterm::event::Event,
}

} // verus!
