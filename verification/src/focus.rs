//! Which panel the keys go to.

use vstd::prelude::*;

verus! {

/// The panel that the keys go to.
#[derive(Debug, Clone, Copy, PartialEq, Eq, Structural)]
pub enum Focus {
    Player,
    Queue,
    History,
}

pub open spec fn focus_after(focus: Focus) -> Focus {
    match focus {
        Focus::Player => Focus::History,
        Focus::Queue => Focus::Player,
        Focus::History => Focus::Queue,
    }
}

pub open spec fn focus_before(focus: Focus) -> Focus {
    match focus {
        Focus::Player => Focus::Queue,
        Focus::Queue => Focus::History,
        Focus::History => Focus::Player,
    }
}

impl Focus {
    pub fn next(&self) -> (next: Focus)
        ensures
            next == focus_after(*self),
    {
        match self {
            Focus::Player => Focus::History,
            Focus::Queue => Focus::Player,
            Focus::History => Focus::Queue,
        }
    }

    pub fn prev(&self) -> (prev: Focus)
        ensures
            prev == focus_before(*self),
    {
        match self {
            Focus::Player => Focus::Queue,
            Focus::Queue => Focus::History,
            Focus::History => Focus::Player,
        }
    }
}

impl Default for Focus {
    fn default() -> (focus: Focus)
        ensures
            focus is Player,
    {
        Focus::Player
    }
}

/// Forth and back leads to the same panel.
pub proof fn forth_and_back(focus: Focus)
    ensures
        focus_before(focus_after(focus)) == focus,
        focus_after(focus_before(focus)) == focus,
{
}

/// Three steps lead through all panels and back to the first.
pub proof fn focus_goes_round(focus: Focus)
    ensures
        focus_after(focus) != focus,
        focus_after(focus_after(focus)) != focus,
        focus_after(focus_after(focus_after(focus))) == focus,
{
}

} // verus!
