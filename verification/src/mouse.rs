//! Mouse state decisions: which buttons count as pressed, and the
//! free/locked toggle.
//!
//! Polling the device and keeping the cooldown clock are the application's
//! business; the functions here only decide, from the polled values, what
//! the mouse state becomes.

use crate::pose::Vec2Words;
use vstd::prelude::*;

verus! {

/// State of the mouse.
#[derive(Clone, Copy, PartialEq, Eq, Structural, Debug)]
pub enum StateOfMouse {
    /// Mouse is held at a fixed screen position.
    Locked(Vec2Words),
    /// Mouse is free.
    Free,
}

impl StateOfMouse {
    /// Switch the values then return, e.g. locked to free and vice versa.
    /// `on_locked` is the position used when switching from free to locked.
    pub fn switch(&self, on_locked: Vec2Words) -> (r: StateOfMouse)
        ensures
            *self is Locked ==> r is Free,
            *self is Free ==> r == StateOfMouse::Locked(on_locked),
    {
        match self {
            StateOfMouse::Locked(_) => StateOfMouse::Free,
            StateOfMouse::Free => StateOfMouse::Locked(on_locked),
        }
    }
}

/// Enum to describe the pressed mouse state.
#[derive(Clone, Copy, PartialEq, Eq, Structural, Debug)]
pub enum MousePressed {
    /// Left mouse button is pressed.
    LeftMouse,
    /// Right mouse button is pressed.
    RightMouse,
    /// Middle mouse button is pressed.
    MiddleMouse,
}

/// The buttons reported pressed, in left, right, middle order.
pub open spec fn pressed_seq(left: bool, right: bool, middle: bool) -> Seq<MousePressed> {
    (if left {
        seq![MousePressed::LeftMouse]
    } else {
        Seq::empty()
    }) + (if right {
        seq![MousePressed::RightMouse]
    } else {
        Seq::empty()
    }) + (if middle {
        seq![MousePressed::MiddleMouse]
    } else {
        Seq::empty()
    })
}

/// Decides which buttons count as pressed from the three polled button
/// flags, in left, right, middle order.
pub fn pressed_from_buttons(left: bool, right: bool, middle: bool) -> (out: Vec<MousePressed>)
    ensures
        out@ == pressed_seq(left, right, middle),
{
    let mut out: Vec<MousePressed> = Vec::new();
    if left {
        out.push(MousePressed::LeftMouse);
    }
    if right {
        out.push(MousePressed::RightMouse);
    }
    if middle {
        out.push(MousePressed::MiddleMouse);
    }
    proof {
        assert(out@ =~= pressed_seq(left, right, middle));
    }
    out
}

} // verus!
