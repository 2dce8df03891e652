//! Plain message types exchanged with the rendering frontend: the abstract
//! button set, the inbound command envelope, and cursor data sent back for
//! display.

use vstd::prelude::*;

verus! {

/// The fixed button set of the controller, already abstracted from raw
/// controller state.
#[derive(Clone, Copy, Debug, PartialEq, Eq, Structural)]
pub enum Button {
    A,
    B,
    X,
    Y,
    Start,
    Select,
    LBump,
    RBump,
    LTrig,
    RTrig,
    Up,
    Down,
    Left,
    Right,
    Menu,
}

/// A command from the frontend: stop, or a button edge event.
#[derive(Clone, Copy, Debug, PartialEq, Eq, Structural)]
pub enum InputCMD {
    /// Tells the executor to exit.
    Exit(),
    ButtonPress(Button),
    ButtonRelease(Button),
}

/// An abstract instrument: a synth or a percussion voice, with a
/// human-readable name.
#[derive(Clone, Debug, PartialEq, Eq)]
pub struct Instrument {
    /// True if the instrument is a synth, false if it is percussion.
    pub synth: bool,
    pub human_name: String,
}

/// The cursor position a renderer draws, with whether something is selected.
#[derive(Clone, Copy, Debug, PartialEq, Eq, Structural)]
pub struct DisplayCursor {
    pub row: usize,
    pub col: usize,
    pub selected: bool,
}

impl DisplayCursor {
    /// A fresh display cursor at the origin, nothing selected.
    pub fn new() -> (r: DisplayCursor)
        ensures
            r == (DisplayCursor { row: 0usize, col: 0usize, selected: false }),
    {
        DisplayCursor { row: 0, col: 0, selected: false }
    }
}

} // verus!
