//! Logic core of a step-sequencer / music tracker: a grid-addressable
//! arrangement graph whose nodes play patterns, branch conditionally on
//! runtime statistics, or teleport control flow, plus a pattern editor that
//! adjusts per-channel synthesis parameters one step at a time.

use vstd::prelude::*;

pub mod authoring;
pub mod coms;
pub mod graph;
pub mod noise;
pub mod params;
pub mod pulse;
pub mod pulse_sweep;
pub mod step;
pub mod stepper;
pub mod tracker;
pub mod wave;

verus! {

/// Width of the arrangement graph, in cells.
pub const GRAPH_X: usize = 256;

/// Height of the arrangement graph, in cells.
pub const GRAPH_Y: usize = 256;

/// Number of steps in every channel of a pattern.
pub const STEPS_PER_CHANNEL: usize = 16;

/// A MIDI note, 0 to 127.
pub type MidiNote = u8;

/// An index into the pattern table.
pub type PatternIndex = usize;

/// An index into a list of instruments.
pub type InstrumentIndex = usize;

} // verus!
