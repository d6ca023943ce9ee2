//! The screens a session can show; switching between them is driven by the
//! caller's input events.

use vstd::prelude::*;

verus! {

/// The screen currently shown.
#[derive(Clone, Copy, PartialEq, Eq, Structural, Debug)]
pub enum Screen {
    /// The title screen.
    Title,
    /// The running simulation.
    Game,
    /// The rocket catalog.
    RocketSelect,
}

} // verus!
