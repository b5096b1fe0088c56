//! Keystrokes as the modal loops see them.
//!
//! The raw terminal event source stays outside the library; whatever reads
//! it reduces each event to a [`Key`] before handing it to a transition
//! function. Control-modified `c` and `e` arrive as their own variants,
//! since the loops treat them specially; any other character key arrives as
//! [`Key::Ch`], and every event the loops ignore as [`Key::Ignored`].

use vstd::prelude::*;

verus! {

/// A keystroke, reduced to what the selector and composer distinguish.
#[derive(Clone, Copy, Debug, PartialEq, Eq, Structural)]
pub enum Key {
    /// Control-C: abort the modal loop.
    CtrlC,
    /// Control-E: finish composing in the external editor.
    CtrlE,
    /// The enter key.
    Enter,
    /// The backspace key.
    Backspace,
    /// The up-arrow key.
    Up,
    /// The down-arrow key.
    Down,
    /// Any other character key, without the control modifier.
    Ch(char),
    /// Any other event.
    Ignored,
}

} // verus!
