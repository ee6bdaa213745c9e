//! Key events as the control loop sees them: a key code plus a modifier set.
//! Only the codes and modifiers that the coordination logic distinguishes are
//! named; everything else is folded into `Other` and handed to the generic
//! per-key action handler.

use vstd::prelude::*;

verus! {

/// The key codes the control loop distinguishes.
#[derive(Clone, Copy, Debug, PartialEq, Eq, Structural)]
pub enum KeyCode {
    Char(char),
    Enter,
    Backspace,
    Delete,
    Esc,
    Other,
}

/// The modifier sets the control loop distinguishes.
#[derive(Clone, Copy, Debug, PartialEq, Eq, Structural)]
pub enum KeyModifiers {
    Plain,
    Control,
    Other,
}

/// One key press: a code together with its modifiers.
#[derive(Clone, Copy, Debug, PartialEq, Eq, Structural)]
pub struct KeyEvent {
    pub code: KeyCode,
    pub modifiers: KeyModifiers,
}

} // verus!
