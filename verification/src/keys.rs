//! Key events as the dispatch logic sees them: a code and a kind, nothing
//! else.  Events are produced at the input boundary, consumed once by the
//! controller, and never retained.

use vstd::prelude::*;

verus! {

/// Logical identity of a key.  Codes the session never maps are collapsed
/// into `Other`; only the code's identity is ever inspected.
#[derive(Clone, Copy, Debug, PartialEq, Eq, Structural)]
pub enum KeyCode {
    Up,
    Down,
    Enter,
    Esc,
    Other,
}

/// Whether a key event reports a fresh key-down, a release, or an
/// auto-repeat.  Only press-kind events drive state mutation and renders.
#[derive(Clone, Copy, Debug, PartialEq, Eq, Structural)]
pub enum KeyEventKind {
    Press,
    Release,
    Repeat,
}

/// An immutable input-boundary record.  The controller reads the code and
/// the kind and nothing more.
#[derive(Clone, Copy, Debug, PartialEq, Eq, Structural)]
pub struct KeyEvent {
    pub code: KeyCode,
    pub kind: KeyEventKind,
}

} // verus!
