//! The outcome of a modal dialog, as the host reports it back.

use vstd::prelude::*;

verus! {

/// Which of a dialog's buttons was pressed, if any.
#[derive(Clone, Copy, PartialEq, Eq, Structural, Debug)]
pub enum DialogResponse {
    Idle,
    Primary,
    Secondary,
    Tertiary,
}

impl DialogResponse {
    /// Whether any button was pressed.
    pub fn is_some(&self) -> (r: bool)
        ensures
            r == !(self is Idle),
    {
        match self {
            DialogResponse::Idle => false,
            _ => true,
        }
    }
}

} // verus!
