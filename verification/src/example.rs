//! The bundled example documents a user can open from the menu.

use vstd::prelude::*;

verus! {

/// The example documents that ship with the editor.
#[derive(Clone, Copy, PartialEq, Eq, Structural, Debug)]
pub enum Example {
    Basic,
}

impl Example {
    /// The name shown in the menu.
    pub fn description(self) -> (r: &'static str)
        ensures
            self is Basic ==> r@ == "Basic"@,
    {
        match self {
            Example::Basic => "Basic",
        }
    }
}

} // verus!
