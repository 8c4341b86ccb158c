//! The things a menu item can ask the window to do.

use vstd::prelude::*;

verus! {

#[derive(Debug, Clone, Copy, PartialEq, Eq, Hash, Structural)]
pub enum MenuAction {
    /// Opens the saved connections.
    Connect,
    /// Opens the connection kinds.
    NewConnection,
    SaveConnection,
    Help,
    About,
}

} // verus!
