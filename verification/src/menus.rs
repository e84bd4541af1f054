//! The menu screens of the game.
use vstd::prelude::*;

verus! {

/// The menu screens.
#[derive(Clone, Copy, Debug, PartialEq, Eq, Structural)]
pub enum Menus {
    Main,
    SubMenuTest,
}

} // verus!
