//! The main menu.
use vstd::prelude::*;

verus! {

/// The area chosen in the main menu.
#[derive(Clone, Copy, Debug, PartialEq, Eq, Structural, Hash)]
pub enum Mode {
    Wallet,
    Node,
    Settings,
    About,
}

} // verus!
