//! The settings screens.
use vstd::prelude::*;

pub mod general;
pub mod node;
pub mod wallet;

verus! {

/// The settings screen shown.
#[derive(Clone, Copy, Debug, PartialEq, Eq, Structural)]
pub enum Mode {
    Wallet,
    Node,
    General,
}

} // verus!
