//! Node settings.
use vstd::prelude::*;

verus! {

/// The node settings screen shown.
#[derive(Clone, Copy, Debug, PartialEq, Eq, Structural)]
pub enum Mode {
    Wallet,
    Node,
    General,
}

} // verus!
