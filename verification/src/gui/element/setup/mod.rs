//! The first-run setup.
use vstd::prelude::*;

verus! {

/// The screen of the first-run setup.
#[derive(Clone, Copy, Debug, PartialEq, Eq, Structural, Hash)]
pub enum Mode {
    Init,
    CreateWallet,
}

} // verus!
