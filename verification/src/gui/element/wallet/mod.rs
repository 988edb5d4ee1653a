//! The wallet area.
use vstd::prelude::*;

pub mod operation;
pub mod setup;

verus! {

/// The screen of the wallet area.
#[derive(Clone, Copy, Debug, PartialEq, Eq, Structural, Hash)]
pub enum Mode {
    Init,
    CreateWallet,
}

} // verus!
