//! The embedded node.
use vstd::prelude::*;

pub mod summary;

verus! {

/// The screen of the embedded node.
#[derive(Clone, Copy, Debug, PartialEq, Eq, Structural, Hash)]
pub enum Mode {
    Summary,
    Peers,
}

} // verus!
