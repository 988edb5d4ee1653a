//! The node area.
use vstd::prelude::*;

pub mod embedded;

verus! {

/// The screen of the node area.
#[derive(Clone, Copy, Debug, PartialEq, Eq, Structural, Hash)]
pub enum Mode {
    Embedded,
}

} // verus!
