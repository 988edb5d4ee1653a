//! The action menu of the wallet home screen.
use vstd::prelude::*;

use super::Mode;

verus! {

/// An action offered on the wallet home screen.
#[derive(Clone, Copy, Debug, PartialEq, Eq, Structural, Hash)]
pub enum Action {
    CreateTx,
    ApplyTx,
}

/// The operations screen that an action opens.
pub fn mode_for_action(action: Action) -> (m: Mode)
    ensures
        m == (match action {
            Action::CreateTx => Mode::CreateTx,
            Action::ApplyTx => Mode::ApplyTx,
        }),
{
    match action {
        Action::CreateTx => Mode::CreateTx,
        Action::ApplyTx => Mode::ApplyTx,
    }
}

} // verus!
