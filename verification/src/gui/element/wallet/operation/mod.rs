//! Operations on an open wallet: which screen is shown, and the
//! wallet-open check.
use vstd::prelude::*;

pub mod action_menu;
pub mod apply_tx;
pub mod apply_tx_confirm;
pub mod create_tx_contracts;
pub mod home;
pub mod open;
pub mod show_slatepack;
pub mod tx_list;
pub mod tx_list_display;

verus! {

/// The screen of the wallet operations area.
#[derive(Clone, Copy, Debug, PartialEq, Eq, Structural, Hash)]
pub enum Mode {
    Open,
    Home,
    CreateTx,
    ApplyTx,
    ShowSlatepack,
    TxDetail,
    TxDone,
}

/// The shown operations screen, and whether the check that a wallet is
/// open has failed (which stays so until a wallet is opened).
pub struct OperationState {
    pub mode: Mode,
    pub has_wallet_open_check_failed_one_time: bool,
}

impl Default for OperationState {
    /// The home screen, with no failed check.
    fn default() -> (s: OperationState)
        ensures
            s.mode == Mode::Home,
            !s.has_wallet_open_check_failed_one_time,
    {
        OperationState { mode: Mode::Home, has_wallet_open_check_failed_one_time: false }
    }
}

impl OperationState {
    /// Whether the wallet-open check has failed.
    pub fn wallet_not_open(&self) -> (r: bool)
        ensures
            r == self.has_wallet_open_check_failed_one_time,
    {
        self.has_wallet_open_check_failed_one_time
    }

    /// Records a failed wallet-open check and shows the open screen.
    pub fn set_wallet_not_open(&mut self)
        ensures
            final(self).has_wallet_open_check_failed_one_time,
            final(self).mode == Mode::Open,
    {
        self.has_wallet_open_check_failed_one_time = true;
        self.mode = Mode::Open;
    }

    /// Clears the failed check once a wallet is open; the screen stays.
    pub fn clear_wallet_not_open(&mut self)
        ensures
            !final(self).has_wallet_open_check_failed_one_time,
            final(self).mode == old(self).mode,
    {
        self.has_wallet_open_check_failed_one_time = false;
    }
}

} // verus!
