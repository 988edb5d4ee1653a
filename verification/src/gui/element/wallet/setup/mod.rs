//! Setting up wallets: which setup screen is shown, and where "back" leads.
use vstd::prelude::*;

pub mod init;
pub mod wallet_import;
pub mod wallet_list;
pub mod wallet_restore;
pub mod wallet_setup;

verus! {

/// The screen of the wallet setup area.
#[derive(Clone, Debug, PartialEq, Eq, Hash)]
pub enum Mode {
    Init,
    /// Creating a wallet under the given display name.
    CreateWallet(String),
    ListWallets,
    WalletCreateSuccess,
    WalletImportSuccess,
}

} // verus!
