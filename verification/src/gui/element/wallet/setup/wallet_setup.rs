//! Creating a new wallet: the passwords, the advanced options, and where
//! "back" leads.
use vstd::prelude::*;

use crate::text::string_equals;

verus! {

/// The display name and folder typed in the advanced options.
#[derive(Clone, Debug)]
pub struct AdvancedOptionsState {
    pub display_name_value: String,
    pub top_level_directory: String,
}

impl Default for AdvancedOptionsState {
    /// Nothing typed.
    fn default() -> (s: AdvancedOptionsState)
        ensures
            s.display_name_value@.len() == 0,
            s.top_level_directory@.len() == 0,
    {
        AdvancedOptionsState { display_name_value: String::new(), top_level_directory: String::new() }
    }
}

/// The password and its repetition.
#[derive(Clone, Debug)]
pub struct PasswordState {
    pub input_value: String,
    pub repeat_input_value: String,
}

impl Default for PasswordState {
    /// Nothing typed.
    fn default() -> (s: PasswordState)
        ensures
            s.input_value@.len() == 0,
            s.repeat_input_value@.len() == 0,
    {
        PasswordState { input_value: String::new(), repeat_input_value: String::new() }
    }
}

impl PasswordState {
    /// The wallet can be created: the two passwords agree and are not empty.
    pub fn check_password(&self) -> (r: bool)
        ensures
            r == (self.input_value@ == self.repeat_input_value@ && self.input_value@.len() > 0),
    {
        string_equals(&self.input_value, &self.repeat_input_value)
            && self.input_value.as_str().unicode_len() > 0
    }

    /// Whether the agreement of the two passwords is shown: once both are
    /// typed.
    pub fn show_password_status(&self) -> (r: bool)
        ensures
            r == (self.input_value@.len() > 0 && self.repeat_input_value@.len() > 0),
    {
        self.input_value.as_str().unicode_len() > 0
            && self.repeat_input_value.as_str().unicode_len() > 0
    }
}

/// The display name a new wallet gets: the typed one, or the default when
/// none was typed.
pub fn chosen_display_name(typed: &String, default_name: &str) -> (n: String)
    ensures
        n@ == (if typed@.len() == 0 { default_name@ } else { typed@ }),
{
    if typed.as_str().unicode_len() == 0 {
        String::from_str(default_name)
    } else {
        typed.clone()
    }
}

/// Where "back" leads from the create and import screens: from the first
/// setup the setup start screen; from elsewhere the wallet start screen
/// with the wallet list.
pub fn back_target(wallet_mode: super::super::Mode) -> (r: (super::super::Mode, super::Mode))
    ensures
        r.0 == super::super::Mode::Init,
        wallet_mode == super::super::Mode::Init ==> r.1 == super::Mode::Init,
        wallet_mode != super::super::Mode::Init ==> r.1 == super::Mode::ListWallets,
{
    match wallet_mode {
        super::super::Mode::Init => (super::super::Mode::Init, super::Mode::Init),
        _ => (super::super::Mode::Init, super::Mode::ListWallets),
    }
}

/// The form for a new wallet.
#[derive(Clone, Debug)]
pub struct StateContainer {
    pub password_state: PasswordState,
    pub restore_from_seed: bool,
    pub show_advanced_options: bool,
    pub is_testnet: bool,
    pub advanced_options_state: AdvancedOptionsState,
}

impl Default for StateContainer {
    /// Nothing typed, a new (not restored) mainnet wallet, the advanced
    /// options folded.
    fn default() -> (s: StateContainer)
        ensures
            s.password_state.input_value@.len() == 0,
            s.password_state.repeat_input_value@.len() == 0,
            !s.restore_from_seed,
            !s.show_advanced_options,
            !s.is_testnet,
            s.advanced_options_state.display_name_value@.len() == 0,
            s.advanced_options_state.top_level_directory@.len() == 0,
    {
        StateContainer {
            password_state: PasswordState::default(),
            restore_from_seed: false,
            show_advanced_options: false,
            is_testnet: false,
            advanced_options_state: AdvancedOptionsState::default(),
        }
    }
}

impl StateContainer {
    /// Switches between restoring from a recovery phrase and a new wallet.
    pub fn toggle_restore_from_seed(&mut self)
        ensures
            final(self).restore_from_seed == !old(self).restore_from_seed,
            final(self).show_advanced_options == old(self).show_advanced_options,
            final(self).is_testnet == old(self).is_testnet,
    {
        self.restore_from_seed = !self.restore_from_seed;
    }

    /// Shows or folds the advanced options.
    pub fn toggle_advanced_options(&mut self)
        ensures
            final(self).show_advanced_options == !old(self).show_advanced_options,
            final(self).restore_from_seed == old(self).restore_from_seed,
            final(self).is_testnet == old(self).is_testnet,
    {
        self.show_advanced_options = !self.show_advanced_options;
    }

    /// Switches between mainnet and testnet. The folder follows the switch
    /// only while it is still the default folder of the previous network
    /// (`mainnet_default` and `testnet_default` are the default folders of
    /// the wallet's name on each network); a folder the user chose stays.
    pub fn toggle_is_testnet(&mut self, mainnet_default: String, testnet_default: String)
        ensures
            final(self).is_testnet == !old(self).is_testnet,
            final(self).advanced_options_state.top_level_directory@ == dir_after_switch(
                old(self).is_testnet,
                old(self).advanced_options_state.top_level_directory@,
                mainnet_default@,
                testnet_default@,
            ),
            final(self).restore_from_seed == old(self).restore_from_seed,
            final(self).show_advanced_options == old(self).show_advanced_options,
    {
        self.is_testnet = !self.is_testnet;
        if self.is_testnet {
            if string_equals(&self.advanced_options_state.top_level_directory, &mainnet_default) {
                self.advanced_options_state.top_level_directory = testnet_default;
            }
        } else {
            if string_equals(&self.advanced_options_state.top_level_directory, &testnet_default) {
                self.advanced_options_state.top_level_directory = mainnet_default;
            }
        }
    }
}

/// The wallet folder after switching the network away from testnet
/// (`was_testnet`) or mainnet: a folder equal to the previous network's
/// default becomes the new network's default; any other stays.
pub open spec fn dir_after_switch(was_testnet: bool, dir: Seq<char>, mainnet_default: Seq<char>, testnet_default: Seq<char>) -> Seq<char> {
    if !was_testnet {
        if dir == mainnet_default { testnet_default } else { dir }
    } else {
        if dir == testnet_default { mainnet_default } else { dir }
    }
}

/// Switching the network there and back leaves the folder as it was,
/// unless it was the testnet default while on mainnet (then it ends as the
/// mainnet default).
pub proof fn lemma_testnet_toggle_round_trip(was_testnet: bool, dir: Seq<char>, main: Seq<char>, test: Seq<char>)
    requires
        !was_testnet ==> (dir != test || dir == main),
        was_testnet ==> (dir != main || dir == test),
    ensures
        dir_after_switch(!was_testnet, dir_after_switch(was_testnet, dir, main, test), main, test) == dir,
{
}

} // verus!
