//! The screen that opens a wallet with its password.
use vstd::prelude::*;

verus! {

/// The password typed to open a wallet.
#[derive(Clone, Debug)]
pub struct PasswordState {
    pub input_value: String,
}

impl Default for PasswordState {
    /// An empty password.
    fn default() -> (s: PasswordState)
        ensures
            s.input_value@.len() == 0,
    {
        PasswordState { input_value: String::new() }
    }
}

/// The title of the open screen: the wallet's display name, or the given
/// generic text when the wallet has none or an empty one.
pub fn open_screen_title(display_name: Option<String>, generic: String) -> (t: String)
    ensures
        t@ == (match display_name {
            Some(n) => if n@.len() == 0 { generic@ } else { n@ },
            None => generic@,
        }),
{
    match display_name {
        Some(n) => {
            if n.as_str().unicode_len() == 0 {
                generic
            } else {
                n
            }
        },
        None => generic,
    }
}

} // verus!
