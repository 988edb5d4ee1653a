//! The list of known wallets.
use vstd::prelude::*;

verus! {

/// A located wallet folder that is not a wallet.
#[derive(Clone, Copy, Debug, PartialEq, Eq, Structural)]
pub struct DirectoryValidationError;

/// Checks a located wallet folder; every folder is accepted for now.
pub fn validate_directory(_d: &str) -> (r: Result<bool, DirectoryValidationError>)
    ensures
        r == Ok::<bool, DirectoryValidationError>(true),
{
    Ok(true)
}

/// The wallet selected in the list after a row is clicked: the clicked one
/// when the click selects it, else the one selected before.
pub fn selected_after_click(selected: usize, is_selected: bool, index: usize) -> (r: usize)
    ensures
        r == (if is_selected { index } else { selected }),
{
    if is_selected {
        index
    } else {
        selected
    }
}

} // verus!
