//! Importing an existing wallet: the password and the display name it is
//! offered under.
use vstd::prelude::*;

use super::init::name_taken;
use crate::text::{decimal, lemma_decimal_injective, lemma_distinct_indices_bounded, position_of, push_decimal_wide};

verus! {

/// The password of the wallet to import.
#[derive(Clone, Debug)]
pub struct PasswordState {
    pub input_value: String,
}

impl Default for PasswordState {
    /// An empty password.
    fn default() -> (s: PasswordState)
        ensures
            s.input_value@.len() == 0,
    {
        PasswordState { input_value: String::new() }
    }
}

/// The `k`-th display name offered for an imported wallet: `wallet`, then
/// `wallet2`, `wallet3`, ...
pub open spec fn import_candidate(k: nat) -> Seq<char> {
    if k == 0 {
        "wallet"@
    } else {
        "wallet"@ + decimal(k + 1)
    }
}

/// Candidate `k` is the first one that no existing wallet uses.
pub open spec fn first_free_import(existing: Seq<String>, k: nat) -> bool {
    &&& !name_taken(existing, import_candidate(k))
    &&& forall|j: nat| j < k ==> name_taken(existing, #[trigger] import_candidate(j))
}

/// Different candidates are different names.
pub proof fn lemma_import_candidate_injective(i: nat, j: nat)
    requires
        import_candidate(i) == import_candidate(j),
    ensures
        i == j,
{
    reveal_strlit("wallet");
    if i != 0 && j != 0 {
        let ni = import_candidate(i);
        let nj = import_candidate(j);
        assert(ni.subrange(6, ni.len() as int) =~= decimal(i + 1));
        assert(nj.subrange(6, nj.len() as int) =~= decimal(j + 1));
        lemma_decimal_injective(i + 1, j + 1);
    } else if i != 0 {
        crate::text::lemma_decimal_nonempty(i + 1);
    } else if j != 0 {
        crate::text::lemma_decimal_nonempty(j + 1);
    }
}

/// The display name offered for an imported wallet: the first of `wallet`,
/// `wallet2`, `wallet3`, ... that no existing wallet has.
pub fn init_wallet_name(existing: &Vec<String>) -> (name: String)
    ensures
        exists|k: nat| name@ == import_candidate(k) && first_free_import(existing@, k),
{
    let n = existing.len();
    let mut k: usize = 0;
    let mut name = String::from_str("wallet");
    let ghost mut used: Seq<int> = seq![];
    loop
        invariant
            n == existing@.len(),
            k <= n,
            k == used.len(),
            used.no_duplicates(),
            forall|j: int| 0 <= j < used.len() ==> 0 <= #[trigger] used[j] < n,
            forall|j: int|
                0 <= j < used.len() ==> existing@[#[trigger] used[j]]@ == import_candidate(
                    j as nat,
                ),
            name@ == import_candidate(k as nat),
        decreases n - k,
    {
        match position_of(existing, &name) {
            None => {
                assert(first_free_import(existing@, k as nat)) by {
                    assert forall|j: nat| j < k implies name_taken(
                        existing@,
                        #[trigger] import_candidate(j),
                    ) by {
                        assert(existing@[used[j as int]]@ == import_candidate(j));
                    }
                }
                return name;
            },
            Some(p) => {
                proof {
                    assert forall|j: int| 0 <= j < used.len() implies used[j] != p as int by {
                        if used[j] == p as int {
                            lemma_import_candidate_injective(j as nat, k as nat);
                        }
                    }
                    used = used.push(p as int);
                    lemma_distinct_indices_bounded(used, n as int);
                }
                k = k + 1;
                let mut next = String::from_str("wallet");
                push_decimal_wide(&mut next, (k as u128) + 1);
                name = next;
            },
        }
    }
}

/// The context under which a failed import is reported.
pub open spec fn import_failure_context() -> Seq<char> {
    "Failed to Import Wallet"@
}

/// Why an import under a display name that is in use is refused.
pub open spec fn name_exists_message(name: Seq<char>) -> Seq<char> {
    "Wallet with name \""@ + name + "\" already exists"@
}

/// Checks the display name of a wallet to import against the existing
/// ones: refused, with the error chain (context first, then cause), exactly
/// when some existing wallet already has that name.
pub fn check_import_name(existing: &Vec<String>, display_name: &String) -> (r: Result<
    (),
    Vec<String>,
>)
    ensures
        r is Err <==> name_taken(existing@, display_name@),
        r matches Err(chain) ==> chain@.len() == 2 && chain@[0]@ == import_failure_context()
            && chain@[1]@ == name_exists_message(display_name@),
{
    match position_of(existing, display_name) {
        None => Ok(()),
        Some(_) => {
            let mut message = String::from_str("Wallet with name \"");
            message.append(display_name.as_str());
            message.append("\" already exists");
            let mut chain: Vec<String> = Vec::new();
            chain.push(String::from_str("Failed to Import Wallet"));
            chain.push(message);
            Err(chain)
        },
    }
}

} // verus!
