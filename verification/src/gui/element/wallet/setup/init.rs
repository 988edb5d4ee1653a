//! The first setup screen: naming a new wallet so that it differs from the
//! existing ones, and the folder name derived from it.
use vstd::prelude::*;

use crate::text::{
    decimal, lemma_decimal_injective, lemma_distinct_indices_bounded, position_of, push_decimal_wide,
    replace_spaces, spaces_to_underscores,
};

verus! {

/// Some wallet in `existing` has the display name `name`.
pub open spec fn name_taken(existing: Seq<String>, name: Seq<char>) -> bool {
    exists|j: int| 0 <= j < existing.len() && (#[trigger] existing[j])@ == name
}

/// The `i`-th candidate display name: the default name, then the default
/// name followed by a space and 1, 2, ...
pub open spec fn numbered_name(base: Seq<char>, i: nat) -> Seq<char> {
    if i == 0 {
        base
    } else {
        base + " "@ + decimal(i)
    }
}

/// Candidate `k` is the first one that no existing wallet uses.
pub open spec fn first_free_numbered(existing: Seq<String>, base: Seq<char>, k: nat) -> bool {
    &&& !name_taken(existing, numbered_name(base, k))
    &&& forall|j: nat| j < k ==> name_taken(existing, #[trigger] numbered_name(base, j))
}

/// Different candidates are different names.
pub proof fn lemma_numbered_name_injective(base: Seq<char>, i: nat, j: nat)
    requires
        numbered_name(base, i) == numbered_name(base, j),
    ensures
        i == j,
{
    reveal_strlit(" ");
    if i != 0 && j != 0 {
        let ni = numbered_name(base, i);
        let nj = numbered_name(base, j);
        assert(ni.subrange(base.len() + 1int, ni.len() as int) =~= decimal(i));
        assert(nj.subrange(base.len() + 1int, nj.len() as int) =~= decimal(j));
        lemma_decimal_injective(i, j);
    } else if i != 0 {
        assert(numbered_name(base, i).len() > base.len());
    } else if j != 0 {
        assert(numbered_name(base, j).len() > base.len());
    }
}

/// The display name for a new wallet: the first of the default name,
/// "default 1", "default 2", ... that no existing wallet has.
pub fn unique_wallet_display_name(base: &str, existing: &Vec<String>) -> (name: String)
    ensures
        exists|k: nat| name@ == numbered_name(base@, k) && first_free_numbered(existing@, base@, k),
{
    let n = existing.len();
    let mut i: usize = 0;
    let mut name = String::from_str(base);
    let ghost mut used: Seq<int> = seq![];
    loop
        invariant
            n == existing@.len(),
            i <= n,
            i == used.len(),
            used.no_duplicates(),
            forall|j: int| 0 <= j < used.len() ==> 0 <= #[trigger] used[j] < n,
            forall|j: int|
                0 <= j < used.len() ==> existing@[#[trigger] used[j]]@ == numbered_name(
                    base@,
                    j as nat,
                ),
            name@ == numbered_name(base@, i as nat),
        decreases n - i,
    {
        match position_of(existing, &name) {
            None => {
                assert(first_free_numbered(existing@, base@, i as nat)) by {
                    assert forall|j: nat| j < i implies name_taken(
                        existing@,
                        #[trigger] numbered_name(base@, j),
                    ) by {
                        assert(existing@[used[j as int]]@ == numbered_name(base@, j));
                    }
                }
                return name;
            },
            Some(p) => {
                proof {
                    assert forall|j: int| 0 <= j < used.len() implies used[j] != p as int by {
                        if used[j] == p as int {
                            lemma_numbered_name_injective(base@, j as nat, i as nat);
                        }
                    }
                    used = used.push(p as int);
                    lemma_distinct_indices_bounded(used, n as int);
                }
                i = i + 1;
                let mut next = String::from_str(base);
                next.append(" ");
                push_decimal_wide(&mut next, i as u128);
                name = next;
            },
        }
    }
}

/// The lower-case form of a text, as `str::to_lowercase` gives it.
pub uninterp spec fn lowercase(s: Seq<char>) -> Seq<char>;

/// Trusted: calls `str::to_lowercase`; the result is named, as its Unicode
/// case mapping is not spelled out here.
#[verifier::external_body]
fn to_lowercase(s: &str) -> (r: String)
    ensures
        r@ == lowercase(s@),
{
    s.to_lowercase()
}

/// The folder name for a wallet: its display name in lower case, with
/// spaces turned into underscores.
pub fn wallet_dir_name(display_name: &str) -> (d: String)
    ensures
        d@ == spaces_to_underscores(lowercase(display_name@)),
{
    let lower = to_lowercase(display_name);
    replace_spaces(lower.as_str())
}

/// A folder name never holds a space.
pub proof fn lemma_dir_name_has_no_space(s: Seq<char>, i: int)
    requires
        0 <= i < spaces_to_underscores(s).len(),
    ensures
        spaces_to_underscores(s)[i] != ' ',
{
}

} // verus!
