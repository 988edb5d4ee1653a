//! Choice of the text shown for a localization key.
use vstd::prelude::*;

verus! {

/// The text shown for `key`, given what the translation table holds for it:
/// the translation when there is a non-empty one, else the key itself.
pub open spec fn localized_text(key: Seq<char>, found: Option<Seq<char>>) -> Seq<char> {
    match found {
        Some(t) => if t.len() == 0 { key } else { t },
        None => key,
    }
}

/// Resolves the text for `key` from the lookup result `found`: a missing or
/// empty translation falls back to the key.
pub fn resolve_localized(key: &str, found: Option<String>) -> (text: String)
    ensures
        text@ == localized_text(key@, match found { Some(t) => Some(t@), None => None }),
{
    match found {
        Some(t) => {
            if t.as_str().unicode_len() == 0 {
                String::from_str(key)
            } else {
                t
            }
        },
        None => String::from_str(key),
    }
}

/// A translation that is found and not empty is shown; a missing or empty
/// one shows the key itself.
pub proof fn lemma_localized_fallback(key: Seq<char>, t: Seq<char>)
    ensures
        t.len() > 0 ==> localized_text(key, Some(t)) == t,
        t.len() == 0 ==> localized_text(key, Some(t)) == key,
        localized_text(key, None) == key,
{
}

} // verus!
