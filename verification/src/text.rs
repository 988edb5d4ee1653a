//! Small text helpers with exact specifications: decimal rendering of
//! integers, string equality, and building strings from characters.
use vstd::prelude::*;

verus! {

/// The character for a decimal digit `d` (0 through 9).
pub open spec fn digit_char(d: int) -> char {
    if d == 0 {
        '0'
    } else if d == 1 {
        '1'
    } else if d == 2 {
        '2'
    } else if d == 3 {
        '3'
    } else if d == 4 {
        '4'
    } else if d == 5 {
        '5'
    } else if d == 6 {
        '6'
    } else if d == 7 {
        '7'
    } else if d == 8 {
        '8'
    } else {
        '9'
    }
}

/// The decimal representation of `n`, without leading zeros
/// (as `Display` prints an unsigned integer).
pub open spec fn decimal(n: nat) -> Seq<char>
    decreases n,
{
    if n < 10 {
        seq![digit_char(n as int)]
    } else {
        decimal(n / 10).push(digit_char((n % 10) as int))
    }
}

/// The decimal representation of a signed integer (as `Display` prints it).
pub open spec fn signed_decimal(n: int) -> Seq<char> {
    if n < 0 {
        seq!['-'] + decimal((-n) as nat)
    } else {
        decimal(n as nat)
    }
}

fn digit(d: u128) -> (c: char)
    requires
        d < 10,
    ensures
        c == digit_char(d as int),
{
    if d == 0 {
        '0'
    } else if d == 1 {
        '1'
    } else if d == 2 {
        '2'
    } else if d == 3 {
        '3'
    } else if d == 4 {
        '4'
    } else if d == 5 {
        '5'
    } else if d == 6 {
        '6'
    } else if d == 7 {
        '7'
    } else if d == 8 {
        '8'
    } else {
        '9'
    }
}

fn push_decimal_digits(out: &mut Vec<char>, n: u128)
    ensures
        final(out)@ == old(out)@ + decimal(n as nat),
    decreases n,
{
    if n >= 10 {
        push_decimal_digits(out, n / 10);
    }
    out.push(digit(n % 10));
    proof {
        if n >= 10 {
            assert(decimal(n as nat) == decimal((n / 10) as nat).push(digit_char((n % 10) as int)));
        }
    }
}

/// Builds a `String` holding exactly the given characters, in order.
/// Trusted: calls std's `FromIterator<&char>` for `String`, which the
/// standard library documents as appending each character in turn.
#[verifier::external_body]
fn string_from_chars(chars: &Vec<char>) -> (s: String)
    ensures
        s@ == chars@,
{
    chars.iter().collect::<String>()
}

/// Appends the decimal representation of `n` to `s`.
pub fn push_decimal(s: &mut String, n: u64)
    ensures
        final(s)@ == old(s)@ + decimal(n as nat),
{
    push_decimal_wide(s, n as u128);
}

/// Appends the decimal representation of a 128-bit `n` to `s`.
pub fn push_decimal_wide(s: &mut String, n: u128)
    ensures
        final(s)@ == old(s)@ + decimal(n as nat),
{
    let mut digits: Vec<char> = Vec::new();
    push_decimal_digits(&mut digits, n);
    assert(digits@ =~= decimal(n as nat));
    let t = string_from_chars(&digits);
    s.append(t.as_str());
}

/// Appends the decimal representation of a signed `n` to `s`.
pub fn push_signed_decimal(s: &mut String, n: i64)
    ensures
        final(s)@ == old(s)@ + signed_decimal(n as int),
{
    if n < 0 {
        s.append("-");
        let m: u64 = if n == i64::MIN {
            9223372036854775808u64
        } else {
            (-n) as u64
        };
        push_decimal(s, m);
        proof {
            reveal_strlit("-");
        }
        assert(final(s)@ =~= old(s)@ + signed_decimal(n as int)) by {
            reveal_strlit("-");
        }
    } else {
        push_decimal(s, n as u64);
    }
}

/// The decimal representation of `n` as a new string.
pub fn decimal_string(n: u64) -> (s: String)
    ensures
        s@ == decimal(n as nat),
{
    let mut s = String::new();
    push_decimal(&mut s, n);
    assert(s@ =~= decimal(n as nat));
    s
}

/// Character-wise equality of two strings.
pub fn str_equals(a: &str, b: &str) -> (eq: bool)
    ensures
        eq == (a@ == b@),
{
    let n = a.unicode_len();
    let m = b.unicode_len();
    if n != m {
        return false;
    }
    let mut i: usize = 0;
    while i < n
        invariant
            n == a@.len(),
            m == b@.len(),
            n == m,
            i <= n,
            forall|j: int| 0 <= j < i ==> a@[j] == b@[j],
        decreases n - i,
    {
        if a.get_char(i) != b.get_char(i) {
            return false;
        }
        i = i + 1;
    }
    assert(a@ =~= b@);
    true
}

/// Character-wise equality of two owned strings.
pub fn string_equals(a: &String, b: &String) -> (eq: bool)
    ensures
        eq == (a@ == b@),
{
    str_equals(a.as_str(), b.as_str())
}

/// `pat` occurs in `s` at position `i`.
pub open spec fn occurs_at(s: Seq<char>, pat: Seq<char>, i: int) -> bool {
    0 <= i && i + pat.len() <= s.len() && s.subrange(i, i + pat.len()) == pat
}

/// `i` is the first position at or after `start` where `pat` occurs in `s`.
pub open spec fn is_first_occurrence(s: Seq<char>, pat: Seq<char>, start: int, i: int) -> bool {
    &&& start <= i
    &&& occurs_at(s, pat, i)
    &&& forall|j: int| start <= j < i ==> !occurs_at(s, pat, j)
}

/// `pat` does not occur in `s` at or after `start`.
pub open spec fn no_occurrence(s: Seq<char>, pat: Seq<char>, start: int) -> bool {
    forall|j: int| start <= j ==> !occurs_at(s, pat, j)
}

/// There is at most one first occurrence from a given start.
pub proof fn lemma_first_occurrence_unique(s: Seq<char>, pat: Seq<char>, start: int, i: int, k: int)
    requires
        is_first_occurrence(s, pat, start, i),
        is_first_occurrence(s, pat, start, k),
    ensures
        i == k,
{
}

/// The first position at or after `start` where `pat` occurs in `s`.
pub fn find_from(s: &str, pat: &str, start: usize) -> (r: Option<usize>)
    requires
        pat@.len() > 0,
    ensures
        match r {
            Some(i) => is_first_occurrence(s@, pat@, start as int, i as int),
            None => no_occurrence(s@, pat@, start as int),
        },
{
    let n = s.unicode_len();
    let m = pat.unicode_len();
    if start > n || m > n - start {
        assert forall|j: int| start <= j implies !occurs_at(s@, pat@, j) by {}
        return None;
    }
    let mut i: usize = start;
    while i <= n - m
        invariant
            n == s@.len(),
            m == pat@.len(),
            m > 0,
            start <= i,
            start + m <= n,
            forall|j: int| start <= j < i ==> !occurs_at(s@, pat@, j),
        decreases n - m + 1 - i,
    {
        let mut k: usize = 0;
        let mut matched = true;
        while k < m
            invariant
                n == s@.len(),
                m == pat@.len(),
                i + m <= n,
                k <= m,
                matched ==> forall|q: int| 0 <= q < k ==> s@[i + q] == pat@[q],
                !matched ==> !occurs_at(s@, pat@, i as int),
            decreases m - k,
        {
            if matched && s.get_char(i + k) != pat.get_char(k) {
                matched = false;
                assert(s@.subrange(i as int, i + m)[k as int] != pat@[k as int]);
            }
            k = k + 1;
        }
        if matched {
            assert(s@.subrange(i as int, i + m) =~= pat@);
            return Some(i);
        }
        i = i + 1;
    }
    assert forall|j: int| start <= j implies !occurs_at(s@, pat@, j) by {
        if j >= i {
            assert(j + m > n);
        }
    }
    None
}

/// Every decimal representation has at least one digit.
pub proof fn lemma_decimal_nonempty(n: nat)
    ensures
        decimal(n).len() >= 1,
    decreases n,
{
    if n >= 10 {
        lemma_decimal_nonempty(n / 10);
    }
}

/// Different numbers have different decimal representations.
pub proof fn lemma_decimal_injective(a: nat, b: nat)
    requires
        decimal(a) == decimal(b),
    ensures
        a == b,
    decreases a,
{
    if a < 10 && b < 10 {
        assert(decimal(a)[0] == digit_char(a as int));
        assert(decimal(b)[0] == digit_char(b as int));
    } else if a < 10 {
        lemma_decimal_nonempty(b / 10);
        assert(decimal(a).len() == 1);
    } else if b < 10 {
        lemma_decimal_nonempty(a / 10);
        assert(decimal(b).len() == 1);
    } else {
        let da = decimal(a);
        let db = decimal(b);
        assert(da.last() == digit_char((a % 10) as int));
        assert(db.last() == digit_char((b % 10) as int));
        assert(da.drop_last() =~= decimal(a / 10));
        assert(db.drop_last() =~= decimal(b / 10));
        lemma_decimal_injective(a / 10, b / 10);
    }
}

/// The Unicode `White_Space` property, which `char::is_whitespace` tests.
pub open spec fn is_white_space(c: char) -> bool {
    ||| ('\u{9}' <= c && c <= '\u{d}')
    ||| c == ' '
    ||| c == '\u{85}'
    ||| c == '\u{a0}'
    ||| c == '\u{1680}'
    ||| ('\u{2000}' <= c && c <= '\u{200a}')
    ||| c == '\u{2028}'
    ||| c == '\u{2029}'
    ||| c == '\u{202f}'
    ||| c == '\u{205f}'
    ||| c == '\u{3000}'
}

/// Whether `c` is white space (the `White_Space` property).
pub fn is_whitespace(c: char) -> (r: bool)
    ensures
        r == is_white_space(c),
{
    ('\u{9}' <= c && c <= '\u{d}') || c == ' ' || c == '\u{85}' || c == '\u{a0}' || c
        == '\u{1680}' || ('\u{2000}' <= c && c <= '\u{200a}') || c == '\u{2028}' || c
        == '\u{2029}' || c == '\u{202f}' || c == '\u{205f}' || c == '\u{3000}'
}

/// A word of `s` starts at position `i`: a non-space character that is
/// first or follows white space.
pub open spec fn word_starts_at(s: Seq<char>, i: int) -> bool {
    0 <= i < s.len() && !is_white_space(s[i]) && (i == 0 || is_white_space(s[i - 1]))
}

/// The number of words (maximal runs of non-space characters) among the
/// first `n` characters of `s`.
pub open spec fn word_count_prefix(s: Seq<char>, n: int) -> nat
    decreases n,
{
    if n <= 0 {
        0
    } else {
        word_count_prefix(s, n - 1) + if word_starts_at(s, n - 1) { 1nat } else { 0nat }
    }
}

/// The number of words of `s`, as `split_whitespace` counts them.
pub open spec fn word_count(s: Seq<char>) -> nat {
    word_count_prefix(s, s.len() as int)
}

/// Counts the whitespace-separated words of `s`.
pub fn count_words(s: &str) -> (n: usize)
    ensures
        n == word_count(s@),
{
    let len = s.unicode_len();
    let mut count: usize = 0;
    let mut prev_space = true;
    let mut i: usize = 0;
    while i < len
        invariant
            len == s@.len(),
            i <= len,
            count == word_count_prefix(s@, i as int),
            count <= i,
            prev_space == (i == 0 || is_white_space(s@[i - 1])),
        decreases len - i,
    {
        let c = s.get_char(i);
        let space = is_whitespace(c);
        if !space && prev_space {
            count = count + 1;
        }
        prev_space = space;
        i = i + 1;
    }
    count
}

/// A copy of `s` with every space replaced by an underscore.
pub open spec fn spaces_to_underscores(s: Seq<char>) -> Seq<char> {
    s.map_values(|c: char| if c == ' ' { '_' } else { c })
}

/// Replaces every space of `s` by an underscore.
pub fn replace_spaces(s: &str) -> (r: String)
    ensures
        r@ == spaces_to_underscores(s@),
{
    let len = s.unicode_len();
    let mut out: Vec<char> = Vec::new();
    let mut i: usize = 0;
    while i < len
        invariant
            len == s@.len(),
            i <= len,
            out@ == spaces_to_underscores(s@.take(i as int)),
        decreases len - i,
    {
        let c = s.get_char(i);
        out.push(if c == ' ' { '_' } else { c });
        assert(s@.take(i as int + 1) =~= s@.take(i as int).push(c));
        i = i + 1;
    }
    assert(s@.take(len as int) =~= s@);
    string_from_chars(&out)
}

/// Seq of distinct indices below `n` has at most `n` entries.
pub proof fn lemma_distinct_indices_bounded(used: Seq<int>, n: int)
    requires
        used.no_duplicates(),
        forall|j: int| 0 <= j < used.len() ==> 0 <= #[trigger] used[j] < n,
        n >= 0,
    ensures
        used.len() <= n,
{
    used.unique_seq_to_set();
    vstd::set_lib::lemma_int_range(0, n);
    assert(used.to_set().subset_of(vstd::set_lib::set_int_range(0, n))) by {
        assert forall|x: int| used.to_set().contains(x) implies vstd::set_lib::set_int_range(
            0,
            n,
        ).contains(x) by {
            let j = choose|j: int| 0 <= j < used.len() && used[j] == x;
        }
    }
    vstd::set_lib::lemma_len_subset(used.to_set(), vstd::set_lib::set_int_range(0, n));
}

/// The position of a string equal to `target` in `items`, if any.
pub fn position_of(items: &Vec<String>, target: &String) -> (r: Option<usize>)
    ensures
        match r {
            Some(p) => p < items@.len() && items@[p as int]@ == target@,
            None => forall|j: int| 0 <= j < items@.len() ==> (#[trigger] items@[j])@ != target@,
        },
{
    let mut j: usize = 0;
    while j < items.len()
        invariant
            j <= items@.len(),
            forall|q: int| 0 <= q < j ==> (#[trigger] items@[q])@ != target@,
        decreases items@.len() - j,
    {
        if string_equals(&items[j], target) {
            return Some(j);
        }
        j = j + 1;
    }
    None
}

} // verus!
