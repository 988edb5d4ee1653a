//! The screen that reads a slatepack to apply.
use vstd::prelude::*;

use vstd::string::StringSliceAdditionalSpecFns;
use vstd::utf8::{encode_utf8, is_char_boundary};

verus! {

/// The number of leading bytes the short form of a slatepack keeps.
pub open spec fn short_head_len(n: int) -> int {
    if n < 27 { n } else { 27 }
}

/// The number of trailing bytes the short form of a slatepack keeps.
pub open spec fn short_tail_len(n: int) -> int {
    if n < 23 { n } else { 23 }
}

/// The short form of a slatepack's UTF-8 bytes shown after reading it: its
/// first 27 bytes, three dots, and its last 23 bytes (all of a shorter
/// text each time).
pub open spec fn short_display_bytes(b: Seq<u8>) -> Seq<u8> {
    b.subrange(0, short_head_len(b.len() as int)) + seq![46u8, 46u8, 46u8] + b.subrange(
        b.len() - short_tail_len(b.len() as int),
        b.len() as int,
    )
}

/// Both cut points of the short form fall between characters.
pub open spec fn short_display_cuts_ok(b: Seq<u8>) -> bool {
    &&& is_char_boundary(b, short_head_len(b.len() as int))
    &&& is_char_boundary(b, b.len() - short_tail_len(b.len() as int))
}

proof fn lemma_encode_concat(a: Seq<char>, c: Seq<char>)
    ensures
        encode_utf8(a + c) == encode_utf8(a) + encode_utf8(c),
    decreases a.len(),
{
    if a.len() == 0 {
        assert(a + c =~= c);
        assert(encode_utf8(a) =~= seq![]);
        assert(encode_utf8(a) + encode_utf8(c) =~= encode_utf8(c));
    } else {
        lemma_encode_concat(a.drop_first(), c);
        assert((a + c).drop_first() =~= a.drop_first() + c);
        assert((a + c)[0] == a[0]);
        let e = vstd::utf8::encode_scalar(a[0] as u32);
        assert(e + (encode_utf8(a.drop_first()) + encode_utf8(c)) =~= (e + encode_utf8(
            a.drop_first(),
        )) + encode_utf8(c));
    }
}

proof fn lemma_dots_bytes()
    ensures
        encode_utf8("..."@) == seq![46u8, 46u8, 46u8],
{
    reveal_strlit("...");
    let d = "..."@;
    assert(d.len() == 3);
    assert(d[0] == '.' && d[1] == '.' && d[2] == '.');
    assert(d.drop_first().drop_first().drop_first() =~= Seq::<char>::empty());
    reveal_with_fuel(encode_utf8, 4);
    assert(('.' as u32) == 46u32);
    assert((46u32 & 0x7Fu32) as u8 == 46u8) by (bit_vector);
    assert(vstd::utf8::encode_scalar('.' as u32) =~= seq![46u8]);
    assert(encode_utf8(d) =~= seq![46u8, 46u8, 46u8]);
}

/// The short form of a slatepack for display (see `short_display_bytes`).
pub fn short_slatepack_display(value: &str) -> (s: String)
    requires
        short_display_cuts_ok(value.spec_bytes()),
    ensures
        encode_utf8(s@) == short_display_bytes(value.spec_bytes()),
{
    let n = value.as_bytes().len();
    let head = if n < 27 { n } else { 27 };
    let tail_start = if n < 23 { 0 } else { n - 23 };
    let (h, _) = value.split_at(head);
    let (_, t) = value.split_at(tail_start);
    let mut s = String::from_str(h);
    s.append("...");
    s.append(t);
    proof {
        lemma_encode_concat(h@ + "..."@, t@);
        lemma_encode_concat(h@, "..."@);
        lemma_dots_bytes();
    }
    s
}

/// The apply screen: the slatepack as shown (or the screen's
/// instructions), the whole slatepack read, and whether the user can go on
/// to confirm it.
pub struct StateContainer {
    pub slatepack_read_data: String,
    pub slatepack_read_data_full: String,
    pub can_continue: bool,
}

impl StateContainer {
    /// Nothing read yet: the screen shows the given (localized)
    /// instructions.
    pub fn new(default_text: String) -> (s: StateContainer)
        ensures
            s.slatepack_read_data@ == default_text@,
            s.slatepack_read_data_full@.len() == 0,
            !s.can_continue,
    {
        StateContainer {
            slatepack_read_data: default_text,
            slatepack_read_data_full: String::new(),
            can_continue: false,
        }
    }

    /// Leaving the screen forgets what was read and shows the instructions
    /// again.
    pub fn back(&mut self, default_text: String)
        ensures
            final(self).slatepack_read_data@ == default_text@,
            final(self).slatepack_read_data_full@.len() == 0,
            !final(self).can_continue,
    {
        self.slatepack_read_data = default_text;
        self.slatepack_read_data_full = String::new();
        self.can_continue = false;
    }

    /// Records a slatepack read from the clipboard, given whether the
    /// wallet could decrypt it: if so, the short form is shown, the whole
    /// text kept and the user may go on; if not, the given (localized)
    /// failure text is shown and nothing is kept.
    pub fn record_read(&mut self, value: &str, decrypted: bool, failure_text: String)
        requires
            decrypted ==> short_display_cuts_ok(value.spec_bytes()),
        ensures
            final(self).can_continue == decrypted,
            decrypted ==> final(self).slatepack_read_data_full@ == value@ && encode_utf8(
                final(self).slatepack_read_data@,
            ) == short_display_bytes(value.spec_bytes()),
            !decrypted ==> final(self).slatepack_read_data@ == failure_text@
                && final(self).slatepack_read_data_full@.len() == 0,
    {
        if decrypted {
            self.slatepack_read_data = short_slatepack_display(value);
            self.slatepack_read_data_full = String::from_str(value);
            self.can_continue = true;
        } else {
            self.slatepack_read_data = failure_text;
            self.slatepack_read_data_full = String::new();
            self.can_continue = false;
        }
    }
}

/// The layout of the short form: a text of at least 50 bytes gives 53
/// bytes, its first 27, three dots and its last 23; a text of at most 23
/// bytes appears whole on both sides of the dots.
pub proof fn lemma_short_display_layout(b: Seq<u8>)
    ensures
        b.len() >= 50 ==> short_display_bytes(b).len() == 53 && short_display_bytes(b).subrange(
            0,
            27,
        ) == b.subrange(0, 27) && short_display_bytes(b).subrange(27, 30) == seq![
            46u8,
            46u8,
            46u8,
        ] && short_display_bytes(b).subrange(30, 53) == b.subrange(
            b.len() - 23,
            b.len() as int,
        ),
        b.len() <= 23 ==> short_display_bytes(b) == b + seq![46u8, 46u8, 46u8] + b,
{
    let r = short_display_bytes(b);
    if b.len() >= 50 {
        assert(r.subrange(0, 27) =~= b.subrange(0, 27));
        assert(r.subrange(27, 30) =~= seq![46u8, 46u8, 46u8]);
        assert(r.subrange(30, 53) =~= b.subrange(b.len() - 23, b.len() as int));
    }
    if b.len() <= 23 {
        assert(b.subrange(0, b.len() as int) =~= b);
    }
}

} // verus!
