//! Decision logic, state transitions and text rules of the Grin GUI,
//! stated as contracts and checked by Verus.
use vstd::prelude::*;

pub mod gui;
pub mod localization;
pub mod text;

use crate::text::str_equals;

verus! {

/// anyhow's error type, carried as an opaque value.
#[verifier::external_type_specification]
#[verifier::external_body]
pub struct ExAnyhowError(anyhow::Error);

/// The texts (as `Display` renders them) of the errors in the cause chain
/// of `e`, outermost first.
pub uninterp spec fn error_chain_text(e: anyhow::Error) -> Seq<Seq<char>>;

/// Texts of the chain of causes of `error`.
/// Trusted: calls `anyhow::Error::chain` and renders each cause with
/// `Display`. The contract says that the result is the named chain text of
/// the error, and that it is never empty: anyhow documents that the chain
/// begins with the error itself.
#[verifier::external_body]
fn error_chain(error: &anyhow::Error) -> (texts: Vec<String>)
    ensures
        texts@.len() == error_chain_text(*error).len(),
        forall|i: int| 0 <= i < texts@.len() ==> #[trigger] texts@[i]@ == error_chain_text(*error)[i],
        texts@.len() >= 1,
{
    error.chain().map(|cause| cause.to_string()).collect()
}

/// The separator written after each cause by `error_cause_string`.
pub open spec fn cause_separator() -> Seq<char> {
    seq!['\n', '\n']
}

/// All causes, each followed by a blank line.
pub open spec fn joined_causes(causes: Seq<Seq<char>>) -> Seq<char>
    decreases causes.len(),
{
    if causes.len() == 0 {
        seq![]
    } else {
        joined_causes(causes.drop_last()) + causes.last() + cause_separator()
    }
}

/// The lines that `log_error` emits: the error itself, then one line
/// `caused by: <cause>` for each deeper cause.
pub open spec fn error_log_lines(causes: Seq<Seq<char>>) -> Seq<Seq<char>>
    recommends
        causes.len() >= 1,
{
    seq![causes[0]] + causes.skip(1).map_values(|c: Seq<char>| "caused by: "@ + c)
}

/// Joins cause texts, each followed by a blank line.
pub fn join_causes(causes: &Vec<String>) -> (s: String)
    ensures
        s@ == joined_causes(causes@.map_values(|c: String| c@)),
{
    let ghost views = causes@.map_values(|c: String| c@);
    let mut s = String::new();
    let mut i: usize = 0;
    while i < causes.len()
        invariant
            i <= causes@.len(),
            views == causes@.map_values(|c: String| c@),
            s@ == joined_causes(views.take(i as int)),
        decreases causes@.len() - i,
    {
        s.append(causes[i].as_str());
        s.append("\n\n");
        proof {
            reveal_strlit("\n\n");
            assert(views.take(i as int + 1).drop_last() =~= views.take(i as int));
            assert(views.take(i as int + 1).last() == causes@[i as int]@);
        }
        i = i + 1;
    }
    assert(views.take(causes@.len() as int) =~= views);
    s
}

/// All causes of `error`, outermost first, each followed by a blank line.
pub fn error_cause_string(error: &anyhow::Error) -> (s: String)
    ensures
        error_chain_text(*error).len() >= 1,
        s@ == joined_causes(error_chain_text(*error)),
{
    let causes = error_chain(error);
    assert(causes@.map_values(|c: String| c@) =~= error_chain_text(*error));
    join_causes(&causes)
}

/// The log lines for a non-empty chain of cause texts.
pub fn log_lines(causes: &Vec<String>) -> (lines: Vec<String>)
    requires
        causes@.len() >= 1,
    ensures
        lines@.map_values(|l: String| l@) == error_log_lines(causes@.map_values(|c: String| c@)),
{
    let ghost views = causes@.map_values(|c: String| c@);
    let mut lines: Vec<String> = Vec::new();
    lines.push(causes[0].clone());
    let mut i: usize = 1;
    while i < causes.len()
        invariant
            1 <= i <= causes@.len(),
            views == causes@.map_values(|c: String| c@),
            lines@.len() == i,
            lines@[0]@ == views[0],
            forall|j: int| 1 <= j < i ==> #[trigger] lines@[j]@ == "caused by: "@ + views[j],
        decreases causes@.len() - i,
    {
        let mut line = String::from_str("caused by: ");
        line.append(causes[i].as_str());
        lines.push(line);
        i = i + 1;
    }
    assert(lines@.map_values(|l: String| l@) =~= error_log_lines(views));
    lines
}

/// The lines to log for `error`: its own text, then `caused by: <cause>`
/// for each deeper cause. The caller writes them to the error log.
pub fn log_error(error: &anyhow::Error) -> (lines: Vec<String>)
    ensures
        error_chain_text(*error).len() >= 1,
        lines@.len() == error_chain_text(*error).len(),
        lines@.map_values(|l: String| l@) == error_log_lines(error_chain_text(*error)),
{
    let causes = error_chain(error);
    assert(causes@.map_values(|c: String| c@) =~= error_chain_text(*error));
    let lines = log_lines(&causes);
    proof {
        lemma_log_and_dialog_agree(error_chain_text(*error));
        assert(lines@.len() == lines@.map_values(|l: String| l@).len());
    }
    lines
}

/// The text of the error dialog: every cause of the error, or
/// `unknown error` when no error is held.
pub fn error_modal_text(error: Option<&anyhow::Error>) -> (s: String)
    ensures
        s@ == (match error {
            Some(e) => joined_causes(error_chain_text(*e)),
            None => "unknown error"@,
        }),
        error matches Some(e) ==> error_chain_text(*e).len() >= 1,
{
    match error {
        Some(e) => error_cause_string(e),
        None => String::from_str("unknown error"),
    }
}

/// The error's own text opens both the error dialog's text and the error
/// log, and the log has one line per cause.
pub proof fn lemma_log_and_dialog_agree(causes: Seq<Seq<char>>)
    requires
        causes.len() >= 1,
    ensures
        error_log_lines(causes).len() == causes.len(),
        error_log_lines(causes)[0] == causes[0],
        joined_causes(causes).subrange(0, causes[0].len() as int) == causes[0],
{
    lemma_joined_prefix(causes, 1);
    assert(causes.take(1) =~= seq![causes[0]]);
    let one = seq![causes[0]];
    assert(one.drop_last() =~= Seq::<Seq<char>>::empty());
    assert(joined_causes(one.drop_last()) == Seq::<char>::empty());
    assert(one.last() == causes[0]);
    assert(joined_causes(one) =~= causes[0] + cause_separator());
    assert(joined_causes(causes).subrange(0, causes[0].len() as int) =~= joined_causes(one).subrange(
        0,
        causes[0].len() as int,
    ));
}

/// The error log names the deeper causes in the order of the cause chain:
/// after the error's own text, line `k` is `caused by: ` and the `k`-th
/// cause, for every deeper cause.
pub proof fn lemma_log_lines_follow_chain(causes: Seq<Seq<char>>, k: int)
    requires
        causes.len() >= 1,
        1 <= k < causes.len(),
    ensures
        error_log_lines(causes).len() == causes.len(),
        error_log_lines(causes)[0] == causes[0],
        error_log_lines(causes)[k] == "caused by: "@ + causes[k],
{
    assert(error_log_lines(causes)[k] == causes.skip(1).map_values(
        |c: Seq<char>| "caused by: "@ + c,
    )[k - 1]);
}

/// The error dialog's text lists the causes in chain order: joining two
/// runs of causes gives the first run's text followed by the second's, and
/// a single cause gives its text followed by a blank line.
pub proof fn lemma_joined_causes_concat(a: Seq<Seq<char>>, b: Seq<Seq<char>>)
    ensures
        joined_causes(a + b) == joined_causes(a) + joined_causes(b),
        forall|x: Seq<char>| #[trigger] joined_causes(seq![x]) == x + seq!['\n', '\n'],
    decreases b.len(),
{
    assert forall|x: Seq<char>| #[trigger] joined_causes(seq![x]) == x + seq!['\n', '\n'] by {
        assert(seq![x].drop_last() =~= Seq::<Seq<char>>::empty());
        assert(joined_causes(Seq::<Seq<char>>::empty()) =~= Seq::<char>::empty());
        assert(Seq::<char>::empty() + x =~= x);
    }
    if b.len() == 0 {
        assert(a + b =~= a);
        assert(joined_causes(b) =~= Seq::<char>::empty());
        assert(joined_causes(a) + joined_causes(b) =~= joined_causes(a));
    } else {
        lemma_joined_causes_concat(a, b.drop_last());
        assert((a + b).drop_last() =~= a + b.drop_last());
        assert((a + b).last() == b.last());
        assert(joined_causes(a + b) =~= joined_causes(a) + joined_causes(b));
    }
}

/// The joined text of the first `k` causes starts the joined text of all.
pub proof fn lemma_joined_prefix(causes: Seq<Seq<char>>, k: int)
    requires
        0 <= k <= causes.len(),
    ensures
        joined_causes(causes.take(k)).len() <= joined_causes(causes).len(),
        joined_causes(causes).subrange(0, joined_causes(causes.take(k)).len() as int)
            == joined_causes(causes.take(k)),
    decreases causes.len(),
{
    if k == causes.len() {
        assert(causes.take(k) =~= causes);
    } else {
        lemma_joined_prefix(causes.drop_last(), k);
        assert(causes.drop_last().take(k) =~= causes.take(k));
        let pre = joined_causes(causes.drop_last());
        assert(joined_causes(causes) == pre + causes.last() + cause_separator());
        assert(joined_causes(causes).subrange(0, pre.len() as int) =~= pre);
        assert(joined_causes(causes).subrange(0, joined_causes(causes.take(k)).len() as int)
            =~= pre.subrange(0, joined_causes(causes.take(k)).len() as int));
    }
}

/// What the self-update cleanup does, decided from the running binary's
/// file name.
#[derive(Clone, Copy, Debug, PartialEq, Eq, Structural)]
pub enum SelfUpdateCleanup {
    /// Rename the running (temporary) binary to the main binary's name.
    RenameToMain,
    /// Remove the left-over file.
    RemoveLeftover,
}

/// The running binary is a temporary one: its file name starts with `tmp_`.
pub open spec fn is_temporary_binary(file_name: Seq<char>) -> bool {
    file_name.len() >= 4 && file_name.subrange(0, 4) == "tmp_"@
}

/// Chooses the cleanup after a self update: a temporary binary is renamed
/// to the main binary, otherwise the left-over file is removed.
pub fn self_update_cleanup(current_file_name: &str) -> (c: SelfUpdateCleanup)
    ensures
        c == (if is_temporary_binary(current_file_name@) {
            SelfUpdateCleanup::RenameToMain
        } else {
            SelfUpdateCleanup::RemoveLeftover
        }),
{
    let n = current_file_name.unicode_len();
    if n < 4 {
        return SelfUpdateCleanup::RemoveLeftover;
    }
    let head = current_file_name.substring_char(0, 4);
    if str_equals(head, "tmp_") {
        SelfUpdateCleanup::RenameToMain
    } else {
        SelfUpdateCleanup::RemoveLeftover
    }
}

} // verus!
