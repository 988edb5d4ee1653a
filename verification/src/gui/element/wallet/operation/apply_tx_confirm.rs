//! Confirming a read slatepack: how the information texts take the amount,
//! which wallet step an accepted slate needs, and where the screen goes
//! afterwards.
use vstd::prelude::*;

use super::Mode;
use crate::gui::element::settings::wallet::TxMethod;
use crate::text::{find_from, is_first_occurrence, lemma_first_occurrence_unique, no_occurrence};

verus! {

/// The placeholder that information texts hold for the amount.
pub open spec fn amount_marker() -> Seq<char> {
    "[AMOUNT]"@
}

/// The text after position `from` up to the next amount marker, or to the
/// end when there is none.
pub open spec fn segment_from(s: Seq<char>, from: int) -> Seq<char> {
    if exists|j: int| is_first_occurrence(s, amount_marker(), from, j) {
        s.subrange(from, choose|j: int| is_first_occurrence(s, amount_marker(), from, j))
    } else {
        s.subrange(from, s.len() as int)
    }
}

/// An information text with the amount put in: the text before the first
/// marker, the amount, and the text between the first and second markers;
/// a text without a marker gets the amount at its end.
pub open spec fn info_with_amount(s: Seq<char>, amount: Seq<char>) -> Seq<char> {
    if exists|i: int| is_first_occurrence(s, amount_marker(), 0, i) {
        let i = choose|i: int| is_first_occurrence(s, amount_marker(), 0, i);
        s.subrange(0, i) + amount + segment_from(s, i + amount_marker().len())
    } else {
        s + amount
    }
}

/// Where the amount goes in an information text: at the end when the text
/// has no `[AMOUNT]` marker; otherwise in place of the first marker, with
/// the text after it kept up to a second marker (or to the end when there
/// is none).
pub proof fn lemma_amount_placement(s: Seq<char>, amount: Seq<char>, i: int, j: int)
    ensures
        no_occurrence(s, "[AMOUNT]"@, 0) ==> info_with_amount(s, amount) == s + amount,
        is_first_occurrence(s, "[AMOUNT]"@, 0, i) && no_occurrence(s, "[AMOUNT]"@, i + 8)
            ==> info_with_amount(s, amount) == s.subrange(0, i) + amount + s.subrange(
            i + 8,
            s.len() as int,
        ),
        is_first_occurrence(s, "[AMOUNT]"@, 0, i) && is_first_occurrence(s, "[AMOUNT]"@, i + 8, j)
            ==> info_with_amount(s, amount) == s.subrange(0, i) + amount + s.subrange(i + 8, j),
{
    reveal_strlit("[AMOUNT]");
    let m = amount_marker();
    assert(m.len() == 8);
    if no_occurrence(s, m, 0) {
        assert(!exists|k: int| #[trigger] is_first_occurrence(s, m, 0, k));
    }
    if is_first_occurrence(s, m, 0, i) {
        let c = choose|k: int| is_first_occurrence(s, m, 0, k);
        lemma_first_occurrence_unique(s, m, 0, i, c);
        let from = i + 8;
        if no_occurrence(s, m, from) {
            assert(!exists|k: int| #[trigger] is_first_occurrence(s, m, from, k));
        }
        if is_first_occurrence(s, m, from, j) {
            let d = choose|k: int| is_first_occurrence(s, m, from, k);
            lemma_first_occurrence_unique(s, m, from, j, d);
        }
    }
}

/// Puts the amount into an information text in place of its marker.
pub fn parse_info_strings(in_str: &str, amount: &str) -> (r: String)
    ensures
        r@ == info_with_amount(in_str@, amount@),
{
    let marker = "[AMOUNT]";
    proof {
        reveal_strlit("[AMOUNT]");
    }
    let n = in_str.unicode_len();
    match find_from(in_str, marker, 0) {
        None => {
            let mut r = String::from_str(in_str);
            r.append(amount);
            assert(!exists|i: int| is_first_occurrence(in_str@, amount_marker(), 0, i));
            r
        },
        Some(i) => {
            let ghost ci = choose|c: int| is_first_occurrence(in_str@, amount_marker(), 0, c);
            proof {
                crate::text::lemma_first_occurrence_unique(in_str@, amount_marker(), 0, i as int, ci);
            }
            let rest = i + 8;
            let mut r = String::from_str(in_str.substring_char(0, i));
            r.append(amount);
            match find_from(in_str, marker, rest) {
                None => {
                    r.append(in_str.substring_char(rest, n));
                    assert(!exists|j: int| is_first_occurrence(in_str@, amount_marker(), rest as int, j));
                },
                Some(j) => {
                    let ghost cj = choose|c: int| is_first_occurrence(in_str@, amount_marker(), rest as int, c);
                    proof {
                        crate::text::lemma_first_occurrence_unique(in_str@, amount_marker(), rest as int, j as int, cj);
                    }
                    r.append(in_str.substring_char(rest, j));
                },
            }
            r
        },
    }
}

/// The state of a slate in its exchange.
#[derive(Clone, Copy, Debug, PartialEq, Eq, Structural, Hash)]
pub enum SlateState {
    Unknown,
    Standard1,
    Standard2,
    Standard3,
    Invoice1,
    Invoice2,
    Invoice3,
}

/// The wallet step that accepting a slate asks for.
#[derive(Clone, Copy, Debug, PartialEq, Eq, Structural)]
pub enum AcceptStep {
    /// Nothing is done: no slate was read, or its state is not handled.
    Nothing,
    /// Receive a standard first-round slate.
    ReceiveStandard1,
    /// Finalize a standard second-round slate.
    FinalizeStandard2,
    /// Sign the contract, contributing `net_change` when it is known.
    ContractSign { net_change: Option<i64>, self_send: bool },
}

/// The step for accepting a slate in state `state` for `amount`, with the
/// wallet's transaction method: the slate exchange handles the standard
/// first and second rounds; contracts sign, paying the amount in a first
/// round and leaving the change open in a second.
pub open spec fn accept_step(
    has_slate: bool,
    method: TxMethod,
    state: SlateState,
    amount: u64,
    is_self_send: bool,
) -> AcceptStep {
    if !has_slate {
        AcceptStep::Nothing
    } else if method == TxMethod::Legacy {
        match state {
            SlateState::Standard1 => AcceptStep::ReceiveStandard1,
            SlateState::Standard2 => AcceptStep::FinalizeStandard2,
            _ => AcceptStep::Nothing,
        }
    } else {
        match state {
            SlateState::Standard1 | SlateState::Invoice1 => AcceptStep::ContractSign {
                net_change: Some((-(amount as i64)) as i64),
                self_send: is_self_send,
            },
            SlateState::Standard2 | SlateState::Invoice2 => AcceptStep::ContractSign {
                net_change: None,
                self_send: is_self_send,
            },
            _ => AcceptStep::Nothing,
        }
    }
}

/// Chooses the step for accepting a read slate (see `accept_step`).
pub fn plan_accept(
    has_slate: bool,
    method: TxMethod,
    state: SlateState,
    amount: u64,
    is_self_send: bool,
) -> (step: AcceptStep)
    requires
        has_slate && method == TxMethod::Contracts && (state == SlateState::Standard1 || state
            == SlateState::Invoice1) ==> (amount as i64) != i64::MIN,
    ensures
        step == accept_step(has_slate, method, state, amount, is_self_send),
{
    if !has_slate {
        return AcceptStep::Nothing;
    }
    match method {
        TxMethod::Legacy => match state {
            SlateState::Standard1 => AcceptStep::ReceiveStandard1,
            SlateState::Standard2 => AcceptStep::FinalizeStandard2,
            _ => AcceptStep::Nothing,
        },
        TxMethod::Contracts => match state {
            SlateState::Standard1 | SlateState::Invoice1 => {
                let signed = amount as i64;
                AcceptStep::ContractSign { net_change: Some(-signed), self_send: is_self_send }
            },
            SlateState::Standard2 | SlateState::Invoice2 => AcceptStep::ContractSign {
                net_change: None,
                self_send: is_self_send,
            },
            _ => AcceptStep::Nothing,
        },
    }
}

/// With a slate read, the contracts method signs every first- or
/// second-round slate for the wallet's own side, paying the amount in a
/// first round and leaving the change open exactly in a second round;
/// third-round and unknown slates do nothing. The slate exchange receives
/// a standard first round, finalizes a standard second round, and does
/// nothing else. Without a slate nothing is done.
pub proof fn lemma_accept_steps(state: SlateState, amount: u64, is_self_send: bool)
    ensures
        ({
            let step = accept_step(true, TxMethod::Contracts, state, amount, is_self_send);
            &&& (step is ContractSign) <==> (state == SlateState::Standard1 || state
                == SlateState::Standard2 || state == SlateState::Invoice1 || state
                == SlateState::Invoice2)
            &&& !(step is ContractSign) ==> step == AcceptStep::Nothing
            &&& step is ContractSign ==> step->self_send == is_self_send
            &&& step is ContractSign ==> (step->net_change is None <==> (state
                == SlateState::Standard2 || state == SlateState::Invoice2))
            &&& (step is ContractSign && step->net_change is Some && amount <= i64::MAX)
                ==> step->net_change->0 == -(amount as int)
        }),
        ({
            let step = accept_step(true, TxMethod::Legacy, state, amount, is_self_send);
            &&& (step == AcceptStep::ReceiveStandard1) <==> (state == SlateState::Standard1)
            &&& (step == AcceptStep::FinalizeStandard2) <==> (state == SlateState::Standard2)
            &&& (state != SlateState::Standard1 && state != SlateState::Standard2) ==> step
                == AcceptStep::Nothing
        }),
        forall|method: TxMethod|
            accept_step(false, method, state, amount, is_self_send) == AcceptStep::Nothing,
{
}

/// Whether the screen is signing once a step was chosen: it is, for every
/// step that does something.
pub fn signing_after(step: AcceptStep) -> (signing: bool)
    ensures
        signing == (step != AcceptStep::Nothing),
{
    match step {
        AcceptStep::Nothing => false,
        _ => true,
    }
}

/// Whether the exchange is finished after a step that returned a slate in
/// state `result`: receiving never finishes it, finalizing and signing a
/// self send always do, and signing otherwise when the slate reached its
/// third round.
pub fn accept_finished(step: AcceptStep, result: SlateState) -> (finished: bool)
    requires
        step != AcceptStep::Nothing,
    ensures
        finished == (match step {
            AcceptStep::ReceiveStandard1 => false,
            AcceptStep::FinalizeStandard2 => true,
            AcceptStep::ContractSign { self_send, .. } => self_send || result
                == SlateState::Standard3 || result == SlateState::Invoice3,
            AcceptStep::Nothing => false,
        }),
{
    match step {
        AcceptStep::ReceiveStandard1 => false,
        AcceptStep::FinalizeStandard2 => true,
        AcceptStep::ContractSign { self_send, .. } => {
            self_send || result == SlateState::Standard3 || result == SlateState::Invoice3
        },
        AcceptStep::Nothing => false,
    }
}

/// What happens to the slatepack file of a transaction after a step.
#[derive(Clone, Copy, Debug, PartialEq, Eq, Structural)]
pub enum SlatepackFile {
    /// Write the new encrypted slatepack over it.
    Write,
    /// Remove it: the transaction was posted.
    Remove,
}

/// Where the screen goes after a successful step and what becomes of the
/// slatepack file: a finished exchange shows the done screen, otherwise
/// the new slatepack is shown; the file is rewritten when there is a new
/// encrypted slatepack and removed when there is none.
pub fn after_accept(finished: bool, has_encrypted_slate: bool) -> (r: (Mode, SlatepackFile))
    ensures
        r.0 == (if finished { Mode::TxDone } else { Mode::ShowSlatepack }),
        r.1 == (if has_encrypted_slate { SlatepackFile::Write } else { SlatepackFile::Remove }),
{
    let mode = if finished { Mode::TxDone } else { Mode::ShowSlatepack };
    let file = if has_encrypted_slate { SlatepackFile::Write } else { SlatepackFile::Remove };
    (mode, file)
}

} // verus!
