//! The list of recent or outstanding transactions on the wallet home
//! screen: which query a mode asks for, and the running set of confirmed
//! transactions, kept in order of confirmation.
use vstd::prelude::*;

verus! {

broadcast use vstd::seq_lib::group_to_multiset_ensures;

/// Which transactions the list shows.
#[derive(Clone, Copy, Debug, PartialEq, Eq, Structural, Hash)]
pub enum Mode {
    NotInit,
    Recent,
    Outstanding,
}

/// The filters of a transaction query (the list is always sorted newest
/// first).
#[derive(Clone, Copy, Debug, PartialEq, Eq, Structural)]
pub struct TxQuery {
    pub exclude_cancelled: Option<bool>,
    pub include_outstanding_only: Option<bool>,
    pub sort_descending: bool,
}

/// The query that selecting a mode sends: recent transactions leave out
/// cancelled ones, outstanding ones also leave out completed ones.
pub fn query_for_mode(mode: Mode) -> (q: TxQuery)
    ensures
        q.sort_descending,
        q.exclude_cancelled == (match mode {
            Mode::NotInit => None,
            _ => Some(true),
        }),
        q.include_outstanding_only == (match mode {
            Mode::Outstanding => Some(true),
            _ => None,
        }),
{
    match mode {
        Mode::NotInit => TxQuery {
            exclude_cancelled: None,
            include_outstanding_only: None,
            sort_descending: true,
        },
        Mode::Recent => TxQuery {
            exclude_cancelled: Some(true),
            include_outstanding_only: None,
            sort_descending: true,
        },
        Mode::Outstanding => TxQuery {
            exclude_cancelled: Some(true),
            include_outstanding_only: Some(true),
            sort_descending: true,
        },
    }
}

/// A point in time: seconds since the epoch and the nanoseconds within
/// that second.
#[derive(Clone, Copy, Debug, PartialEq, Eq, Structural)]
pub struct Timestamp {
    pub secs: i64,
    pub nanos: u32,
}

/// What the list keeps of a wallet transaction: its id, whether it is
/// confirmed, when it was confirmed, and the amounts credited and debited.
#[derive(Clone, Copy, Debug, PartialEq, Eq, Structural)]
pub struct TxSummary {
    pub id: u32,
    pub confirmed: bool,
    pub confirmation_ts: Option<Timestamp>,
    pub amount_credited: u64,
    pub amount_debited: u64,
}

/// Time `a` is not later than time `b`.
pub open spec fn ts_le(a: Timestamp, b: Timestamp) -> bool {
    a.secs < b.secs || (a.secs == b.secs && a.nanos <= b.nanos)
}

/// Every transaction of `s` has a confirmation time.
pub open spec fn all_timestamped(s: Seq<TxSummary>) -> bool {
    forall|i: int| 0 <= i < s.len() ==> (#[trigger] s[i]).confirmation_ts is Some
}

/// The transactions of `s` are in order of confirmation time.
pub open spec fn sorted_by_confirmation(s: Seq<TxSummary>) -> bool {
    forall|i: int, j: int|
        0 <= i < j < s.len() ==> ts_le(
            (#[trigger] s[i]).confirmation_ts.unwrap(),
            (#[trigger] s[j]).confirmation_ts.unwrap(),
        )
}

/// No two transactions of `s` share an id.
pub open spec fn ids_distinct(s: Seq<TxSummary>) -> bool {
    forall|i: int, j: int| 0 <= i < j < s.len() ==> (#[trigger] s[i]).id != (#[trigger] s[j]).id
}

/// The number of transactions of `s` confirmed no later than `x`.
pub open spec fn count_not_later(s: Seq<TxSummary>, x: Timestamp) -> nat
    decreases s.len(),
{
    if s.len() == 0 {
        0
    } else {
        count_not_later(s.drop_last(), x) + if ts_le(s.last().confirmation_ts.unwrap(), x) {
            1nat
        } else {
            0nat
        }
    }
}

/// `t` put into `s` right after every transaction confirmed no later than
/// it.
pub open spec fn insert_by_confirmation(s: Seq<TxSummary>, t: TxSummary) -> Seq<TxSummary> {
    s.insert(count_not_later(s, t.confirmation_ts.unwrap()) as int, t)
}

/// `s` in order of confirmation time, where transactions confirmed at the
/// same time keep the order they have in `s` (a stable sort).
pub open spec fn stable_sorted(s: Seq<TxSummary>) -> Seq<TxSummary>
    decreases s.len(),
{
    if s.len() == 0 {
        s
    } else {
        insert_by_confirmation(stable_sorted(s.drop_last()), s.last())
    }
}

proof fn lemma_count_not_later_is_cut(s: Seq<TxSummary>, x: Timestamp, p: int)
    requires
        all_timestamped(s),
        sorted_by_confirmation(s),
        0 <= p <= s.len(),
        forall|q: int| 0 <= q < p ==> ts_le((#[trigger] s[q]).confirmation_ts.unwrap(), x),
        p < s.len() ==> !ts_le(s[p].confirmation_ts.unwrap(), x),
    ensures
        count_not_later(s, x) == p,
    decreases s.len(),
{
    if s.len() > 0 {
        let n = s.len() as int;
        let d = s.drop_last();
        if p == n {
            assert(ts_le(s[n - 1].confirmation_ts.unwrap(), x));
            lemma_count_not_later_is_cut(d, x, p - 1);
        } else {
            if p < n - 1 {
                assert(ts_le(s[p].confirmation_ts.unwrap(), s[n - 1].confirmation_ts.unwrap()));
            }
            assert(!ts_le(s[n - 1].confirmation_ts.unwrap(), x));
            assert(p < d.len() ==> d[p] == s[p]);
            lemma_count_not_later_is_cut(d, x, p);
        }
    }
}

/// Some transaction of `s` has the id `id`.
pub open spec fn has_id(s: Seq<TxSummary>, id: u32) -> bool {
    exists|i: int| 0 <= i < s.len() && (#[trigger] s[i]).id == id
}

/// The confirmed transactions of `incoming` that are new to `known`, in
/// the order they arrive; of several with the same id only the first.
pub open spec fn newly_confirmed(known: Seq<TxSummary>, incoming: Seq<TxSummary>) -> Seq<TxSummary>
    decreases incoming.len(),
{
    if incoming.len() == 0 {
        seq![]
    } else {
        let prev = newly_confirmed(known, incoming.drop_last());
        let t = incoming.last();
        if t.confirmed && !has_id(known + prev, t.id) {
            prev.push(t)
        } else {
            prev
        }
    }
}

fn contains_id(s: &Vec<TxSummary>, id: u32) -> (found: bool)
    ensures
        found == has_id(s@, id),
{
    let mut i: usize = 0;
    while i < s.len()
        invariant
            i <= s@.len(),
            forall|j: int| 0 <= j < i ==> (#[trigger] s@[j]).id != id,
        decreases s@.len() - i,
    {
        if s[i].id == id {
            return true;
        }
        i = i + 1;
    }
    false
}

fn ts_le_exec(a: Timestamp, b: Timestamp) -> (r: bool)
    ensures
        r == ts_le(a, b),
{
    a.secs < b.secs || (a.secs == b.secs && a.nanos <= b.nanos)
}

/// Sorts transactions by confirmation time, keeping the order of those
/// confirmed at the same time.
fn sort_by_confirmation(v: &Vec<TxSummary>) -> (r: Vec<TxSummary>)
    requires
        all_timestamped(v@),
    ensures
        r@.to_multiset() == v@.to_multiset(),
        sorted_by_confirmation(r@),
        all_timestamped(r@),
        ids_distinct(v@) ==> ids_distinct(r@),
        r@ == stable_sorted(v@),
{
    let mut r: Vec<TxSummary> = Vec::new();
    let mut i: usize = 0;
    while i < v.len()
        invariant
            i <= v@.len(),
            all_timestamped(v@),
            all_timestamped(r@),
            sorted_by_confirmation(r@),
            r@.to_multiset() == v@.take(i as int).to_multiset(),
            forall|a: int| 0 <= a < r@.len() ==> exists|k: int| 0 <= k < i && #[trigger] r@[a] == v@[k],
            ids_distinct(v@) ==> ids_distinct(r@),
            r@ == stable_sorted(v@.take(i as int)),
        decreases v@.len() - i,
    {
        let x = v[i];
        let xt = x.confirmation_ts.unwrap();
        let mut p: usize = 0;
        while p < r.len() && ts_le_exec(r[p].confirmation_ts.unwrap(), xt)
            invariant
                p <= r@.len(),
                all_timestamped(r@),
                forall|q: int| 0 <= q < p ==> ts_le((#[trigger] r@[q]).confirmation_ts.unwrap(), xt),
            decreases r@.len() - p,
        {
            p = p + 1;
        }
        let ghost before = r@;
        proof {
            lemma_count_not_later_is_cut(before, xt, p as int);
            assert(v@.take(i as int + 1).drop_last() =~= v@.take(i as int));
            assert(v@.take(i as int + 1).last() == x);
        }
        r.insert(p, x);
        assert(r@ == before.insert(p as int, x));
        assert(sorted_by_confirmation(r@)) by {
            assert forall|a: int, b: int| 0 <= a < b < r@.len() implies ts_le(
                (#[trigger] r@[a]).confirmation_ts.unwrap(),
                (#[trigger] r@[b]).confirmation_ts.unwrap(),
            ) by {
                if b < p {
                } else if b == p {
                    assert(r@[a] == before[a]);
                } else if a < p {
                    assert(r@[b] == before[b - 1]);
                    if p < before.len() {
                        assert(!ts_le(before[p as int].confirmation_ts.unwrap(), xt));
                        assert(ts_le(before[a].confirmation_ts.unwrap(), xt));
                        if b - 1 > p {
                            assert(ts_le(
                                before[p as int].confirmation_ts.unwrap(),
                                before[b - 1].confirmation_ts.unwrap(),
                            ));
                        }
                    }
                } else if a == p {
                    assert(r@[b] == before[b - 1]);
                    assert(!ts_le(before[p as int].confirmation_ts.unwrap(), xt));
                    if b - 1 > p {
                        assert(ts_le(
                            before[p as int].confirmation_ts.unwrap(),
                            before[b - 1].confirmation_ts.unwrap(),
                        ));
                    }
                } else {
                    assert(r@[a] == before[a - 1]);
                    assert(r@[b] == before[b - 1]);
                }
            }
        }
        assert forall|a: int| 0 <= a < r@.len() implies exists|k: int|
            0 <= k < i + 1 && #[trigger] r@[a] == v@[k] by {
            if a < p {
                assert(r@[a] == before[a]);
            } else if a == p {
                assert(r@[a] == v@[i as int]);
            } else {
                assert(r@[a] == before[a - 1]);
            }
        }
        proof {
            if ids_distinct(v@) {
                assert forall|a: int, b: int| 0 <= a < b < r@.len() implies (#[trigger] r@[a]).id
                    != (#[trigger] r@[b]).id by {
                    if a == p as int {
                        assert(r@[b] == before[b - 1]);
                        let k = choose|k: int| 0 <= k < i && #[trigger] before[b - 1] == v@[k];
                        assert(v@[k].id != v@[i as int].id);
                    } else if b == p as int {
                        assert(r@[a] == before[a]);
                        let k = choose|k: int| 0 <= k < i && #[trigger] before[a] == v@[k];
                        assert(v@[k].id != v@[i as int].id);
                    } else {
                        let a0 = if a < p { a } else { a - 1 };
                        let b0 = if b < p { b } else { b - 1 };
                        assert(r@[a] == before[a0]);
                        assert(r@[b] == before[b0]);
                    }
                }
            }
        }
        assert(v@.take(i as int + 1) =~= v@.take(i as int).push(x));
        i = i + 1;
    }
    assert(v@.take(v@.len() as int) =~= v@);
    r
}

/// Adds to `known` the confirmed transactions of `incoming` that it does
/// not hold yet (by id) and, when any was added, puts `known` in order of
/// confirmation time. Says whether any was added.
pub fn merge_confirmed(known: &mut Vec<TxSummary>, incoming: &Vec<TxSummary>) -> (added: bool)
    requires
        all_timestamped(old(known)@),
        forall|i: int|
            0 <= i < incoming@.len() && (#[trigger] incoming@[i]).confirmed
                ==> incoming@[i].confirmation_ts is Some,
    ensures
        added == (newly_confirmed(old(known)@, incoming@).len() > 0),
        !added ==> final(known)@ == old(known)@,
        added ==> final(known)@.to_multiset() == (old(known)@ + newly_confirmed(
            old(known)@,
            incoming@,
        )).to_multiset(),
        added ==> sorted_by_confirmation(final(known)@),
        added ==> final(known)@ == stable_sorted(old(known)@ + newly_confirmed(old(known)@, incoming@)),
        all_timestamped(final(known)@),
        ids_distinct(old(known)@) ==> ids_distinct(final(known)@),
{
    let ghost start = known@;
    let mut added = false;
    let mut i: usize = 0;
    while i < incoming.len()
        invariant
            i <= incoming@.len(),
            known@ == start + newly_confirmed(start, incoming@.take(i as int)),
            added == (newly_confirmed(start, incoming@.take(i as int)).len() > 0),
            all_timestamped(known@),
            ids_distinct(start) ==> ids_distinct(known@),
            forall|j: int|
                0 <= j < incoming@.len() && (#[trigger] incoming@[j]).confirmed
                    ==> incoming@[j].confirmation_ts is Some,
        decreases incoming@.len() - i,
    {
        let t = incoming[i];
        assert(incoming@.take(i as int + 1).drop_last() =~= incoming@.take(i as int));
        assert(incoming@.take(i as int + 1).last() == t);
        if t.confirmed && !contains_id(known, t.id) {
            let ghost before = known@;
            known.push(t);
            added = true;
            assert forall|a: int, b: int| 0 <= a < b < known@.len() && ids_distinct(before)
                implies (#[trigger] known@[a]).id != (#[trigger] known@[b]).id by {
                if b == before.len() {
                    assert(known@[a] == before[a]);
                }
            }
        }
        i = i + 1;
    }
    assert(incoming@.take(incoming@.len() as int) =~= incoming@);
    if added {
        let sorted = sort_by_confirmation(known);
        *known = sorted;
    }
    added
}

/// Merging never drops a transaction that was known, and afterwards every
/// confirmed incoming transaction is known by its id.
pub proof fn lemma_merge_keeps_and_covers(known: Seq<TxSummary>, incoming: Seq<TxSummary>, i: int)
    requires
        0 <= i < incoming.len(),
        incoming[i].confirmed,
    ensures
        has_id(known + newly_confirmed(known, incoming), incoming[i].id),
        forall|j: int|
            0 <= j < known.len() ==> (known + newly_confirmed(known, incoming)).to_multiset().count(
                #[trigger] known[j],
            ) >= 1,
    decreases incoming.len(),
{
    let prev = newly_confirmed(known, incoming.drop_last());
    let full = newly_confirmed(known, incoming);
    if i == incoming.len() - 1 {
        let t = incoming.last();
        if has_id(known + prev, t.id) {
            let k = choose|k: int| 0 <= k < (known + prev).len() && (#[trigger] (known + prev)[k]).id == t.id;
            assert((known + full)[k] == (known + prev)[k]);
        } else {
            assert((known + full)[(known + prev).len() as int] == t);
        }
    } else {
        lemma_merge_keeps_and_covers(known, incoming.drop_last(), i);
        let k = choose|k: int| 0 <= k < (known + prev).len() && (#[trigger] (known + prev)[k]).id == incoming[i].id;
        assert(full.len() >= prev.len());
        assert((known + full)[k] == (known + prev)[k]);
    }
    assert forall|j: int| 0 <= j < known.len() implies (known + full).to_multiset().count(
        #[trigger] known[j],
    ) >= 1 by {
        assert((known + full)[j] == known[j]);
    }
}

/// What merging adds: only confirmed incoming transactions, each with an
/// id that was not known yet and not added before it in the same merge, so
/// that known ids that were distinct stay distinct.
pub proof fn lemma_newly_confirmed_are_new(known: Seq<TxSummary>, incoming: Seq<TxSummary>)
    ensures
        forall|m: int|
            0 <= m < newly_confirmed(known, incoming).len() ==> (#[trigger] newly_confirmed(
                known,
                incoming,
            )[m]).confirmed && !has_id(known, newly_confirmed(known, incoming)[m].id)
                && incoming.contains(newly_confirmed(known, incoming)[m]),
        ids_distinct(known) ==> ids_distinct(known + newly_confirmed(known, incoming)),
        newly_confirmed(known, incoming).len() <= incoming.len(),
    decreases incoming.len(),
{
    if incoming.len() > 0 {
        let d = incoming.drop_last();
        lemma_newly_confirmed_are_new(known, d);
        let prev = newly_confirmed(known, d);
        let full = newly_confirmed(known, incoming);
        let t = incoming.last();
        assert forall|m: int| 0 <= m < prev.len() implies incoming.contains(#[trigger] prev[m]) by {
            assert(d.contains(prev[m]));
            let q = choose|q: int| 0 <= q < d.len() && d[q] == prev[m];
            assert(incoming[q] == d[q]);
        }
        if t.confirmed && !has_id(known + prev, t.id) {
            assert(full == prev.push(t));
            assert(incoming[incoming.len() - 1] == t);
            if has_id(known, t.id) {
                let q = choose|q: int| 0 <= q < known.len() && (#[trigger] known[q]).id == t.id;
                assert((known + prev)[q] == known[q]);
            }
            assert forall|m: int| 0 <= m < full.len() implies (#[trigger] full[m]).confirmed && !has_id(
                known,
                full[m].id,
            ) && incoming.contains(full[m]) by {
                if m < prev.len() {
                    assert(full[m] == prev[m]);
                }
            }
            if ids_distinct(known) {
                assert(ids_distinct(known + prev));
                assert(known + full =~= (known + prev).push(t));
                assert forall|a: int, b: int| 0 <= a < b < (known + full).len() implies (#[trigger] (
                known + full)[a]).id != (#[trigger] (known + full)[b]).id by {
                    if b == (known + prev).len() {
                        assert((known + full)[a] == (known + prev)[a]);
                        assert((known + full)[b] == t);
                    } else {
                        assert((known + full)[a] == (known + prev)[a]);
                        assert((known + full)[b] == (known + prev)[b]);
                    }
                }
            }
        }
    }
}

} // verus!
