//! The wallet home screen: the status line shown from the wallet
//! updater's messages, and what each clock tick sets off.
use vstd::prelude::*;

use crate::text::{decimal, push_decimal};

verus! {

/// A status message of the wallet updater.
#[derive(Clone, Debug)]
pub enum StatusMessage {
    UpdatingOutputs(String),
    UpdatingTransactions(String),
    FullScanWarn(String),
    Scanning(String, u8),
    ScanningComplete(String),
    UpdateWarning(String),
}

/// The status line for an updater message: a scan reports how far it has
/// come, every other message shows its own text.
pub open spec fn status_text(m: StatusMessage) -> Seq<char> {
    match m {
        StatusMessage::UpdatingOutputs(s) => s@,
        StatusMessage::UpdatingTransactions(s) => s@,
        StatusMessage::FullScanWarn(s) => s@,
        StatusMessage::Scanning(_, p) => "Scanning - "@ + decimal(p as nat) + "% complete"@,
        StatusMessage::ScanningComplete(s) => s@,
        StatusMessage::UpdateWarning(s) => s@,
    }
}

/// The status line shown for the latest updater message.
pub fn wallet_status_text(m: &StatusMessage) -> (s: String)
    ensures
        s@ == status_text(*m),
{
    match m {
        StatusMessage::UpdatingOutputs(s) => s.clone(),
        StatusMessage::UpdatingTransactions(s) => s.clone(),
        StatusMessage::FullScanWarn(s) => s.clone(),
        StatusMessage::Scanning(_, p) => {
            let mut s = String::from_str("Scanning - ");
            push_decimal(&mut s, *p as u64);
            s.append("% complete");
            s
        },
        StatusMessage::ScanningComplete(s) => s.clone(),
        StatusMessage::UpdateWarning(s) => s.clone(),
    }
}

/// The wallet status line repeats the updater's own text, except for a
/// scan, which reports its progress in whole percent.
pub proof fn lemma_status_lines(m: StatusMessage)
    ensures
        m matches StatusMessage::Scanning(_, p) ==> status_text(m) == "Scanning - "@ + decimal(
            p as nat,
        ) + "% complete"@,
        m matches StatusMessage::UpdatingOutputs(s) ==> status_text(m) == s@,
        m matches StatusMessage::UpdatingTransactions(s) ==> status_text(m) == s@,
        m matches StatusMessage::FullScanWarn(s) ==> status_text(m) == s@,
        m matches StatusMessage::ScanningComplete(s) ==> status_text(m) == s@,
        m matches StatusMessage::UpdateWarning(s) ==> status_text(m) == s@,
{
}

/// More than `limit_secs` seconds passed from `since` to `now`, both
/// given in nanoseconds on the same clock.
pub open spec fn more_than_secs_between(since: i64, now: i64, limit_secs: int) -> bool {
    now - since > limit_secs * 1_000_000_000
}

fn is_more_than_secs_between(since: i64, now: i64, limit_secs: i64) -> (r: bool)
    requires
        0 <= limit_secs <= 3600,
    ensures
        r == more_than_secs_between(since, now, limit_secs as int),
{
    (now as i128) - (since as i128) > (limit_secs as i128) * 1_000_000_000i128
}

/// What a clock tick sets off besides the price update.
#[derive(Clone, Copy, Debug, PartialEq, Eq, Structural)]
pub enum TickAction {
    Nothing,
    RefreshWalletInfo,
    FetchSlatepackAddress,
}

/// The work of one clock tick.
#[derive(Clone, Copy, Debug, PartialEq, Eq, Structural)]
pub struct TickPlan {
    /// Fetch the price history.
    pub update_prices: bool,
    /// Then refresh the summary, or else fetch the missing address.
    pub action: TickAction,
}

/// The work of a clock tick at `time`, given whether a wallet is open, when
/// the summary was last updated, and whether the slatepack address is still
/// unknown: nothing while no wallet is open; prices after more than a
/// minute; the summary after more than ten seconds; otherwise the address
/// while it is unknown.
pub open spec fn tick_plan(
    wallet_open: bool,
    time: i64,
    last_update: i64,
    address_is_empty: bool,
) -> TickPlan {
    if !wallet_open {
        TickPlan { update_prices: false, action: TickAction::Nothing }
    } else {
        TickPlan {
            update_prices: more_than_secs_between(last_update, time, 60),
            action: if more_than_secs_between(last_update, time, 10) {
                TickAction::RefreshWalletInfo
            } else if address_is_empty {
                TickAction::FetchSlatepackAddress
            } else {
                TickAction::Nothing
            },
        }
    }
}

/// The work of a clock tick (see `tick_plan`).
pub fn plan_tick(wallet_open: bool, time: i64, last_update: i64, address_is_empty: bool) -> (p:
    TickPlan)
    ensures
        p == tick_plan(wallet_open, time, last_update, address_is_empty),
{
    if !wallet_open {
        return TickPlan { update_prices: false, action: TickAction::Nothing };
    }
    let update_prices = is_more_than_secs_between(last_update, time, 60);
    let action = if is_more_than_secs_between(last_update, time, 10) {
        TickAction::RefreshWalletInfo
    } else if address_is_empty {
        TickAction::FetchSlatepackAddress
    } else {
        TickAction::Nothing
    };
    TickPlan { update_prices, action }
}

/// How a clock tick ended: the time of the last summary update, what is
/// set off, and whether the tick stopped on a failed price update.
#[derive(Clone, Copy, Debug, PartialEq, Eq, Structural)]
pub struct TickOutcome {
    pub last_update: i64,
    pub action: TickAction,
    pub price_update_failed: bool,
}

/// The end of a tick: a failed price update ends it with nothing set off
/// and the last update time kept; a summary refresh records
/// `refresh_time` as the last update; otherwise the plan's action goes
/// ahead with the last update time kept. Whether the price update
/// succeeded is read only when the plan made one.
pub open spec fn tick_outcome(
    plan: TickPlan,
    last_update: i64,
    price_update_ok: bool,
    refresh_time: i64,
) -> TickOutcome {
    if plan.update_prices && !price_update_ok {
        TickOutcome { last_update, action: TickAction::Nothing, price_update_failed: true }
    } else if plan.action == TickAction::RefreshWalletInfo {
        TickOutcome {
            last_update: refresh_time,
            action: TickAction::RefreshWalletInfo,
            price_update_failed: false,
        }
    } else {
        TickOutcome { last_update, action: plan.action, price_update_failed: false }
    }
}

/// The end of a tick (see `tick_outcome`).
pub fn complete_tick(plan: TickPlan, last_update: i64, price_update_ok: bool, refresh_time: i64) -> (o:
    TickOutcome)
    ensures
        o == tick_outcome(plan, last_update, price_update_ok, refresh_time),
{
    if plan.update_prices && !price_update_ok {
        TickOutcome { last_update, action: TickAction::Nothing, price_update_failed: true }
    } else {
        match plan.action {
            TickAction::RefreshWalletInfo => TickOutcome {
                last_update: refresh_time,
                action: TickAction::RefreshWalletInfo,
                price_update_failed: false,
            },
            _ => TickOutcome { last_update, action: plan.action, price_update_failed: false },
        }
    }
}

/// Whenever a tick fetches prices, it also refreshes the summary.
pub proof fn lemma_price_update_implies_refresh(
    wallet_open: bool,
    time: i64,
    last_update: i64,
    address_is_empty: bool,
)
    ensures
        tick_plan(wallet_open, time, last_update, address_is_empty).update_prices ==> tick_plan(
            wallet_open,
            time,
            last_update,
            address_is_empty,
        ).action == TickAction::RefreshWalletInfo,
{
}

/// What a tick sets off: nothing at all while no wallet is open; with a
/// wallet open, a summary refresh exactly when more than ten seconds
/// passed since the last update, prices exactly when more than sixty did,
/// and otherwise the slatepack address exactly while it is unknown.
pub proof fn lemma_tick_plan_rules(
    wallet_open: bool,
    time: i64,
    last_update: i64,
    address_is_empty: bool,
)
    ensures
        ({
            let p = tick_plan(wallet_open, time, last_update, address_is_empty);
            &&& !wallet_open ==> !p.update_prices && p.action == TickAction::Nothing
            &&& wallet_open ==> (p.update_prices <==> time - last_update > 60 * 1_000_000_000)
            &&& wallet_open ==> (p.action == TickAction::RefreshWalletInfo <==> time - last_update
                > 10 * 1_000_000_000)
            &&& wallet_open ==> (p.action == TickAction::FetchSlatepackAddress <==> (time
                - last_update <= 10 * 1_000_000_000 && address_is_empty))
        }),
{
}

/// What one clock tick is given: whether a wallet is open, the tick's
/// time, whether the slatepack address is unknown, whether a price update
/// made in it succeeded, and the time read when the summary is refreshed.
#[derive(Clone, Copy, Debug, PartialEq, Eq, Structural)]
pub struct Tick {
    pub wallet_open: bool,
    pub time: i64,
    pub address_is_empty: bool,
    pub price_update_ok: bool,
    pub refresh_time: i64,
}

/// The plan of a tick, from the last update time before it.
pub open spec fn plan_of(last_update: i64, t: Tick) -> TickPlan {
    tick_plan(t.wallet_open, t.time, last_update, t.address_is_empty)
}

/// The last update time after a run of ticks that started from `last0`.
pub open spec fn last_update_after(last0: i64, ticks: Seq<Tick>) -> i64
    decreases ticks.len(),
{
    if ticks.len() == 0 {
        last0
    } else {
        let prev = last_update_after(last0, ticks.drop_last());
        let t = ticks.last();
        tick_outcome(plan_of(prev, t), prev, t.price_update_ok, t.refresh_time).last_update
    }
}

/// The tick at `i` of the run fetched prices, and the fetch succeeded.
pub open spec fn prices_updated_at(last0: i64, ticks: Seq<Tick>, i: int) -> bool {
    plan_of(last_update_after(last0, ticks.take(i)), ticks[i]).update_prices
        && ticks[i].price_update_ok
}

/// The clock does not go back, and a summary refresh reads a time no
/// earlier than its tick's.
pub open spec fn clock_consistent(ticks: Seq<Tick>) -> bool {
    &&& forall|k: int| 0 <= k < ticks.len() ==> (#[trigger] ticks[k]).time <= ticks[k].refresh_time
    &&& forall|k: int, l: int|
        0 <= k <= l < ticks.len() ==> (#[trigger] ticks[k]).time <= (#[trigger] ticks[l]).time
}

/// The tick at `i` of the run set off a summary refresh.
pub open spec fn refreshed_at(last0: i64, ticks: Seq<Tick>, i: int) -> bool {
    let prev = last_update_after(last0, ticks.take(i));
    tick_outcome(plan_of(prev, ticks[i]), prev, ticks[i].price_update_ok, ticks[i].refresh_time).action
        == TickAction::RefreshWalletInfo
}

/// A tick that sets off a summary refresh records the time read for the
/// refresh as the last update, and any other tick keeps the last update
/// time. A planned refresh goes ahead unless the price update before it
/// failed; a failed price update sets nothing off.
pub proof fn lemma_refresh_records_time(
    plan: TickPlan,
    last_update: i64,
    price_update_ok: bool,
    refresh_time: i64,
)
    ensures
        ({
            let o = tick_outcome(plan, last_update, price_update_ok, refresh_time);
            &&& o.action == TickAction::RefreshWalletInfo ==> o.last_update == refresh_time
            &&& o.action != TickAction::RefreshWalletInfo ==> o.last_update == last_update
            &&& o.price_update_failed <==> (plan.update_prices && !price_update_ok)
            &&& o.price_update_failed ==> o.action == TickAction::Nothing
            &&& !o.price_update_failed ==> o.action == plan.action
        }),
{
}

proof fn lemma_last_update_not_before(last0: i64, ticks: Seq<Tick>, i: int, m: int)
    requires
        0 <= i < m <= ticks.len(),
        clock_consistent(ticks),
        refreshed_at(last0, ticks, i),
    ensures
        last_update_after(last0, ticks.take(m)) >= ticks[i].time,
    decreases m - i,
{
    assert(ticks.take(m).drop_last() =~= ticks.take(m - 1));
    assert(ticks.take(m).last() == ticks[m - 1]);
    if m > i + 1 {
        lemma_last_update_not_before(last0, ticks, i, m - 1);
        assert(ticks[i].time <= ticks[m - 1].time);
        assert(ticks[m - 1].time <= ticks[m - 1].refresh_time);
    }
}

/// Prices are fetched at most once a minute: two successful price updates
/// in a run of ticks lie more than sixty seconds apart, while the clock
/// does not go back and each refresh reads a time no earlier than its
/// tick's.
pub proof fn lemma_price_updates_spaced(last0: i64, ticks: Seq<Tick>, i: int, j: int)
    requires
        0 <= i < j < ticks.len(),
        clock_consistent(ticks),
        prices_updated_at(last0, ticks, i),
        prices_updated_at(last0, ticks, j),
    ensures
        ticks[j].time - ticks[i].time > 60 * 1_000_000_000,
{
    assert(refreshed_at(last0, ticks, i));
    lemma_last_update_not_before(last0, ticks, i, j);
}

/// The summary is refreshed at most once every ten seconds: two ticks of a
/// run that set off a summary refresh lie more than ten seconds apart,
/// while the clock does not go back and each refresh reads a time no
/// earlier than its tick's.
pub proof fn lemma_refreshes_spaced(last0: i64, ticks: Seq<Tick>, i: int, j: int)
    requires
        0 <= i < j < ticks.len(),
        clock_consistent(ticks),
        refreshed_at(last0, ticks, i),
        refreshed_at(last0, ticks, j),
    ensures
        ticks[j].time - ticks[i].time > 10 * 1_000_000_000,
{
    lemma_last_update_not_before(last0, ticks, i, j);
}

} // verus!
