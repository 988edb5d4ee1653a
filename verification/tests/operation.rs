use grin_gui::gui::element::settings::wallet::TxMethod;
use grin_gui::gui::element::wallet::operation::action_menu::{mode_for_action, Action};
use grin_gui::gui::element::wallet::operation::apply_tx::{
    short_slatepack_display, StateContainer as ApplyScreen,
};
use grin_gui::gui::element::wallet::operation::apply_tx_confirm::{
    accept_finished, after_accept, parse_info_strings, plan_accept, signing_after, AcceptStep,
    SlateState, SlatepackFile,
};
use grin_gui::gui::element::wallet::operation::create_tx_contracts::{
    ContributionChoice, StateContainer,
};
use grin_gui::gui::element::wallet::operation::home::{
    complete_tick, plan_tick, wallet_status_text, StatusMessage, TickAction, TickPlan,
};
use grin_gui::gui::element::wallet::operation::open::{open_screen_title, PasswordState};
use grin_gui::gui::element::wallet::operation::show_slatepack::{submit_target, StateContainer as SlatepackScreen};
use grin_gui::gui::element::wallet::operation::tx_list_display::{
    merge_confirmed, query_for_mode, Mode as ListMode, Timestamp, TxSummary,
};
use grin_gui::gui::element::wallet::operation::{Mode, OperationState};

fn tx(id: u32, confirmed: bool, secs: i64) -> TxSummary {
    TxSummary {
        id,
        confirmed,
        confirmation_ts: if confirmed { Some(Timestamp { secs, nanos: 0 }) } else { None },
        amount_credited: 10,
        amount_debited: 0,
    }
}

#[test]
fn info_strings_take_the_amount() {
    assert_eq!(parse_info_strings("You receive [AMOUNT] grin.", "1.5"), "You receive 1.5 grin.");
    assert_eq!(parse_info_strings("Amount: ", "2"), "Amount: 2");
    assert_eq!(parse_info_strings("[AMOUNT]", "3"), "3");
    assert_eq!(parse_info_strings("a [AMOUNT] b [AMOUNT] c", "4"), "a 4 b ");
}

#[test]
fn slatepack_short_form() {
    let long: String = "BEGINSLATEPACK".to_string() + &"x".repeat(40) + "ENDSLATEPACK.";
    let short = short_slatepack_display(&long);
    assert_eq!(short, format!("{}...{}", &long[..27], &long[long.len() - 23..]));
    assert_eq!(short_slatepack_display("abc"), "abc...abc");
    // Cut by bytes where both cuts fall between characters.
    let mixed = "a".to_string() + &"é".repeat(30) + "b";
    assert_eq!(short_slatepack_display(&mixed), format!("{}...{}", &mixed[..27], &mixed[mixed.len() - 23..]));
    assert_eq!(short_slatepack_display(&mixed).len(), 27 + 3 + 23);
}

#[test]
fn accepting_slates() {
    assert_eq!(plan_accept(false, TxMethod::Legacy, SlateState::Standard1, 5, false), AcceptStep::Nothing);
    assert_eq!(
        plan_accept(true, TxMethod::Legacy, SlateState::Standard1, 5, false),
        AcceptStep::ReceiveStandard1
    );
    assert_eq!(
        plan_accept(true, TxMethod::Legacy, SlateState::Standard2, 5, false),
        AcceptStep::FinalizeStandard2
    );
    assert_eq!(plan_accept(true, TxMethod::Legacy, SlateState::Invoice1, 5, false), AcceptStep::Nothing);
    assert_eq!(
        plan_accept(true, TxMethod::Contracts, SlateState::Invoice1, 5, false),
        AcceptStep::ContractSign { net_change: Some(-5), self_send: false }
    );
    assert_eq!(
        plan_accept(true, TxMethod::Contracts, SlateState::Standard2, 5, true),
        AcceptStep::ContractSign { net_change: None, self_send: true }
    );
    assert_eq!(plan_accept(true, TxMethod::Contracts, SlateState::Standard3, 5, true), AcceptStep::Nothing);
    assert!(signing_after(AcceptStep::ReceiveStandard1));
    assert!(!signing_after(AcceptStep::Nothing));
}

#[test]
fn finishing_an_exchange() {
    assert!(!accept_finished(AcceptStep::ReceiveStandard1, SlateState::Standard3));
    assert!(accept_finished(AcceptStep::FinalizeStandard2, SlateState::Unknown));
    let sign = AcceptStep::ContractSign { net_change: None, self_send: false };
    assert!(accept_finished(sign, SlateState::Invoice3));
    assert!(!accept_finished(sign, SlateState::Standard2));
    let self_sign = AcceptStep::ContractSign { net_change: None, self_send: true };
    assert!(accept_finished(self_sign, SlateState::Standard2));
    assert_eq!(after_accept(true, false), (Mode::TxDone, SlatepackFile::Remove));
    assert_eq!(after_accept(false, true), (Mode::ShowSlatepack, SlatepackFile::Write));
}

#[test]
fn contract_amounts() {
    let mut s = StateContainer::default();
    assert_eq!(s.begin_create(None), None);
    assert!(s.amount_error);
    let plan = s.begin_create(Some(100)).unwrap();
    assert!(!s.amount_error);
    assert_eq!(plan.net_change, -100);
    assert_eq!(plan.num_participants, 2);
    assert!(!plan.attach_sender_address);
    s.contribution_choice = ContributionChoice::Credit;
    let credit = s.begin_create(Some(100)).unwrap();
    assert_eq!(credit.net_change, 100);
    assert!(credit.attach_sender_address);
    assert_eq!(s.begin_create(Some(0)), None);
    assert_eq!(s.begin_create(Some(u64::MAX)), None);
    assert!(s.amount_error);
}

#[test]
fn contract_self_send() {
    let own = Some("grin1own".to_string());
    let mut s = StateContainer::default();
    s.set_recipient_address("grin1other".to_string(), &own);
    assert!(!s.is_self_send);
    s.set_recipient_address("grin1own".to_string(), &own);
    assert!(s.is_self_send);
    let plan = s.begin_create(None).unwrap();
    assert_eq!(plan.net_change, 0);
    assert_eq!(plan.num_participants, 1);
    assert!(plan.self_send && plan.attach_sender_address);
    assert_eq!(s.begin_create(Some(u64::MAX)), None);
    let mut t = StateContainer::default();
    t.select_self_send(true, &own);
    assert!(t.is_self_send);
    assert_eq!(t.recipient_address_value, "grin1own");
    t.set_slatepack_address_error();
    assert!(t.slatepack_address_error);
    t.begin_create(Some(1));
    assert!(!t.slatepack_address_error);
}

#[test]
fn status_lines() {
    assert_eq!(wallet_status_text(&StatusMessage::Scanning("x".to_string(), 42)), "Scanning - 42% complete");
    assert_eq!(wallet_status_text(&StatusMessage::UpdateWarning("careful".to_string())), "careful");
}

const SEC: i64 = 1_000_000_000;

#[test]
fn tick_plans() {
    let last = 1_000 * SEC;
    let p = plan_tick(false, last + 1000 * SEC, last, true);
    assert!(!p.update_prices && p.action == TickAction::Nothing);
    let p = plan_tick(true, last + 61 * SEC, last, false);
    assert!(p.update_prices && p.action == TickAction::RefreshWalletInfo);
    let p = plan_tick(true, last + 60 * SEC, last, false);
    assert!(!p.update_prices && p.action == TickAction::RefreshWalletInfo);
    let p = plan_tick(true, last + 60 * SEC + 1, last, false);
    assert!(p.update_prices);
    let p = plan_tick(true, last + 10 * SEC, last, true);
    assert!(!p.update_prices && p.action == TickAction::FetchSlatepackAddress);
    let p = plan_tick(true, last - 5 * SEC - 300, last, false);
    assert!(!p.update_prices && p.action == TickAction::Nothing);
    let p = plan_tick(true, i64::MAX, i64::MIN, false);
    assert!(p.update_prices && p.action == TickAction::RefreshWalletInfo);
}

#[test]
fn tick_outcomes() {
    let refresh = TickPlan { update_prices: true, action: TickAction::RefreshWalletInfo };
    let o = complete_tick(refresh, 5, false, 99);
    assert!(o.price_update_failed);
    assert_eq!((o.last_update, o.action), (5, TickAction::Nothing));
    let o = complete_tick(refresh, 5, true, 99);
    assert!(!o.price_update_failed);
    assert_eq!((o.last_update, o.action), (99, TickAction::RefreshWalletInfo));
    let fetch = TickPlan { update_prices: false, action: TickAction::FetchSlatepackAddress };
    let o = complete_tick(fetch, 5, false, 99);
    assert_eq!((o.last_update, o.action, o.price_update_failed), (5, TickAction::FetchSlatepackAddress, false));
}

#[test]
fn price_updates_a_minute_apart() {
    // Each tick records the refresh time when it refreshes the summary.
    let mut last = 0i64;
    let mut updates: Vec<i64> = Vec::new();
    for secs in [0i64, 61, 66, 130, 140, 300, 305, 320] {
        let time = secs * SEC;
        let plan = plan_tick(true, time, last, false);
        let o = complete_tick(plan, last, true, time);
        if plan.update_prices && !o.price_update_failed {
            updates.push(secs);
        }
        last = o.last_update;
    }
    assert_eq!(updates, vec![61, 130, 300]);
    for w in updates.windows(2) {
        assert!(w[1] - w[0] > 60);
    }
}

#[test]
fn list_queries() {
    let q = query_for_mode(ListMode::Outstanding);
    assert_eq!(q.exclude_cancelled, Some(true));
    assert_eq!(q.include_outstanding_only, Some(true));
    assert!(q.sort_descending);
    let r = query_for_mode(ListMode::Recent);
    assert_eq!((r.exclude_cancelled, r.include_outstanding_only), (Some(true), None));
    let n = query_for_mode(ListMode::NotInit);
    assert_eq!((n.exclude_cancelled, n.include_outstanding_only), (None, None));
}

#[test]
fn confirmed_transactions_are_merged_in_order() {
    let mut known = vec![tx(1, true, 50)];
    let added = merge_confirmed(&mut known, &vec![tx(2, true, 10), tx(3, false, 0), tx(1, true, 50), tx(4, true, 30), tx(2, true, 10)]);
    assert!(added);
    let ids: Vec<u32> = known.iter().map(|t| t.id).collect();
    assert_eq!(ids, vec![2, 4, 1]);
    let again = merge_confirmed(&mut known, &vec![tx(4, true, 30), tx(9, false, 0)]);
    assert!(!again);
    assert_eq!(known.len(), 3);
}

#[test]
fn confirmed_transactions_keep_distinct_ids_and_stable_order() {
    let mut known = vec![tx(7, true, 20), tx(8, true, 20)];
    let added = merge_confirmed(&mut known, &vec![tx(9, true, 20), tx(5, true, 5), tx(7, true, 1), tx(6, true, 20)]);
    assert!(added);
    let ids: Vec<u32> = known.iter().map(|t| t.id).collect();
    assert_eq!(ids, vec![5, 7, 8, 9, 6]);
}

#[test]
fn screen_navigation() {
    assert_eq!(mode_for_action(Action::CreateTx), Mode::CreateTx);
    assert_eq!(mode_for_action(Action::ApplyTx), Mode::ApplyTx);
    assert_eq!(submit_target(Some(Mode::ApplyTx)), Mode::ApplyTx);
    assert_eq!(submit_target(None), Mode::Home);
    let mut screen = SlatepackScreen::new("View".to_string(), "Desc".to_string());
    screen.encrypted_slate = Some("slate".to_string());
    screen.submit_mode = Some(Mode::TxDone);
    screen.title_label = "Other".to_string();
    assert_eq!(screen.submit("View".to_string(), "Desc".to_string()), Mode::TxDone);
    assert!(screen.encrypted_slate.is_none() && screen.submit_mode.is_none());
    assert_eq!((screen.title_label.as_str(), screen.desc.as_str()), ("View", "Desc"));
    assert_eq!(screen.submit("View".to_string(), "Desc".to_string()), Mode::Home);
    let mut op = OperationState::default();
    assert_eq!(op.mode, Mode::Home);
    assert!(!op.wallet_not_open());
    op.set_wallet_not_open();
    assert!(op.wallet_not_open());
    assert_eq!(op.mode, Mode::Open);
    op.mode = Mode::Home;
    op.clear_wallet_not_open();
    assert!(!op.wallet_not_open());
    assert_eq!(op.mode, Mode::Home);
}

#[test]
fn open_screen() {
    assert_eq!(PasswordState::default().input_value, "");
    assert_eq!(open_screen_title(Some("Main".to_string()), "Open".to_string()), "Main");
    assert_eq!(open_screen_title(Some(String::new()), "Open".to_string()), "Open");
    assert_eq!(open_screen_title(None, "Open".to_string()), "Open");
}

#[test]
fn reading_a_slatepack() {
    let mut screen = ApplyScreen::new("Paste a slatepack".to_string());
    assert!(!screen.can_continue && screen.slatepack_read_data_full.is_empty());
    let value = "BEGINSLATEPACK. ".to_string() + &"q".repeat(50) + " ENDSLATEPACK.";
    screen.record_read(&value, true, "Could not read".to_string());
    assert!(screen.can_continue);
    assert_eq!(screen.slatepack_read_data_full, value);
    assert_eq!(screen.slatepack_read_data, format!("{}...{}", &value[..27], &value[value.len() - 23..]));
    screen.record_read("garbage", false, "Could not read".to_string());
    assert!(!screen.can_continue && screen.slatepack_read_data_full.is_empty());
    assert_eq!(screen.slatepack_read_data, "Could not read");
    screen.back("Paste a slatepack".to_string());
    assert_eq!(screen.slatepack_read_data, "Paste a slatepack");
}
