use grin_gui::gui::element::node::embedded::summary::{format_sync_status, SyncStatus};
use grin_gui::gui::element::settings::general::{configured_theme_name, startup_theme_name, theme_name_or};
use grin_gui::gui::element::settings::wallet::StateContainer as WalletSettings;
use grin_gui::gui::element::wallet::setup::init::{unique_wallet_display_name, wallet_dir_name};
use grin_gui::gui::element::wallet::setup::wallet_import::{check_import_name, init_wallet_name};
use grin_gui::gui::element::wallet::setup::wallet_list::{selected_after_click, validate_directory};
use grin_gui::gui::element::wallet::setup::wallet_restore::{seed_has_phrase_length, SeedState};
use grin_gui::gui::element::wallet::setup::wallet_setup::{
    back_target, chosen_display_name, AdvancedOptionsState, PasswordState,
    StateContainer as SetupForm,
};
use grin_gui::gui::element::wallet::setup::Mode as SetupMode;
use grin_gui::gui::element::wallet::Mode as WalletMode;
use grin_gui::gui::update::{
    bin_name, interaction_clears_error, mode_after_key, window_size_to_store, InteractionKind,
    Key, TargetOs,
};
use grin_gui::gui::{Mode, ModalState, ModalType, SelfUpdateState, SelfUpdateStatus, State};

fn names(v: &[&str]) -> Vec<String> {
    v.iter().map(|s| s.to_string()).collect()
}

#[test]
fn new_wallet_names_are_unique() {
    assert_eq!(unique_wallet_display_name("Default", &names(&[])), "Default");
    assert_eq!(unique_wallet_display_name("Default", &names(&["Default"])), "Default 1");
    assert_eq!(
        unique_wallet_display_name("Default", &names(&["Default 1", "Default", "Default 2"])),
        "Default 3"
    );
    assert_eq!(unique_wallet_display_name("Default", &names(&["Default 1"])), "Default");
}

#[test]
fn imported_wallet_names_are_unique() {
    assert_eq!(init_wallet_name(&names(&[])), "wallet");
    assert_eq!(init_wallet_name(&names(&["wallet"])), "wallet2");
    assert_eq!(init_wallet_name(&names(&["wallet2", "wallet", "wallet3"])), "wallet4");
}

#[test]
fn wallet_folder_names() {
    assert_eq!(wallet_dir_name("Default 1"), "default_1");
    assert_eq!(wallet_dir_name("My Main Wallet"), "my_main_wallet");
    assert_eq!(wallet_dir_name("ÄRGER"), "ärger");
}

#[test]
fn recovery_phrase_lengths() {
    let twelve = "w1 w2 w3 w4 w5 w6 w7 w8 w9 w10 w11 w12";
    assert!(seed_has_phrase_length(twelve));
    assert!(seed_has_phrase_length(&format!("{} {}", twelve, twelve)));
    assert!(!seed_has_phrase_length("w1 w2"));
    assert!(!seed_has_phrase_length(""));
    let s = SeedState::default();
    assert!(s.input_value.is_empty() && s.input_state.is_empty());
}

#[test]
fn passwords_must_agree() {
    let mut p = PasswordState::default();
    assert!(!p.check_password());
    assert!(!p.show_password_status());
    p.input_value = "secret".to_string();
    p.repeat_input_value = "secreT".to_string();
    assert!(!p.check_password());
    assert!(p.show_password_status());
    p.repeat_input_value = "secret".to_string();
    assert!(p.check_password());
}

#[test]
fn display_name_and_back_navigation() {
    let a = AdvancedOptionsState::default();
    assert_eq!(chosen_display_name(&a.display_name_value, "Default"), "Default");
    assert_eq!(chosen_display_name(&"Savings".to_string(), "Default"), "Savings");
    assert_eq!(back_target(WalletMode::Init), (WalletMode::Init, SetupMode::Init));
    assert_eq!(back_target(WalletMode::CreateWallet), (WalletMode::Init, SetupMode::ListWallets));
}

#[test]
fn wallet_list_choices() {
    assert_eq!(validate_directory("/tmp/w"), Ok(true));
    assert_eq!(selected_after_click(1, true, 3), 3);
    assert_eq!(selected_after_click(1, false, 3), 1);
}

#[test]
fn mixnet_addresses() {
    let mut state = WalletSettings::default();
    let mut keys: Option<Vec<String>> = None;
    state.change_mixnet_address(&mut keys, 1, "addr-b".to_string());
    assert_eq!(keys, Some(names(&["", "addr-b", ""])));
    assert_eq!(state.mw_mixnet_address_2, "addr-b");
    assert_eq!(state.mw_mixnet_address_1, "");
    state.change_mixnet_address(&mut keys, 0, "addr-a".to_string());
    assert_eq!(keys, Some(names(&["addr-a", "addr-b", ""])));
    let mut longer = Some(names(&["x", "y", "z", "w"]));
    state.change_mixnet_address(&mut longer, 2, "c".to_string());
    assert_eq!(longer, Some(names(&["x", "y", "c", "w"])));
    assert_eq!(state.mw_mixnet_address_3, "c");
}

#[test]
fn theme_choice() {
    assert_eq!(theme_name_or(None, "Dark"), "Dark");
    assert_eq!(theme_name_or(Some("Alliance".to_string()), "Dark"), "Alliance");
    assert_eq!(configured_theme_name(None), "Dark");
    assert_eq!(configured_theme_name(Some("Light".to_string())), "Light");
    assert_eq!(startup_theme_name(None), "Alliance");
    assert_eq!(startup_theme_name(Some("Dark".to_string())), "Dark");
}

#[test]
fn sync_status_lines() {
    assert_eq!(format_sync_status(&SyncStatus::Initial), "Initializing");
    assert_eq!(format_sync_status(&SyncStatus::NoSync), "Running");
    assert_eq!(format_sync_status(&SyncStatus::AwaitingPeers(true)), "Waiting for peers");
    assert_eq!(
        format_sync_status(&SyncStatus::HeaderSync { sync_head_height: 50, highest_height: 200 }),
        "Sync step 1/7: Downloading headers: 25%"
    );
    assert_eq!(
        format_sync_status(&SyncStatus::HeaderSync { sync_head_height: 50, highest_height: 0 }),
        "Sync step 1/7: Downloading headers: 0%"
    );
    assert_eq!(
        format_sync_status(&SyncStatus::TxHashsetPibd { completed_leaves: 3, leaves_required: 9 }),
        "Sync step 2/7: Downloading Tx state (PIBD) - 3 / 9 entries - 33%"
    );
    assert_eq!(
        format_sync_status(&SyncStatus::TxHashsetDownload {
            total_size: 250_000_000,
            downloaded_size: 125_000_000,
            rate_text: "12.5".to_string(),
            waiting_secs: 0,
        }),
        "Sync step 2/7: Downloading 250(MB) chain state for state sync: 50% at 12.5(kB/s)"
    );
    assert_eq!(
        format_sync_status(&SyncStatus::TxHashsetDownload {
            total_size: 0,
            downloaded_size: 0,
            rate_text: String::new(),
            waiting_secs: 7,
        }),
        "Sync step 2/7: Downloading chain state for state sync. Waiting remote peer to start: 7s"
    );
    assert_eq!(
        format_sync_status(&SyncStatus::TxHashsetSetup {
            headers: Some(1),
            headers_total: Some(4),
            kernel_pos: None,
            kernel_pos_total: None,
        }),
        "Sync step 3/7: Preparing for validation (kernel history) - 1/4 - 25%"
    );
    assert_eq!(
        format_sync_status(&SyncStatus::TxHashsetSetup {
            headers: Some(1),
            headers_total: None,
            kernel_pos: Some(3),
            kernel_pos_total: Some(4),
        }),
        "Sync step 3/7: Preparing for validation (kernel position) - 3/4 - 75%"
    );
    assert_eq!(
        format_sync_status(&SyncStatus::TxHashsetSetup {
            headers: None,
            headers_total: None,
            kernel_pos: None,
            kernel_pos_total: None,
        }),
        "Sync step 3/7: Preparing chain state for validation"
    );
    assert_eq!(
        format_sync_status(&SyncStatus::TxHashsetRangeProofsValidation { rproofs: 1, rproofs_total: 3 }),
        "Sync step 4/7: Validating chain state - range proofs: 33%"
    );
    assert_eq!(
        format_sync_status(&SyncStatus::TxHashsetKernelsValidation { kernels: 9, kernels_total: 0 }),
        "Sync step 5/7: Validating chain state - kernels: 0%"
    );
    assert_eq!(
        format_sync_status(&SyncStatus::TxHashsetSave),
        "Sync step 6/7: Finalizing chain state for state sync"
    );
    assert_eq!(
        format_sync_status(&SyncStatus::TxHashsetDone),
        "Sync step 6/7: Finalized chain state for state sync"
    );
    assert_eq!(
        format_sync_status(&SyncStatus::BodySync { current_height: 100, highest_height: 100 }),
        "Sync step 7/7: Downloading blocks: 100%"
    );
    assert_eq!(format_sync_status(&SyncStatus::Shutdown), "Shutting down, closing connections");
}

#[test]
fn modal_and_update_state() {
    let mut m = ModalState::default();
    assert!(!m.show_modal && m.modal_type == ModalType::Error);
    m.show_exit(true);
    assert!(m.show_modal && m.modal_type == ModalType::Exit);
    m.show_exit(false);
    assert_eq!(m, ModalState::default());
    assert!(SelfUpdateState::default().status.is_none());
    assert_eq!(SelfUpdateStatus::InProgress.label(None), "updating");
    assert_eq!(SelfUpdateStatus::Failed.label(None), "failed");
    assert_eq!(SelfUpdateStatus::Failed.label(Some("Failed".to_string())), "Failed");
    assert!(matches!(State::default(), State::Ready));
}

#[test]
fn keyboard_shortcuts() {
    assert_eq!(mode_after_key(Mode::About, true, true, Key::C), Mode::Catalog);
    assert_eq!(mode_after_key(Mode::About, true, true, Key::S), Mode::Settings);
    assert_eq!(mode_after_key(Mode::About, true, true, Key::I), Mode::Install);
    assert_eq!(mode_after_key(Mode::About, true, true, Key::A), Mode::About);
    assert_eq!(mode_after_key(Mode::About, false, true, Key::C), Mode::About);
    assert_eq!(mode_after_key(Mode::About, true, false, Key::C), Mode::About);
}

#[test]
fn window_sizes_and_binaries() {
    assert_eq!(window_size_to_store(900, 620), Some((900, 620)));
    assert_eq!(window_size_to_store(0, 620), None);
    assert_eq!(window_size_to_store(900, 0), None);
    assert_eq!(bin_name(TargetOs::Windows), "grin-gui.exe");
    assert_eq!(bin_name(TargetOs::MacOs), "grin-gui");
    assert_eq!(bin_name(TargetOs::Linux), "grin-gui.AppImage");
}

#[test]
fn which_interactions_clear_errors() {
    assert!(!interaction_clears_error(InteractionKind::OpenErrorModal));
    assert!(!interaction_clears_error(InteractionKind::CloseErrorModal));
    assert!(!interaction_clears_error(InteractionKind::WriteToClipboard));
    assert!(interaction_clears_error(InteractionKind::Other));
}

#[test]
fn network_switch_moves_default_folder_only() {
    let mut form = SetupForm::default();
    form.advanced_options_state.top_level_directory = "/home/u/.grin/main/wallet_data".to_string();
    form.toggle_is_testnet("/home/u/.grin/main/wallet_data".to_string(), "/home/u/.grin/test/wallet_data".to_string());
    assert!(form.is_testnet);
    assert_eq!(form.advanced_options_state.top_level_directory, "/home/u/.grin/test/wallet_data");
    form.toggle_is_testnet("/home/u/.grin/main/wallet_data".to_string(), "/home/u/.grin/test/wallet_data".to_string());
    assert!(!form.is_testnet);
    assert_eq!(form.advanced_options_state.top_level_directory, "/home/u/.grin/main/wallet_data");
    form.advanced_options_state.top_level_directory = "/custom".to_string();
    form.toggle_is_testnet("/home/u/.grin/main/wallet_data".to_string(), "/home/u/.grin/test/wallet_data".to_string());
    assert_eq!(form.advanced_options_state.top_level_directory, "/custom");
    form.toggle_restore_from_seed();
    form.toggle_advanced_options();
    assert!(form.restore_from_seed && form.show_advanced_options);
}

#[test]
fn import_refuses_a_name_in_use() {
    let existing = vec!["main".to_string(), "savings".to_string()];
    assert_eq!(check_import_name(&existing, &"other".to_string()), Ok(()));
    assert_eq!(
        check_import_name(&existing, &"savings".to_string()),
        Err(vec![
            "Failed to Import Wallet".to_string(),
            "Wallet with name \"savings\" already exists".to_string(),
        ])
    );
    assert_eq!(check_import_name(&Vec::new(), &"main".to_string()), Ok(()));
}
