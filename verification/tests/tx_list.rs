use grin_gui::gui::element::wallet::operation::tx_list::{
    create_tx_display_status, default_home_header_columns, default_tx_list_header_columns,
    header_keys, net_difference, row_actions, row_cells, row_title, toggle_expanded,
    CatalogSearchState, ColumnKey, ColumnSettings, HeaderColumn, HeaderState, SortDirection,
    TxListColumnKey, TxListColumnSettings, TxListHeaderState, TxListResultSize,
};

const SHOWN_KEYS: [ColumnKey; 18] = [
    ColumnKey::Id,
    ColumnKey::NetDifference,
    ColumnKey::CreationTime,
    ColumnKey::Status,
    ColumnKey::ConfirmationTime,
    ColumnKey::Type,
    ColumnKey::SharedTransactionId,
    ColumnKey::TTLCutoff,
    ColumnKey::Height,
    ColumnKey::IsConfirmed,
    ColumnKey::NumInputs,
    ColumnKey::NumOutputs,
    ColumnKey::AmountCredited,
    ColumnKey::AmountDebited,
    ColumnKey::Fee,
    ColumnKey::PaymentProof,
    ColumnKey::Kernel,
    ColumnKey::TxData,
];

#[test]
fn column_names() {
    assert_eq!(ColumnKey::Id.as_string(), "tx_id");
    assert_eq!(ColumnKey::CreationTime.as_string(), "tx-creation-time");
    assert_eq!(ColumnKey::NetDifference.as_string(), "tx-net-difference");
    assert_eq!(ColumnKey::TxData.as_string(), "tx_data");
    assert_eq!(TxListColumnKey::CreationTime.as_string(), "tx_creation_time");
    assert_eq!(TxListColumnKey::ConfirmationTime.as_string(), "tx-confirmation-time");
}

#[test]
fn column_names_read_back() {
    for k in SHOWN_KEYS {
        let back = ColumnKey::from_name(&k.as_string());
        if k == ColumnKey::CreationTime {
            assert_eq!(back, None);
        } else {
            assert_eq!(back, Some(k));
        }
    }
    assert_eq!(ColumnKey::from_name("tx_creation_time"), Some(ColumnKey::CreationTime));
    assert_eq!(ColumnKey::from_name("no such column"), None);
}

#[test]
fn tx_list_column_names_read_back() {
    let all = [
        TxListColumnKey::Id,
        TxListColumnKey::Type,
        TxListColumnKey::SharedTransactionId,
        TxListColumnKey::CreationTime,
        TxListColumnKey::TTLCutoff,
        TxListColumnKey::Height,
        TxListColumnKey::IsConfirmed,
        TxListColumnKey::ConfirmationTime,
        TxListColumnKey::NumInputs,
        TxListColumnKey::NumOutputs,
        TxListColumnKey::AmountCredited,
        TxListColumnKey::AmountDebited,
        TxListColumnKey::Fee,
        TxListColumnKey::NetDifference,
        TxListColumnKey::PaymentProof,
        TxListColumnKey::Kernel,
        TxListColumnKey::TxData,
    ];
    for k in all {
        assert_eq!(TxListColumnKey::from_name(&k.as_string()), Some(k));
    }
    assert_eq!(TxListColumnKey::from_name("tx-status"), None);
}

#[test]
fn column_titles_use_translation() {
    assert_eq!(ColumnKey::Fee.title(Some("Fee".to_string())), "Fee");
    assert_eq!(ColumnKey::Fee.title(None), "tx_fee");
    assert_eq!(TxListColumnKey::Kernel.title(Some(String::new())), "tx_kernel");
}

#[test]
fn sort_direction_toggles() {
    assert_eq!(SortDirection::Asc.toggle(), SortDirection::Desc);
    assert_eq!(SortDirection::Desc.toggle(), SortDirection::Asc);
    assert_eq!(SortDirection::Asc.toggle().toggle(), SortDirection::Asc);
}

#[test]
fn result_sizes() {
    let all = TxListResultSize::all();
    assert_eq!(
        all,
        vec![TxListResultSize::_25, TxListResultSize::_50, TxListResultSize::_100, TxListResultSize::_500]
    );
    let values: Vec<usize> = all.iter().map(|r| r.as_usize()).collect();
    assert_eq!(values, vec![25, 50, 100, 500]);
    assert_eq!(TxListResultSize::default(), TxListResultSize::_25);
}

#[test]
fn column_settings_defaults() {
    let s = ColumnSettings::default();
    assert_eq!(s.columns.len(), 18);
    for (i, c) in s.columns.iter().enumerate() {
        assert_eq!(c.key, SHOWN_KEYS[i]);
        assert_eq!(c.order, i);
    }
    let t = TxListColumnSettings::default();
    assert_eq!(t.columns.len(), 18);
    assert_eq!(t.columns[3].key, ColumnKey::Status);
    assert_eq!(t.columns[17].order, 17);
}

#[test]
fn header_defaults() {
    let home = default_home_header_columns();
    let shown: Vec<ColumnKey> = home.iter().filter(|c| !c.hidden).map(|c| c.key).collect();
    assert_eq!(shown, vec![ColumnKey::NetDifference, ColumnKey::CreationTime, ColumnKey::Status]);
    let list = default_tx_list_header_columns();
    let shown: Vec<ColumnKey> = list.iter().filter(|c| !c.hidden).map(|c| c.key).collect();
    assert_eq!(
        shown,
        vec![
            ColumnKey::Id,
            ColumnKey::Status,
            ColumnKey::ConfirmationTime,
            ColumnKey::SharedTransactionId,
            ColumnKey::Height,
            ColumnKey::IsConfirmed
        ]
    );
    assert!(list.iter().enumerate().all(|(i, c)| c.order == i));
}

#[test]
fn catalog_search_defaults() {
    let s = CatalogSearchState::default();
    assert!(s.catalog_rows.is_empty());
    assert!(s.query.is_none());
    assert_eq!(s.result_size, TxListResultSize::_25);
    assert_eq!(s.result_sizes.len(), 4);
}

#[test]
fn row_titles_mark_sort_direction() {
    assert_eq!(
        row_title(ColumnKey::Fee, Some(ColumnKey::Fee), Some(SortDirection::Asc), "Fee"),
        "Fee ▲"
    );
    assert_eq!(
        row_title(ColumnKey::Fee, Some(ColumnKey::Fee), Some(SortDirection::Desc), "Fee"),
        "Fee ▼"
    );
    assert_eq!(row_title(ColumnKey::Fee, Some(ColumnKey::Fee), None, "Fee"), "Fee");
    assert_eq!(
        row_title(ColumnKey::Fee, Some(ColumnKey::Id), Some(SortDirection::Asc), "Fee"),
        "Fee"
    );
    assert_eq!(row_title(ColumnKey::Fee, None, Some(SortDirection::Asc), "Fee"), "Fee");
}

#[test]
fn header_titles_only_with_transactions() {
    let cols = vec![
        HeaderColumn { key: ColumnKey::Id, hidden: true, order: 0 },
        HeaderColumn { key: ColumnKey::Fee, hidden: false, order: 1 },
        HeaderColumn { key: ColumnKey::Status, hidden: false, order: 2 },
    ];
    assert_eq!(header_keys(&cols, true), vec![ColumnKey::Fee, ColumnKey::Status]);
    assert!(header_keys(&cols, false).is_empty());
}

#[test]
fn display_status_keys() {
    assert_eq!(create_tx_display_status(true, None), "tx-confirmed");
    assert_eq!(create_tx_display_status(false, None), "tx-unconfirmed");
    assert_eq!(create_tx_display_status(true, Some("Confirmed".to_string())), "Confirmed");
    assert_eq!(create_tx_display_status(false, Some(String::new())), "tx-unconfirmed");
}

#[test]
fn net_difference_sign_and_size() {
    assert_eq!(net_difference(500, 200), (false, 300));
    assert_eq!(net_difference(200, 500), (true, 300));
    assert_eq!(net_difference(7, 7), (false, 0));
    assert_eq!(net_difference(0, u64::MAX), (true, u64::MAX));
}

#[test]
fn row_cells_follow_first_visible_columns() {
    let config = vec![
        (ColumnKey::Status, false),
        (ColumnKey::Fee, false),
        (ColumnKey::Id, true),
        (ColumnKey::NetDifference, false),
        (ColumnKey::Id, false),
        (ColumnKey::Status, false),
        (ColumnKey::Type, false),
    ];
    assert_eq!(
        row_cells(&config),
        vec![
            (0, ColumnKey::Status),
            (3, ColumnKey::NetDifference),
            (4, ColumnKey::Id),
            (6, ColumnKey::Type)
        ]
    );
    assert!(row_cells(&vec![]).is_empty());
}

#[test]
fn row_actions_of_expanded_rows() {
    let a = row_actions(true, true, false, false, true);
    assert!(a.details && a.proof && a.reload_slate && a.cancel && a.cancel_enabled);
    let b = row_actions(true, false, true, false, false);
    assert!(b.details && !b.proof && !b.reload_slate && b.cancel && !b.cancel_enabled);
    let c = row_actions(true, true, false, true, true);
    assert!(c.details && c.proof && !c.reload_slate && !c.cancel && !c.cancel_enabled);
    let d = row_actions(false, true, false, false, true);
    assert!(!d.details && !d.proof && !d.reload_slate && !d.cancel && !d.cancel_enabled);
}

#[test]
fn expanding_a_row_toggles() {
    assert_eq!(toggle_expanded(None, 4), Some(4));
    assert_eq!(toggle_expanded(Some(4), 4), None);
    assert_eq!(toggle_expanded(Some(3), 4), Some(4));
    assert_eq!(toggle_expanded(toggle_expanded(Some(3), 4), 4), None);
}

#[test]
fn result_size_labels() {
    assert_eq!(TxListResultSize::_100.results_label("{number} results"), Some("100 results".to_string()));
    assert_eq!(TxListResultSize::_25.results_label("Zeige {number}"), Some("Zeige 25".to_string()));
    assert_eq!(TxListResultSize::_25.results_label("{missing}"), None);
}

#[test]
fn header_state_defaults() {
    let h = HeaderState::default();
    assert!(h.previous_column_key.is_none() && h.previous_sort_direction.is_none());
    assert_eq!(h.columns.len(), 18);
    for (i, c) in h.columns.iter().enumerate() {
        assert_eq!(c.order, i);
    }
    let config = h.column_config();
    let shown: Vec<ColumnKey> = config.iter().filter(|c| !c.1).map(|c| c.0).collect();
    assert_eq!(shown, vec![ColumnKey::NetDifference, ColumnKey::CreationTime, ColumnKey::Status]);
    assert_eq!(config[0], (ColumnKey::Id, true));
    let t = TxListHeaderState::default();
    assert!(t.previous_column_key.is_none() && t.previous_sort_direction.is_none());
    let config = t.column_config();
    assert_eq!(config.len(), 18);
    assert_eq!(config[0], (ColumnKey::Id, false));
    assert_eq!(config[1], (ColumnKey::NetDifference, true));
}
