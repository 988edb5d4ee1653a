//! The transaction list: its columns, their default layout, sorting and
//! result-size choices, which cells a row shows, and what an expanded row
//! offers.
use vstd::prelude::*;

use crate::localization::{localized_text, resolve_localized};
use crate::text::str_equals;

verus! {

/// What a pending confirmation dialog in the list is about.
#[derive(Clone, Copy, Debug, PartialEq, Eq, Structural, Hash)]
pub enum Confirm {
    DeleteAddon,
    DeleteSavedVariables,
}

/// A column of the transaction table.
#[derive(Clone, Copy, Debug, PartialEq, Eq, Structural, Hash)]
pub enum ColumnKey {
    Id,
    Type,
    SharedTransactionId,
    CreationTime,
    Status,
    TTLCutoff,
    Height,
    IsConfirmed,
    ConfirmationTime,
    NumInputs,
    NumOutputs,
    AmountCredited,
    AmountDebited,
    Fee,
    NetDifference,
    PaymentProof,
    Kernel,
    TxData,
    /// Only used for sorting, never shown as a column.
    FuzzyScore,
}

/// The name under which a shown column is stored and localized.
pub open spec fn column_key_name(k: ColumnKey) -> Seq<char> {
    match k {
        ColumnKey::Id => "tx_id"@,
        ColumnKey::Type => "tx_type"@,
        ColumnKey::SharedTransactionId => "tx_shared_id"@,
        ColumnKey::CreationTime => "tx-creation-time"@,
        ColumnKey::Status => "tx-status"@,
        ColumnKey::TTLCutoff => "tx_ttl_cutoff"@,
        ColumnKey::Height => "tx_height"@,
        ColumnKey::IsConfirmed => "tx_is_confirmed"@,
        ColumnKey::ConfirmationTime => "tx-confirmation-time"@,
        ColumnKey::NumInputs => "tx_num_inputs"@,
        ColumnKey::NumOutputs => "tx_num_outputs"@,
        ColumnKey::AmountCredited => "tx_amount_credited"@,
        ColumnKey::AmountDebited => "tx_amount_debited"@,
        ColumnKey::Fee => "tx_fee"@,
        ColumnKey::NetDifference => "tx-net-difference"@,
        ColumnKey::PaymentProof => "tx_payment_proof"@,
        ColumnKey::Kernel => "tx_kernel"@,
        ColumnKey::TxData => "tx_data"@,
        ColumnKey::FuzzyScore => seq![],
    }
}

/// The column that a stored name denotes. Note that the creation time
/// column is read back from `tx_creation_time`, not from the name it is
/// written under.
pub open spec fn column_key_from_name(s: Seq<char>) -> Option<ColumnKey> {
    if s == "tx_id"@ {
        Some(ColumnKey::Id)
    } else if s == "tx_type"@ {
        Some(ColumnKey::Type)
    } else if s == "tx_shared_id"@ {
        Some(ColumnKey::SharedTransactionId)
    } else if s == "tx_creation_time"@ {
        Some(ColumnKey::CreationTime)
    } else if s == "tx-status"@ {
        Some(ColumnKey::Status)
    } else if s == "tx_ttl_cutoff"@ {
        Some(ColumnKey::TTLCutoff)
    } else if s == "tx_height"@ {
        Some(ColumnKey::Height)
    } else if s == "tx_is_confirmed"@ {
        Some(ColumnKey::IsConfirmed)
    } else if s == "tx-confirmation-time"@ {
        Some(ColumnKey::ConfirmationTime)
    } else if s == "tx_num_inputs"@ {
        Some(ColumnKey::NumInputs)
    } else if s == "tx_num_outputs"@ {
        Some(ColumnKey::NumOutputs)
    } else if s == "tx_amount_credited"@ {
        Some(ColumnKey::AmountCredited)
    } else if s == "tx_amount_debited"@ {
        Some(ColumnKey::AmountDebited)
    } else if s == "tx_fee"@ {
        Some(ColumnKey::Fee)
    } else if s == "tx-net-difference"@ {
        Some(ColumnKey::NetDifference)
    } else if s == "tx_payment_proof"@ {
        Some(ColumnKey::PaymentProof)
    } else if s == "tx_kernel"@ {
        Some(ColumnKey::Kernel)
    } else if s == "tx_data"@ {
        Some(ColumnKey::TxData)
    } else {
        None
    }
}

impl ColumnKey {
    /// The localized title of the column, given the translation table's
    /// entry for its name.
    pub fn title(self, translation: Option<String>) -> (t: String)
        requires
            self != ColumnKey::FuzzyScore,
        ensures
            t@ == localized_text(
                column_key_name(self),
                match translation { Some(s) => Some(s@), None => None },
            ),
    {
        let name = self.as_string();
        resolve_localized(name.as_str(), translation)
    }

    /// The name under which the column is stored and localized.
    pub fn as_string(self) -> (s: String)
        requires
            self != ColumnKey::FuzzyScore,
        ensures
            s@ == column_key_name(self),
    {
        let s = match self {
            ColumnKey::Id => "tx_id",
            ColumnKey::Type => "tx_type",
            ColumnKey::SharedTransactionId => "tx_shared_id",
            ColumnKey::CreationTime => "tx-creation-time",
            ColumnKey::Status => "tx-status",
            ColumnKey::TTLCutoff => "tx_ttl_cutoff",
            ColumnKey::Height => "tx_height",
            ColumnKey::IsConfirmed => "tx_is_confirmed",
            ColumnKey::ConfirmationTime => "tx-confirmation-time",
            ColumnKey::NumInputs => "tx_num_inputs",
            ColumnKey::NumOutputs => "tx_num_outputs",
            ColumnKey::AmountCredited => "tx_amount_credited",
            ColumnKey::AmountDebited => "tx_amount_debited",
            ColumnKey::Fee => "tx_fee",
            ColumnKey::NetDifference => "tx-net-difference",
            ColumnKey::PaymentProof => "tx_payment_proof",
            ColumnKey::Kernel => "tx_kernel",
            ColumnKey::TxData => "tx_data",
            ColumnKey::FuzzyScore => "",
        };
        String::from_str(s)
    }

    /// The column that a stored name denotes; `None` for a name that no
    /// column has (where reading such a name is refused).
    pub fn from_name(s: &str) -> (k: Option<ColumnKey>)
        ensures
            k == column_key_from_name(s@),
    {
        if str_equals(s, "tx_id") {
            Some(ColumnKey::Id)
        } else if str_equals(s, "tx_type") {
            Some(ColumnKey::Type)
        } else if str_equals(s, "tx_shared_id") {
            Some(ColumnKey::SharedTransactionId)
        } else if str_equals(s, "tx_creation_time") {
            Some(ColumnKey::CreationTime)
        } else if str_equals(s, "tx-status") {
            Some(ColumnKey::Status)
        } else if str_equals(s, "tx_ttl_cutoff") {
            Some(ColumnKey::TTLCutoff)
        } else if str_equals(s, "tx_height") {
            Some(ColumnKey::Height)
        } else if str_equals(s, "tx_is_confirmed") {
            Some(ColumnKey::IsConfirmed)
        } else if str_equals(s, "tx-confirmation-time") {
            Some(ColumnKey::ConfirmationTime)
        } else if str_equals(s, "tx_num_inputs") {
            Some(ColumnKey::NumInputs)
        } else if str_equals(s, "tx_num_outputs") {
            Some(ColumnKey::NumOutputs)
        } else if str_equals(s, "tx_amount_credited") {
            Some(ColumnKey::AmountCredited)
        } else if str_equals(s, "tx_amount_debited") {
            Some(ColumnKey::AmountDebited)
        } else if str_equals(s, "tx_fee") {
            Some(ColumnKey::Fee)
        } else if str_equals(s, "tx-net-difference") {
            Some(ColumnKey::NetDifference)
        } else if str_equals(s, "tx_payment_proof") {
            Some(ColumnKey::PaymentProof)
        } else if str_equals(s, "tx_kernel") {
            Some(ColumnKey::Kernel)
        } else if str_equals(s, "tx_data") {
            Some(ColumnKey::TxData)
        } else {
            None
        }
    }
}

/// Reading back the stored name of a column gives the column, for every
/// shown column but the creation time, which is read back from a
/// differently spelled name.
pub proof fn lemma_column_key_name_round_trip(k: ColumnKey)
    requires
        k != ColumnKey::FuzzyScore,
        k != ColumnKey::CreationTime,
    ensures
        column_key_from_name(column_key_name(k)) == Some(k),
{
    reveal_strlit("tx-confirmation-time");
    reveal_strlit("tx-net-difference");
    reveal_strlit("tx-status");
    reveal_strlit("tx_amount_credited");
    reveal_strlit("tx_amount_debited");
    reveal_strlit("tx_creation_time");
    reveal_strlit("tx_data");
    reveal_strlit("tx_fee");
    reveal_strlit("tx_height");
    reveal_strlit("tx_id");
    reveal_strlit("tx_is_confirmed");
    reveal_strlit("tx_kernel");
    reveal_strlit("tx_num_inputs");
    reveal_strlit("tx_num_outputs");
    reveal_strlit("tx_payment_proof");
    reveal_strlit("tx_shared_id");
    reveal_strlit("tx_ttl_cutoff");
    reveal_strlit("tx_type");
    assert("tx-confirmation-time"@.len() == 20);
    assert("tx-net-difference"@.len() == 17);
    assert("tx-status"@.len() == 9);
    assert("tx_amount_credited"@.len() == 18);
    assert("tx_amount_debited"@.len() == 17);
    assert("tx_creation_time"@.len() == 16);
    assert("tx_data"@.len() == 7);
    assert("tx_fee"@.len() == 6);
    assert("tx_height"@.len() == 9);
    assert("tx_id"@.len() == 5);
    assert("tx_is_confirmed"@.len() == 15);
    assert("tx_kernel"@.len() == 9);
    assert("tx_num_inputs"@.len() == 13);
    assert("tx_num_outputs"@.len() == 14);
    assert("tx_payment_proof"@.len() == 16);
    assert("tx_shared_id"@.len() == 12);
    assert("tx_ttl_cutoff"@.len() == 13);
    assert("tx_type"@.len() == 7);
    assert("tx-status"@[2] != "tx_height"@[2]);
    assert("tx_ttl_cutoff"@[3] != "tx_num_inputs"@[3]);
    assert("tx_amount_debited"@[2] != "tx-net-difference"@[2]);
    assert("tx_creation_time"@[3] != "tx_payment_proof"@[3]);
    assert("tx-status"@[2] != "tx_kernel"@[2]);
    assert("tx_height"@[3] != "tx_kernel"@[3]);
    assert("tx_type"@[3] != "tx_data"@[3]);
}

/// Direction in which the list is sorted by a column.
#[derive(Clone, Copy, Debug, PartialEq, Eq, Structural)]
pub enum SortDirection {
    Asc,
    Desc,
}

impl SortDirection {
    /// The opposite direction.
    pub fn toggle(self) -> (d: SortDirection)
        ensures
            d == (match self {
                SortDirection::Asc => SortDirection::Desc,
                SortDirection::Desc => SortDirection::Asc,
            }),
    {
        match self {
            SortDirection::Asc => SortDirection::Desc,
            SortDirection::Desc => SortDirection::Asc,
        }
    }
}

/// Toggling the sort direction twice gives the direction back, and a
/// toggle always changes it.
pub proof fn lemma_toggle_involution(d: SortDirection)
    ensures
        (match d {
            SortDirection::Asc => SortDirection::Desc,
            SortDirection::Desc => SortDirection::Asc,
        }) != d,
        (match (match d {
            SortDirection::Asc => SortDirection::Desc,
            SortDirection::Desc => SortDirection::Asc,
        }) {
            SortDirection::Asc => SortDirection::Desc,
            SortDirection::Desc => SortDirection::Asc,
        }) == d,
{
}

/// How many transactions the list shows at most.
#[derive(Clone, Copy, Debug, PartialEq, Eq, Structural, Hash, PartialOrd, Ord)]
pub enum TxListResultSize {
    _25,
    _50,
    _100,
    _500,
}

/// The number of rows a result size stands for.
pub open spec fn result_size_value(r: TxListResultSize) -> nat {
    match r {
        TxListResultSize::_25 => 25,
        TxListResultSize::_50 => 50,
        TxListResultSize::_100 => 100,
        TxListResultSize::_500 => 500,
    }
}

/// All result sizes, smallest first.
pub open spec fn all_result_sizes() -> Seq<TxListResultSize> {
    seq![
        TxListResultSize::_25,
        TxListResultSize::_50,
        TxListResultSize::_100,
        TxListResultSize::_500,
    ]
}

impl Default for TxListResultSize {
    fn default() -> (r: TxListResultSize)
        ensures
            r == TxListResultSize::_25,
    {
        TxListResultSize::_25
    }
}

impl TxListResultSize {
    /// Every result size, smallest first.
    pub fn all() -> (v: Vec<TxListResultSize>)
        ensures
            v@ == all_result_sizes(),
    {
        let mut v: Vec<TxListResultSize> = Vec::new();
        v.push(TxListResultSize::_25);
        v.push(TxListResultSize::_50);
        v.push(TxListResultSize::_100);
        v.push(TxListResultSize::_500);
        assert(v@ =~= all_result_sizes());
        v
    }

    /// The number of rows this size stands for.
    pub fn as_usize(self) -> (n: usize)
        ensures
            n == result_size_value(self),
    {
        match self {
            TxListResultSize::_25 => 25,
            TxListResultSize::_50 => 50,
            TxListResultSize::_100 => 100,
            TxListResultSize::_500 => 500,
        }
    }
}

/// The error type of `strfmt`, carried as an opaque value.
#[verifier::external_type_specification]
#[verifier::external_body]
pub struct ExFmtError(strfmt::FmtError);

/// The text that `strfmt::strfmt` makes of `template` with the single
/// variable `key` set to `value`; `None` where it reports an error.
pub uninterp spec fn strfmt_single(template: Seq<char>, key: Seq<char>, value: nat) -> Option<Seq<char>>;

/// Trusted: calls `strfmt::strfmt` with a map that holds only `key`, set
/// to `value`. The contract names the outcome: success exactly when the
/// named text exists, and then the result is that text. How `strfmt`
/// fills in the template (its format specifications) is not spelled out.
#[verifier::external_body]
fn format_single(template: &str, key: &str, value: usize) -> (r: Result<String, strfmt::FmtError>)
    ensures
        match r {
            Ok(s) => strfmt_single(template@, key@, value as nat) == Some(s@),
            Err(_) => strfmt_single(template@, key@, value as nat) is None,
        },
{
    let mut vars = std::collections::HashMap::new();
    vars.insert(key.to_string(), value);
    strfmt::strfmt(template, &vars)
}

impl TxListResultSize {
    /// The label of the size in the result-size picker: the localized
    /// template with `{number}` set to the number of rows; `None` when the
    /// template cannot be filled in.
    pub fn results_label(self, template: &str) -> (label: Option<String>)
        ensures
            match label {
                Some(l) => strfmt_single(template@, "number"@, result_size_value(self)) == Some(l@),
                None => strfmt_single(template@, "number"@, result_size_value(self)) is None,
            },
    {
        match format_single(template, "number", self.as_usize()) {
            Ok(s) => Some(s),
            Err(_) => None,
        }
    }
}

/// The offered result sizes hold every size once, in strictly increasing
/// number of rows, and different sizes stand for different numbers.
pub proof fn lemma_result_sizes_ordered_and_complete(r: TxListResultSize, q: TxListResultSize)
    ensures
        all_result_sizes().contains(r),
        forall|i: int, j: int|
            0 <= i < j < all_result_sizes().len() ==> result_size_value(all_result_sizes()[i])
                < result_size_value(all_result_sizes()[j]),
        result_size_value(r) == result_size_value(q) ==> r == q,
{
    let s = all_result_sizes();
    match r {
        TxListResultSize::_25 => assert(s[0] == r),
        TxListResultSize::_50 => assert(s[1] == r),
        TxListResultSize::_100 => assert(s[2] == r),
        TxListResultSize::_500 => assert(s[3] == r),
    }
}

/// The default order of the columns of the transaction table.
pub open spec fn default_column_order() -> Seq<ColumnKey> {
    seq![
        ColumnKey::Id,
        ColumnKey::NetDifference,
        ColumnKey::CreationTime,
        ColumnKey::Status,
        ColumnKey::ConfirmationTime,
        ColumnKey::Type,
        ColumnKey::SharedTransactionId,
        ColumnKey::TTLCutoff,
        ColumnKey::Height,
        ColumnKey::IsConfirmed,
        ColumnKey::NumInputs,
        ColumnKey::NumOutputs,
        ColumnKey::AmountCredited,
        ColumnKey::AmountDebited,
        ColumnKey::Fee,
        ColumnKey::PaymentProof,
        ColumnKey::Kernel,
        ColumnKey::TxData,
    ]
}

fn default_column_keys() -> (v: Vec<ColumnKey>)
    ensures
        v@ == default_column_order(),
{
    let mut v: Vec<ColumnKey> = Vec::new();
    v.push(ColumnKey::Id);
    v.push(ColumnKey::NetDifference);
    v.push(ColumnKey::CreationTime);
    v.push(ColumnKey::Status);
    v.push(ColumnKey::ConfirmationTime);
    v.push(ColumnKey::Type);
    v.push(ColumnKey::SharedTransactionId);
    v.push(ColumnKey::TTLCutoff);
    v.push(ColumnKey::Height);
    v.push(ColumnKey::IsConfirmed);
    v.push(ColumnKey::NumInputs);
    v.push(ColumnKey::NumOutputs);
    v.push(ColumnKey::AmountCredited);
    v.push(ColumnKey::AmountDebited);
    v.push(ColumnKey::Fee);
    v.push(ColumnKey::PaymentProof);
    v.push(ColumnKey::Kernel);
    v.push(ColumnKey::TxData);
    assert(v@ =~= default_column_order());
    v
}

/// The position of one column in the column settings.
pub struct ColumnSettingState {
    pub key: ColumnKey,
    pub order: usize,
}

/// The order of the columns, as the settings screen shows it.
pub struct ColumnSettings {
    pub columns: Vec<ColumnSettingState>,
}

impl Default for ColumnSettings {
    /// Every shown column once, in the default order, each numbered by its
    /// position.
    fn default() -> (s: ColumnSettings)
        ensures
            s.columns@.len() == default_column_order().len(),
            forall|i: int|
                0 <= i < s.columns@.len() ==> (#[trigger] s.columns@[i]).key
                    == default_column_order()[i] && s.columns@[i].order == i,
    {
        let keys = default_column_keys();
        let mut columns: Vec<ColumnSettingState> = Vec::new();
        let mut i: usize = 0;
        while i < keys.len()
            invariant
                keys@ == default_column_order(),
                i <= keys@.len(),
                columns@.len() == i,
                forall|j: int|
                    0 <= j < i ==> (#[trigger] columns@[j]).key == keys@[j] && columns@[j].order
                        == j,
            decreases keys@.len() - i,
        {
            columns.push(ColumnSettingState { key: keys[i], order: i });
            i = i + 1;
        }
        ColumnSettings { columns }
    }
}

/// The position of one column in the transaction-list column settings.
pub struct TxListColumnSettingState {
    pub key: ColumnKey,
    pub order: usize,
}

/// The order of the columns of the transaction list.
pub struct TxListColumnSettings {
    pub columns: Vec<TxListColumnSettingState>,
}

impl Default for TxListColumnSettings {
    /// Every shown column once, in the default order, each numbered by its
    /// position.
    fn default() -> (s: TxListColumnSettings)
        ensures
            s.columns@.len() == default_column_order().len(),
            forall|i: int|
                0 <= i < s.columns@.len() ==> (#[trigger] s.columns@[i]).key
                    == default_column_order()[i] && s.columns@[i].order == i,
    {
        let keys = default_column_keys();
        let mut columns: Vec<TxListColumnSettingState> = Vec::new();
        let mut i: usize = 0;
        while i < keys.len()
            invariant
                keys@ == default_column_order(),
                i <= keys@.len(),
                columns@.len() == i,
                forall|j: int|
                    0 <= j < i ==> (#[trigger] columns@[j]).key == keys@[j] && columns@[j].order
                        == j,
            decreases keys@.len() - i,
        {
            columns.push(TxListColumnSettingState { key: keys[i], order: i });
            i = i + 1;
        }
        TxListColumnSettings { columns }
    }
}

/// A column of the header: which column, whether it is hidden, and its
/// position. (Its width is a layout value kept by the view.)
#[derive(Clone, Copy, Debug, PartialEq, Eq, Structural)]
pub struct HeaderColumn {
    pub key: ColumnKey,
    pub hidden: bool,
    pub order: usize,
}

/// The columns that the wallet home list shows by default.
pub open spec fn default_home_shown() -> Set<ColumnKey> {
    set![ColumnKey::NetDifference, ColumnKey::CreationTime, ColumnKey::Status]
}

/// The columns that the full transaction list shows by default.
pub open spec fn default_tx_list_shown() -> Set<ColumnKey> {
    set![
        ColumnKey::Id,
        ColumnKey::Status,
        ColumnKey::ConfirmationTime,
        ColumnKey::SharedTransactionId,
        ColumnKey::Height,
        ColumnKey::IsConfirmed,
    ]
}

fn header_columns_showing(shown: &Vec<ColumnKey>, Ghost(shown_set): Ghost<Set<ColumnKey>>) -> (v: Vec<HeaderColumn>)
    requires
        forall|k: ColumnKey| shown_set.contains(k) <==> shown@.contains(k),
    ensures
        v@.len() == default_column_order().len(),
        forall|i: int|
            0 <= i < v@.len() ==> (#[trigger] v@[i]).key == default_column_order()[i]
                && v@[i].order == i && v@[i].hidden == !shown_set.contains(v@[i].key),
{
    let keys = default_column_keys();
    let mut v: Vec<HeaderColumn> = Vec::new();
    let mut i: usize = 0;
    while i < keys.len()
        invariant
            keys@ == default_column_order(),
            forall|k: ColumnKey| shown_set.contains(k) <==> shown@.contains(k),
            i <= keys@.len(),
            v@.len() == i,
            forall|j: int|
                0 <= j < i ==> (#[trigger] v@[j]).key == keys@[j] && v@[j].order == j
                    && v@[j].hidden == !shown_set.contains(v@[j].key),
        decreases keys@.len() - i,
    {
        let key = keys[i];
        let mut found = false;
        let mut j: usize = 0;
        while j < shown.len()
            invariant
                j <= shown@.len(),
                found == (exists|m: int| 0 <= m < j && shown@[m] == key),
            decreases shown@.len() - j,
        {
            if shown[j] == key {
                found = true;
            }
            j = j + 1;
        }
        assert(found == shown@.contains(key));
        v.push(HeaderColumn { key, hidden: !found, order: i });
        i = i + 1;
    }
    v
}

/// The header columns of the wallet home list: every column in the
/// default order, with only the net difference, creation time and status
/// shown.
pub fn default_home_header_columns() -> (v: Vec<HeaderColumn>)
    ensures
        v@.len() == default_column_order().len(),
        forall|i: int|
            0 <= i < v@.len() ==> (#[trigger] v@[i]).key == default_column_order()[i]
                && v@[i].order == i && v@[i].hidden == !default_home_shown().contains(v@[i].key),
{
    let mut shown: Vec<ColumnKey> = Vec::new();
    shown.push(ColumnKey::NetDifference);
    shown.push(ColumnKey::CreationTime);
    shown.push(ColumnKey::Status);
    assert forall|k: ColumnKey| default_home_shown().contains(k) <==> shown@.contains(k) by {
        if default_home_shown().contains(k) {
            if k == ColumnKey::NetDifference {
                assert(shown@[0] == k);
            } else if k == ColumnKey::CreationTime {
                assert(shown@[1] == k);
            } else {
                assert(shown@[2] == k);
            }
        }
    }
    header_columns_showing(&shown, Ghost(default_home_shown()))
}

/// The header columns of the full transaction list: every column in the
/// default order, with the id, status, confirmation time, shared id,
/// height and confirmation flag shown.
pub fn default_tx_list_header_columns() -> (v: Vec<HeaderColumn>)
    ensures
        v@.len() == default_column_order().len(),
        forall|i: int|
            0 <= i < v@.len() ==> (#[trigger] v@[i]).key == default_column_order()[i]
                && v@[i].order == i && v@[i].hidden == !default_tx_list_shown().contains(v@[i].key),
{
    let mut shown: Vec<ColumnKey> = Vec::new();
    shown.push(ColumnKey::Id);
    shown.push(ColumnKey::Status);
    shown.push(ColumnKey::ConfirmationTime);
    shown.push(ColumnKey::SharedTransactionId);
    shown.push(ColumnKey::Height);
    shown.push(ColumnKey::IsConfirmed);
    assert forall|k: ColumnKey| default_tx_list_shown().contains(k) <==> shown@.contains(k) by {
        if default_tx_list_shown().contains(k) {
            if k == ColumnKey::Id {
                assert(shown@[0] == k);
            } else if k == ColumnKey::Status {
                assert(shown@[1] == k);
            } else if k == ColumnKey::ConfirmationTime {
                assert(shown@[2] == k);
            } else if k == ColumnKey::SharedTransactionId {
                assert(shown@[3] == k);
            } else if k == ColumnKey::Height {
                assert(shown@[4] == k);
            } else {
                assert(shown@[5] == k);
            }
        }
    }
    header_columns_showing(&shown, Ghost(default_tx_list_shown()))
}

/// The pairs (column, hidden) of a header's columns, in order.
pub open spec fn column_pairs(columns: Seq<HeaderColumn>) -> Seq<(ColumnKey, bool)> {
    columns.map_values(|c: HeaderColumn| (c.key, c.hidden))
}

fn column_config_of(columns: &Vec<HeaderColumn>) -> (c: Vec<(ColumnKey, bool)>)
    ensures
        c@ == column_pairs(columns@),
{
    let mut c: Vec<(ColumnKey, bool)> = Vec::new();
    let mut i: usize = 0;
    while i < columns.len()
        invariant
            i <= columns@.len(),
            c@ == column_pairs(columns@.take(i as int)),
        decreases columns@.len() - i,
    {
        assert(column_pairs(columns@.take(i as int + 1)) =~= column_pairs(
            columns@.take(i as int),
        ).push((columns@[i as int].key, columns@[i as int].hidden)));
        c.push((columns[i].key, columns[i].hidden));
        i = i + 1;
    }
    assert(columns@.take(columns@.len() as int) =~= columns@);
    c
}

/// The header of the wallet home list: its columns, and the column and
/// direction by which the list was last sorted.
pub struct HeaderState {
    pub previous_column_key: Option<ColumnKey>,
    pub previous_sort_direction: Option<SortDirection>,
    pub columns: Vec<HeaderColumn>,
}

impl HeaderState {
    /// Each column with whether it is hidden, in order.
    pub fn column_config(&self) -> (c: Vec<(ColumnKey, bool)>)
        ensures
            c@ == column_pairs(self.columns@),
    {
        column_config_of(&self.columns)
    }
}

impl Default for HeaderState {
    /// Not sorted yet, with the home list's default columns.
    fn default() -> (s: HeaderState)
        ensures
            s.previous_column_key is None,
            s.previous_sort_direction is None,
            s.columns@.len() == default_column_order().len(),
            forall|i: int|
                0 <= i < s.columns@.len() ==> (#[trigger] s.columns@[i]).key
                    == default_column_order()[i] && s.columns@[i].order == i
                    && s.columns@[i].hidden == !default_home_shown().contains(s.columns@[i].key),
    {
        HeaderState {
            previous_column_key: None,
            previous_sort_direction: None,
            columns: default_home_header_columns(),
        }
    }
}

/// The header of the full transaction list: its columns, and the column
/// and direction by which the list was last sorted.
pub struct TxListHeaderState {
    pub previous_column_key: Option<TxListColumnKey>,
    pub previous_sort_direction: Option<SortDirection>,
    pub columns: Vec<HeaderColumn>,
}

impl TxListHeaderState {
    /// Each column with whether it is hidden, in order.
    pub fn column_config(&self) -> (c: Vec<(ColumnKey, bool)>)
        ensures
            c@ == column_pairs(self.columns@),
    {
        column_config_of(&self.columns)
    }
}

impl Default for TxListHeaderState {
    /// Not sorted yet, with the full list's default columns.
    fn default() -> (s: TxListHeaderState)
        ensures
            s.previous_column_key is None,
            s.previous_sort_direction is None,
            s.columns@.len() == default_column_order().len(),
            forall|i: int|
                0 <= i < s.columns@.len() ==> (#[trigger] s.columns@[i]).key
                    == default_column_order()[i] && s.columns@[i].order == i
                    && s.columns@[i].hidden == !default_tx_list_shown().contains(
                    s.columns@[i].key,
                ),
    {
        TxListHeaderState {
            previous_column_key: None,
            previous_sort_direction: None,
            columns: default_tx_list_header_columns(),
        }
    }
}

/// A column of the full transaction list.
#[derive(Clone, Copy, Debug, PartialEq, Eq, Structural, Hash)]
pub enum TxListColumnKey {
    Id,
    Type,
    SharedTransactionId,
    CreationTime,
    TTLCutoff,
    Height,
    IsConfirmed,
    ConfirmationTime,
    NumInputs,
    NumOutputs,
    AmountCredited,
    AmountDebited,
    Fee,
    NetDifference,
    PaymentProof,
    Kernel,
    TxData,
}

/// The name under which a transaction-list column is stored and localized.
pub open spec fn tx_list_column_key_name(k: TxListColumnKey) -> Seq<char> {
    match k {
        TxListColumnKey::Id => "tx_id"@,
        TxListColumnKey::Type => "tx_type"@,
        TxListColumnKey::SharedTransactionId => "tx_shared_id"@,
        TxListColumnKey::CreationTime => "tx_creation_time"@,
        TxListColumnKey::TTLCutoff => "tx_ttl_cutoff"@,
        TxListColumnKey::Height => "tx_height"@,
        TxListColumnKey::IsConfirmed => "tx_is_confirmed"@,
        TxListColumnKey::ConfirmationTime => "tx-confirmation-time"@,
        TxListColumnKey::NumInputs => "tx_num_inputs"@,
        TxListColumnKey::NumOutputs => "tx_num_outputs"@,
        TxListColumnKey::AmountCredited => "tx_amount_credited"@,
        TxListColumnKey::AmountDebited => "tx_amount_debited"@,
        TxListColumnKey::Fee => "tx_fee"@,
        TxListColumnKey::NetDifference => "tx-net-difference"@,
        TxListColumnKey::PaymentProof => "tx_payment_proof"@,
        TxListColumnKey::Kernel => "tx_kernel"@,
        TxListColumnKey::TxData => "tx_data"@,
    }
}

/// The transaction-list column that a stored name denotes.
pub open spec fn tx_list_column_key_from_name(s: Seq<char>) -> Option<TxListColumnKey> {
    if s == "tx_id"@ {
        Some(TxListColumnKey::Id)
    } else if s == "tx_type"@ {
        Some(TxListColumnKey::Type)
    } else if s == "tx_shared_id"@ {
        Some(TxListColumnKey::SharedTransactionId)
    } else if s == "tx_creation_time"@ {
        Some(TxListColumnKey::CreationTime)
    } else if s == "tx_ttl_cutoff"@ {
        Some(TxListColumnKey::TTLCutoff)
    } else if s == "tx_height"@ {
        Some(TxListColumnKey::Height)
    } else if s == "tx_is_confirmed"@ {
        Some(TxListColumnKey::IsConfirmed)
    } else if s == "tx-confirmation-time"@ {
        Some(TxListColumnKey::ConfirmationTime)
    } else if s == "tx_num_inputs"@ {
        Some(TxListColumnKey::NumInputs)
    } else if s == "tx_num_outputs"@ {
        Some(TxListColumnKey::NumOutputs)
    } else if s == "tx_amount_credited"@ {
        Some(TxListColumnKey::AmountCredited)
    } else if s == "tx_amount_debited"@ {
        Some(TxListColumnKey::AmountDebited)
    } else if s == "tx_fee"@ {
        Some(TxListColumnKey::Fee)
    } else if s == "tx-net-difference"@ {
        Some(TxListColumnKey::NetDifference)
    } else if s == "tx_payment_proof"@ {
        Some(TxListColumnKey::PaymentProof)
    } else if s == "tx_kernel"@ {
        Some(TxListColumnKey::Kernel)
    } else if s == "tx_data"@ {
        Some(TxListColumnKey::TxData)
    } else {
        None
    }
}

impl TxListColumnKey {
    /// The localized title of the column, given the translation table's
    /// entry for its name.
    pub fn title(self, translation: Option<String>) -> (t: String)
        ensures
            t@ == localized_text(
                tx_list_column_key_name(self),
                match translation { Some(s) => Some(s@), None => None },
            ),
    {
        let name = self.as_string();
        resolve_localized(name.as_str(), translation)
    }

    /// The name under which the column is stored and localized.
    pub fn as_string(self) -> (s: String)
        ensures
            s@ == tx_list_column_key_name(self),
    {
        let s = match self {
            TxListColumnKey::Id => "tx_id",
            TxListColumnKey::Type => "tx_type",
            TxListColumnKey::SharedTransactionId => "tx_shared_id",
            TxListColumnKey::CreationTime => "tx_creation_time",
            TxListColumnKey::TTLCutoff => "tx_ttl_cutoff",
            TxListColumnKey::Height => "tx_height",
            TxListColumnKey::IsConfirmed => "tx_is_confirmed",
            TxListColumnKey::ConfirmationTime => "tx-confirmation-time",
            TxListColumnKey::NumInputs => "tx_num_inputs",
            TxListColumnKey::NumOutputs => "tx_num_outputs",
            TxListColumnKey::AmountCredited => "tx_amount_credited",
            TxListColumnKey::AmountDebited => "tx_amount_debited",
            TxListColumnKey::Fee => "tx_fee",
            TxListColumnKey::NetDifference => "tx-net-difference",
            TxListColumnKey::PaymentProof => "tx_payment_proof",
            TxListColumnKey::Kernel => "tx_kernel",
            TxListColumnKey::TxData => "tx_data",
        };
        String::from_str(s)
    }

    /// The column that a stored name denotes; `None` for a name that no
    /// column has (where reading such a name is refused).
    pub fn from_name(s: &str) -> (k: Option<TxListColumnKey>)
        ensures
            k == tx_list_column_key_from_name(s@),
    {
        if str_equals(s, "tx_id") {
            Some(TxListColumnKey::Id)
        } else if str_equals(s, "tx_type") {
            Some(TxListColumnKey::Type)
        } else if str_equals(s, "tx_shared_id") {
            Some(TxListColumnKey::SharedTransactionId)
        } else if str_equals(s, "tx_creation_time") {
            Some(TxListColumnKey::CreationTime)
        } else if str_equals(s, "tx_ttl_cutoff") {
            Some(TxListColumnKey::TTLCutoff)
        } else if str_equals(s, "tx_height") {
            Some(TxListColumnKey::Height)
        } else if str_equals(s, "tx_is_confirmed") {
            Some(TxListColumnKey::IsConfirmed)
        } else if str_equals(s, "tx-confirmation-time") {
            Some(TxListColumnKey::ConfirmationTime)
        } else if str_equals(s, "tx_num_inputs") {
            Some(TxListColumnKey::NumInputs)
        } else if str_equals(s, "tx_num_outputs") {
            Some(TxListColumnKey::NumOutputs)
        } else if str_equals(s, "tx_amount_credited") {
            Some(TxListColumnKey::AmountCredited)
        } else if str_equals(s, "tx_amount_debited") {
            Some(TxListColumnKey::AmountDebited)
        } else if str_equals(s, "tx_fee") {
            Some(TxListColumnKey::Fee)
        } else if str_equals(s, "tx-net-difference") {
            Some(TxListColumnKey::NetDifference)
        } else if str_equals(s, "tx_payment_proof") {
            Some(TxListColumnKey::PaymentProof)
        } else if str_equals(s, "tx_kernel") {
            Some(TxListColumnKey::Kernel)
        } else if str_equals(s, "tx_data") {
            Some(TxListColumnKey::TxData)
        } else {
            None
        }
    }
}

/// Reading back the stored name of a transaction-list column gives the
/// column.
pub proof fn lemma_tx_list_column_key_name_round_trip(k: TxListColumnKey)
    ensures
        tx_list_column_key_from_name(tx_list_column_key_name(k)) == Some(k),
{
    reveal_strlit("tx-confirmation-time");
    reveal_strlit("tx-net-difference");
    reveal_strlit("tx_amount_credited");
    reveal_strlit("tx_amount_debited");
    reveal_strlit("tx_creation_time");
    reveal_strlit("tx_data");
    reveal_strlit("tx_fee");
    reveal_strlit("tx_height");
    reveal_strlit("tx_id");
    reveal_strlit("tx_is_confirmed");
    reveal_strlit("tx_kernel");
    reveal_strlit("tx_num_inputs");
    reveal_strlit("tx_num_outputs");
    reveal_strlit("tx_payment_proof");
    reveal_strlit("tx_shared_id");
    reveal_strlit("tx_ttl_cutoff");
    reveal_strlit("tx_type");
    assert("tx-confirmation-time"@.len() == 20);
    assert("tx-net-difference"@.len() == 17);
    assert("tx_amount_credited"@.len() == 18);
    assert("tx_amount_debited"@.len() == 17);
    assert("tx_creation_time"@.len() == 16);
    assert("tx_data"@.len() == 7);
    assert("tx_fee"@.len() == 6);
    assert("tx_height"@.len() == 9);
    assert("tx_id"@.len() == 5);
    assert("tx_is_confirmed"@.len() == 15);
    assert("tx_kernel"@.len() == 9);
    assert("tx_num_inputs"@.len() == 13);
    assert("tx_num_outputs"@.len() == 14);
    assert("tx_payment_proof"@.len() == 16);
    assert("tx_shared_id"@.len() == 12);
    assert("tx_ttl_cutoff"@.len() == 13);
    assert("tx_type"@.len() == 7);
    assert("tx_ttl_cutoff"@[3] != "tx_num_inputs"@[3]);
    assert("tx_amount_debited"@[2] != "tx-net-difference"@[2]);
    assert("tx_creation_time"@[3] != "tx_payment_proof"@[3]);
    assert("tx_height"@[3] != "tx_kernel"@[3]);
    assert("tx_type"@[3] != "tx_data"@[3]);
    match k {
        TxListColumnKey::Id => {},
        TxListColumnKey::Type => {},
        TxListColumnKey::SharedTransactionId => {},
        TxListColumnKey::CreationTime => {},
        TxListColumnKey::TTLCutoff => {},
        TxListColumnKey::Height => {},
        TxListColumnKey::IsConfirmed => {},
        TxListColumnKey::ConfirmationTime => {},
        TxListColumnKey::NumInputs => {},
        TxListColumnKey::NumOutputs => {},
        TxListColumnKey::AmountCredited => {},
        TxListColumnKey::AmountDebited => {},
        TxListColumnKey::Fee => {},
        TxListColumnKey::NetDifference => {},
        TxListColumnKey::PaymentProof => {},
        TxListColumnKey::Kernel => {},
        TxListColumnKey::TxData => {},
    }
}

/// A result row of the catalog search.
pub struct CatalogRow {}

/// The search state of the transaction list: the rows found, the query,
/// and the chosen and offered result sizes.
pub struct CatalogSearchState {
    pub catalog_rows: Vec<CatalogRow>,
    pub query: Option<String>,
    pub result_size: TxListResultSize,
    pub result_sizes: Vec<TxListResultSize>,
}

impl Default for CatalogSearchState {
    /// No rows, no query, the default result size, and every size offered.
    fn default() -> (s: CatalogSearchState)
        ensures
            s.catalog_rows@.len() == 0,
            s.query is None,
            s.result_size == TxListResultSize::_25,
            s.result_sizes@ == all_result_sizes(),
    {
        CatalogSearchState {
            catalog_rows: Vec::new(),
            query: None,
            result_size: TxListResultSize::_25,
            result_sizes: TxListResultSize::all(),
        }
    }
}

/// The title of a column header: the column's title, with an arrow for the
/// sort direction when the list is sorted by this column.
pub open spec fn row_title_text(
    column_key: ColumnKey,
    previous_column_key: Option<ColumnKey>,
    previous_sort_direction: Option<SortDirection>,
    title: Seq<char>,
) -> Seq<char> {
    if Some(column_key) == previous_column_key {
        match previous_sort_direction {
            Some(SortDirection::Asc) => title + " ▲"@,
            Some(SortDirection::Desc) => title + " ▼"@,
            None => title,
        }
    } else {
        title
    }
}

/// The text of a column header (see `row_title_text`).
pub fn row_title(
    column_key: ColumnKey,
    previous_column_key: Option<ColumnKey>,
    previous_sort_direction: Option<SortDirection>,
    title: &str,
) -> (t: String)
    ensures
        t@ == row_title_text(column_key, previous_column_key, previous_sort_direction, title@),
{
    let sorted_here = match previous_column_key {
        Some(k) => k == column_key,
        None => false,
    };
    let mut t = String::from_str(title);
    if sorted_here {
        match previous_sort_direction {
            Some(SortDirection::Asc) => t.append(" ▲"),
            Some(SortDirection::Desc) => t.append(" ▼"),
            None => {},
        }
    }
    t
}

/// The keys of the columns that are not hidden, in order.
pub open spec fn visible_keys(columns: Seq<HeaderColumn>) -> Seq<ColumnKey>
    decreases columns.len(),
{
    if columns.len() == 0 {
        seq![]
    } else {
        let rest = visible_keys(columns.drop_last());
        if columns.last().hidden {
            rest
        } else {
            rest.push(columns.last().key)
        }
    }
}

/// The columns that get a header title: the visible ones, in order, and
/// none while the list holds no transaction.
pub fn header_keys(columns: &Vec<HeaderColumn>, has_txs: bool) -> (keys: Vec<ColumnKey>)
    ensures
        keys@ == (if has_txs { visible_keys(columns@) } else { seq![] }),
{
    let mut keys: Vec<ColumnKey> = Vec::new();
    if !has_txs {
        return keys;
    }
    let mut i: usize = 0;
    while i < columns.len()
        invariant
            i <= columns@.len(),
            keys@ == visible_keys(columns@.take(i as int)),
        decreases columns@.len() - i,
    {
        assert(columns@.take(i as int + 1).drop_last() =~= columns@.take(i as int));
        if !columns[i].hidden {
            keys.push(columns[i].key);
        }
        i = i + 1;
    }
    assert(columns@.take(columns@.len() as int) =~= columns@);
    keys
}

/// The header titles are for exactly the columns that are not hidden: a
/// key gets a title when some column with that key is shown, and there are
/// never more titles than columns.
pub proof fn lemma_visible_keys_are_shown_columns(columns: Seq<HeaderColumn>, k: ColumnKey)
    ensures
        visible_keys(columns).contains(k) <==> exists|i: int|
            0 <= i < columns.len() && !(#[trigger] columns[i]).hidden && columns[i].key == k,
        visible_keys(columns).len() <= columns.len(),
    decreases columns.len(),
{
    if columns.len() > 0 {
        let d = columns.drop_last();
        lemma_visible_keys_are_shown_columns(d, k);
        let rest = visible_keys(d);
        if exists|i: int| 0 <= i < d.len() && !(#[trigger] d[i]).hidden && d[i].key == k {
            let i = choose|i: int| 0 <= i < d.len() && !(#[trigger] d[i]).hidden && d[i].key == k;
            assert(columns[i] == d[i]);
        }
        if exists|i: int| 0 <= i < columns.len() && !(#[trigger] columns[i]).hidden && columns[i].key == k {
            let i = choose|i: int| 0 <= i < columns.len() && !(#[trigger] columns[i]).hidden && columns[i].key == k;
            if i < d.len() {
                assert(d[i] == columns[i]);
            } else {
                assert(!columns.last().hidden);
                assert(visible_keys(columns) == rest.push(k));
                assert(visible_keys(columns)[rest.len() as int] == k);
            }
        }
        if !columns.last().hidden {
            assert(visible_keys(columns) == rest.push(columns.last().key));
            if rest.contains(k) {
                let j = choose|j: int| 0 <= j < rest.len() && rest[j] == k;
                assert(visible_keys(columns)[j] == k);
            }
            if visible_keys(columns).contains(k) {
                let j = choose|j: int| 0 <= j < visible_keys(columns).len() && visible_keys(columns)[j] == k;
                if j < rest.len() {
                    assert(rest[j] == k);
                } else {
                    assert(columns[columns.len() - 1].key == k);
                }
            }
        }
    }
}

/// A column's header shows its title alone unless the list was last sorted
/// by that column in a known direction; then an upward arrow follows the
/// title for ascending order and a downward one for descending order.
pub proof fn lemma_row_title_arrows(
    column_key: ColumnKey,
    previous_column_key: Option<ColumnKey>,
    previous_sort_direction: Option<SortDirection>,
    title: Seq<char>,
)
    ensures
        previous_column_key != Some(column_key) ==> row_title_text(
            column_key,
            previous_column_key,
            previous_sort_direction,
            title,
        ) == title,
        previous_sort_direction is None ==> row_title_text(
            column_key,
            previous_column_key,
            previous_sort_direction,
            title,
        ) == title,
        row_title_text(column_key, Some(column_key), Some(SortDirection::Asc), title) == title
            + seq![' ', '▲'],
        row_title_text(column_key, Some(column_key), Some(SortDirection::Desc), title) == title
            + seq![' ', '▼'],
{
    reveal_strlit(" ▲");
    reveal_strlit(" ▼");
    assert(" ▲"@ =~= seq![' ', '▲']);
    assert(" ▼"@ =~= seq![' ', '▼']);
}

/// The localization key of the status shown for a transaction.
pub open spec fn display_status_key(confirmed: bool) -> Seq<char> {
    if confirmed {
        "tx-confirmed"@
    } else {
        "tx-unconfirmed"@
    }
}

/// The displayed status of a transaction, localized: given the translation
/// table's entry for its key (see `display_status_key`).
pub fn create_tx_display_status(confirmed: bool, translation: Option<String>) -> (t: String)
    ensures
        t@ == localized_text(
            display_status_key(confirmed),
            match translation { Some(s) => Some(s@), None => None },
        ),
{
    if confirmed {
        resolve_localized("tx-confirmed", translation)
    } else {
        resolve_localized("tx-unconfirmed", translation)
    }
}

/// The net difference of a transaction as a sign and a magnitude:
/// whether more was debited than credited, and by how much the two differ.
pub fn net_difference(amount_credited: u64, amount_debited: u64) -> (r: (bool, u64))
    ensures
        r.0 == (amount_credited < amount_debited),
        !r.0 ==> r.1 == amount_credited - amount_debited,
        r.0 ==> r.1 == amount_debited - amount_credited,
{
    if amount_credited >= amount_debited {
        (false, amount_credited - amount_debited)
    } else {
        (true, amount_debited - amount_credited)
    }
}

/// The columns for which a transaction row draws a cell.
pub open spec fn renders_cell(k: ColumnKey) -> bool {
    ||| k == ColumnKey::Id
    ||| k == ColumnKey::CreationTime
    ||| k == ColumnKey::ConfirmationTime
    ||| k == ColumnKey::NetDifference
    ||| k == ColumnKey::Status
    ||| k == ColumnKey::Type
}

/// A row draws cells for the id, creation time, confirmation time, net
/// difference, status and type columns, and for no other.
pub proof fn lemma_row_cell_columns(k: ColumnKey)
    ensures
        renders_cell(ColumnKey::Id),
        renders_cell(ColumnKey::CreationTime),
        renders_cell(ColumnKey::ConfirmationTime),
        renders_cell(ColumnKey::NetDifference),
        renders_cell(ColumnKey::Status),
        renders_cell(ColumnKey::Type),
        (k != ColumnKey::Id && k != ColumnKey::CreationTime && k != ColumnKey::ConfirmationTime
            && k != ColumnKey::NetDifference && k != ColumnKey::Status && k != ColumnKey::Type)
            ==> !renders_cell(k),
{
}

/// Position `i` of the column configuration (key, hidden) is the first
/// visible entry for `k`.
pub open spec fn first_visible(config: Seq<(ColumnKey, bool)>, k: ColumnKey, i: int) -> bool {
    &&& 0 <= i < config.len()
    &&& config[i].0 == k
    &&& !config[i].1
    &&& forall|j: int| 0 <= j < i ==> !(config[j].0 == k && !config[j].1)
}

/// The cells of a transaction row: for each column that a row draws, the
/// position of its first visible entry in the configuration, ordered by
/// position.
pub fn row_cells(config: &Vec<(ColumnKey, bool)>) -> (cells: Vec<(usize, ColumnKey)>)
    ensures
        forall|m: int|
            0 <= m < cells@.len() ==> renders_cell((#[trigger] cells@[m]).1) && first_visible(
                config@,
                cells@[m].1,
                cells@[m].0 as int,
            ),
        forall|m: int, n: int| 0 <= m < n < cells@.len() ==> cells@[m].0 < cells@[n].0,
        forall|i: int|
            0 <= i < config@.len() && renders_cell(config@[i].0) && #[trigger] first_visible(
                config@,
                config@[i].0,
                i,
            ) ==> exists|m: int| 0 <= m < cells@.len() && cells@[m].0 == i,
{
    let mut cells: Vec<(usize, ColumnKey)> = Vec::new();
    let mut i: usize = 0;
    while i < config.len()
        invariant
            i <= config@.len(),
            forall|m: int|
                0 <= m < cells@.len() ==> renders_cell((#[trigger] cells@[m]).1) && first_visible(
                    config@,
                    cells@[m].1,
                    cells@[m].0 as int,
                ) && cells@[m].0 < i,
            forall|m: int, n: int| 0 <= m < n < cells@.len() ==> cells@[m].0 < cells@[n].0,
            forall|p: int|
                0 <= p < i && renders_cell(config@[p].0) && #[trigger] first_visible(
                    config@,
                    config@[p].0,
                    p,
                ) ==> exists|m: int| 0 <= m < cells@.len() && cells@[m].0 == p,
        decreases config@.len() - i,
    {
        let (key, hidden) = config[i];
        let draws = match key {
            ColumnKey::Id | ColumnKey::CreationTime | ColumnKey::ConfirmationTime
            | ColumnKey::NetDifference | ColumnKey::Status | ColumnKey::Type => true,
            _ => false,
        };
        if draws && !hidden {
            let mut earlier = false;
            let mut j: usize = 0;
            while j < i
                invariant
                    j <= i < config@.len(),
                    key == config@[i as int].0,
                    earlier == (exists|q: int| 0 <= q < j && config@[q].0 == key && !config@[q].1),
                decreases i - j,
            {
                let (kj, hj) = config[j];
                if kj == key && !hj {
                    earlier = true;
                }
                j = j + 1;
            }
            if !earlier {
                let ghost old_cells = cells@;
                cells.push((i, key));
                assert(first_visible(config@, key, i as int));
                assert forall|p: int|
                    0 <= p < i + 1 && renders_cell(config@[p].0) && #[trigger] first_visible(
                        config@,
                        config@[p].0,
                        p,
                    ) implies exists|m: int| 0 <= m < cells@.len() && cells@[m].0 == p by {
                    if p == i {
                        assert(cells@[cells@.len() - 1].0 == p);
                    } else {
                        let m = choose|m: int| 0 <= m < old_cells.len() && old_cells[m].0 == p;
                        assert(cells@[m].0 == p);
                    }
                }
            } else {
                assert(!first_visible(config@, key, i as int));
            }
        }
        i = i + 1;
    }
    cells
}

/// What an expanded transaction row offers below it.
#[derive(Clone, Copy, Debug, PartialEq, Eq, Structural)]
pub struct RowActions {
    /// The details button.
    pub details: bool,
    /// The payment proof button.
    pub proof: bool,
    /// The button that reloads the last saved slate.
    pub reload_slate: bool,
    /// The cancel button.
    pub cancel: bool,
    /// Whether the cancel button can be pressed.
    pub cancel_enabled: bool,
}

/// The buttons of a transaction row: none unless the row is expanded to
/// its details; then the details button, the proof button for a
/// contracts-method wallet and a transaction that is not a self spend, and
/// for an unconfirmed transaction the reload button (not for a self spend)
/// and the cancel button, which can be pressed only while the node is in
/// sync.
pub fn row_actions(
    expanded_details: bool,
    contracts_method: bool,
    self_spend: bool,
    confirmed: bool,
    node_synched: bool,
) -> (a: RowActions)
    ensures
        a.details == expanded_details,
        a.proof == (expanded_details && contracts_method && !self_spend),
        a.reload_slate == (expanded_details && !confirmed && !self_spend),
        a.cancel == (expanded_details && !confirmed),
        a.cancel_enabled == (expanded_details && !confirmed && node_synched),
{
    if !expanded_details {
        return RowActions {
            details: false,
            proof: false,
            reload_slate: false,
            cancel: false,
            cancel_enabled: false,
        };
    }
    RowActions {
        details: true,
        proof: contracts_method && !self_spend,
        reload_slate: !confirmed && !self_spend,
        cancel: !confirmed,
        cancel_enabled: !confirmed && node_synched,
    }
}

/// The transaction expanded after a click on the row of `clicked`: a click
/// on the expanded transaction closes it, a click on any other row expands
/// that row.
pub open spec fn toggled_expansion(current: Option<u32>, clicked: u32) -> Option<u32> {
    if current == Some(clicked) {
        None
    } else {
        Some(clicked)
    }
}

/// The id of the transaction that is expanded after a click on the row of
/// `clicked`, given the one expanded before.
pub fn toggle_expanded(current: Option<u32>, clicked: u32) -> (next: Option<u32>)
    ensures
        next == toggled_expansion(current, clicked),
{
    let should_close = match current {
        Some(id) => id == clicked,
        None => false,
    };
    if should_close {
        None
    } else {
        Some(clicked)
    }
}

/// A click closes a row exactly when that row was the expanded one, and
/// clicking the same row twice from any other state leaves no row expanded.
pub proof fn lemma_expand_toggle(current: Option<u32>, clicked: u32)
    ensures
        (toggled_expansion(current, clicked) is None) == (current == Some(clicked)),
        current != Some(clicked) ==> toggled_expansion(
            toggled_expansion(current, clicked),
            clicked,
        ) is None,
{
}

} // verus!
