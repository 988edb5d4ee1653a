//! The summary of the embedded node: the status line for its sync state.
use vstd::prelude::*;

use crate::text::{decimal, push_decimal, push_signed_decimal, signed_decimal};

verus! {

/// The sync state of the node, with the numbers that its status line shows.
#[derive(Clone, Debug)]
pub enum SyncStatus {
    Initial,
    NoSync,
    AwaitingPeers(bool),
    HeaderSync { sync_head_height: u64, highest_height: u64 },
    TxHashsetPibd { completed_leaves: u64, leaves_required: u64 },
    /// Downloading the chain state. `rate_text` is the download rate as
    /// shown (kB/s, one decimal) and `waiting_secs` the time waited so far
    /// for a peer to start sending; both are measured by the caller.
    TxHashsetDownload {
        total_size: u64,
        downloaded_size: u64,
        rate_text: String,
        waiting_secs: i64,
    },
    TxHashsetSetup {
        headers: Option<u64>,
        headers_total: Option<u64>,
        kernel_pos: Option<u64>,
        kernel_pos_total: Option<u64>,
    },
    TxHashsetRangeProofsValidation { rproofs: u64, rproofs_total: u64 },
    TxHashsetKernelsValidation { kernels: u64, kernels_total: u64 },
    TxHashsetSave,
    TxHashsetDone,
    BodySync { current_height: u64, highest_height: u64 },
    Shutdown,
}

/// `part` of `whole` in whole percent, rounded down.
pub open spec fn percent(part: u64, whole: u64) -> nat {
    ((part as nat) * 100) / (whole as nat)
}

/// `part * 100` fits in 64 bits.
pub open spec fn scalable(part: u64) -> bool {
    part * 100 <= u64::MAX
}

/// The numbers of the state can be turned into percentages without
/// overflow or division by zero.
pub open spec fn formattable(s: SyncStatus) -> bool {
    match s {
        SyncStatus::HeaderSync { sync_head_height, highest_height } => highest_height != 0
            ==> scalable(sync_head_height),
        SyncStatus::TxHashsetPibd { completed_leaves, leaves_required } => completed_leaves != 0
            ==> scalable(completed_leaves) && leaves_required != 0,
        SyncStatus::TxHashsetDownload { total_size, downloaded_size, .. } => total_size > 0
            ==> scalable(downloaded_size),
        SyncStatus::TxHashsetSetup { headers, headers_total, kernel_pos, kernel_pos_total } => {
            if headers is Some && headers_total is Some {
                scalable(headers->0) && headers_total->0 != 0
            } else if kernel_pos is Some && kernel_pos_total is Some {
                scalable(kernel_pos->0) && kernel_pos_total->0 != 0
            } else {
                true
            }
        },
        SyncStatus::TxHashsetRangeProofsValidation { rproofs, rproofs_total } => rproofs_total > 0
            ==> scalable(rproofs),
        SyncStatus::TxHashsetKernelsValidation { kernels, kernels_total } => kernels_total > 0
            ==> scalable(kernels),
        SyncStatus::BodySync { current_height, highest_height } => highest_height != 0 ==> scalable(
            current_height,
        ),
        _ => true,
    }
}

/// `p` rendered as a percentage, `p%`.
pub open spec fn pct(p: nat) -> Seq<char> {
    decimal(p) + "%"@
}

/// The status line for a sync state.
pub open spec fn sync_status_text(s: SyncStatus) -> Seq<char> {
    match s {
        SyncStatus::Initial => "Initializing"@,
        SyncStatus::NoSync => "Running"@,
        SyncStatus::AwaitingPeers(_) => "Waiting for peers"@,
        SyncStatus::HeaderSync { sync_head_height, highest_height } => "Sync step 1/7: Downloading headers: "@
            + pct(if highest_height == 0 { 0 } else { percent(sync_head_height, highest_height) }),
        SyncStatus::TxHashsetPibd { completed_leaves, leaves_required } =>
            "Sync step 2/7: Downloading Tx state (PIBD) - "@ + decimal(completed_leaves as nat)
            + " / "@ + decimal(leaves_required as nat) + " entries - "@ + pct(
            if completed_leaves == 0 { 0 } else { percent(completed_leaves, leaves_required) },
        ),
        SyncStatus::TxHashsetDownload { total_size, downloaded_size, rate_text, waiting_secs } => {
            if total_size > 0 {
                "Sync step 2/7: Downloading "@ + decimal((total_size / 1_000_000) as nat)
                    + "(MB) chain state for state sync: "@ + pct(percent(downloaded_size, total_size))
                    + " at "@ + rate_text@ + "(kB/s)"@
            } else {
                "Sync step 2/7: Downloading chain state for state sync. Waiting remote peer to start: "@
                    + signed_decimal(waiting_secs as int) + "s"@
            }
        },
        SyncStatus::TxHashsetSetup { headers, headers_total, kernel_pos, kernel_pos_total } => {
            if headers is Some && headers_total is Some {
                "Sync step 3/7: Preparing for validation (kernel history) - "@ + decimal(
                    headers->0 as nat,
                ) + "/"@ + decimal(headers_total->0 as nat) + " - "@ + pct(
                    percent(headers->0, headers_total->0),
                )
            } else if kernel_pos is Some && kernel_pos_total is Some {
                "Sync step 3/7: Preparing for validation (kernel position) - "@ + decimal(
                    kernel_pos->0 as nat,
                ) + "/"@ + decimal(kernel_pos_total->0 as nat) + " - "@ + pct(
                    percent(kernel_pos->0, kernel_pos_total->0),
                )
            } else {
                "Sync step 3/7: Preparing chain state for validation"@
            }
        },
        SyncStatus::TxHashsetRangeProofsValidation { rproofs, rproofs_total } =>
            "Sync step 4/7: Validating chain state - range proofs: "@ + pct(
            if rproofs_total > 0 { percent(rproofs, rproofs_total) } else { 0 },
        ),
        SyncStatus::TxHashsetKernelsValidation { kernels, kernels_total } =>
            "Sync step 5/7: Validating chain state - kernels: "@ + pct(
            if kernels_total > 0 { percent(kernels, kernels_total) } else { 0 },
        ),
        SyncStatus::TxHashsetSave => "Sync step 6/7: Finalizing chain state for state sync"@,
        SyncStatus::TxHashsetDone => "Sync step 6/7: Finalized chain state for state sync"@,
        SyncStatus::BodySync { current_height, highest_height } => "Sync step 7/7: Downloading blocks: "@
            + pct(if highest_height == 0 { 0 } else { percent(current_height, highest_height) }),
        SyncStatus::Shutdown => "Shutting down, closing connections"@,
    }
}

fn push_pct(s: &mut String, p: u64)
    ensures
        final(s)@ == old(s)@ + pct(p as nat),
{
    push_decimal(s, p);
    s.append("%");
    assert(final(s)@ =~= old(s)@ + pct(p as nat));
}

fn percent_of(part: u64, whole: u64) -> (p: u64)
    requires
        scalable(part),
        whole != 0,
    ensures
        p == percent(part, whole),
{
    part * 100 / whole
}

/// The status line shown for the node's sync state.
pub fn format_sync_status(sync_status: &SyncStatus) -> (text: String)
    requires
        formattable(*sync_status),
    ensures
        text@ == sync_status_text(*sync_status),
{
    match sync_status {
        SyncStatus::Initial => String::from_str("Initializing"),
        SyncStatus::NoSync => String::from_str("Running"),
        SyncStatus::AwaitingPeers(_) => String::from_str("Waiting for peers"),
        SyncStatus::HeaderSync { sync_head_height, highest_height } => {
            let p = if *highest_height == 0 {
                0
            } else {
                percent_of(*sync_head_height, *highest_height)
            };
            let mut s = String::from_str("Sync step 1/7: Downloading headers: ");
            push_pct(&mut s, p);
            assert(s@ =~= sync_status_text(*sync_status));
            s
        },
        SyncStatus::TxHashsetPibd { completed_leaves, leaves_required } => {
            let p = if *completed_leaves == 0 {
                0
            } else {
                percent_of(*completed_leaves, *leaves_required)
            };
            let mut s = String::from_str("Sync step 2/7: Downloading Tx state (PIBD) - ");
            push_decimal(&mut s, *completed_leaves);
            s.append(" / ");
            push_decimal(&mut s, *leaves_required);
            s.append(" entries - ");
            push_pct(&mut s, p);
            assert(s@ =~= sync_status_text(*sync_status));
            s
        },
        SyncStatus::TxHashsetDownload { total_size, downloaded_size, rate_text, waiting_secs } => {
            if *total_size > 0 {
                let p = percent_of(*downloaded_size, *total_size);
                let mut s = String::from_str("Sync step 2/7: Downloading ");
                push_decimal(&mut s, *total_size / 1_000_000);
                s.append("(MB) chain state for state sync: ");
                push_pct(&mut s, p);
                s.append(" at ");
                s.append(rate_text.as_str());
                s.append("(kB/s)");
                assert(s@ =~= sync_status_text(*sync_status));
                s
            } else {
                let mut s = String::from_str(
                    "Sync step 2/7: Downloading chain state for state sync. Waiting remote peer to start: ",
                );
                push_signed_decimal(&mut s, *waiting_secs);
                s.append("s");
                assert(s@ =~= sync_status_text(*sync_status));
                s
            }
        },
        SyncStatus::TxHashsetSetup { headers, headers_total, kernel_pos, kernel_pos_total } => {
            match (headers, headers_total, kernel_pos, kernel_pos_total) {
                (Some(h), Some(ht), _, _) => {
                    let p = percent_of(*h, *ht);
                    let mut s = String::from_str(
                        "Sync step 3/7: Preparing for validation (kernel history) - ",
                    );
                    push_decimal(&mut s, *h);
                    s.append("/");
                    push_decimal(&mut s, *ht);
                    s.append(" - ");
                    push_pct(&mut s, p);
                    assert(s@ =~= sync_status_text(*sync_status));
                    s
                },
                (_, _, Some(k), Some(kt)) => {
                    let p = percent_of(*k, *kt);
                    let mut s = String::from_str(
                        "Sync step 3/7: Preparing for validation (kernel position) - ",
                    );
                    push_decimal(&mut s, *k);
                    s.append("/");
                    push_decimal(&mut s, *kt);
                    s.append(" - ");
                    push_pct(&mut s, p);
                    assert(s@ =~= sync_status_text(*sync_status));
                    s
                },
                _ => String::from_str("Sync step 3/7: Preparing chain state for validation"),
            }
        },
        SyncStatus::TxHashsetRangeProofsValidation { rproofs, rproofs_total } => {
            let p = if *rproofs_total > 0 {
                percent_of(*rproofs, *rproofs_total)
            } else {
                0
            };
            let mut s = String::from_str("Sync step 4/7: Validating chain state - range proofs: ");
            push_pct(&mut s, p);
            assert(s@ =~= sync_status_text(*sync_status));
            s
        },
        SyncStatus::TxHashsetKernelsValidation { kernels, kernels_total } => {
            let p = if *kernels_total > 0 {
                percent_of(*kernels, *kernels_total)
            } else {
                0
            };
            let mut s = String::from_str("Sync step 5/7: Validating chain state - kernels: ");
            push_pct(&mut s, p);
            assert(s@ =~= sync_status_text(*sync_status));
            s
        },
        SyncStatus::TxHashsetSave => String::from_str(
            "Sync step 6/7: Finalizing chain state for state sync",
        ),
        SyncStatus::TxHashsetDone => String::from_str(
            "Sync step 6/7: Finalized chain state for state sync",
        ),
        SyncStatus::BodySync { current_height, highest_height } => {
            let p = if *highest_height == 0 {
                0
            } else {
                percent_of(*current_height, *highest_height)
            };
            let mut s = String::from_str("Sync step 7/7: Downloading blocks: ");
            push_pct(&mut s, p);
            assert(s@ =~= sync_status_text(*sync_status));
            s
        },
        SyncStatus::Shutdown => String::from_str("Shutting down, closing connections"),
    }
}

/// A sync step that has done no more than its whole reports at most 100%.
pub proof fn lemma_percent_at_most_100(part: u64, whole: u64)
    requires
        whole != 0,
        part <= whole,
    ensures
        percent(part, whole) <= 100,
{
    assert((part as nat) * 100 <= (whole as nat) * 100) by (nonlinear_arith)
        requires
            part <= whole,
    ;
    assert(((part as nat) * 100) / (whole as nat) <= 100) by (nonlinear_arith)
        requires
            (part as nat) * 100 <= (whole as nat) * 100,
            whole > 0,
    ;
}

/// The percentage in each progress line is the state's own part times a
/// hundred over its own total, rounded down; with a zero total the lines
/// that show a percentage show 0%.
pub proof fn lemma_status_line_percentages(part: u64, total: u64)
    ensures
        total > 0 ==> sync_status_text(
            SyncStatus::TxHashsetKernelsValidation { kernels: part, kernels_total: total },
        ) == "Sync step 5/7: Validating chain state - kernels: "@ + decimal(
            (part as nat) * 100 / (total as nat),
        ) + "%"@,
        total == 0 ==> sync_status_text(
            SyncStatus::TxHashsetKernelsValidation { kernels: part, kernels_total: total },
        ) == "Sync step 5/7: Validating chain state - kernels: "@ + decimal(0) + "%"@,
        total > 0 ==> sync_status_text(
            SyncStatus::TxHashsetRangeProofsValidation { rproofs: part, rproofs_total: total },
        ) == "Sync step 4/7: Validating chain state - range proofs: "@ + decimal(
            (part as nat) * 100 / (total as nat),
        ) + "%"@,
        total == 0 ==> sync_status_text(
            SyncStatus::TxHashsetRangeProofsValidation { rproofs: part, rproofs_total: total },
        ) == "Sync step 4/7: Validating chain state - range proofs: "@ + decimal(0) + "%"@,
        total > 0 ==> sync_status_text(
            SyncStatus::HeaderSync { sync_head_height: part, highest_height: total },
        ) == "Sync step 1/7: Downloading headers: "@ + decimal((part as nat) * 100 / (total as nat))
            + "%"@,
        total == 0 ==> sync_status_text(
            SyncStatus::HeaderSync { sync_head_height: part, highest_height: total },
        ) == "Sync step 1/7: Downloading headers: "@ + decimal(0) + "%"@,
        total > 0 ==> sync_status_text(
            SyncStatus::BodySync { current_height: part, highest_height: total },
        ) == "Sync step 7/7: Downloading blocks: "@ + decimal((part as nat) * 100 / (total as nat))
            + "%"@,
        total == 0 ==> sync_status_text(
            SyncStatus::BodySync { current_height: part, highest_height: total },
        ) == "Sync step 7/7: Downloading blocks: "@ + decimal(0) + "%"@,
        part != 0 ==> sync_status_text(
            SyncStatus::TxHashsetPibd { completed_leaves: part, leaves_required: total },
        ) == "Sync step 2/7: Downloading Tx state (PIBD) - "@ + decimal(part as nat) + " / "@
            + decimal(total as nat) + " entries - "@ + decimal(
            (part as nat) * 100 / (total as nat),
        ) + "%"@,
        part == 0 ==> sync_status_text(
            SyncStatus::TxHashsetPibd { completed_leaves: part, leaves_required: total },
        ) == "Sync step 2/7: Downloading Tx state (PIBD) - "@ + decimal(0) + " / "@ + decimal(
            total as nat,
        ) + " entries - "@ + decimal(0) + "%"@,
{
}

/// The download and preparation lines: the downloaded share of the total
/// size, and the share of headers or kernel positions prepared, each the
/// part times a hundred over the total, rounded down.
pub proof fn lemma_setup_line_percentages(
    part: u64,
    total: u64,
    rate_text: String,
    waiting_secs: i64,
)
    ensures
        total > 0 ==> sync_status_text(
            SyncStatus::TxHashsetDownload {
                total_size: total,
                downloaded_size: part,
                rate_text,
                waiting_secs,
            },
        ) == "Sync step 2/7: Downloading "@ + decimal((total / 1_000_000) as nat)
            + "(MB) chain state for state sync: "@ + decimal(
            (part as nat) * 100 / (total as nat),
        ) + "%"@ + " at "@ + rate_text@ + "(kB/s)"@,
        sync_status_text(
            SyncStatus::TxHashsetSetup {
                headers: Some(part),
                headers_total: Some(total),
                kernel_pos: None,
                kernel_pos_total: None,
            },
        ) == "Sync step 3/7: Preparing for validation (kernel history) - "@ + decimal(
            part as nat,
        ) + "/"@ + decimal(total as nat) + " - "@ + decimal((part as nat) * 100 / (total as nat))
            + "%"@,
        sync_status_text(
            SyncStatus::TxHashsetSetup {
                headers: None,
                headers_total: None,
                kernel_pos: Some(part),
                kernel_pos_total: Some(total),
            },
        ) == "Sync step 3/7: Preparing for validation (kernel position) - "@ + decimal(
            part as nat,
        ) + "/"@ + decimal(total as nat) + " - "@ + decimal((part as nat) * 100 / (total as nat))
            + "%"@,
{
}

/// The lines of the states without numbers.
pub proof fn lemma_fixed_status_lines(waiting: bool)
    ensures
        sync_status_text(SyncStatus::Initial) == "Initializing"@,
        sync_status_text(SyncStatus::NoSync) == "Running"@,
        sync_status_text(SyncStatus::AwaitingPeers(waiting)) == "Waiting for peers"@,
        sync_status_text(SyncStatus::TxHashsetSave)
            == "Sync step 6/7: Finalizing chain state for state sync"@,
        sync_status_text(SyncStatus::TxHashsetDone)
            == "Sync step 6/7: Finalized chain state for state sync"@,
        sync_status_text(SyncStatus::Shutdown) == "Shutting down, closing connections"@,
        sync_status_text(
            SyncStatus::TxHashsetSetup {
                headers: None,
                headers_total: None,
                kernel_pos: None,
                kernel_pos_total: None,
            },
        ) == "Sync step 3/7: Preparing chain state for validation"@,
{
}

} // verus!
