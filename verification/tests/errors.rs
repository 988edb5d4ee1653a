use grin_gui::{error_cause_string, error_modal_text, log_error, self_update_cleanup, SelfUpdateCleanup};

#[test]
fn cause_string_lists_every_cause() {
    let e = anyhow::Error::msg("disk full").context("failed to save").context("cannot close wallet");
    assert_eq!(
        error_cause_string(&e),
        "cannot close wallet\n\nfailed to save\n\ndisk full\n\n"
    );
}

#[test]
fn cause_string_of_single_error() {
    let e = anyhow::Error::msg("boom");
    assert_eq!(error_cause_string(&e), "boom\n\n");
}

#[test]
fn log_lines_name_deeper_causes() {
    let e = anyhow::Error::msg("root").context("outer");
    assert_eq!(log_error(&e), vec!["outer".to_string(), "caused by: root".to_string()]);
    let single = anyhow::Error::msg("only");
    assert_eq!(log_error(&single), vec!["only".to_string()]);
}

#[test]
fn log_and_dialog_start_with_the_error_itself() {
    let e = anyhow::Error::msg("a").context("b").context("c");
    let lines = log_error(&e);
    let text = error_cause_string(&e);
    assert_eq!(lines.len(), 3);
    assert!(text.starts_with(&lines[0]));
    assert_eq!(lines[0], e.to_string());
}

#[test]
fn error_dialog_without_error() {
    assert_eq!(error_modal_text(None), "unknown error");
    let e = anyhow::Error::msg("x");
    assert_eq!(error_modal_text(Some(&e)), "x\n\n");
}

#[test]
fn self_update_cleanup_by_file_name() {
    assert_eq!(self_update_cleanup("tmp_grin-gui.exe"), SelfUpdateCleanup::RenameToMain);
    assert_eq!(self_update_cleanup("grin-gui.exe"), SelfUpdateCleanup::RemoveLeftover);
    assert_eq!(self_update_cleanup("tmp"), SelfUpdateCleanup::RemoveLeftover);
    assert_eq!(self_update_cleanup("tmp_"), SelfUpdateCleanup::RenameToMain);
    assert_eq!(self_update_cleanup(""), SelfUpdateCleanup::RemoveLeftover);
}
