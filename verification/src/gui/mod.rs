//! The application's top-level state and decisions: its modes, the modal
//! dialog, and the state of a self update.
use vstd::prelude::*;

use crate::localization::{localized_text, resolve_localized};

pub mod element;
pub mod update;

verus! {

/// Whether the application is ready, busy, or failed.
pub enum State {
    Ready,
    Loading,
    Error(anyhow::Error),
}

impl Default for State {
    /// Ready.
    fn default() -> (s: State)
        ensures
            s is Ready,
    {
        State::Ready
    }
}

/// The dialog that the modal shows.
#[derive(Clone, Copy, Debug, PartialEq, Eq, Structural)]
pub enum ModalType {
    Exit,
    Error,
}

/// Whether the modal is shown, and which dialog it holds.
#[derive(Clone, Copy, Debug, PartialEq, Eq, Structural)]
pub struct ModalState {
    pub show_modal: bool,
    pub modal_type: ModalType,
}

impl Default for ModalState {
    /// Hidden, holding the error dialog.
    fn default() -> (s: ModalState)
        ensures
            !s.show_modal,
            s.modal_type == ModalType::Error,
    {
        ModalState { show_modal: false, modal_type: ModalType::Error }
    }
}

impl ModalState {
    /// Shows the exit dialog, or hides the modal and sets it back to the
    /// error dialog.
    pub fn show_exit(&mut self, show: bool)
        ensures
            final(self).show_modal == show,
            final(self).modal_type == (if show { ModalType::Exit } else { ModalType::Error }),
    {
        self.show_modal = show;
        if show {
            self.modal_type = ModalType::Exit;
        } else {
            self.modal_type = ModalType::Error;
        }
    }
}

/// The progress of a self update.
#[derive(Clone, Copy, Debug, PartialEq, Eq, Structural)]
pub enum SelfUpdateStatus {
    InProgress,
    Failed,
}

/// The localization key of a self update's status text.
pub open spec fn self_update_status_key(s: SelfUpdateStatus) -> Seq<char> {
    match s {
        SelfUpdateStatus::InProgress => "updating"@,
        SelfUpdateStatus::Failed => "failed"@,
    }
}

impl SelfUpdateStatus {
    /// The status text, localized: given the translation table's entry for
    /// its key (see `self_update_status_key`).
    pub fn label(self, translation: Option<String>) -> (t: String)
        ensures
            t@ == localized_text(
                self_update_status_key(self),
                match translation { Some(s) => Some(s@), None => None },
            ),
    {
        match self {
            SelfUpdateStatus::InProgress => resolve_localized("updating", translation),
            SelfUpdateStatus::Failed => resolve_localized("failed", translation),
        }
    }
}

/// The state of a self update: none, running, or failed.
#[derive(Clone, Copy, Debug, PartialEq, Eq, Structural)]
pub struct SelfUpdateState {
    pub status: Option<SelfUpdateStatus>,
}

impl Default for SelfUpdateState {
    /// No update.
    fn default() -> (s: SelfUpdateState)
        ensures
            s.status is None,
    {
        SelfUpdateState { status: None }
    }
}

/// The top-level screen.
#[derive(Clone, Copy, Debug, PartialEq, Eq, Structural, Hash)]
pub enum Mode {
    Catalog,
    Install,
    Settings,
    About,
}

} // verus!
