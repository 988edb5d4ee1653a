//! The screen that shows an encrypted slatepack.
use vstd::prelude::*;

use super::Mode;

verus! {

/// Where the submit button of the slatepack screen leads: the screen that
/// asked for it, or the home screen.
pub fn submit_target(submit_mode: Option<Mode>) -> (m: Mode)
    ensures
        m == (match submit_mode {
            Some(s) => s,
            None => Mode::Home,
        }),
{
    match submit_mode {
        Some(s) => s,
        None => Mode::Home,
    }
}

/// The slatepack screen: the encrypted slate shown, where submitting
/// leads, and the title and description shown above the slate.
pub struct StateContainer {
    pub encrypted_slate: Option<String>,
    pub submit_mode: Option<Mode>,
    pub title_label: String,
    pub desc: String,
}

impl StateContainer {
    /// A screen with no slate and no target yet, showing the given
    /// (localized) default title and description.
    pub fn new(default_title: String, default_desc: String) -> (s: StateContainer)
        ensures
            s.encrypted_slate is None,
            s.submit_mode is None,
            s.title_label@ == default_title@,
            s.desc@ == default_desc@,
    {
        StateContainer {
            encrypted_slate: None,
            submit_mode: None,
            title_label: default_title,
            desc: default_desc,
        }
    }

    /// Shows the default title and description again; the slate and the
    /// target stay.
    pub fn reset_defaults(&mut self, default_title: String, default_desc: String)
        ensures
            final(self).title_label@ == default_title@,
            final(self).desc@ == default_desc@,
            final(self).encrypted_slate == old(self).encrypted_slate,
            final(self).submit_mode == old(self).submit_mode,
    {
        self.title_label = default_title;
        self.desc = default_desc;
    }

    /// Submits the screen: drops the slate and the target, shows the
    /// default texts again, and gives the screen to go to (see
    /// `submit_target`).
    pub fn submit(&mut self, default_title: String, default_desc: String) -> (m: Mode)
        ensures
            m == (match old(self).submit_mode {
                Some(s) => s,
                None => Mode::Home,
            }),
            final(self).encrypted_slate is None,
            final(self).submit_mode is None,
            final(self).title_label@ == default_title@,
            final(self).desc@ == default_desc@,
    {
        self.encrypted_slate = None;
        self.reset_defaults(default_title, default_desc);
        let m = submit_target(self.submit_mode);
        self.submit_mode = None;
        m
    }
}

} // verus!
