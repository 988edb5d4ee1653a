//! Top-level message handling: which messages clear the shown error, what
//! the keyboard shortcuts do, which window sizes are remembered, and the
//! name of the released binary.
use vstd::prelude::*;

use super::Mode;

verus! {

/// The kinds of user interaction that matter to the error display.
#[derive(Clone, Copy, Debug, PartialEq, Eq, Structural)]
pub enum InteractionKind {
    OpenErrorModal,
    CloseErrorModal,
    WriteToClipboard,
    Other,
}

/// Every interaction clears the shown error except opening or closing the
/// error dialog and copying to the clipboard.
pub fn interaction_clears_error(kind: InteractionKind) -> (clears: bool)
    ensures
        clears == (kind == InteractionKind::Other),
{
    match kind {
        InteractionKind::OpenErrorModal => false,
        InteractionKind::CloseErrorModal => false,
        InteractionKind::WriteToClipboard => false,
        InteractionKind::Other => true,
    }
}

/// A released key.
#[derive(Clone, Copy, Debug, PartialEq, Eq, Structural)]
pub enum Key {
    A,
    C,
    I,
    R,
    S,
    U,
    W,
    Escape,
    Other,
}

/// The screen after a key is released: with shortcuts on and no modifier
/// held, C opens the catalog, S the settings and I the installer; any
/// other key, or a key with a modifier, or with shortcuts off, changes
/// nothing.
pub fn mode_after_key(mode: Mode, keybindings_enabled: bool, no_modifiers: bool, key: Key) -> (m: Mode)
    ensures
        m == (if !keybindings_enabled || !no_modifiers {
            mode
        } else {
            match key {
                Key::C => Mode::Catalog,
                Key::S => Mode::Settings,
                Key::I => Mode::Install,
                _ => mode,
            }
        }),
{
    if !keybindings_enabled || !no_modifiers {
        return mode;
    }
    match key {
        Key::C => Mode::Catalog,
        Key::S => Mode::Settings,
        Key::I => Mode::Install,
        _ => mode,
    }
}

/// The window size to remember after a resize (already scaled): none for a
/// zero size, which minimizing reports.
pub fn window_size_to_store(width: u32, height: u32) -> (r: Option<(u32, u32)>)
    ensures
        r == (if width > 0 && height > 0 { Some((width, height)) } else { None::<(u32, u32)> }),
{
    if width > 0 && height > 0 {
        Some((width, height))
    } else {
        None
    }
}

/// The operating system a binary is built for.
#[derive(Clone, Copy, Debug, PartialEq, Eq, Structural)]
pub enum TargetOs {
    Windows,
    MacOs,
    Linux,
}

/// The file name of the published binary for each operating system.
pub fn bin_name(os: TargetOs) -> (name: &'static str)
    ensures
        name@ == (match os {
            TargetOs::Windows => "grin-gui.exe"@,
            TargetOs::MacOs => "grin-gui"@,
            TargetOs::Linux => "grin-gui.AppImage"@,
        }),
{
    match os {
        TargetOs::Windows => "grin-gui.exe",
        TargetOs::MacOs => "grin-gui",
        TargetOs::Linux => "grin-gui.AppImage",
    }
}

} // verus!
