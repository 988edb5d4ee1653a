//! General settings.
use vstd::prelude::*;

verus! {

/// The general settings screen shown.
#[derive(Clone, Copy, Debug, PartialEq, Eq, Structural)]
pub enum Mode {
    Wallet,
    Node,
    General,
}

/// The theme used at start: the configured one, or the given default when
/// none is configured.
pub fn theme_name_or(configured: Option<String>, default_name: &str) -> (n: String)
    ensures
        n@ == (match configured {
            Some(t) => t@,
            None => default_name@,
        }),
{
    match configured {
        Some(t) => t,
        None => String::from_str(default_name),
    }
}

/// The theme that the settings show once a configuration is applied: the
/// configured one, or `Dark`.
pub fn configured_theme_name(configured: Option<String>) -> (n: String)
    ensures
        n@ == (match configured {
            Some(t) => t@,
            None => "Dark"@,
        }),
{
    theme_name_or(configured, "Dark")
}

/// The theme the window starts with and the price chart is drawn in: the
/// configured one, or `Alliance`.
pub fn startup_theme_name(configured: Option<String>) -> (n: String)
    ensures
        n@ == (match configured {
            Some(t) => t@,
            None => "Alliance"@,
        }),
{
    theme_name_or(configured, "Alliance")
}

} // verus!
