//! Locale and console code-page classification: decides whether the current
//! environment can be expected to display and accept UTF-8 text, and how a
//! child process should be configured when it cannot.

use vstd::prelude::*;

pub mod codepage;
pub mod command;
pub mod scan;
pub mod search;

pub use crate::codepage::{
    CodePageHandle, ConsoleCodePages, Utf8CodePageUnavailable, set_console_utf8,
    utf8_supported_windows,
};
pub use crate::command::{CommandEnv, CommandUtf8Ext};
pub use crate::scan::{LocaleSignal, get_locale_signal, utf8_supported_unix};
pub use crate::search::strstr_ignore_case;

verus! {

/// How well the current locale or console supports UTF-8.
#[derive(Debug, Clone, Copy, PartialEq, Eq, Hash, Structural)]
pub enum Utf8Support {
    /// The locale is unset, or at least as far as we can tell.
    Unknown,
    /// The locale is ASCII.
    ASCII,
    /// The locale is Latin-1 (Windows only).
    Latin1,
    /// The locale is UTF-8.
    UTF8,
    /// The locale is set, and not ASCII or UTF-8.
    Other,
}

impl Default for Utf8Support {
    fn default() -> (r: Self)
        ensures
            r == Utf8Support::Unknown,
    {
        Utf8Support::Unknown
    }
}

/// The platform-specific observation that the classification runs on: on a
/// POSIX-like system the values of the three locale variables (empty when a
/// variable is unset), on a Windows-like system the active console output
/// code page.
pub enum LocaleQuery {
    /// The values of `LC_ALL`, `LC_CTYPE` and `LANG`, in that priority order.
    Posix { lc_all: Vec<u8>, lc_ctype: Vec<u8>, lang: Vec<u8> },
    /// The active console output code page.
    Windows { code_page: u32 },
}

/// The support level a platform observation yields.
pub open spec fn support_of(q: LocaleQuery) -> Utf8Support {
    match q {
        LocaleQuery::Posix { lc_all, lc_ctype, lang } => crate::scan::posix_support(
            lc_all@,
            lc_ctype@,
            lang@,
        ),
        LocaleQuery::Windows { code_page } => crate::codepage::windows_support(code_page),
    }
}

/// Determine the UTF-8 support of the current locale, from the observation
/// the platform offers.
pub fn utf8_supported(query: &LocaleQuery) -> (r: Utf8Support)
    ensures
        r == support_of(*query),
{
    match query {
        LocaleQuery::Posix { lc_all, lc_ctype, lang } => crate::scan::utf8_supported_unix(
            lc_all,
            lc_ctype,
            lang,
        ),
        LocaleQuery::Windows { code_page } => crate::codepage::utf8_supported_windows(*code_page),
    }
}

} // verus!
