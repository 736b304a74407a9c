//! The console code-page inspector for Windows-like systems: maps the active
//! output code page to a support level, and models the scoped switch of the
//! console to UTF-8 with restoration of the original code pages on release.

use vstd::prelude::*;

use crate::Utf8Support;

verus! {

/// The pair of console code pages a Windows-like host exposes: the output
/// page and the input page. A value of 0 means no console is attached.
#[derive(Debug, Clone, Copy, PartialEq, Eq, Structural)]
pub struct ConsoleCodePages {
    /// The active output code page.
    pub output: u32,
    /// The active input code page.
    pub input: u32,
}

/// The error of the one fallible operation: the host does not offer the
/// UTF-8 code page (65001), so the console cannot be switched to it.
#[derive(Debug, Clone, Copy, PartialEq, Eq, Structural)]
pub struct Utf8CodePageUnavailable;

/// The support level a console output code page indicates: 65001 is UTF-8,
/// 20127 is US-ASCII, 1252 is the single-byte Western page, 0 means no
/// console is attached, and every other page — 437, the OEM United States
/// page, deliberately among them — is `Other`.
pub open spec fn windows_support(code_page: u32) -> Utf8Support {
    if code_page == 65001 {
        Utf8Support::UTF8
    } else if code_page == 20127 {
        Utf8Support::ASCII
    } else if code_page == 1252 {
        Utf8Support::Latin1
    } else if code_page == 0 {
        Utf8Support::Unknown
    } else {
        Utf8Support::Other
    }
}

/// Determine the UTF-8 support of a Windows-like console from its active
/// output code page.
pub fn utf8_supported_windows(code_page: u32) -> (r: Utf8Support)
    ensures
        r == windows_support(code_page),
{
    match code_page {
        65001 => Utf8Support::UTF8,
        20127 => Utf8Support::ASCII,
        1252 => Utf8Support::Latin1,
        0 => Utf8Support::Unknown,
        437 => Utf8Support::Other,
        _ => Utf8Support::Other,
    }
}

/// A handle that carries the console code pages captured when the console
/// was switched to UTF-8, and restores them on release. A captured value of
/// 0 (the default handle's content) marks "nothing to restore".
#[derive(Debug)]
pub struct CodePageHandle(u32, u32);

impl CodePageHandle {
    /// The output code page captured at acquisition.
    pub closed spec fn saved_output(&self) -> u32 {
        self.0
    }

    /// The input code page captured at acquisition.
    pub closed spec fn saved_input(&self) -> u32 {
        self.1
    }

    /// The console state that releasing this handle leaves behind, given the
    /// state at release time: each captured page replaces the active one,
    /// except that a captured 0 leaves the active page untouched.
    pub open spec fn restored(&self, at_release: ConsoleCodePages) -> ConsoleCodePages {
        ConsoleCodePages {
            output: if self.saved_output() != 0 {
                self.saved_output()
            } else {
                at_release.output
            },
            input: if self.saved_input() != 0 {
                self.saved_input()
            } else {
                at_release.input
            },
        }
    }

    /// Release the handle: compute the console state to put back, from the
    /// state the console holds at release time.
    pub fn restore(&self, at_release: &ConsoleCodePages) -> (r: ConsoleCodePages)
        ensures
            r == self.restored(*at_release),
    {
        ConsoleCodePages {
            output: if self.0 != 0 {
                self.0
            } else {
                at_release.output
            },
            input: if self.1 != 0 {
                self.1
            } else {
                at_release.input
            },
        }
    }
}

impl Default for CodePageHandle {
    /// The no-op handle: it captures nothing and restores nothing.
    fn default() -> (r: Self)
        ensures
            r.saved_output() == 0,
            r.saved_input() == 0,
    {
        CodePageHandle(0, 0)
    }
}

/// Switch the console to UTF-8 mode. `current` is the console state at the
/// time of the call and `utf8_valid` is whether the host offers code page
/// 65001. On success the console's next state sets both pages to 65001 and
/// the returned handle captures the two original pages; when 65001 is not
/// available, the call fails and the console state is left untouched.
pub fn set_console_utf8(current: &ConsoleCodePages, utf8_valid: bool) -> (r: Result<
    (ConsoleCodePages, CodePageHandle),
    Utf8CodePageUnavailable,
>)
    ensures
        utf8_valid ==> (r matches Ok((next, handle)) && next.output == 65001 && next.input == 65001
            && handle.saved_output() == current.output && handle.saved_input() == current.input),
        !utf8_valid ==> r is Err,
{
    if utf8_valid {
        Ok((ConsoleCodePages { output: 65001, input: 65001 }, CodePageHandle(current.output, current.input)))
    } else {
        Err(Utf8CodePageUnavailable)
    }
}

/// Law: switching the console to UTF-8 and then releasing the returned
/// handle restores exactly the pre-acquisition code pages, whatever state
/// the console holds at release time — provided both pre-acquisition pages
/// are nonzero, since a captured 0 is deliberately not restored.
pub proof fn lemma_scoped_utf8_restores(
    pre: ConsoleCodePages,
    handle: CodePageHandle,
    at_release: ConsoleCodePages,
)
    requires
        handle.saved_output() == pre.output,
        handle.saved_input() == pre.input,
        pre.output != 0,
        pre.input != 0,
    ensures
        handle.restored(at_release) == pre,
{
}

} // verus!
