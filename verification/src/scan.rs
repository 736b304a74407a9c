//! The environment signal scanner for POSIX-like systems: classifies the
//! values of the locale variables `LC_ALL`, `LC_CTYPE` and `LANG` (in that
//! priority order) and reduces the signals to one support level.

use vstd::prelude::*;

use crate::Utf8Support;
use crate::search::{
    contains_ignore_case, eq_ignore_case, eq_ignore_case_exec, is_lowercase, lower_byte,
    strstr_ignore_case,
};

verus! {

/// The classification of a single locale variable's value, used only while
/// scanning and discarded after the reduction.
#[derive(Debug, Clone, Copy, PartialEq, Eq, Structural)]
pub enum LocaleSignal {
    /// The variable is unset or empty.
    Unknown,
    /// The value names a UTF-8 locale.
    UTF8,
    /// The value requests the POSIX/C locale.
    ASCII,
    /// The value names some other locale.
    NonUTF8,
}

/// The bytes of `"utf-8"`.
pub open spec fn utf8_hyphen_needle() -> Seq<u8> {
    seq![117u8, 116u8, 102u8, 45u8, 56u8]
}

/// The bytes of `"utf8"`.
pub open spec fn utf8_plain_needle() -> Seq<u8> {
    seq![117u8, 116u8, 102u8, 56u8]
}

/// The bytes of `"c"`.
pub open spec fn c_name() -> Seq<u8> {
    seq![99u8]
}

/// The bytes of `"posix"`.
pub open spec fn posix_name() -> Seq<u8> {
    seq![112u8, 111u8, 115u8, 105u8, 120u8]
}

/// The signal a single variable's value yields: empty is `Unknown`; a
/// case-insensitive match of `"C"` or `"POSIX"` is `ASCII`; a value holding
/// `"utf-8"` or `"utf8"` (case-insensitively, anywhere) is `UTF8`; any other
/// non-empty value is `NonUTF8`.
pub open spec fn signal_of(v: Seq<u8>) -> LocaleSignal {
    if v.len() == 0 {
        LocaleSignal::Unknown
    } else if eq_ignore_case(v, c_name()) || eq_ignore_case(v, posix_name()) {
        LocaleSignal::ASCII
    } else if contains_ignore_case(v, utf8_hyphen_needle()) || contains_ignore_case(
        v,
        utf8_plain_needle(),
    ) {
        LocaleSignal::UTF8
    } else {
        LocaleSignal::NonUTF8
    }
}

/// The reduction of a priority-ordered signal sequence: the first `UTF8` or
/// `ASCII` signal decides, unless a `NonUTF8` signal stands before it, which
/// does not decide by itself but keeps scanning; when nothing decides, a seen
/// `NonUTF8` yields `Other` and an all-`Unknown` sequence yields `Unknown`.
pub open spec fn reduce_signals(signals: Seq<LocaleSignal>) -> Utf8Support
    decreases signals.len(),
{
    if signals.len() == 0 {
        Utf8Support::Unknown
    } else {
        match signals[0] {
            LocaleSignal::UTF8 => Utf8Support::UTF8,
            LocaleSignal::ASCII => Utf8Support::ASCII,
            LocaleSignal::NonUTF8 => {
                let rest = reduce_signals(signals.skip(1));
                if rest == Utf8Support::UTF8 || rest == Utf8Support::ASCII {
                    rest
                } else {
                    Utf8Support::Other
                }
            },
            LocaleSignal::Unknown => reduce_signals(signals.skip(1)),
        }
    }
}

/// The support level of a POSIX-like environment, from the values of
/// `LC_ALL`, `LC_CTYPE` and `LANG` (an unset variable is the empty value).
pub open spec fn posix_support(lc_all: Seq<u8>, lc_ctype: Seq<u8>, lang: Seq<u8>) -> Utf8Support {
    reduce_signals(seq![signal_of(lc_all), signal_of(lc_ctype), signal_of(lang)])
}

proof fn lemma_names_lowercase()
    ensures
        is_lowercase(utf8_hyphen_needle()),
        is_lowercase(utf8_plain_needle()),
        is_lowercase(c_name()),
        is_lowercase(posix_name()),
{
    assert forall|j: int| 0 <= j < utf8_hyphen_needle().len() implies lower_byte(
        utf8_hyphen_needle()[j],
    ) == utf8_hyphen_needle()[j] by {
        if j == 0 {
        } else if j == 1 {
        } else if j == 2 {
        } else if j == 3 {
        } else {
            assert(j == 4);
        }
    }
    assert forall|j: int| 0 <= j < utf8_plain_needle().len() implies lower_byte(
        utf8_plain_needle()[j],
    ) == utf8_plain_needle()[j] by {
        if j == 0 {
        } else if j == 1 {
        } else if j == 2 {
        } else {
            assert(j == 3);
        }
    }
    assert forall|j: int| 0 <= j < c_name().len() implies lower_byte(c_name()[j]) == c_name()[j] by {
        assert(j == 0);
    }
    assert forall|j: int| 0 <= j < posix_name().len() implies lower_byte(posix_name()[j])
        == posix_name()[j] by {
        if j == 0 {
        } else if j == 1 {
        } else if j == 2 {
        } else if j == 3 {
        } else {
            assert(j == 4);
        }
    }
}

fn utf8_hyphen_vec() -> (v: Vec<u8>)
    ensures
        v@ == utf8_hyphen_needle(),
{
    let mut v: Vec<u8> = Vec::new();
    v.push(117);
    v.push(116);
    v.push(102);
    v.push(45);
    v.push(56);
    proof {
        assert(v@ =~= utf8_hyphen_needle());
    }
    v
}

fn utf8_plain_vec() -> (v: Vec<u8>)
    ensures
        v@ == utf8_plain_needle(),
{
    let mut v: Vec<u8> = Vec::new();
    v.push(117);
    v.push(116);
    v.push(102);
    v.push(56);
    proof {
        assert(v@ =~= utf8_plain_needle());
    }
    v
}

fn c_name_vec() -> (v: Vec<u8>)
    ensures
        v@ == c_name(),
{
    let mut v: Vec<u8> = Vec::new();
    v.push(99);
    proof {
        assert(v@ =~= c_name());
    }
    v
}

fn posix_name_vec() -> (v: Vec<u8>)
    ensures
        v@ == posix_name(),
{
    let mut v: Vec<u8> = Vec::new();
    v.push(112);
    v.push(111);
    v.push(115);
    v.push(105);
    v.push(120);
    proof {
        assert(v@ =~= posix_name());
    }
    v
}

/// Classify one locale variable's value.
pub fn get_locale_signal(value: &Vec<u8>) -> (s: LocaleSignal)
    ensures
        s == signal_of(value@),
{
    proof {
        lemma_names_lowercase();
    }
    if value.len() == 0 {
        LocaleSignal::Unknown
    } else if eq_ignore_case_exec(value, &c_name_vec()) || eq_ignore_case_exec(
        value,
        &posix_name_vec(),
    ) {
        LocaleSignal::ASCII
    } else if strstr_ignore_case(value, &utf8_hyphen_vec()) || strstr_ignore_case(
        value,
        &utf8_plain_vec(),
    ) {
        LocaleSignal::UTF8
    } else {
        LocaleSignal::NonUTF8
    }
}

/// Determine the UTF-8 support of a POSIX-like locale by scanning `LC_ALL`,
/// `LC_CTYPE` and `LANG` in priority order and locating the first decisive
/// signal. A decisive (`UTF8`/`ASCII`) signal returns at once; a `NonUTF8`
/// signal downgrades the running answer to `Other` but lets a later,
/// lower-priority variable still decide.
pub fn utf8_supported_unix(lc_all: &Vec<u8>, lc_ctype: &Vec<u8>, lang: &Vec<u8>) -> (r: Utf8Support)
    ensures
        r == posix_support(lc_all@, lc_ctype@, lang@),
{
    proof {
        reveal_with_fuel(reduce_signals, 4);
        let s0 = signal_of(lc_all@);
        let s1 = signal_of(lc_ctype@);
        let s2 = signal_of(lang@);
        assert(seq![s0, s1, s2].skip(1) =~= seq![s1, s2]);
        assert(seq![s1, s2].skip(1) =~= seq![s2]);
        assert(seq![s2].skip(1) =~= Seq::<LocaleSignal>::empty());
    }
    let mut signal = Utf8Support::Unknown;
    match get_locale_signal(lc_all) {
        LocaleSignal::UTF8 => {
            return Utf8Support::UTF8;
        },
        LocaleSignal::ASCII => {
            return Utf8Support::ASCII;
        },
        LocaleSignal::NonUTF8 => {
            signal = Utf8Support::Other;
        },
        LocaleSignal::Unknown => {},
    }
    match get_locale_signal(lc_ctype) {
        LocaleSignal::UTF8 => {
            return Utf8Support::UTF8;
        },
        LocaleSignal::ASCII => {
            return Utf8Support::ASCII;
        },
        LocaleSignal::NonUTF8 => {
            signal = Utf8Support::Other;
        },
        LocaleSignal::Unknown => {},
    }
    match get_locale_signal(lang) {
        LocaleSignal::UTF8 => {
            return Utf8Support::UTF8;
        },
        LocaleSignal::ASCII => {
            return Utf8Support::ASCII;
        },
        LocaleSignal::NonUTF8 => {
            signal = Utf8Support::Other;
        },
        LocaleSignal::Unknown => {},
    }
    signal
}

} // verus!
