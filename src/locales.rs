//! The interface languages: which locale files give which language.

use vstd::prelude::*;
use vstd::string::StrSliceExecFns;

use crate::text::{ends_with_text, same_text, seq_ends_with};

verus! {

/// `s` with every trailing copy of `suffix` removed.
pub open spec fn strip_all_suffix(s: Seq<char>, suffix: Seq<char>) -> Seq<char>
    decreases s.len(),
{
    if suffix.len() > 0 && seq_ends_with(s, suffix) {
        strip_all_suffix(s.subrange(0, s.len() - suffix.len()), suffix)
    } else {
        s
    }
}

/// The extension of a locale file.
pub open spec fn locale_file_suffix() -> Seq<char> {
    ".yml"@
}

/// The name under which the language of locale `code` is offered.
pub open spec fn language_name_spec(code: Seq<char>) -> Seq<char> {
    if code == "en"@ {
        "English"@
    } else if code == "ko"@ {
        "한국어"@
    } else if code == "ru"@ {
        "Русский"@
    } else {
        code
    }
}

/// The locale code that a locale file name gives.
pub open spec fn locale_code(file_name: Seq<char>) -> Seq<char> {
    strip_all_suffix(file_name, locale_file_suffix())
}

/// The languages that the files `names` offer, in their order: one pair of
/// language name and locale code for each name that ends in `.yml`.
pub open spec fn available_locales_spec(names: Seq<Seq<char>>) -> Seq<(Seq<char>, Seq<char>)>
    decreases names.len(),
{
    if names.len() == 0 {
        Seq::empty()
    } else {
        let earlier = available_locales_spec(names.drop_last());
        let name = names.last();
        if seq_ends_with(name, locale_file_suffix()) {
            earlier.push((language_name_spec(locale_code(name)), locale_code(name)))
        } else {
            earlier
        }
    }
}

/// `s` with every trailing copy of `suffix` removed.
pub fn strip_all_suffix_exec(s: &str, suffix: &str) -> (r: String)
    ensures
        r@ == strip_all_suffix(s@, suffix@),
{
    let suffix_len = suffix.unicode_len();
    let mut rest: &str = s;
    if suffix_len == 0 {
        return String::from_str(rest);
    }
    loop
        invariant
            suffix_len == suffix@.len(),
            suffix_len > 0,
            strip_all_suffix(rest@, suffix@) == strip_all_suffix(s@, suffix@),
        decreases rest@.len(),
    {
        if !ends_with_text(rest, suffix) {
            return String::from_str(rest);
        }
        let rest_len = rest.unicode_len();
        rest = rest.substring_char(0, rest_len - suffix_len);
    }
}

/// The name under which the language of locale `code` is offered: its own
/// name for the languages that the shell knows, else the code itself.
pub fn language_name(code: &str) -> (r: String)
    ensures
        r@ == language_name_spec(code@),
{
    if same_text(code, "en") {
        String::from_str("English")
    } else if same_text(code, "ko") {
        String::from_str("한국어")
    } else if same_text(code, "ru") {
        String::from_str("Русский")
    } else {
        String::from_str(code)
    }
}

} // verus!
