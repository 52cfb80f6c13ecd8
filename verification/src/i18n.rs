//! Locale selection for the embedded translations.
//!
//! The translation documents are bundled by the application shell; this
//! module decides which one a locale gets and assembles the injection
//! script.

use vstd::prelude::*;

use crate::text::{spec_starts_with, starts_with_str, str_concat};

verus! {

/// The translation document a locale selects: the Chinese one for any
/// `zh`-prefixed locale, the English one otherwise.
pub open spec fn spec_i18n_choice(locale: Seq<char>, zh_json: Seq<char>, en_json: Seq<char>)
    -> Seq<char> {
    if spec_starts_with(locale, "zh"@) {
        zh_json
    } else {
        en_json
    }
}

/// Build the translation injection script for a locale.
pub fn get_i18n_script(locale: &str, zh_json: &str, en_json: &str) -> (r: String)
    ensures
        r@ == "window.__TRANSLATIONS__ = "@ + spec_i18n_choice(locale@, zh_json@, en_json@)
            + ";"@,
{
    let json: &str = if starts_with_str(locale, "zh") {
        zh_json
    } else {
        en_json
    };
    let head = str_concat("window.__TRANSLATIONS__ = ", json);
    let r = str_concat(head.as_str(), ";");
    proof {
        assert(r@ =~= "window.__TRANSLATIONS__ = "@ + spec_i18n_choice(
            locale@,
            zh_json@,
            en_json@,
        ) + ";"@);
    }
    r
}

} // verus!
