//! The interface languages: the codes the language switch cycles through and the name each
//! language gives itself.
//!
//! English first, then the translated languages, ending with Traditional Chinese. Hungarian is
//! absent: it has no table.

use vstd::prelude::*;
use crate::text::str_equal;

verus! {

/// How many languages there are.
pub const LANGUAGE_COUNT: usize = 29;

/// One interface language.
#[derive(Debug, Clone, Copy, PartialEq, Eq)]
pub struct Language {
    /// The code the settings file stores, e.g. `"pt-br"`.
    pub code: &'static str,
    /// The language's own name for itself, never translated.
    pub native_name: &'static str,
}

/// The code of language `i`, in switch order.
pub open spec fn code_at(i: int) -> &'static str {
    if i == 0 { "en" }
    else if i == 1 { "ar" }
    else if i == 2 { "bs" }
    else if i == 3 { "zh-CN" }
    else if i == 4 { "hr" }
    else if i == 5 { "nl" }
    else if i == 6 { "fr" }
    else if i == 7 { "de" }
    else if i == 8 { "el" }
    else if i == 9 { "id" }
    else if i == 10 { "it" }
    else if i == 11 { "ja" }
    else if i == 12 { "ko" }
    else if i == 13 { "ms" }
    else if i == 14 { "fa" }
    else if i == 15 { "pl" }
    else if i == 16 { "pt" }
    else if i == 17 { "pt-br" }
    else if i == 18 { "ro" }
    else if i == 19 { "ru" }
    else if i == 20 { "sr" }
    else if i == 21 { "sl" }
    else if i == 22 { "es" }
    else if i == 23 { "sv" }
    else if i == 24 { "th" }
    else if i == 25 { "tr" }
    else if i == 26 { "uk" }
    else if i == 27 { "vi" }
    else { "zh-TW" }
}

/// The native name of language `i`.
pub open spec fn native_name_at(i: int) -> &'static str {
    if i == 0 { "English" }
    else if i == 1 { "العربية" }
    else if i == 2 { "Bosanski" }
    else if i == 3 { "简体中文" }
    else if i == 4 { "Hrvatski" }
    else if i == 5 { "Nederlands" }
    else if i == 6 { "Français" }
    else if i == 7 { "Deutsch" }
    else if i == 8 { "Ελληνικά" }
    else if i == 9 { "Bahasa Indonesia" }
    else if i == 10 { "Italiano" }
    else if i == 11 { "日本語" }
    else if i == 12 { "한국어" }
    else if i == 13 { "Bahasa Melayu" }
    else if i == 14 { "فارسی" }
    else if i == 15 { "Polski" }
    else if i == 16 { "Português" }
    else if i == 17 { "português brasileiro" }
    else if i == 18 { "Română" }
    else if i == 19 { "Русский" }
    else if i == 20 { "Српски" }
    else if i == 21 { "Slovenščina" }
    else if i == 22 { "Español" }
    else if i == 23 { "Svenska" }
    else if i == 24 { "ไทย" }
    else if i == 25 { "Türkçe" }
    else if i == 26 { "Українська" }
    else if i == 27 { "Tiếng Việt" }
    else { "繁體中文" }
}

/// Language `i`, in switch order.
pub fn language_at(i: usize) -> (l: Language)
    requires
        i < LANGUAGE_COUNT,
    ensures
        l.code == code_at(i as int),
        l.native_name == native_name_at(i as int),
{
    let (code, native_name) = if i == 0 { ("en", "English") }
    else if i == 1 { ("ar", "العربية") }
    else if i == 2 { ("bs", "Bosanski") }
    else if i == 3 { ("zh-CN", "简体中文") }
    else if i == 4 { ("hr", "Hrvatski") }
    else if i == 5 { ("nl", "Nederlands") }
    else if i == 6 { ("fr", "Français") }
    else if i == 7 { ("de", "Deutsch") }
    else if i == 8 { ("el", "Ελληνικά") }
    else if i == 9 { ("id", "Bahasa Indonesia") }
    else if i == 10 { ("it", "Italiano") }
    else if i == 11 { ("ja", "日本語") }
    else if i == 12 { ("ko", "한국어") }
    else if i == 13 { ("ms", "Bahasa Melayu") }
    else if i == 14 { ("fa", "فارسی") }
    else if i == 15 { ("pl", "Polski") }
    else if i == 16 { ("pt", "Português") }
    else if i == 17 { ("pt-br", "português brasileiro") }
    else if i == 18 { ("ro", "Română") }
    else if i == 19 { ("ru", "Русский") }
    else if i == 20 { ("sr", "Српски") }
    else if i == 21 { ("sl", "Slovenščina") }
    else if i == 22 { ("es", "Español") }
    else if i == 23 { ("sv", "Svenska") }
    else if i == 24 { ("th", "ไทย") }
    else if i == 25 { ("tr", "Türkçe") }
    else if i == 26 { ("uk", "Українська") }
    else if i == 27 { ("vi", "Tiếng Việt") }
    else { ("zh-TW", "繁體中文") };
    Language { code, native_name }
}

/// The position of the first language whose code is `s`, searching from `i`; -1 when none is.
pub open spec fn find_code_from(s: Seq<char>, i: int) -> int
    decreases LANGUAGE_COUNT - i,
{
    if i >= LANGUAGE_COUNT || i < 0 {
        -1
    } else if code_at(i)@ == s {
        i
    } else {
        find_code_from(s, i + 1)
    }
}

/// The position of the language whose code is `s`, or -1.
pub open spec fn find_code(s: Seq<char>) -> int {
    find_code_from(s, 0)
}

/// The position of the language with this code, if there is one.
pub fn language_index(code: &str) -> (r: Option<usize>)
    ensures
        match r {
            Some(i) => i < LANGUAGE_COUNT && find_code(code@) == i,
            None => find_code(code@) == -1,
        },
{
    let mut i: usize = 0;
    while i < LANGUAGE_COUNT
        invariant
            i <= LANGUAGE_COUNT,
            find_code(code@) == find_code_from(code@, i as int),
        decreases LANGUAGE_COUNT - i,
    {
        let l = language_at(i);
        if str_equal(l.code, code) {
            return Some(i);
        }
        i = i + 1;
    }
    None
}

/// The language with this code, if there is a table for it.
pub fn language(code: &str) -> (r: Option<Language>)
    ensures
        match r {
            Some(l) => find_code(code@) >= 0 && l.code == code_at(find_code(code@)) && l.native_name
                == native_name_at(find_code(code@)),
            None => find_code(code@) == -1,
        },
{
    match language_index(code) {
        Some(i) => Some(language_at(i)),
        None => None,
    }
}

/// The name a language gives itself; a code without a table reads as English, which is the
/// language such a code falls back to.
pub fn native_name(code: &str) -> (name: &'static str)
    ensures
        name == (if find_code(code@) >= 0 {
            native_name_at(find_code(code@))
        } else {
            native_name_at(0)
        }),
{
    match language_index(code) {
        Some(i) => language_at(i).native_name,
        None => language_at(0).native_name,
    }
}

/// What tells the codes apart: the length, the first two characters and, for the long ones, the
/// fourth.
spec fn code_key(k: int) -> (nat, char, char, char) {
    if k == 0 { (2, 'e', 'n', ' ') }
    else if k == 1 { (2, 'a', 'r', ' ') }
    else if k == 2 { (2, 'b', 's', ' ') }
    else if k == 3 { (5, 'z', 'h', 'C') }
    else if k == 4 { (2, 'h', 'r', ' ') }
    else if k == 5 { (2, 'n', 'l', ' ') }
    else if k == 6 { (2, 'f', 'r', ' ') }
    else if k == 7 { (2, 'd', 'e', ' ') }
    else if k == 8 { (2, 'e', 'l', ' ') }
    else if k == 9 { (2, 'i', 'd', ' ') }
    else if k == 10 { (2, 'i', 't', ' ') }
    else if k == 11 { (2, 'j', 'a', ' ') }
    else if k == 12 { (2, 'k', 'o', ' ') }
    else if k == 13 { (2, 'm', 's', ' ') }
    else if k == 14 { (2, 'f', 'a', ' ') }
    else if k == 15 { (2, 'p', 'l', ' ') }
    else if k == 16 { (2, 'p', 't', ' ') }
    else if k == 17 { (5, 'p', 't', 'b') }
    else if k == 18 { (2, 'r', 'o', ' ') }
    else if k == 19 { (2, 'r', 'u', ' ') }
    else if k == 20 { (2, 's', 'r', ' ') }
    else if k == 21 { (2, 's', 'l', ' ') }
    else if k == 22 { (2, 'e', 's', ' ') }
    else if k == 23 { (2, 's', 'v', ' ') }
    else if k == 24 { (2, 't', 'h', ' ') }
    else if k == 25 { (2, 't', 'r', ' ') }
    else if k == 26 { (2, 'u', 'k', ' ') }
    else if k == 27 { (2, 'v', 'i', ' ') }
    else { (5, 'z', 'h', 'T') }
}

proof fn lemma_code_key(k: int)
    requires
        0 <= k < LANGUAGE_COUNT,
    ensures
        code_at(k)@.len() == code_key(k).0,
        code_at(k)@[0] == code_key(k).1,
        code_at(k)@[1] == code_key(k).2,
        code_key(k).0 == 5 ==> code_at(k)@[3] == code_key(k).3,
{
    reveal_strlit("en");
    reveal_strlit("ar");
    reveal_strlit("bs");
    reveal_strlit("zh-CN");
    reveal_strlit("hr");
    reveal_strlit("nl");
    reveal_strlit("fr");
    reveal_strlit("de");
    reveal_strlit("el");
    reveal_strlit("id");
    reveal_strlit("it");
    reveal_strlit("ja");
    reveal_strlit("ko");
    reveal_strlit("ms");
    reveal_strlit("fa");
    reveal_strlit("pl");
    reveal_strlit("pt");
    reveal_strlit("pt-br");
    reveal_strlit("ro");
    reveal_strlit("ru");
    reveal_strlit("sr");
    reveal_strlit("sl");
    reveal_strlit("es");
    reveal_strlit("sv");
    reveal_strlit("th");
    reveal_strlit("tr");
    reveal_strlit("uk");
    reveal_strlit("vi");
    reveal_strlit("zh-TW");
}

/// Every code in the table is found at its own position: no two languages share a code.
pub proof fn lemma_codes_are_distinct(k: int)
    requires
        0 <= k < LANGUAGE_COUNT,
    ensures
        find_code(code_at(k)@) == k,
{
    assert forall|j: int| 0 <= j < k implies #[trigger] code_at(j)@ != code_at(k)@ by {
        lemma_code_key(j);
        lemma_code_key(k);
        if code_at(j)@ == code_at(k)@ {
            assert(code_key(j) == code_key(k));
        }
    }
    lemma_find_code_skips(code_at(k)@, 0, k);
}

/// A code is found, if at all, at a position of the table.
pub proof fn lemma_find_code_range(s: Seq<char>, i: int)
    requires
        0 <= i,
    ensures
        find_code_from(s, i) == -1 || (i <= find_code_from(s, i) < LANGUAGE_COUNT),
    decreases LANGUAGE_COUNT - i,
{
    if i < LANGUAGE_COUNT && code_at(i)@ != s {
        lemma_find_code_range(s, i + 1);
    }
}

proof fn lemma_find_code_skips(s: Seq<char>, i: int, k: int)
    requires
        0 <= i <= k < LANGUAGE_COUNT,
        code_at(k)@ == s,
        forall|j: int| 0 <= j < k ==> #[trigger] code_at(j)@ != s,
    ensures
        find_code_from(s, i) == k,
    decreases k - i,
{
    if i < k {
        assert(code_at(i)@ != s);
        lemma_find_code_skips(s, i + 1, k);
    }
}

} // verus!
