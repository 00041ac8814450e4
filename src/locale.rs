//! The language part of a locale name.

use vstd::prelude::*;

verus! {

/// Whether a character separates the language from the region in a locale
/// name.
pub open spec fn is_locale_separator(c: char) -> bool {
    c == '-' || c == '_'
}

/// The language of a locale name: what comes before its first `-` or `_`.
pub open spec fn language_of(s: Seq<char>) -> Seq<char>
    decreases s.len(),
{
    if s.len() == 0 || is_locale_separator(s[0]) {
        Seq::empty()
    } else {
        seq![s[0]] + language_of(s.drop_first())
    }
}

proof fn lemma_language_prefix(s: Seq<char>, i: int)
    requires
        0 <= i <= s.len(),
        forall|j: int| 0 <= j < i ==> !is_locale_separator(#[trigger] s[j]),
    ensures
        language_of(s) == s.take(i) + language_of(s.skip(i)),
    decreases i,
{
    if i > 0 {
        lemma_language_prefix(s.drop_first(), i - 1);
        assert(s.drop_first().skip(i - 1) =~= s.skip(i));
        assert(seq![s[0]] + s.drop_first().take(i - 1) =~= s.take(i));
    } else {
        assert(s.skip(0) =~= s);
    }
}

/// The language of the system's locale, or `en` when the system names none.
pub fn locale_language(system_locale: Option<String>) -> (r: String)
    ensures
        r@ == match system_locale {
            Some(l) => language_of(l@),
            None => language_of("en"@),
        },
{
    let locale = match system_locale {
        Some(l) => l,
        None => String::from_str("en"),
    };
    let s = locale.as_str();
    let n = s.unicode_len();
    let mut i: usize = 0;
    while i < n
        invariant
            n == s@.len(),
            i <= n,
            forall|j: int| 0 <= j < i ==> !is_locale_separator(#[trigger] s@[j]),
        ensures
            i <= n,
            forall|j: int| 0 <= j < i ==> !is_locale_separator(#[trigger] s@[j]),
            i == n || is_locale_separator(s@[i as int]),
        decreases n - i,
    {
        let c = s.get_char(i);
        if c == '-' || c == '_' {
            break;
        }
        i = i + 1;
    }
    proof {
        lemma_language_prefix(s@, i as int);
        assert(s@.subrange(0, i as int) =~= s@.take(i as int));
    }
    String::from_str(s.substring_char(0, i))
}

} // verus!
