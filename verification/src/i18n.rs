//! Locale handling: the supported languages and the key-to-text
//! translation table, threaded through calls as an explicit context
//! value rather than process-wide state.

use vstd::prelude::*;
use crate::strutil::str_eq;

verus! {

/// The supported interface languages.
#[derive(Debug, Clone, Copy, PartialEq, Eq, Structural)]
pub enum Language {
    En,
    It,
}

impl Default for Language {
    fn default() -> (r: Self)
        ensures
            r == Language::En,
    {
        Language::En
    }
}

impl Language {
    /// The language's tag, as used in locale file names.
    pub fn as_str(&self) -> (r: &'static str)
        ensures
            *self is En ==> r@ == "en"@,
            *self is It ==> r@ == "it"@,
    {
        match self {
            Language::En => "en",
            Language::It => "it",
        }
    }

    /// Every supported language, in its fixed order.
    pub fn all() -> (r: Vec<Language>)
        ensures
            r@ == seq![Language::En, Language::It],
    {
        let mut v: Vec<Language> = Vec::new();
        v.push(Language::En);
        v.push(Language::It);
        proof {
            assert(v@ =~= seq![Language::En, Language::It]);
        }
        v
    }
}

/// The translation of `key` in the table: the text of its first entry.
pub open spec fn spec_lookup(
    entries: Seq<(Seq<char>, Seq<char>)>,
    key: Seq<char>,
) -> Option<Seq<char>>
    decreases entries.len(),
{
    if entries.len() == 0 {
        None
    } else if entries[0].0 == key {
        Some(entries[0].1)
    } else {
        spec_lookup(entries.skip(1), key)
    }
}

/// A translation table: key and text pairs, looked up in order.
#[derive(Debug)]
pub struct Translations {
    pub entries: Vec<(String, String)>,
}

impl Default for Translations {
    /// An empty table: every lookup reports the key as missing.
    fn default() -> (r: Self)
        ensures
            r.entries@.len() == 0,
    {
        Translations { entries: Vec::new() }
    }
}

impl Translations {
    /// The text of `key`, or a marker naming the missing key.
    pub fn get(&self, key: &str) -> (r: String)
        ensures
            r@ == (match spec_lookup(self.entries.deep_view(), key@) {
                Some(v) => v,
                None => "MISSING_TRANSLATION: "@ + key@,
            }),
    {
        let ghost dv = self.entries.deep_view();
        proof {
            assert(dv.skip(0) =~= dv);
        }
        let n = self.entries.len();
        let mut i: usize = 0;
        while i < n
            invariant
                n == dv.len(),
                dv == self.entries.deep_view(),
                i <= n,
                spec_lookup(dv, key@) == spec_lookup(dv.skip(i as int), key@),
            decreases n - i,
        {
            let hit = str_eq(self.entries[i].0.as_str(), key);
            proof {
                assert(dv.skip(i as int)[0] == dv[i as int]);
                assert(dv.skip(i as int).skip(1) =~= dv.skip(i as int + 1));
            }
            if hit {
                return self.entries[i].1.clone();
            }
            i = i + 1;
        }
        let mut s = String::from_str("MISSING_TRANSLATION: ");
        s.append(key);
        s
    }
}

/// The locale in effect: the chosen language and its loaded table.
#[derive(Debug)]
pub struct LocaleContext {
    pub language: Language,
    pub translations: Translations,
}

/// Switch the context to a language: the language takes effect, and
/// its freshly loaded table replaces the current one; when no table
/// could be loaded, an empty table stands in, so every lookup reports
/// its key as missing.
pub fn set_language(ctx: &mut LocaleContext, lang: Language, loaded: Option<Translations>)
    ensures
        final(ctx).language == lang,
        match loaded {
            Some(t) => final(ctx).translations.entries == t.entries,
            None => final(ctx).translations.entries@.len() == 0,
        },
{
    ctx.language = lang;
    ctx.translations = match loaded {
        Some(t) => t,
        None => Translations::default(),
    };
}

/// The translation of `key` under the context's current table.
pub fn translate(ctx: &LocaleContext, key: &str) -> (r: String)
    ensures
        r@ == (match spec_lookup(ctx.translations.entries.deep_view(), key@) {
            Some(v) => v,
            None => "MISSING_TRANSLATION: "@ + key@,
        }),
{
    ctx.translations.get(key)
}

} // verus!
