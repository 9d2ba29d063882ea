//! The language a catalog source serves.

use vstd::prelude::*;
use vstd::string::StringExecFns;
use crate::errors::LanguageError;
use crate::text::lower_seq;
use crate::text::eq_ignore_case;

verus! {

/// A catalog language. `All` is a filter-only sentinel: it is the default
/// of a fresh session and is never printed.
#[derive(Clone, Copy, PartialEq, Eq, Structural, Debug)]
pub enum Language {
    Russian,
    All,
}

/// The language a token names, under ASCII case folding.
pub open spec fn spec_language_of(s: Seq<char>) -> Option<Language> {
    let l = lower_seq(s);
    if l == "russian"@ || l == "rus"@ || l == "ru"@ {
        Option::Some(Language::Russian)
    } else if l == "all"@ {
        Option::Some(Language::All)
    } else {
        Option::None
    }
}

impl Language {
    /// Reads a language from a case-insensitive alias: `russian`, `rus`,
    /// `ru`, or `all`.
    pub fn try_from(token: &str) -> (r: Result<Language, LanguageError>)
        ensures
            match spec_language_of(token@) {
                Option::Some(l) => r matches Ok(x) && x == l,
                Option::None => (r matches Err(LanguageError::UnknownLanguage(m)) && m@
                    == "Unknown language `"@ + token@ + "`"@),
            },
    {
        proof {
            reveal_strlit("russian");
            reveal_strlit("rus");
            reveal_strlit("ru");
            reveal_strlit("all");
            assert(lower_seq("russian"@) =~= "russian"@);
            assert(lower_seq("rus"@) =~= "rus"@);
            assert(lower_seq("ru"@) =~= "ru"@);
            assert(lower_seq("all"@) =~= "all"@);
        }
        if eq_ignore_case(token, "russian") || eq_ignore_case(token, "rus") || eq_ignore_case(
            token,
            "ru",
        ) {
            Result::Ok(Language::Russian)
        } else if eq_ignore_case(token, "all") {
            Result::Ok(Language::All)
        } else {
            let mut m = "Unknown language `".to_owned();
            m.append(token);
            m.append("`");
            Result::Err(LanguageError::UnknownLanguage(m))
        }
    }

    /// The printable name of the language. The `All` sentinel has none.
    pub fn name(&self) -> (r: String)
        requires
            !(self is All),
        ensures
            r@ == "Russian"@,
    {
        "Russian".to_owned()
    }
}

impl Default for Language {
    /// A fresh session filters by no language.
    fn default() -> (r: Self)
        ensures
            r == Language::All,
    {
        Language::All
    }
}

} // verus!
