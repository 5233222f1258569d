//! The pattern match: a string against a closed set of literals, with a
//! mandatory default so every possible input is handled.

use vstd::prelude::*;
use vstd::string::StrSliceExecFns;
use vstd::string::StringExecFns;

verus! {

/// Character-by-character string equality, proved to decide equality of
/// the two views: `true` exactly when the strings hold the same
/// characters in the same order.
pub fn str_eq(a: &str, b: &str) -> (equal: bool)
    ensures
        equal == (a@ == b@),
{
    let a_len: usize = a.unicode_len();
    let b_len: usize = b.unicode_len();
    if a_len != b_len {
        return false;
    }
    let mut i: usize = 0;
    while i < a_len
        invariant
            a_len == a@.len(),
            b_len == b@.len(),
            a_len == b_len,
            i <= a_len,
            forall|j: int| 0 <= j < i ==> a@[j] == b@[j],
        decreases a_len - i,
    {
        if a.get_char(i) != b.get_char(i) {
            return false;
        }
        i = i + 1;
    }
    proof {
        assert(a@ =~= b@);
    }
    true
}

/// The closed set of recognized languages, plus the catch-all for
/// everything else.
#[derive(Clone, Copy, Debug, PartialEq, Eq, Structural)]
pub enum LanguageKind {
    Rust,
    Python,
    JavaScript,
    Other,
}

/// Which arm of the match a language name selects: one arm per literal
/// in the closed set, and the catch-all for every other string.
pub open spec fn spec_classify(language: Seq<char>) -> LanguageKind {
    if language == "Rust"@ {
        LanguageKind::Rust
    } else if language == "Python"@ {
        LanguageKind::Python
    } else if language == "JavaScript"@ {
        LanguageKind::JavaScript
    } else {
        LanguageKind::Other
    }
}

/// Matches a language name against the closed literal set.
pub fn classify_language(language: &str) -> (kind: LanguageKind)
    ensures
        kind == spec_classify(language@),
{
    if str_eq(language, "Rust") {
        LanguageKind::Rust
    } else if str_eq(language, "Python") {
        LanguageKind::Python
    } else if str_eq(language, "JavaScript") {
        LanguageKind::JavaScript
    } else {
        LanguageKind::Other
    }
}

/// The message printed for each arm: language-specific for an exact
/// match, generic for the catch-all.
pub open spec fn spec_language_message(kind: LanguageKind) -> Seq<char> {
    match kind {
        LanguageKind::Rust => "You are a Rustacean."@,
        LanguageKind::Python => "You are a Pythonista."@,
        LanguageKind::JavaScript => "You are a JavaScripter."@,
        LanguageKind::Other => "You are a human."@,
    }
}

/// Produces the message for a language name: the match is total, so
/// some message is owed for every input, and it is exactly the message
/// of the arm the name selects.
pub fn language_message(language: &str) -> (message: String)
    ensures
        message@ == spec_language_message(spec_classify(language@)),
{
    match classify_language(language) {
        LanguageKind::Rust => String::from_str("You are a Rustacean."),
        LanguageKind::Python => String::from_str("You are a Pythonista."),
        LanguageKind::JavaScript => String::from_str("You are a JavaScripter."),
        LanguageKind::Other => String::from_str("You are a human."),
    }
}

} // verus!
