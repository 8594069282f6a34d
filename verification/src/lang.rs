//! Language codes: the fixed code-to-name table used by the reports, and the
//! share-message wording applied on top of it.

use vstd::prelude::*;
use crate::strutil::{push_char, str_eq};

verus! {

/// ASCII lowercasing of one character.
pub open spec fn lower_char(c: char) -> char {
    if 65 <= c as u32 <= 90 {
        ((c as u32 + 32) as u8) as char
    } else {
        c
    }
}

/// ASCII lowercasing of a string.
pub open spec fn spec_ascii_lower(s: Seq<char>) -> Seq<char> {
    s.map_values(|c: char| lower_char(c))
}

fn ascii_lower(s: &str) -> (r: String)
    ensures
        r@ == spec_ascii_lower(s@),
{
    let n = s.unicode_len();
    let mut out = String::new();
    let mut i: usize = 0;
    while i < n
        invariant
            0 <= i <= n,
            n == s@.len(),
            out@ == spec_ascii_lower(s@.take(i as int)),
        decreases n - i,
    {
        let c = s.get_char(i);
        let cv = c as u32;
        let lc: char = if 65 <= cv && cv <= 90 {
            ((cv + 32) as u8) as char
        } else {
            c
        };
        push_char(&mut out, lc);
        proof {
            assert(spec_ascii_lower(s@.take(i + 1)) =~= spec_ascii_lower(s@.take(i as int)).push(
                lower_char(s@[i as int]),
            ));
        }
        i += 1;
    }
    proof {
        assert(s@.take(n as int) =~= s@);
    }
    out
}

/// Report label for a language code: the fixed table, matched without regard
/// to ASCII case; an unknown code passes through unchanged.
pub open spec fn spec_language_name(code: Seq<char>) -> Seq<char> {
    let l = spec_ascii_lower(code);
    if l == "zh-cn"@ {
        "Chinese"@
    } else if l == "en-us"@ {
        "English"@
    } else if l == "ja-jp"@ {
        "Japanese"@
    } else if l == "ko-kr"@ {
        "Korean"@
    } else {
        code
    }
}

/// Maps a language code to its display name; unknown codes pass through
/// unchanged.
pub fn map_language_code(code: &str) -> (r: String)
    ensures
        r@ == spec_language_name(code@),
{
    let lower = ascii_lower(code);
    if str_eq(lower.as_str(), "zh-cn") {
        String::from_str("Chinese")
    } else if str_eq(lower.as_str(), "en-us") {
        String::from_str("English")
    } else if str_eq(lower.as_str(), "ja-jp") {
        String::from_str("Japanese")
    } else if str_eq(lower.as_str(), "ko-kr") {
        String::from_str("Korean")
    } else {
        String::from_str(code)
    }
}

/// Share-message wording applied to a report label: two names are replaced,
/// all others stay as they are.
pub open spec fn spec_share_label(name: Seq<char>) -> Seq<char> {
    if name == "Chinese"@ {
        "China"@
    } else if name == "English"@ {
        "English - If anything else"@
    } else {
        name
    }
}

/// Applies the share-message wording to a report label.
pub fn share_label(name: &str) -> (r: String)
    ensures
        r@ == spec_share_label(name@),
{
    if str_eq(name, "Chinese") {
        String::from_str("China")
    } else if str_eq(name, "English") {
        String::from_str("English - If anything else")
    } else {
        String::from_str(name)
    }
}

/// An unknown language code passes through unchanged: it keeps its spelling
/// in the report label, and the share-message wording leaves it alone too.
pub proof fn lemma_unknown_language_passes_through(code: Seq<char>)
    requires
        spec_ascii_lower(code) != "zh-cn"@,
        spec_ascii_lower(code) != "en-us"@,
        spec_ascii_lower(code) != "ja-jp"@,
        spec_ascii_lower(code) != "ko-kr"@,
        code != "Chinese"@,
        code != "English"@,
    ensures
        spec_language_name(code) == code,
        spec_share_label(spec_language_name(code)) == code,
{
}

} // verus!
