//! Character-level helpers for the textual wire payloads and registry keys.
//!
//! The settings protocol carries groups, names and values as NUL-terminated
//! text, and registry lookups are exact, case-sensitive string matches, so
//! the whole crate reasons about strings as sequences of characters.

use vstd::prelude::*;

verus! {

/// True when the sequence contains an embedded NUL character, which the
/// wire format uses as a field terminator and therefore forbids inside a
/// field.
pub open spec fn spec_has_nul(s: Seq<char>) -> bool {
    exists|i: int| 0 <= i < s.len() && s[i] == '\0'
}

/// Exact equality of two string slices, decided character by character.
pub fn str_eq(a: &str, b: &str) -> (r: bool)
    ensures
        r == (a@ == b@),
{
    let alen = a.unicode_len();
    let blen = b.unicode_len();
    if alen != blen {
        proof {
            if a@ == b@ {
                assert(a@.len() == b@.len());
            }
        }
        return false;
    }
    let mut i: usize = 0;
    while i < alen
        invariant
            i <= alen,
            alen == a@.len(),
            blen == b@.len(),
            alen == blen,
            forall|j: int| 0 <= j < i ==> a@[j] == b@[j],
        decreases alen - i,
    {
        if a.get_char(i) != b.get_char(i) {
            proof {
                if a@ == b@ {
                    assert(a@[i as int] == b@[i as int]);
                }
            }
            return false;
        }
        i += 1;
    }
    proof {
        assert(a@ =~= b@);
    }
    true
}

/// The character code used for comparisons that ignore ASCII case: an
/// ASCII capital letter folds to its small form, every other character
/// keeps its own code.
pub open spec fn spec_lower_code(c: char) -> int {
    if 65 <= c as u32 <= 90 {
        c as u32 + 32
    } else {
        c as u32 as int
    }
}

/// Equality of two character sequences up to ASCII case.
pub open spec fn seq_eq_nocase(a: Seq<char>, b: Seq<char>) -> bool {
    a.len() == b.len() && (forall|i: int|
        0 <= i < a.len() ==> spec_lower_code(a[i]) == spec_lower_code(b[i]))
}

/// Folds one character for a comparison that ignores ASCII case.
fn lower_code(c: char) -> (r: u32)
    ensures
        r == spec_lower_code(c),
{
    let u = c as u32;
    if 65 <= u && u <= 90 {
        u + 32
    } else {
        u
    }
}

/// Equality of two string slices up to ASCII case, as the schema's
/// case-insensitive type names need.
pub fn str_eq_nocase(a: &str, b: &str) -> (r: bool)
    ensures
        r == seq_eq_nocase(a@, b@),
{
    let alen = a.unicode_len();
    let blen = b.unicode_len();
    if alen != blen {
        return false;
    }
    let mut i: usize = 0;
    while i < alen
        invariant
            i <= alen,
            alen == a@.len(),
            blen == b@.len(),
            alen == blen,
            forall|j: int| 0 <= j < i ==> spec_lower_code(a@[j]) == spec_lower_code(b@[j]),
        decreases alen - i,
    {
        if lower_code(a.get_char(i)) != lower_code(b.get_char(i)) {
            return false;
        }
        i += 1;
    }
    true
}

/// How a boolean wire or schema token decodes: the two capitalisations the
/// protocol documents are accepted, every other token is rejected.
pub open spec fn spec_parse_bool_token(s: Seq<char>) -> Option<bool> {
    if s == "True"@ || s == "true"@ {
        Some(true)
    } else if s == "False"@ || s == "false"@ {
        Some(false)
    } else {
        None
    }
}

/// Decodes a boolean token: `"True"`/`"true"` and `"False"`/`"false"` are
/// accepted, any other token is rejected.
pub fn parse_bool_token(s: &str) -> (r: Option<bool>)
    ensures
        r == spec_parse_bool_token(s@),
{
    if str_eq(s, "True") || str_eq(s, "true") {
        Some(true)
    } else if str_eq(s, "False") || str_eq(s, "false") {
        Some(false)
    } else {
        None
    }
}

/// Scans a field for the embedded terminator the wire format forbids.
pub fn has_nul(s: &str) -> (r: bool)
    ensures
        r == spec_has_nul(s@),
{
    let len = s.unicode_len();
    let mut i: usize = 0;
    while i < len
        invariant
            i <= len,
            len == s@.len(),
            forall|j: int| 0 <= j < i ==> s@[j] != '\0',
        decreases len - i,
    {
        if s.get_char(i) == '\0' {
            return true;
        }
        i += 1;
    }
    false
}

} // verus!
