//! Typed setting values and the decoding of wire tokens.
//!
//! A value read off the wire arrives as text; the registry's declared kind
//! for the setting — never the wire content alone — selects how the token
//! decodes.  Floating-point kinds keep the token verbatim: numeric
//! conversion is left to the caller, outside the verified library.

use vstd::prelude::*;

use crate::registry::SettingKind;
use crate::text::parse_bool_token;
use crate::text::spec_parse_bool_token;

verus! {

/// A typed setting value.  `Float` carries the decimal text of the value
/// exactly as it appeared on the wire; turning it into a machine float is
/// the caller's conversion.
#[derive(Debug, Clone, PartialEq)]
pub enum SettingValue {
    Integer(i32),
    Boolean(bool),
    Float(String),
    String(String),
}

/// True for the ten decimal digit characters.
pub open spec fn is_digit(c: char) -> bool {
    48 <= c as u32 <= 57
}

/// The numeric value of one decimal digit character.
pub open spec fn digit_val(c: char) -> int {
    c as u32 - 48
}

/// True when every character of the sequence is a decimal digit.
pub open spec fn all_digits(s: Seq<char>) -> bool {
    forall|i: int| 0 <= i < s.len() ==> is_digit(s[i])
}

/// The integer a sequence of decimal digits denotes, most significant
/// digit first.
pub open spec fn digits_val(s: Seq<char>) -> int
    decreases s.len(),
{
    if s.len() == 0 {
        0
    } else {
        digits_val(s.drop_last()) * 10 + digit_val(s.last())
    }
}

/// How an integer wire token decodes: an optional leading minus sign, then
/// one or more decimal digits, and the denoted value must fit the signed
/// 32-bit range.  Anything else — an empty token, other signs, spaces,
/// stray characters, an out-of-range value — is rejected.
pub open spec fn spec_parse_i32(s: Seq<char>) -> Option<i32> {
    if s.len() > 0 && s[0] == '-' {
        let digits = s.subrange(1, s.len() as int);
        if digits.len() > 0 && all_digits(digits) && -digits_val(digits) >= i32::MIN {
            Some((-digits_val(digits)) as i32)
        } else {
            None
        }
    } else if s.len() > 0 && all_digits(s) && digits_val(s) <= i32::MAX {
        Some(digits_val(s) as i32)
    } else {
        None
    }
}

/// A sequence of digits denotes a value that is never negative.
proof fn lemma_digits_val_nonneg(s: Seq<char>)
    requires
        all_digits(s),
    ensures
        digits_val(s) >= 0,
    decreases s.len(),
{
    if s.len() > 0 {
        lemma_digits_val_nonneg(s.drop_last());
    }
}

/// Extending a digit string to the right never shrinks the denoted value.
proof fn lemma_digits_val_prefix_le(s: Seq<char>, k: int)
    requires
        all_digits(s),
        0 <= k <= s.len(),
    ensures
        digits_val(s.subrange(0, k)) <= digits_val(s),
    decreases s.len() - k,
{
    if k == s.len() {
        assert(s.subrange(0, k) =~= s);
    } else {
        assert(s.subrange(0, k + 1).drop_last() =~= s.subrange(0, k));
        assert(s.subrange(0, k + 1).last() == s[k]);
        lemma_digits_val_nonneg(s.subrange(0, k));
        lemma_digits_val_prefix_le(s, k + 1);
    }
}

/// Decodes a decimal integer token into a signed 32-bit value, rejecting
/// malformed and out-of-range tokens.
pub fn parse_i32(s: &str) -> (r: Option<i32>)
    ensures
        r == spec_parse_i32(s@),
{
    let len = s.unicode_len();
    if len == 0 {
        return None;
    }
    let neg = s.get_char(0) == '-';
    let start: usize = if neg {
        1
    } else {
        0
    };
    if start == len {
        return None;
    }
    let ghost digits = if neg {
        s@.subrange(1, len as int)
    } else {
        s@
    };
    let mut mag: u64 = 0;
    let mut i: usize = start;
    while i < len
        invariant
            start <= i <= len,
            len == s@.len(),
            start < len,
            start == if neg { 1int } else { 0int },
            neg == (s@[0] == '-'),
            digits == if neg { s@.subrange(1, len as int) } else { s@ },
            digits.len() == len - start,
            forall|j: int| 0 <= j < digits.len() ==> digits[j] == s@[start + j],
            forall|j: int| start <= j < i ==> is_digit(s@[j]),
            mag == digits_val(s@.subrange(start as int, i as int)),
            mag <= 0x8000_0000,
        decreases len - i,
    {
        let c = s.get_char(i);
        let u = c as u32;
        if u < 48 || u > 57 {
            proof {
                assert(digits[i - start] == s@[i as int]);
                assert(!all_digits(digits));
            }
            return None;
        }
        let d = (u - 48) as u64;
        proof {
            assert(s@.subrange(start as int, i + 1).drop_last() =~= s@.subrange(
                start as int,
                i as int,
            ));
            assert(s@.subrange(start as int, i + 1).last() == s@[i as int]);
        }
        mag = mag * 10 + d;
        i += 1;
        if mag > 0x8000_0000 {
            proof {
                if all_digits(digits) {
                    assert(digits.subrange(0, i - start) =~= s@.subrange(start as int, i as int));
                    lemma_digits_val_prefix_le(digits, i - start);
                }
            }
            return None;
        }
    }
    proof {
        assert(s@.subrange(start as int, i as int) =~= digits);
        assert(all_digits(digits)) by {
            assert forall|j: int| 0 <= j < digits.len() implies is_digit(digits[j]) by {
                assert(digits[j] == s@[start + j]);
            }
        }
    }
    if neg {
        let v: i64 = -(mag as i64);
        Some(v as i32)
    } else {
        if mag > 0x7fff_ffff {
            return None;
        }
        Some(mag as i32)
    }
}

/// The value a sequence of base-10 digits denotes when its first element
/// is the least significant digit.
pub open spec fn digits_val_lsf(ds: Seq<u8>) -> int
    decreases ds.len(),
{
    if ds.len() == 0 {
        0
    } else {
        ds[0] + 10 * digits_val_lsf(ds.drop_first())
    }
}

/// One decimal digit as a one-character string.
fn digit_str(d: u8) -> (r: &'static str)
    requires
        d < 10,
    ensures
        r@.len() == 1,
        is_digit(r@[0]),
        digit_val(r@[0]) == d,
{
    proof {
        reveal_strlit("0");
        reveal_strlit("1");
        reveal_strlit("2");
        reveal_strlit("3");
        reveal_strlit("4");
        reveal_strlit("5");
        reveal_strlit("6");
        reveal_strlit("7");
        reveal_strlit("8");
        reveal_strlit("9");
    }
    match d {
        0 => "0",
        1 => "1",
        2 => "2",
        3 => "3",
        4 => "4",
        5 => "5",
        6 => "6",
        7 => "7",
        8 => "8",
        _ => "9",
    }
}

/// The canonical decimal text of an unsigned 32-bit value: digits only,
/// denoting exactly the value, with no leading zero except for zero
/// itself.
pub fn u32_decimal(n: u32) -> (r: String)
    ensures
        all_digits(r@),
        digits_val(r@) == n,
        r@.len() >= 1,
        n > 0 ==> digit_val(r@[0]) != 0,
{
    let mut digits: Vec<u8> = Vec::new();
    let mut m = n;
    while m > 0
        invariant
            digits_val_lsf(digits@) + m * pow10(digits@.len() as nat) == n,
            forall|k: int| 0 <= k < digits@.len() ==> digits@[k] < 10,
            m == 0 && digits@.len() > 0 ==> digits@[digits@.len() - 1] != 0,
            m <= n,
        decreases m,
    {
        let d = (m % 10) as u8;
        proof {
            lemma_digits_val_lsf_push(digits@, d);
            assert(m % 10 + 10 * (m / 10) == m) by (nonlinear_arith)
                requires
                    m > 0,
            ;
            assert(digits_val_lsf(digits@.push(d)) + (m / 10) * pow10(digits@.push(d).len() as nat)
                == n) by (nonlinear_arith)
                requires
                    digits_val_lsf(digits@) + m * pow10(digits@.len() as nat) == n,
                    digits_val_lsf(digits@.push(d)) == digits_val_lsf(digits@) + d * pow10(
                        digits@.len() as nat,
                    ),
                    d == m % 10,
                    m % 10 + 10 * (m / 10) == m,
                    pow10(digits@.push(d).len() as nat) == 10 * pow10(digits@.len() as nat),
                    digits@.push(d).len() == digits@.len() + 1,
            ;
        }
        digits.push(d);
        m = m / 10;
    }
    proof {
        assert(m == 0);
        assert(m * pow10(digits@.len() as nat) == 0) by (nonlinear_arith)
            requires
                m == 0,
        ;
        assert(digits_val_lsf(digits@) == n);
    }
    if digits.len() == 0 {
        proof {
            assert(digits@ =~= Seq::<u8>::empty());
            assert(digits_val_lsf(Seq::<u8>::empty()) == 0);
            assert(n == 0);
        }
        digits.push(0);
        proof {
            assert(digits@.drop_first() =~= Seq::<u8>::empty());
            assert(digits@[0] == 0);
            assert(digits_val_lsf(digits@) == n);
        }
    }
    proof {
        assert(digits_val_lsf(digits@) == n);
        assert(digits@.subrange(digits@.len() as int, digits@.len() as int) =~= Seq::<u8>::empty());
    }
    let mut out = String::new();
    let mut i: usize = digits.len();
    while i > 0
        invariant
            i <= digits@.len(),
            forall|k: int| 0 <= k < digits@.len() ==> digits@[k] < 10,
            all_digits(out@),
            out@.len() == digits@.len() - i,
            digits_val(out@) == digits_val_lsf(digits@.subrange(i as int, digits@.len() as int)),
            forall|k: int| 0 <= k < out@.len() ==> digit_val(out@[k]) == digits@[digits@.len() - 1
                - k],
        decreases i,
    {
        i -= 1;
        let piece = digit_str(digits[i]);
        let ghost before = out@;
        out.append(piece);
        proof {
            assert(out@.drop_last() =~= before);
            assert(digits@.subrange(i as int, digits@.len() as int).drop_first() =~= digits@
                .subrange(i + 1, digits@.len() as int));
            lemma_digits_val_append_digit(before, out@, digits@, i as int);
        }
    }
    proof {
        assert(digits@.subrange(0, digits@.len() as int) =~= digits@);
        if n > 0 {
            assert(digit_val(out@[0]) == digits@[digits@.len() - 1]);
        }
    }
    out
}

/// Ten to a power.
pub open spec fn pow10(k: nat) -> int
    decreases k,
{
    if k == 0 {
        1
    } else {
        10 * pow10((k - 1) as nat)
    }
}

/// Pushing a digit onto the least-significant-first sequence adds it at
/// the next power of ten.
proof fn lemma_digits_val_lsf_push(ds: Seq<u8>, d: u8)
    ensures
        digits_val_lsf(ds.push(d)) == digits_val_lsf(ds) + d * pow10(ds.len() as nat),
    decreases ds.len(),
{
    let p = ds.push(d);
    if ds.len() == 0 {
        assert(p.drop_first() =~= Seq::<u8>::empty());
        assert(p[0] == d);
        assert(pow10(0) == 1);
        assert(digits_val_lsf(p) == d + 10 * digits_val_lsf(Seq::<u8>::empty()));
    } else {
        let df = ds.drop_first();
        assert(p.drop_first() =~= df.push(d));
        lemma_digits_val_lsf_push(df, d);
        assert(digits_val_lsf(p) == ds[0] + 10 * digits_val_lsf(df.push(d)));
        assert(pow10(ds.len() as nat) == 10 * pow10(df.len() as nat));
        assert(10 * (digits_val_lsf(df) + d * pow10(df.len() as nat)) == 10 * digits_val_lsf(df)
            + d * (10 * pow10(df.len() as nat))) by (nonlinear_arith);
        assert(digits_val_lsf(p) == digits_val_lsf(ds) + d * pow10(ds.len() as nat));
    }
}

/// Appending the next most significant digit multiplies the text's value
/// by ten and adds the digit.
proof fn lemma_digits_val_append_digit(before: Seq<char>, after: Seq<char>, digits: Seq<u8>, i: int)
    requires
        0 <= i < digits.len(),
        after.len() == before.len() + 1,
        after.drop_last() == before,
        digit_val(after.last()) == digits[i],
        digits_val(before) == digits_val_lsf(digits.subrange(i + 1, digits.len() as int)),
        digits.subrange(i, digits.len() as int).drop_first() == digits.subrange(
            i + 1,
            digits.len() as int,
        ),
    ensures
        digits_val(after) == digits_val_lsf(digits.subrange(i, digits.len() as int)),
{
    assert(digits_val(after) == digits_val(before) * 10 + digit_val(after.last()));
    assert(digits_val_lsf(digits.subrange(i, digits.len() as int)) == digits[i] + 10
        * digits_val_lsf(digits.subrange(i + 1, digits.len() as int)));
}

/// A digit string that denotes a value within the signed 32-bit range —
/// such as the canonical decimal text the library renders — decodes back
/// to exactly that value.
pub proof fn lemma_decimal_parse_round_trip(s: Seq<char>, n: int)
    requires
        all_digits(s),
        s.len() >= 1,
        digits_val(s) == n,
        0 <= n <= i32::MAX,
    ensures
        spec_parse_i32(s) == Some(n as i32),
{
    assert(is_digit(s[0]));
    assert(s[0] != '-');
}

/// Decodes a wire token under the registry's declared kind for the
/// setting.  Integer and boolean tokens are parsed and rejected when
/// malformed; floating-point kinds keep the token verbatim for the caller
/// to convert; string-like kinds take the token verbatim, multi-word
/// tokens included.
pub fn decode_value(kind: SettingKind, token: &str) -> (r: Option<SettingValue>)
    ensures
        match kind {
            SettingKind::Integer => match spec_parse_i32(token@) {
                Some(n) => r == Some(SettingValue::Integer(n)),
                None => r is None,
            },
            SettingKind::Boolean => match spec_parse_bool_token(token@) {
                Some(b) => r == Some(SettingValue::Boolean(b)),
                None => r is None,
            },
            SettingKind::Float | SettingKind::Double => (r matches Some(v) && v matches
                SettingValue::Float(t) && t@ == token@),
            SettingKind::String | SettingKind::Enum | SettingKind::PackedBitfield => (r matches Some(
                v,
            ) && v matches SettingValue::String(t) && t@ == token@),
        },
{
    match kind {
        SettingKind::Integer => match parse_i32(token) {
            Some(n) => Some(SettingValue::Integer(n)),
            None => None,
        },
        SettingKind::Boolean => match parse_bool_token(token) {
            Some(b) => Some(SettingValue::Boolean(b)),
            None => None,
        },
        SettingKind::Float | SettingKind::Double => Some(SettingValue::Float(token.to_owned())),
        SettingKind::String | SettingKind::Enum | SettingKind::PackedBitfield => Some(
            SettingValue::String(token.to_owned()),
        ),
    }
}

} // verus!
