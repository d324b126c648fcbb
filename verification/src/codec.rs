//! The wire payload layer of the settings protocol.
//!
//! Every settings message carries its fields as NUL-terminated text inside
//! the message payload; read-by-index messages prefix a little-endian
//! 16-bit index.  This module builds request payloads and splits response
//! payloads, and proves that the two directions invert each other.
//!
//! Message framing, checksums and transport bytes are the message codec's
//! business, outside this library.

use vstd::prelude::*;

use crate::text::has_nul;
use crate::text::spec_has_nul;

verus! {

/// The length of a frame's header on the bus: preamble, message type,
/// sender identifier and payload length.
pub const HEADER_LEN: usize = 6;

/// The length of a frame's trailing integrity field.
pub const CRC_LEN: usize = 2;

/// The message type carrying a write request.
pub const MSG_SETTINGS_WRITE: u16 = 160;

/// The message type carrying the remote's answer to a write.
pub const MSG_SETTINGS_WRITE_RESP: u16 = 175;

/// The message type carrying a read-by-index request.
pub const MSG_SETTINGS_READ_BY_INDEX_REQ: u16 = 162;

/// The message type carrying the remote's end-of-table signal.
pub const MSG_SETTINGS_READ_BY_INDEX_DONE: u16 = 166;

/// The message type carrying one read-by-index record.
pub const MSG_SETTINGS_READ_BY_INDEX_RESP: u16 = 167;

/// The message type carrying a read request.
pub const MSG_SETTINGS_READ_REQ: u16 = 164;

/// The message type carrying the remote's answer to a read.
pub const MSG_SETTINGS_READ_RESP: u16 = 165;

/// The field terminator of the wire format, as a one-character sequence.
pub open spec fn nul_char() -> Seq<char> {
    seq!['\0']
}

/// Two fields joined in wire order, each NUL-terminated.
pub open spec fn joined2(a: Seq<char>, b: Seq<char>) -> Seq<char> {
    a + nul_char() + b + nul_char()
}

/// Three fields joined in wire order, each NUL-terminated.
pub open spec fn joined3(a: Seq<char>, b: Seq<char>, c: Seq<char>) -> Seq<char> {
    a + nul_char() + b + nul_char() + c + nul_char()
}

/// Four fields joined in wire order, each NUL-terminated.
pub open spec fn joined4(a: Seq<char>, b: Seq<char>, c: Seq<char>, d: Seq<char>) -> Seq<char> {
    a + nul_char() + b + nul_char() + c + nul_char() + d + nul_char()
}

/// Splits the leading NUL-terminated field off a payload: the field and
/// what follows its terminator, or nothing when no terminator is left.
pub open spec fn spec_split_field(s: Seq<char>) -> Option<(Seq<char>, Seq<char>)>
    decreases s.len(),
{
    if s.len() == 0 {
        None
    } else if s[0] == '\0' {
        Some((Seq::empty(), s.drop_first()))
    } else {
        match spec_split_field(s.drop_first()) {
            Some((f, rest)) => Some((seq![s[0]] + f, rest)),
            None => None,
        }
    }
}

/// A payload of exactly three NUL-terminated fields, or nothing.
pub open spec fn spec_split3(s: Seq<char>) -> Option<(Seq<char>, Seq<char>, Seq<char>)> {
    match spec_split_field(s) {
        None => None,
        Some((a, r1)) => match spec_split_field(r1) {
            None => None,
            Some((b, r2)) => match spec_split_field(r2) {
                None => None,
                Some((c, r3)) => if r3.len() == 0 {
                    Some((a, b, c))
                } else {
                    None
                },
            },
        },
    }
}

/// A payload of exactly four NUL-terminated fields, or nothing.
pub open spec fn spec_split4(s: Seq<char>) -> Option<(Seq<char>, Seq<char>, Seq<char>, Seq<char>)> {
    match spec_split_field(s) {
        None => None,
        Some((a, r1)) => match spec_split3(r1) {
            None => None,
            Some((b, c, d)) => Some((a, b, c, d)),
        },
    }
}

/// Splitting finds the field that ends at the first terminator.
proof fn lemma_split_field_at(s: Seq<char>, k: int)
    requires
        0 <= k < s.len(),
        s[k] == '\0',
        forall|j: int| 0 <= j < k ==> s[j] != '\0',
    ensures
        spec_split_field(s) == Some((s.subrange(0, k), s.subrange(k + 1, s.len() as int))),
    decreases k,
{
    if k == 0 {
        assert(s.subrange(0, 0) =~= Seq::<char>::empty());
        assert(s.drop_first() =~= s.subrange(1, s.len() as int));
    } else {
        let t = s.drop_first();
        assert(t[k - 1] == '\0');
        assert forall|j: int| 0 <= j < k - 1 implies t[j] != '\0' by {
            assert(t[j] == s[j + 1]);
        }
        lemma_split_field_at(t, k - 1);
        assert(seq![s[0]] + t.subrange(0, k - 1) =~= s.subrange(0, k));
        assert(t.subrange(k, t.len() as int) =~= s.subrange(k + 1, s.len() as int));
    }
}

/// A payload without a terminator has no leading field to split off.
proof fn lemma_split_field_none(s: Seq<char>)
    requires
        !spec_has_nul(s),
    ensures
        spec_split_field(s) is None,
    decreases s.len(),
{
    if s.len() > 0 {
        let t = s.drop_first();
        assert forall|j: int| 0 <= j < t.len() implies t[j] != '\0' by {
            assert(t[j] == s[j + 1]);
        }
        lemma_split_field_none(t);
    }
}

/// What a successful field split asserts of the payload: the field is
/// terminator-free and the payload is exactly the field, its terminator,
/// and the rest.
proof fn lemma_split_field_sound(s: Seq<char>)
    requires
        spec_split_field(s) is Some,
    ensures
        !spec_has_nul(spec_split_field(s)->Some_0.0),
        s =~= spec_split_field(s)->Some_0.0 + nul_char() + spec_split_field(s)->Some_0.1,
    decreases s.len(),
{
    let (f, rest) = spec_split_field(s)->Some_0;
    if s[0] == '\0' {
        assert(s =~= Seq::empty() + nul_char() + s.drop_first());
    } else {
        let t = s.drop_first();
        lemma_split_field_sound(t);
        let (tf, trest) = spec_split_field(t)->Some_0;
        assert(f =~= seq![s[0]] + tf);
        assert forall|j: int| 0 <= j < f.len() implies f[j] != '\0' by {
            if j > 0 {
                assert(f[j] == tf[j - 1]);
            }
        }
        assert(s =~= seq![s[0]] + t);
        assert(t == tf + nul_char() + trest);
        assert((seq![s[0]] + tf) + nul_char() + trest =~= seq![s[0]] + (tf + nul_char() + trest));
        assert(s =~= f + nul_char() + rest);
    }
}

/// A terminator-free field followed by its terminator and anything else
/// splits back into exactly that field and that rest.
proof fn lemma_split_field_complete(f: Seq<char>, rest: Seq<char>)
    requires
        !spec_has_nul(f),
    ensures
        spec_split_field(f + nul_char() + rest) == Some((f, rest)),
    decreases f.len(),
{
    let s = f + nul_char() + rest;
    if f.len() == 0 {
        assert(s[0] == '\0');
        assert(s.drop_first() =~= rest);
        assert(f =~= Seq::<char>::empty());
    } else {
        assert(s[0] == f[0]);
        assert(s[0] != '\0');
        let ftail = f.drop_first();
        assert forall|j: int| 0 <= j < ftail.len() implies ftail[j] != '\0' by {
            assert(ftail[j] == f[j + 1]);
        }
        lemma_split_field_complete(ftail, rest);
        assert(s.drop_first() =~= ftail + nul_char() + rest);
        assert(seq![f[0]] + ftail =~= f);
    }
}

/// Three terminator-free fields joined in wire order split back into
/// exactly those fields: the codec's round trip.
pub proof fn lemma_join3_round_trip(a: Seq<char>, b: Seq<char>, c: Seq<char>)
    requires
        !spec_has_nul(a),
        !spec_has_nul(b),
        !spec_has_nul(c),
    ensures
        spec_split3(joined3(a, b, c)) == Some((a, b, c)),
{
    let s = joined3(a, b, c);
    assert(s =~= a + nul_char() + (b + nul_char() + (c + nul_char() + Seq::empty())));
    lemma_split_field_complete(a, b + nul_char() + (c + nul_char() + Seq::empty()));
    lemma_split_field_complete(b, c + nul_char() + Seq::empty());
    lemma_split_field_complete(c, Seq::empty());
}

/// What a successful three-way split asserts of the payload: the fields
/// are terminator-free and the payload is exactly their wire joining.
pub proof fn lemma_split3_sound(s: Seq<char>)
    requires
        spec_split3(s) is Some,
    ensures
        !spec_has_nul(spec_split3(s)->Some_0.0),
        !spec_has_nul(spec_split3(s)->Some_0.1),
        !spec_has_nul(spec_split3(s)->Some_0.2),
        s =~= joined3(spec_split3(s)->Some_0.0, spec_split3(s)->Some_0.1, spec_split3(s)->Some_0.2),
{
    let (a, b, c) = spec_split3(s)->Some_0;
    let r1 = spec_split_field(s)->Some_0.1;
    let r2 = spec_split_field(r1)->Some_0.1;
    let r3 = spec_split_field(r2)->Some_0.1;
    lemma_split_field_sound(s);
    lemma_split_field_sound(r1);
    lemma_split_field_sound(r2);
    assert(r3 =~= Seq::<char>::empty());
    assert(s =~= joined3(a, b, c));
}

/// Four terminator-free fields joined in wire order split back into
/// exactly those fields.
pub proof fn lemma_join4_round_trip(a: Seq<char>, b: Seq<char>, c: Seq<char>, d: Seq<char>)
    requires
        !spec_has_nul(a),
        !spec_has_nul(b),
        !spec_has_nul(c),
        !spec_has_nul(d),
    ensures
        spec_split4(joined4(a, b, c, d)) == Some((a, b, c, d)),
{
    let s = joined4(a, b, c, d);
    assert(s =~= a + nul_char() + joined3(b, c, d));
    lemma_split_field_complete(a, joined3(b, c, d));
    lemma_join3_round_trip(b, c, d);
}

/// Builds the payload of a read request: the group and name fields in
/// wire order.  A field embedding the terminator cannot be encoded.
pub fn encode_read_req(group: &str, name: &str) -> (r: Option<String>)
    ensures
        match r {
            Some(p) => !spec_has_nul(group@) && !spec_has_nul(name@) && p@ == joined2(group@, name@),
            None => spec_has_nul(group@) || spec_has_nul(name@),
        },
{
    if has_nul(group) || has_nul(name) {
        return None;
    }
    let mut p = String::new();
    p.append(group);
    p.append("\0");
    p.append(name);
    p.append("\0");
    proof {
        reveal_strlit("\0");
        assert(p@ =~= joined2(group@, name@));
    }
    Some(p)
}

/// Builds the payload of a write request: the group, name and value
/// fields in wire order.  A field embedding the terminator cannot be
/// encoded.
pub fn encode_write_req(group: &str, name: &str, value: &str) -> (r: Option<String>)
    ensures
        match r {
            Some(p) => !spec_has_nul(group@) && !spec_has_nul(name@) && !spec_has_nul(value@)
                && p@ == joined3(group@, name@, value@),
            None => spec_has_nul(group@) || spec_has_nul(name@) || spec_has_nul(value@),
        },
{
    if has_nul(group) || has_nul(name) || has_nul(value) {
        return None;
    }
    let mut p = String::new();
    p.append(group);
    p.append("\0");
    p.append(name);
    p.append("\0");
    p.append(value);
    p.append("\0");
    proof {
        reveal_strlit("\0");
        assert(p@ =~= joined3(group@, name@, value@));
    }
    Some(p)
}

/// Finds the first field terminator at or after a position.
fn find_nul(s: &str, from: usize) -> (r: Option<usize>)
    requires
        from <= s@.len(),
    ensures
        match r {
            Some(k) => from <= k < s@.len() && s@[k as int] == '\0' && (forall|j: int|
                from <= j < k ==> s@[j] != '\0'),
            None => forall|j: int| from <= j < s@.len() ==> s@[j] != '\0',
        },
{
    let len = s.unicode_len();
    let mut i: usize = from;
    while i < len
        invariant
            from <= i <= len,
            len == s@.len(),
            forall|j: int| from <= j < i ==> s@[j] != '\0',
        decreases len - i,
    {
        if s.get_char(i) == '\0' {
            return Some(i);
        }
        i += 1;
    }
    None
}

/// Splits a payload of exactly three NUL-terminated fields, rejecting any
/// other shape.
pub fn split3(payload: &str) -> (r: Option<(String, String, String)>)
    ensures
        match r {
            Some((a, b, c)) => spec_split3(payload@) == Some((a@, b@, c@)),
            None => spec_split3(payload@) is None,
        },
{
    let len = payload.unicode_len();
    let p1 = match find_nul(payload, 0) {
        Some(k) => k,
        None => {
            proof {
                lemma_split_field_none(payload@);
            }
            return None;
        },
    };
    proof {
        lemma_split_field_at(payload@, p1 as int);
    }
    let ghost r1 = payload@.subrange(p1 + 1, len as int);
    let p2 = match find_nul(payload, p1 + 1) {
        Some(k) => k,
        None => {
            proof {
                assert forall|j: int| 0 <= j < r1.len() implies r1[j] != '\0' by {
                    assert(r1[j] == payload@[p1 + 1 + j]);
                }
                lemma_split_field_none(r1);
            }
            return None;
        },
    };
    proof {
        assert(r1[p2 - p1 - 1] == payload@[p2 as int]);
        assert forall|j: int| 0 <= j < p2 - p1 - 1 implies r1[j] != '\0' by {
            assert(r1[j] == payload@[p1 + 1 + j]);
        }
        lemma_split_field_at(r1, p2 - p1 - 1);
        assert(r1.subrange(0, p2 - p1 - 1) =~= payload@.subrange(p1 + 1, p2 as int));
        assert(r1.subrange(p2 - p1, r1.len() as int) =~= payload@.subrange(p2 + 1, len as int));
    }
    let ghost r2 = payload@.subrange(p2 + 1, len as int);
    let p3 = match find_nul(payload, p2 + 1) {
        Some(k) => k,
        None => {
            proof {
                assert forall|j: int| 0 <= j < r2.len() implies r2[j] != '\0' by {
                    assert(r2[j] == payload@[p2 + 1 + j]);
                }
                lemma_split_field_none(r2);
            }
            return None;
        },
    };
    proof {
        assert(r2[p3 - p2 - 1] == payload@[p3 as int]);
        assert forall|j: int| 0 <= j < p3 - p2 - 1 implies r2[j] != '\0' by {
            assert(r2[j] == payload@[p2 + 1 + j]);
        }
        lemma_split_field_at(r2, p3 - p2 - 1);
        assert(r2.subrange(0, p3 - p2 - 1) =~= payload@.subrange(p2 + 1, p3 as int));
        assert(r2.subrange(p3 - p2, r2.len() as int) =~= payload@.subrange(p3 + 1, len as int));
    }
    if p3 + 1 != len {
        return None;
    }
    let a = payload.substring_char(0, p1).to_owned();
    let b = payload.substring_char(p1 + 1, p2).to_owned();
    let c = payload.substring_char(p2 + 1, p3).to_owned();
    proof {
        assert(payload@.subrange(p3 + 1, len as int).len() == 0);
    }
    Some((a, b, c))
}

/// How a write response payload decodes: one byte-valued status
/// character, then the three fields of the write it answers.
pub open spec fn spec_parse_write_resp(s: Seq<char>) -> Option<
    (u32, Seq<char>, Seq<char>, Seq<char>),
> {
    if s.len() == 0 || s[0] as u32 >= 256 {
        None
    } else {
        match spec_split3(s.drop_first()) {
            Some((g, n, v)) => Some((s[0] as u32, g, n, v)),
            None => None,
        }
    }
}

/// Parses a write response payload into its status byte and the group,
/// name and value fields of the write it answers.
pub fn parse_write_resp(payload: &str) -> (r: Option<(u8, String, String, String)>)
    ensures
        match r {
            Some((st, g, n, v)) => spec_parse_write_resp(payload@) == Some((st as u32, g@, n@, v@)),
            None => spec_parse_write_resp(payload@) is None,
        },
{
    let len = payload.unicode_len();
    if len == 0 {
        return None;
    }
    let u = payload.get_char(0) as u32;
    if u >= 256 {
        return None;
    }
    let rest = payload.substring_char(1, len);
    proof {
        assert(rest@ =~= payload@.drop_first());
    }
    match split3(rest) {
        Some((g, n, v)) => Some((u as u8, g, n, v)),
        None => None,
    }
}

/// How a read-by-index response payload decodes: a little-endian 16-bit
/// index as two byte-valued characters, then the record's group, name,
/// value and format fields.  A record that carries only three fields
/// decodes with an empty format field.
pub open spec fn spec_parse_index_resp(s: Seq<char>) -> Option<
    (u16, Seq<char>, Seq<char>, Seq<char>, Seq<char>),
> {
    if s.len() < 2 || s[0] as u32 >= 256 || s[1] as u32 >= 256 {
        None
    } else {
        let idx = (s[0] as u32 + 256 * (s[1] as u32)) as u16;
        let rest = s.subrange(2, s.len() as int);
        match spec_split4(rest) {
            Some((g, n, v, f)) => Some((idx, g, n, v, f)),
            None => match spec_split3(rest) {
                Some((g, n, v)) => Some((idx, g, n, v, Seq::empty())),
                None => None,
            },
        }
    }
}

/// Parses a read-by-index response payload into the index it answers and
/// the record's four fields.
pub fn parse_index_resp(payload: &str) -> (r: Option<(u16, String, String, String, String)>)
    ensures
        match r {
            Some((idx, g, n, v, f)) => spec_parse_index_resp(payload@) == Some(
                (idx, g@, n@, v@, f@),
            ),
            None => spec_parse_index_resp(payload@) is None,
        },
{
    let len = payload.unicode_len();
    if len < 2 {
        return None;
    }
    let lo = payload.get_char(0) as u32;
    let hi = payload.get_char(1) as u32;
    if lo >= 256 || hi >= 256 {
        return None;
    }
    let idx = (lo + 256 * hi) as u16;
    let rest = payload.substring_char(2, len);
    proof {
        assert(rest@ =~= payload@.subrange(2, payload@.len() as int));
    }
    match split4(rest) {
        Some((g, n, v, f)) => Some((idx, g, n, v, f)),
        None => match split3(rest) {
            Some((g, n, v)) => {
                let f = String::new();
                Some((idx, g, n, v, f))
            },
            None => None,
        },
    }
}

/// Splits a payload of exactly four NUL-terminated fields, rejecting any
/// other shape.
pub fn split4(payload: &str) -> (r: Option<(String, String, String, String)>)
    ensures
        match r {
            Some((a, b, c, d)) => spec_split4(payload@) == Some((a@, b@, c@, d@)),
            None => spec_split4(payload@) is None,
        },
{
    let len = payload.unicode_len();
    let p1 = match find_nul(payload, 0) {
        Some(k) => k,
        None => {
            proof {
                lemma_split_field_none(payload@);
            }
            return None;
        },
    };
    proof {
        lemma_split_field_at(payload@, p1 as int);
    }
    let a = payload.substring_char(0, p1).to_owned();
    let rest = payload.substring_char(p1 + 1, len);
    match split3(rest) {
        Some((b, c, d)) => Some((a, b, c, d)),
        None => None,
    }
}

} // verus!
