//! The setting registry: the static schema table mapping a (group, name)
//! pair to its declared value kind and metadata.
//!
//! The table itself is loaded from a schema document outside the verified
//! library and handed in as plain values; this module verifies the exact,
//! case-sensitive lookup and the tolerant decoding of schema fields.

use vstd::prelude::*;

use crate::text::str_eq;
use crate::text::str_eq_nocase;
use crate::text::seq_eq_nocase;

verus! {

/// The value kind a setting declares in the schema.  The kind chosen here
/// selects the decode path for values read off the wire.
#[derive(Debug, Clone, Copy, PartialEq, Eq, Structural)]
pub enum SettingKind {
    Integer,
    Boolean,
    Float,
    Double,
    String,
    Enum,
    PackedBitfield,
}

/// One entry of the registry: immutable after load and shared read-only by
/// all callers.
#[derive(Debug, Clone, PartialEq)]
pub struct Setting {
    pub name: String,
    pub group: String,
    pub kind: SettingKind,
    pub expert: bool,
    pub readonly: bool,
    pub description: Option<String>,
    pub default_value: Option<String>,
    pub notes: Option<String>,
    pub units: Option<String>,
    pub enumerated_possible_values: Option<String>,
    pub digits: Option<String>,
}

/// True when the entry carries exactly the requested group and name.
pub open spec fn setting_matches(s: Setting, group: Seq<char>, name: Seq<char>) -> bool {
    s.group@ == group && s.name@ == name
}

/// The first entry at or after position `i` that matches, if any.
pub open spec fn find_from(
    settings: Seq<Setting>,
    group: Seq<char>,
    name: Seq<char>,
    i: int,
) -> Option<Setting>
    decreases settings.len() - i,
{
    if i < 0 || i >= settings.len() {
        None
    } else if setting_matches(settings[i], group, name) {
        Some(settings[i])
    } else {
        find_from(settings, group, name, i + 1)
    }
}

/// The first matching entry of the whole table, if any.
pub open spec fn spec_find_setting(
    settings: Seq<Setting>,
    group: Seq<char>,
    name: Seq<char>,
) -> Option<Setting> {
    find_from(settings, group, name, 0)
}

/// Exact, case-sensitive lookup of a (group, name) pair in the registry
/// table.  Absent entries are reported as `None`, never defaulted.
pub fn lookup_setting<'a>(settings: &'a Vec<Setting>, group: &str, name: &str) -> (r: Option<
    &'a Setting,
>)
    ensures
        match r {
            Some(s) => spec_find_setting(settings@, group@, name@) == Some(*s),
            None => spec_find_setting(settings@, group@, name@) is None,
        },
{
    let n = settings.len();
    let mut i: usize = 0;
    while i < n
        invariant
            i <= n,
            n == settings@.len(),
            spec_find_setting(settings@, group@, name@) == find_from(
                settings@,
                group@,
                name@,
                i as int,
            ),
        decreases n - i,
    {
        let s = &settings[i];
        if str_eq(s.group.as_str(), group) && str_eq(s.name.as_str(), name) {
            return Some(s);
        }
        i += 1;
    }
    None
}

/// How a schema type name decodes to a kind: the documented names and
/// aliases, compared without regard to ASCII case.
pub open spec fn spec_kind_from_name(s: Seq<char>) -> Option<SettingKind> {
    if seq_eq_nocase(s, "integer"@) || seq_eq_nocase(s, "int"@) {
        Some(SettingKind::Integer)
    } else if seq_eq_nocase(s, "boolean"@) || seq_eq_nocase(s, "bool"@) {
        Some(SettingKind::Boolean)
    } else if seq_eq_nocase(s, "float"@) {
        Some(SettingKind::Float)
    } else if seq_eq_nocase(s, "double"@) {
        Some(SettingKind::Double)
    } else if seq_eq_nocase(s, "string"@) {
        Some(SettingKind::String)
    } else if seq_eq_nocase(s, "enum"@) {
        Some(SettingKind::Enum)
    } else if seq_eq_nocase(s, "packed bitfield"@) {
        Some(SettingKind::PackedBitfield)
    } else {
        None
    }
}

impl SettingKind {
    /// Decodes a schema type name into a kind.  Names are matched without
    /// regard to ASCII case; unknown names are rejected rather than
    /// defaulted.
    pub fn from_schema_name(s: &str) -> (r: Option<SettingKind>)
        ensures
            r == spec_kind_from_name(s@),
    {
        if str_eq_nocase(s, "integer") || str_eq_nocase(s, "int") {
            Some(SettingKind::Integer)
        } else if str_eq_nocase(s, "boolean") || str_eq_nocase(s, "bool") {
            Some(SettingKind::Boolean)
        } else if str_eq_nocase(s, "float") {
            Some(SettingKind::Float)
        } else if str_eq_nocase(s, "double") {
            Some(SettingKind::Double)
        } else if str_eq_nocase(s, "string") {
            Some(SettingKind::String)
        } else if str_eq_nocase(s, "enum") {
            Some(SettingKind::Enum)
        } else if str_eq_nocase(s, "packed bitfield") {
            Some(SettingKind::PackedBitfield)
        } else {
            None
        }
    }
}

/// How an optional textual schema field decodes: the documented
/// "not applicable" sentinel and the empty field both mean "no value".
pub open spec fn spec_optional_text(s: Seq<char>) -> Option<Seq<char>> {
    if s == "N/A"@ || s.len() == 0 {
        None
    } else {
        Some(s)
    }
}

/// Decodes an optional textual schema field, turning the documented
/// "not applicable" sentinel and the empty field into "no value" rather
/// than a literal string.
pub fn parse_optional_text(s: &str) -> (r: Option<String>)
    ensures
        match r {
            Some(t) => spec_optional_text(s@) == Some(t@),
            None => spec_optional_text(s@) is None,
        },
{
    if str_eq(s, "N/A") || s.unicode_len() == 0 {
        None
    } else {
        Some(s.to_owned())
    }
}

} // verus!
