use sbp_settings::lookup_setting;
use sbp_settings::registry::parse_optional_text;
use sbp_settings::Setting;
use sbp_settings::SettingKind;

fn entry(group: &str, name: &str, kind: SettingKind) -> Setting {
    Setting {
        name: name.to_string(),
        group: group.to_string(),
        kind,
        expert: false,
        readonly: false,
        description: None,
        default_value: None,
        notes: None,
        units: None,
        enumerated_possible_values: None,
        digits: None,
    }
}

/// The table the lookup tests run against, built the way the schema
/// loader builds it: optional textual fields go through
/// `parse_optional_text`.
fn sample_settings() -> Vec<Setting> {
    let mut settings = Vec::new();
    settings.push(entry("sbp", "obs_msg_max_size", SettingKind::Integer));
    settings.push(Setting {
        name: "soln_freq".to_string(),
        group: "solution".to_string(),
        kind: SettingKind::Integer,
        expert: false,
        readonly: false,
        description: Some("The frequency at which a position solution is computed.".to_string()),
        default_value: parse_optional_text("10"),
        notes: None,
        units: parse_optional_text("Hz"),
        enumerated_possible_values: None,
        digits: None,
    });
    settings.push(Setting {
        name: "enabled_sbp_messages".to_string(),
        group: "tcp_server0".to_string(),
        kind: SettingKind::PackedBitfield,
        expert: false,
        readonly: false,
        description: Some("Configure which messages should be sent on the server.".to_string()),
        default_value: None,
        notes: None,
        units: parse_optional_text("N/A"),
        enumerated_possible_values: None,
        digits: None,
    });
    settings
}

#[test]
fn test_lookup_setting() {
    let settings = sample_settings();
    assert_eq!(
        lookup_setting(&settings, "solution", "soln_freq"),
        Some(&Setting {
            name: "soln_freq".into(),
            group: "solution".into(),
            kind: SettingKind::Integer,
            readonly: false,
            expert: false,
            units: Some("Hz".into()),
            default_value: Some("10".into()),
            description: Some("The frequency at which a position solution is computed.".into()),
            notes: None,
            enumerated_possible_values: None,
            digits: None,
        })
    );

    assert_eq!(lookup_setting(&settings, "solution", "froo_froo"), None);
}

#[test]
fn test_na_is_none() {
    let settings = sample_settings();
    let setting = lookup_setting(&settings, "tcp_server0", "enabled_sbp_messages").unwrap();
    assert_eq!(setting.units, None);
}

#[test]
fn lookup_is_case_sensitive_and_exact() {
    let settings = sample_settings();
    assert_eq!(lookup_setting(&settings, "Solution", "soln_freq"), None);
    assert_eq!(lookup_setting(&settings, "solution", "soln_fre"), None);
    assert_eq!(lookup_setting(&settings, "soln_freq", "solution"), None);
}

#[test]
fn lookup_returns_first_match() {
    let mut settings = sample_settings();
    let mut shadow = entry("solution", "soln_freq", SettingKind::String);
    shadow.units = Some("shadow".to_string());
    settings.push(shadow);
    let found = lookup_setting(&settings, "solution", "soln_freq").unwrap();
    assert_eq!(found.kind, SettingKind::Integer);
    assert_eq!(found.units, Some("Hz".to_string()));
}

#[test]
fn optional_text_keeps_ordinary_values() {
    assert_eq!(parse_optional_text("Hz"), Some("Hz".to_string()));
    assert_eq!(parse_optional_text("N/A"), None);
    assert_eq!(parse_optional_text(""), None);
    assert_eq!(parse_optional_text("n/a"), Some("n/a".to_string()));
}

#[test]
fn kind_names_match_case_insensitively() {
    assert_eq!(SettingKind::from_schema_name("integer"), Some(SettingKind::Integer));
    assert_eq!(SettingKind::from_schema_name("int"), Some(SettingKind::Integer));
    assert_eq!(SettingKind::from_schema_name("INTEGER"), Some(SettingKind::Integer));
    assert_eq!(SettingKind::from_schema_name("boolean"), Some(SettingKind::Boolean));
    assert_eq!(SettingKind::from_schema_name("Bool"), Some(SettingKind::Boolean));
    assert_eq!(SettingKind::from_schema_name("float"), Some(SettingKind::Float));
    assert_eq!(SettingKind::from_schema_name("Double"), Some(SettingKind::Double));
    assert_eq!(SettingKind::from_schema_name("double"), Some(SettingKind::Double));
    assert_eq!(SettingKind::from_schema_name("string"), Some(SettingKind::String));
    assert_eq!(SettingKind::from_schema_name("enum"), Some(SettingKind::Enum));
    assert_eq!(
        SettingKind::from_schema_name("packed bitfield"),
        Some(SettingKind::PackedBitfield)
    );
    assert_eq!(
        SettingKind::from_schema_name("Packed Bitfield"),
        Some(SettingKind::PackedBitfield)
    );
    assert_eq!(SettingKind::from_schema_name("decimal"), None);
    assert_eq!(SettingKind::from_schema_name(""), None);
}
