use sbp_settings::codec::MSG_SETTINGS_READ_BY_INDEX_DONE;
use sbp_settings::codec::MSG_SETTINGS_READ_BY_INDEX_RESP;
use sbp_settings::codec::MSG_SETTINGS_READ_REQ;
use sbp_settings::codec::MSG_SETTINGS_READ_RESP;
use sbp_settings::codec::MSG_SETTINGS_WRITE;
use sbp_settings::codec::MSG_SETTINGS_WRITE_RESP;
use sbp_settings::engine::ReadByIndexRequest;
use sbp_settings::engine::ReadRequest;
use sbp_settings::engine::WriteRequest;
use sbp_settings::errors::READ_STATUS_PARSE_ERROR;
use sbp_settings::errors::READ_STATUS_TIMEOUT;
use sbp_settings::Error;
use sbp_settings::ReadSettingError;
use sbp_settings::Setting;
use sbp_settings::SettingKind;
use sbp_settings::SettingValue;
use sbp_settings::WriteSettingError;

fn entry(group: &str, name: &str, kind: SettingKind) -> Setting {
    Setting {
        name: name.to_string(),
        group: group.to_string(),
        kind,
        expert: false,
        readonly: false,
        description: None,
        default_value: None,
        notes: None,
        units: None,
        enumerated_possible_values: None,
        digits: None,
    }
}

fn sample_settings() -> Vec<Setting> {
    vec![
        entry("sbp", "obs_msg_max_size", SettingKind::Integer),
        entry("surveyed_position", "broadcast", SettingKind::Boolean),
        entry("surveyed_position", "surveyed_lat", SettingKind::Double),
        entry("rtcm_out", "ant_descriptor", SettingKind::String),
        entry("frontend", "antenna_selection", SettingKind::Enum),
    ]
}

/// Drives one read against a mocked remote: starts the request, checks
/// the request payload that would go out on the bus, and feeds the
/// mocked response payload back in.
fn read_setting(
    settings: &Vec<Setting>,
    group: &str,
    name: &str,
    reply: &str,
) -> Option<Result<SettingValue, Error<sbp_settings::ReadSettingError>>> {
    let (req, action) = match ReadRequest::start(settings, group, name) {
        Some(Ok(pair)) => pair,
        Some(Err(e)) => return Some(Err(e)),
        None => return None,
    };
    assert_eq!(action.send_type, MSG_SETTINGS_READ_REQ);
    assert_eq!(action.register_type, MSG_SETTINGS_READ_RESP);
    assert_eq!(action.payload, format!("{}\0{}\0", group, name));
    req.on_response(reply)
}

#[test]
fn mock_read_setting_int() {
    let (group, name) = ("sbp", "obs_msg_max_size");
    let settings = sample_settings();
    let reply = format!("{}\0{}\010\0", group, name);
    let response = read_setting(&settings, group, name, &reply);
    assert!(matches!(response, Some(Ok(SettingValue::Integer(10)))));
}

#[test]
fn mock_read_setting_bool() {
    let (group, name) = ("surveyed_position", "broadcast");
    let settings = sample_settings();
    let reply = format!("{}\0{}\0True\0", group, name);
    let response = read_setting(&settings, group, name, &reply);
    assert!(matches!(response, Some(Ok(SettingValue::Boolean(true)))));
}

#[test]
fn mock_read_setting_double() {
    let (group, name) = ("surveyed_position", "surveyed_lat");
    let settings = sample_settings();
    let reply = format!("{}\0{}\00.1\0", group, name);
    let response = read_setting(&settings, group, name, &reply).unwrap().unwrap();
    assert_eq!(response, SettingValue::Float("0.1".into()));
    match response {
        SettingValue::Float(token) => {
            let stored: f32 = token.parse().unwrap();
            assert!((stored - 0.1f32).abs() < f32::EPSILON);
        }
        other => panic!("expected a float value, got {:?}", other),
    }
}

#[test]
fn mock_read_setting_string() {
    let (group, name) = ("rtcm_out", "ant_descriptor");
    let settings = sample_settings();
    let reply = format!("{}\0{}\0foo\0", group, name);
    let response = read_setting(&settings, group, name, &reply).unwrap().unwrap();
    assert_eq!(response, SettingValue::String("foo".into()));
}

#[test]
fn mock_read_setting_enum() {
    let (group, name) = ("frontend", "antenna_selection");
    let settings = sample_settings();
    let reply = format!("{}\0{}\0Secondary\0", group, name);
    let response = read_setting(&settings, group, name, &reply).unwrap().unwrap();
    assert_eq!(response, SettingValue::String("Secondary".into()));
}

#[test]
fn unknown_setting_sends_nothing() {
    let settings = sample_settings();
    assert!(ReadRequest::start(&settings, "no_such_group", "no_such_name").is_none());
    assert!(ReadRequest::start(&settings, "sbp", "no_such_name").is_none());
}

#[test]
fn embedded_terminator_fails_before_sending() {
    let mut settings = sample_settings();
    settings.push(entry("gr\0oup", "name", SettingKind::Integer));
    let response = ReadRequest::start(&settings, "gr\0oup", "name");
    assert!(matches!(response, Some(Err(Error::NulError))));

    let write = WriteRequest::start(&settings, "rtcm_out", "ant_descriptor", "val\0ue");
    assert!(matches!(write, Some(Err(Error::NulError))));
}

#[test]
fn responses_for_other_settings_are_ignored() {
    let settings = sample_settings();
    let (req, _) = ReadRequest::start(&settings, "sbp", "obs_msg_max_size")
        .unwrap()
        .unwrap();
    assert!(req.on_response("other\0obs_msg_max_size\010\0").is_none());
    assert!(req.on_response("sbp\0other\010\0").is_none());
    assert!(req.on_response("not a response").is_none());
    let matching = req.on_response("sbp\0obs_msg_max_size\010\0");
    assert!(matches!(matching, Some(Ok(SettingValue::Integer(10)))));
}

#[test]
fn rejected_token_reports_decode_failure() {
    let settings = sample_settings();
    let (req, _) = ReadRequest::start(&settings, "surveyed_position", "broadcast")
        .unwrap()
        .unwrap();
    match req.on_response("surveyed_position\0broadcast\0maybe\0") {
        Some(Err(Error::Failed(e))) => assert_eq!(e.code(), READ_STATUS_PARSE_ERROR),
        other => panic!("expected a decode failure, got {:?}", other),
    }
}

#[test]
fn timeout_resolves_and_later_requests_still_work() {
    let settings = sample_settings();
    let (req, _) = ReadRequest::start(&settings, "sbp", "obs_msg_max_size")
        .unwrap()
        .unwrap();
    match req.on_timeout() {
        Error::Failed(e) => assert_eq!(e.code(), READ_STATUS_TIMEOUT),
        other => panic!("expected a timeout error, got {:?}", other),
    }
    let second = read_setting(
        &settings,
        "sbp",
        "obs_msg_max_size",
        "sbp\0obs_msg_max_size\07\0",
    );
    assert!(matches!(second, Some(Ok(SettingValue::Integer(7)))));
}

#[test]
fn write_round_trip_reports_each_status() {
    let settings = vec![entry("solution", "soln_freq", SettingKind::Integer)];
    let (req, action) = WriteRequest::start(&settings, "solution", "soln_freq", "10")
        .unwrap()
        .unwrap();
    assert_eq!(action.send_type, MSG_SETTINGS_WRITE);
    assert_eq!(action.register_type, MSG_SETTINGS_WRITE_RESP);
    assert_eq!(action.payload, "solution\0soln_freq\010\0");

    let accepted = format!("{}{}", '\u{0}', "solution\0soln_freq\010\0");
    assert_eq!(req.on_response(&accepted), Some(Ok(())));

    let cases: Vec<(char, WriteSettingError)> = vec![
        ('\u{1}', WriteSettingError::ValueRejected),
        ('\u{2}', WriteSettingError::SettingRejected),
        ('\u{3}', WriteSettingError::ParseFailed),
        ('\u{4}', WriteSettingError::ReadOnly),
        ('\u{5}', WriteSettingError::ModifyDisabled),
        ('\u{6}', WriteSettingError::ServiceFailed),
        ('\u{7}', WriteSettingError::Timeout),
        ('\u{9}', WriteSettingError::Unknown),
    ];
    for (status, expected) in cases {
        let reply = format!("{}{}", status, "solution\0soln_freq\010\0");
        assert_eq!(req.on_response(&reply), Some(Err(Error::Failed(expected))));
    }

    let other = format!("{}{}", '\u{1}', "solution\0other\010\0");
    assert_eq!(req.on_response(&other), None);
    assert_eq!(req.on_timeout(), Error::Failed(WriteSettingError::Timeout));
}

#[test]
fn write_error_messages_match_their_variants() {
    assert_eq!(WriteSettingError::ReadOnly.message(), "setting is read only");
    assert_eq!(
        WriteSettingError::Unknown.message(),
        "unknown settings write response"
    );
    assert_eq!(WriteSettingError::from(4u32), WriteSettingError::ReadOnly);
    assert_eq!(WriteSettingError::from(0u32), WriteSettingError::Unknown);
    assert_eq!(WriteSettingError::from(255u32), WriteSettingError::Unknown);
    assert_eq!(WriteSettingError::from(7i32), WriteSettingError::Timeout);
}

#[test]
fn read_by_index_returns_record_or_end_of_table() {
    let (req, action) = ReadByIndexRequest::start(5);
    assert_eq!(action.index, 5);
    assert_eq!(action.record_type, MSG_SETTINGS_READ_BY_INDEX_RESP);
    assert_eq!(action.done_type, MSG_SETTINGS_READ_BY_INDEX_DONE);

    let payload = format!("{}{}{}", '\u{5}', '\u{0}', "g\0n\0v\0enum\0");
    let resolved = req
        .on_response(MSG_SETTINGS_READ_BY_INDEX_RESP, &payload)
        .unwrap()
        .unwrap()
        .unwrap();
    assert_eq!(resolved.group, "g");
    assert_eq!(resolved.name, "n");
    assert_eq!(resolved.value, "v");
    assert_eq!(resolved.fmt_type, "enum");

    let wrong_index = format!("{}{}{}", '\u{6}', '\u{0}', "g\0n\0v\0enum\0");
    assert!(req
        .on_response(MSG_SETTINGS_READ_BY_INDEX_RESP, &wrong_index)
        .is_none());
    assert!(req
        .on_response(MSG_SETTINGS_READ_BY_INDEX_RESP, "malformed")
        .is_none());
    assert!(req.on_response(MSG_SETTINGS_READ_RESP, &payload).is_none());

    let done = req.on_response(MSG_SETTINGS_READ_BY_INDEX_DONE, "").unwrap().unwrap();
    assert!(done.is_none());
    assert_eq!(req.on_timeout().code(), READ_STATUS_TIMEOUT);
}

#[test]
fn read_error_message_names_the_code() {
    let e = ReadSettingError::from(17u32);
    assert_eq!(e.message(), "settings read failed with status code 17");
    let zero = ReadSettingError::from(0u32);
    assert_eq!(zero.message(), "settings read failed with status code 0");
    let negative = ReadSettingError::from(-2i32);
    assert_eq!(
        negative.message(),
        "settings read failed with status code 4294967294"
    );
}

#[test]
fn write_of_an_unknown_setting_sends_nothing() {
    let settings = sample_settings();
    assert!(WriteRequest::start(&settings, "no_such_group", "no_such_name", "1").is_none());
}
