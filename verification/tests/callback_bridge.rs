use sbp::messages::settings::MsgSettingsReadResp;
use sbp::Sbp;
use sbp::SbpString;

use sbp_settings::bridge::decide_dispatch;
use sbp_settings::bridge::dispatch_message;
use sbp_settings::bridge::CallbackRegistry;
use sbp_settings::codec::MSG_SETTINGS_READ_RESP;

#[test]
fn register_lookup_unregister() {
    let mut registry = CallbackRegistry::new();
    assert_eq!(registry.len(), 0);
    assert!(registry.lookup(165).is_none());

    registry.register(165, 11, 1001);
    registry.register(175, 12, 1002);
    registry.register(165, 13, 1003);
    assert_eq!(registry.len(), 3);

    let hit = registry.lookup(165).unwrap();
    assert_eq!((hit.msg_type, hit.node, hit.key), (165, 11, 1001));
    let write_hit = registry.lookup(175).unwrap();
    assert_eq!(write_hit.node, 12);
    assert!(registry.lookup(166).is_none());

    assert_eq!(registry.unregister(11), Some(1001));
    assert_eq!(registry.len(), 2);
    let next = registry.lookup(165).unwrap();
    assert_eq!((next.node, next.key), (13, 1003));

    assert_eq!(registry.unregister(11), None);
    assert_eq!(registry.unregister(0), None);
    assert_eq!(registry.len(), 2);
}

#[test]
fn stale_handler_leaves_nothing_behind() {
    let mut registry = CallbackRegistry::new();
    registry.register(175, 21, 2001);

    registry.register(165, 22, 2002);
    assert_eq!(registry.unregister(22), Some(2002));

    assert_eq!(registry.len(), 1);
    assert!(registry.lookup(165).is_none());
    let kept = registry.lookup(175).unwrap();
    assert_eq!((kept.node, kept.key), (21, 2001));
}

#[test]
fn dispatch_strips_the_frame_down_to_the_payload() {
    let mut registry = CallbackRegistry::new();
    registry.register(MSG_SETTINGS_READ_RESP, 31, 3001);

    let setting_text = "sbp\0obs_msg_max_size\010\0";
    let msg = Sbp::from(MsgSettingsReadResp {
        sender_id: Some(0x42),
        setting: SbpString::from(setting_text.to_string()),
    });

    let dispatch = dispatch_message(&registry, &msg).unwrap();
    assert_eq!(dispatch.msg_type, MSG_SETTINGS_READ_RESP);
    assert_eq!(dispatch.sender_id, 0x42);
    assert_eq!(dispatch.callback.node, 31);
    assert_eq!(dispatch.payload, setting_text.as_bytes());
}

#[test]
fn unregistered_message_types_are_dropped() {
    let registry = CallbackRegistry::new();
    let msg = Sbp::from(MsgSettingsReadResp {
        sender_id: Some(0x42),
        setting: SbpString::from("a\0b\0c\0".to_string()),
    });
    assert!(dispatch_message(&registry, &msg).is_none());
}

#[test]
fn decided_dispatch_strips_header_and_integrity_fields() {
    let mut registry = CallbackRegistry::new();
    registry.register(165, 41, 4001);

    let frame: Vec<u8> = vec![0x55, 0xa5, 0x00, 0x42, 0x00, 0x03, b'a', b'b', b'c', 0x99, 0x98];
    let dispatch = decide_dispatch(&registry, 165, 0x42, frame.clone()).unwrap();
    assert_eq!(dispatch.msg_type, 165);
    assert_eq!(dispatch.sender_id, 0x42);
    assert_eq!((dispatch.callback.node, dispatch.callback.key), (41, 4001));
    assert_eq!(dispatch.payload, vec![b'a', b'b', b'c']);

    assert!(decide_dispatch(&registry, 175, 0x42, frame.clone()).is_none());

    let short: Vec<u8> = frame[..7].to_vec();
    assert!(decide_dispatch(&registry, 165, 0x42, short).is_none());

    let bare: Vec<u8> = vec![0x55, 0xa5, 0x00, 0x42, 0x00, 0x00, 0x99, 0x98];
    let empty = decide_dispatch(&registry, 165, 0x42, bare).unwrap();
    assert_eq!(empty.payload, Vec::<u8>::new());
}
