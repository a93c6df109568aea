use geobot::config::BotConfig;
use geobot::router::{
    plan_image_response, plan_text_response, should_skip_own_message, MessageAction,
};

#[test]
fn leave_command_is_acted_on() {
    assert!(matches!(plan_text_response(&"!leave".to_owned()), MessageAction::ByeAndLeave));
    assert!(matches!(plan_text_response(&"hello".to_owned()), MessageAction::Nothing));
    assert!(matches!(plan_text_response(&"!leave now".to_owned()), MessageAction::Nothing));
    assert!(matches!(plan_text_response(&"".to_owned()), MessageAction::Nothing));
}

#[test]
fn own_messages_are_skipped_only_when_configured() {
    let own = "@bot:example.org".to_owned();
    let other = "@someone:example.org".to_owned();
    assert!(should_skip_own_message(true, &own, &own));
    assert!(!should_skip_own_message(true, &other, &own));
    assert!(!should_skip_own_message(false, &own, &own));
}

#[test]
fn image_without_location_gets_a_failure_marker() {
    let a = plan_image_response(b"not an image", &"$img".to_owned());
    match a {
        MessageAction::FailureMarker { in_reply_to } => assert_eq!(in_reply_to, "$img"),
        _ => panic!("expected a failure marker"),
    }
}

#[test]
fn image_with_location_gets_a_reply() {
    // A minimal little-endian TIFF structure with one GPS latitude and
    // longitude triple each: (52, 30, 0) north, (13, 24, 0) east.
    let mut v: Vec<u8> = Vec::new();
    let u16le = |v: &mut Vec<u8>, x: u16| v.extend_from_slice(&x.to_le_bytes());
    let u32le = |v: &mut Vec<u8>, x: u32| v.extend_from_slice(&x.to_le_bytes());
    v.extend_from_slice(&[0x49, 0x49, 0x2a, 0x00]);
    u32le(&mut v, 8);
    u16le(&mut v, 1);
    u16le(&mut v, 0x8825);
    u16le(&mut v, 4);
    u32le(&mut v, 1);
    u32le(&mut v, 22);
    u16le(&mut v, 2);
    let data_off: u32 = 22 + 2 + 24;
    u16le(&mut v, 2);
    u16le(&mut v, 5);
    u32le(&mut v, 3);
    u32le(&mut v, data_off);
    u16le(&mut v, 4);
    u16le(&mut v, 5);
    u32le(&mut v, 3);
    u32le(&mut v, data_off + 24);
    for (num, den) in [(52u32, 1u32), (30, 1), (0, 1), (13, 1), (24, 1), (0, 1)] {
        u32le(&mut v, num);
        u32le(&mut v, den);
    }
    let a = plan_image_response(&v, &"$img".to_owned());
    match a {
        MessageAction::LocationReply { coordinate, in_reply_to } => {
            assert_eq!(in_reply_to, "$img");
            assert!(!coordinate.latitude.negative);
            assert_eq!(
                (coordinate.latitude.num as f64) / (coordinate.latitude.den as f64),
                52.5
            );
            let lon = (coordinate.longitude.num as f64) / (coordinate.longitude.den as f64);
            assert!((lon - 13.4).abs() < 1e-12);
        },
        _ => panic!("expected a location reply"),
    }
}

#[test]
fn config_keeps_its_values() {
    let c = BotConfig::new(
        "bot".to_owned(),
        "swordfish".to_owned(),
        "https://example.org".to_owned(),
        true,
        false,
    );
    assert_eq!(c.username, "bot");
    assert_eq!(c.password, "swordfish");
    assert_eq!(c.homeserver_url, "https://example.org");
    assert!(c.ignore_own_messages);
    assert!(!c.autojoin);
}
