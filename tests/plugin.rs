use mosq_plugin::message::{MosquittoMessage, QOS};
use mosq_plugin::plugin::{is_reversed, AclCheckAccessLevel, PluginError, Test};
use mosq_plugin::status::{ErrorKind, Success};

#[test]
fn init_uses_defaults() {
    let t = Test::init(None, None);
    assert_eq!(t.s, "hej");
    assert_eq!(t.i, 0);
}

#[test]
fn init_parses_level() {
    assert_eq!(Test::init(Some("a/b"), Some("42")).i, 42);
    assert_eq!(Test::init(Some("a/b"), Some("-7")).i, -7);
    assert_eq!(Test::init(Some("a/b"), Some("+3")).i, 3);
    assert_eq!(Test::init(Some("a/b"), Some("abc")).i, 0);
    assert_eq!(Test::init(Some("a/b"), Some(" 5")).i, 0);
    assert_eq!(Test::init(Some("a/b"), Some("99999999999")).i, 0);
    assert_eq!(Test::init(Some("a/b"), Some("2147483647")).i, 2147483647);
    assert_eq!(Test::init(Some("a/b"), Some("42")).s, "a/b");
}

#[test]
fn reversed_check() {
    assert!(is_reversed("abc", "cba"));
    assert!(is_reversed("", ""));
    assert!(is_reversed("åb", "bå"));
    assert!(!is_reversed("abc", "abc"));
    assert!(!is_reversed("abc", "cb"));
}

#[test]
fn friend_is_welcomed() {
    let t = Test::init(None, None);
    let r = t.username_password("c1", Some("user"), Some("resu"));
    assert_eq!(r.result, Ok(Success));
    assert_eq!(r.publishes.len(), 2);
    assert_eq!(r.publishes[0].client_id, None);
    assert_eq!(r.publishes[0].topic, b"new_client\0".to_vec());
    assert_eq!(
        r.publishes[0].payload,
        b"very_client is a friend. Lets make it feel at home!".to_vec()
    );
    assert_eq!(r.publishes[1].client_id, Some(b"c1\0".to_vec()));
    assert_eq!(r.publishes[1].topic, b"greeting\0".to_vec());
    assert_eq!(r.publishes[1].payload, b"Welcome c1".to_vec());
    assert_eq!(r.publishes[1].qos, QOS::AtMostOnce.to_i32());
}

#[test]
fn stranger_is_announced_and_refused() {
    let t = Test::init(None, None);
    let r = t.username_password("c2", Some("user"), Some("user"));
    assert_eq!(r.result, Err(PluginError::Auth));
    assert_eq!(r.publishes.len(), 1);
    assert_eq!(r.publishes[0].topic, b"snitcheroo\0".to_vec());
    assert_eq!(
        r.publishes[0].payload,
        b"c2 is a bad bad client. No cookies for it.".to_vec()
    );
}

#[test]
fn missing_credentials_are_refused() {
    let t = Test::init(None, None);
    let r = t.username_password("c", None, Some("x"));
    assert_eq!(r.result, Err(PluginError::Auth));
    assert!(r.publishes.is_empty());
    let r = t.username_password("c", Some("x"), None);
    assert_eq!(r.result, Err(PluginError::Auth));
    assert!(r.publishes.is_empty());
}

#[test]
fn friend_with_null_client_id_publishes_nothing() {
    let t = Test::init(None, None);
    let r = t.username_password("c\0", Some("ab"), Some("ba"));
    assert_eq!(r.result, Err(PluginError::Call(ErrorKind::InvalidArgument)));
    assert!(r.publishes.is_empty());
}

#[test]
fn acl_allows_configured_topic_only() {
    let t = Test::init(Some("allowed"), None);
    let ok = MosquittoMessage { topic: "allowed".to_string(), payload: vec![], qos: 0, retain: false };
    let no = MosquittoMessage { topic: "other".to_string(), payload: vec![], qos: 0, retain: false };
    assert_eq!(t.acl_check(AclCheckAccessLevel::Read, &ok), Ok(Success));
    assert_eq!(t.acl_check(AclCheckAccessLevel::Write, &no), Err(PluginError::AclDenied));
}

#[test]
fn access_levels_from_bits() {
    assert_eq!(AclCheckAccessLevel::from_i32(1), Some(AclCheckAccessLevel::Read));
    assert_eq!(AclCheckAccessLevel::from_i32(2), Some(AclCheckAccessLevel::Write));
    assert_eq!(AclCheckAccessLevel::from_i32(4), Some(AclCheckAccessLevel::Subscribe));
    assert_eq!(AclCheckAccessLevel::from_i32(8), Some(AclCheckAccessLevel::Unsubscribe));
    assert_eq!(AclCheckAccessLevel::from_i32(3), None);
}

#[test]
fn qos_levels() {
    assert_eq!(QOS::from_i32(0), Some(QOS::AtMostOnce));
    assert_eq!(QOS::from_i32(1), Some(QOS::AtLeastOnce));
    assert_eq!(QOS::from_i32(2), Some(QOS::ExactlyOnce));
    assert_eq!(QOS::from_i32(3), None);
    assert_eq!(QOS::ExactlyOnce.to_i32(), 2);
}
