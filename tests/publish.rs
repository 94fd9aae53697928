use mosq_plugin::marshal::{
    nul_terminated, publish_broadcast, publish_to_client, settle_publish, PayloadOwner,
    PublishCall,
};
use mosq_plugin::message::QOS;
use mosq_plugin::status::{ErrorKind, Success};

/// Stands in for the host's publish function and counts its calls.
struct PublishDouble {
    calls: usize,
    status: i32,
}

impl PublishDouble {
    fn publish(&mut self, _call: &PublishCall) -> i32 {
        self.calls += 1;
        self.status
    }
}

fn run(host: &mut PublishDouble, call: Result<PublishCall, ErrorKind>) -> Result<Success, ErrorKind> {
    let call = call?;
    let status = host.publish(&call);
    settle_publish(status).result
}

#[test]
fn broadcast_buffer_matches_payload() {
    let payload = [1u8, 2, 3, 0, 255];
    let call = publish_broadcast("a/b", &payload, QOS::AtLeastOnce, true).unwrap();
    assert_eq!(call.payload, payload.to_vec());
    assert_eq!(call.payload_len, 5);
    assert_eq!(call.topic, b"a/b\0".to_vec());
    assert_eq!(call.client_id, None);
    assert_eq!(call.qos, 1);
    assert!(call.retain);
}

#[test]
fn broadcast_empty_payload() {
    let call = publish_broadcast("t", &[], QOS::AtMostOnce, false).unwrap();
    assert_eq!(call.payload.len(), 0);
    assert_eq!(call.payload_len, 0);
    assert_eq!(call.qos, 0);
}

#[test]
fn to_client_marshals_client_id() {
    let call = publish_to_client("c1", "x", b"hi", QOS::ExactlyOnce, false).unwrap();
    assert_eq!(call.client_id, Some(b"c1\0".to_vec()));
    assert_eq!(call.topic, b"x\0".to_vec());
    assert_eq!(call.payload, b"hi".to_vec());
    assert_eq!(call.qos, 2);
}

#[test]
fn empty_client_id_differs_from_broadcast() {
    let call = publish_to_client("", "x", b"", QOS::AtMostOnce, false).unwrap();
    assert_eq!(call.client_id, Some(vec![0u8]));
}

#[test]
fn null_byte_topic_never_reaches_host() {
    let mut host = PublishDouble { calls: 0, status: 0 };
    let r = run(&mut host, publish_broadcast("a\0b", b"x", QOS::AtMostOnce, false));
    assert_eq!(r, Err(ErrorKind::InvalidArgument));
    assert_eq!(host.calls, 0);
}

#[test]
fn null_byte_client_id_never_reaches_host() {
    let mut host = PublishDouble { calls: 0, status: 0 };
    let r = run(&mut host, publish_to_client("c\0", "t", b"x", QOS::AtMostOnce, false));
    assert_eq!(r, Err(ErrorKind::InvalidArgument));
    let r = run(&mut host, publish_to_client("c", "\0", b"x", QOS::AtMostOnce, false));
    assert_eq!(r, Err(ErrorKind::InvalidArgument));
    assert_eq!(host.calls, 0);
}

#[test]
fn valid_publish_reaches_host_once() {
    let mut host = PublishDouble { calls: 0, status: 0 };
    let r = run(&mut host, publish_to_client("c", "t", b"x", QOS::AtMostOnce, false));
    assert_eq!(r, Ok(Success));
    assert_eq!(host.calls, 1);
}

#[test]
fn settle_success_hands_payload_to_host() {
    let o = settle_publish(0);
    assert_eq!(o.result, Ok(Success));
    assert_eq!(o.payload, PayloadOwner::Host);
}

#[test]
fn settle_failure_keeps_payload_with_caller() {
    let o = settle_publish(1);
    assert_eq!(o.result, Err(ErrorKind::OutOfMemory));
    assert_eq!(o.payload, PayloadOwner::Caller);
    let o = settle_publish(3);
    assert_eq!(o.result, Err(ErrorKind::InvalidArgument));
    assert_eq!(o.payload, PayloadOwner::Caller);
    let o = settle_publish(42);
    assert_eq!(o.result, Err(ErrorKind::Unknown(42)));
    assert_eq!(o.payload, PayloadOwner::Caller);
}

#[test]
fn nul_terminated_appends_terminator() {
    assert_eq!(nul_terminated("abc"), Ok(b"abc\0".to_vec()));
    assert_eq!(nul_terminated(""), Ok(vec![0u8]));
    assert_eq!(nul_terminated("a\0"), Err(ErrorKind::InvalidArgument));
}
