use vstd::prelude::*;
use vstd::string::StringSliceAdditionalSpecFns;

use crate::message::{copy_bytes, QOS};
use crate::status::{status_of, translate, ErrorKind, Success};

verus! {

/// True when the bytes hold a null byte, which a null-terminated buffer cannot carry.
pub open spec fn has_nul(s: Seq<u8>) -> bool {
    exists|i: int| 0 <= i < s.len() && s[i] == 0
}

/// The largest payload length the host's length parameter can express.
pub const MAX_PAYLOAD_LEN: usize = 2147483647;

/// Encodes text as a null-terminated byte buffer, or refuses text that holds
/// a null byte.
pub fn nul_terminated(s: &str) -> (r: Result<Vec<u8>, ErrorKind>)
    ensures
        r is Err <==> has_nul(s.spec_bytes()),
        r matches Err(e) ==> e == ErrorKind::InvalidArgument,
        r matches Ok(b) ==> b@ == s.spec_bytes().push(0),
{
    let bytes = s.as_bytes();
    let mut out: Vec<u8> = Vec::new();
    let mut i: usize = 0;
    while i < bytes.len()
        invariant
            bytes@ == s.spec_bytes(),
            i <= bytes@.len(),
            out@ == bytes@.subrange(0, i as int),
            forall|j: int| 0 <= j < i ==> bytes@[j] != 0,
        decreases bytes@.len() - i,
    {
        if bytes[i] == 0 {
            return Err(ErrorKind::InvalidArgument);
        }
        out.push(bytes[i]);
        i = i + 1;
    }
    assert(out@ =~= bytes@);
    out.push(0);
    Ok(out)
}

/// Who must release the payload buffer once the host call has returned.
#[derive(PartialEq, Eq, Structural, Clone, Copy, Debug)]
pub enum PayloadOwner {
    /// The host accepted the buffer and will free it; the caller must not touch it again.
    Host,
    /// The call failed; the caller still owns the buffer and must free it.
    Caller,
}

/// A publish call, fully marshaled for the host: null-terminated client id
/// and topic, and the payload bytes to place in a host-allocated buffer of
/// exactly `payload_len` bytes.
#[derive(Clone, Debug)]
pub struct PublishCall {
    /// `None` addresses every client; `Some` one client, even with an empty id.
    pub client_id: Option<Vec<u8>>,
    pub topic: Vec<u8>,
    pub payload: Vec<u8>,
    pub payload_len: i32,
    pub qos: i32,
    pub retain: bool,
}

/// The result of a publish call once its status is known.
#[derive(Clone, Copy, Debug)]
pub struct PublishOutcome {
    pub result: Result<Success, ErrorKind>,
    pub payload: PayloadOwner,
}

/// True when a publish with these arguments cannot be marshaled: a client id
/// or topic with a null byte, or a payload longer than the host can describe.
pub open spec fn refused(client_id: Option<Seq<u8>>, topic: Seq<u8>, payload: Seq<u8>) -> bool {
    (client_id matches Some(id) && has_nul(id)) || has_nul(topic) || payload.len() > MAX_PAYLOAD_LEN
}

/// True when `c` is the marshaled form of a publish with these arguments.
pub open spec fn marshaled(
    c: PublishCall,
    client_id: Option<Seq<u8>>,
    topic: Seq<u8>,
    payload: Seq<u8>,
    qos: QOS,
    retain: bool,
) -> bool {
    &&& match client_id {
        None => c.client_id is None,
        Some(id) => c.client_id matches Some(cid) && cid@ == id.push(0),
    }
    &&& c.topic@ == topic.push(0)
    &&& c.payload@ == payload
    &&& c.payload_len as int == payload.len()
    &&& c.qos == qos.level()
    &&& c.retain == retain
}

fn marshal(
    client_id: Option<&str>,
    topic: &str,
    payload: &[u8],
    qos: QOS,
    retain: bool,
) -> (r: Result<PublishCall, ErrorKind>)
    ensures
        r is Err <==> (client_id matches Some(id) && has_nul(id.spec_bytes())) || has_nul(
            topic.spec_bytes(),
        ) || payload@.len() > MAX_PAYLOAD_LEN,
        r matches Err(e) ==> e == ErrorKind::InvalidArgument,
        r matches Ok(c) ==> marshaled(
            c,
            match client_id {
                None => None,
                Some(id) => Some(id.spec_bytes()),
            },
            topic.spec_bytes(),
            payload@,
            qos,
            retain,
        ),
{
    let cid = match client_id {
        None => None,
        Some(id) => match nul_terminated(id) {
            Err(e) => {
                return Err(e);
            },
            Ok(b) => Some(b),
        },
    };
    let t = match nul_terminated(topic) {
        Err(e) => {
            return Err(e);
        },
        Ok(b) => b,
    };
    if payload.len() > MAX_PAYLOAD_LEN {
        return Err(ErrorKind::InvalidArgument);
    }
    let payload_len = payload.len() as i32;
    Ok(
        PublishCall {
            client_id: cid,
            topic: t,
            payload: copy_bytes(payload),
            payload_len,
            qos: qos.to_i32(),
            retain,
        },
    )
}

/// Marshals a publish to every client. A topic with a null byte, or a
/// payload longer than the host can describe, is refused with
/// `InvalidArgument` and no call is produced.
pub fn publish_broadcast(topic: &str, payload: &[u8], qos: QOS, retain: bool) -> (r: Result<
    PublishCall,
    ErrorKind,
>)
    ensures
        r is Err <==> has_nul(topic.spec_bytes()) || payload@.len() > MAX_PAYLOAD_LEN,
        r matches Err(e) ==> e == ErrorKind::InvalidArgument,
        r matches Ok(c) ==> marshaled(c, None, topic.spec_bytes(), payload@, qos, retain),
{
    marshal(None, topic, payload, qos, retain)
}

/// Marshals a publish to one client. A client id or topic with a null byte,
/// or a payload longer than the host can describe, is refused with
/// `InvalidArgument` and no call is produced.
pub fn publish_to_client(
    client_id: &str,
    topic: &str,
    payload: &[u8],
    qos: QOS,
    retain: bool,
) -> (r: Result<PublishCall, ErrorKind>)
    ensures
        r is Err <==> has_nul(client_id.spec_bytes()) || has_nul(topic.spec_bytes())
            || payload@.len() > MAX_PAYLOAD_LEN,
        r matches Err(e) ==> e == ErrorKind::InvalidArgument,
        r matches Ok(c) ==> marshaled(
            c,
            Some(client_id.spec_bytes()),
            topic.spec_bytes(),
            payload@,
            qos,
            retain,
        ),
{
    marshal(Some(client_id), topic, payload, qos, retain)
}

/// Settles a publish once the host has returned `status`. On success the host
/// owns the payload buffer and frees it; on any failure the caller keeps it
/// and must free it. Publishing is never retried.
pub fn settle_publish(status: i32) -> (r: PublishOutcome)
    ensures
        r.result == status_of(status),
        r.payload == PayloadOwner::Host <==> status_of(status) is Ok,
        r.payload == PayloadOwner::Caller <==> status_of(status) is Err,
{
    let result = translate(status);
    let payload = match result {
        Ok(_) => PayloadOwner::Host,
        Err(_) => PayloadOwner::Caller,
    };
    PublishOutcome { result, payload }
}

} // verus!
