use vstd::prelude::*;
use vstd::utf8::{decode_utf8, encode_utf8, encode_utf8_decode_utf8, encode_utf8_valid_utf8, valid_utf8};

use crate::marshal::{has_nul, MAX_PAYLOAD_LEN};
use crate::status::ErrorKind;

verus! {

/// Quality-of-service level of a published message.
#[derive(PartialEq, Eq, Structural, Clone, Copy, Debug)]
pub enum QOS {
    AtMostOnce,
    AtLeastOnce,
    ExactlyOnce,
}

impl QOS {
    /// The integer level the host uses for this quality of service.
    pub open spec fn level(self) -> i32 {
        match self {
            QOS::AtMostOnce => 0,
            QOS::AtLeastOnce => 1,
            QOS::ExactlyOnce => 2,
        }
    }

    pub fn to_i32(self) -> (r: i32)
        ensures
            r == self.level(),
    {
        match self {
            QOS::AtMostOnce => 0,
            QOS::AtLeastOnce => 1,
            QOS::ExactlyOnce => 2,
        }
    }

    pub fn from_i32(level: i32) -> (r: Option<QOS>)
        ensures
            r matches Some(q) ==> q.level() == level,
            r is None <==> !(0 <= level <= 2),
    {
        if level == 0 {
            Some(QOS::AtMostOnce)
        } else if level == 1 {
            Some(QOS::AtLeastOnce)
        } else if level == 2 {
            Some(QOS::ExactlyOnce)
        } else {
            None
        }
    }
}

/// A message as the application sees it. It owns its topic and payload:
/// nothing in it borrows memory that the host manages.
#[derive(Clone, Debug)]
pub struct MosquittoMessage {
    pub topic: String,
    pub payload: Vec<u8>,
    pub qos: i32,
    pub retain: bool,
}

/// The mathematical content of a message.
pub ghost struct MessageView {
    pub topic: Seq<char>,
    pub payload: Seq<u8>,
    pub qos: i32,
    pub retain: bool,
}

impl View for MosquittoMessage {
    type V = MessageView;

    open spec fn view(&self) -> MessageView {
        MessageView {
            topic: self.topic@,
            payload: self.payload@,
            qos: self.qos,
            retain: self.retain,
        }
    }
}

/// A record slot as the host fills it in, read out of host memory.
/// `None` for `topic` or `payload` stands for a null pointer; `topic` holds
/// the bytes before the terminating null byte, `payload` the `payloadlen`
/// bytes that the payload pointer addressed.
#[derive(Clone, Debug)]
pub struct RawRecord {
    pub mid: i32,
    pub topic: Option<Vec<u8>>,
    pub payload: Option<Vec<u8>>,
    pub payloadlen: i32,
    pub qos: i32,
    pub retain: bool,
}

/// The payload bytes a record stands for: a null payload pointer is
/// acceptable only for an empty payload.
pub open spec fn record_payload(r: RawRecord) -> Option<Seq<u8>> {
    match r.payload {
        Some(p) => Some(p@),
        None => if r.payloadlen == 0 {
            Some(Seq::empty())
        } else {
            None
        },
    }
}

/// The message a populated record converts to, or why it cannot.
pub open spec fn convert_record(r: RawRecord) -> Result<MessageView, ErrorKind> {
    match r.topic {
        None => Err(ErrorKind::NullRecord),
        Some(t) => if !valid_utf8(t@) {
            Err(ErrorKind::Decoding)
        } else {
            match record_payload(r) {
                None => Err(ErrorKind::NullRecord),
                Some(p) => Ok(
                    MessageView { topic: decode_utf8(t@), payload: p, qos: r.qos, retain: r.retain },
                ),
            }
        },
    }
}

/// Converts records in order; the first record that fails decides the error.
pub open spec fn convert_all(s: Seq<RawRecord>) -> Result<Seq<MessageView>, ErrorKind>
    decreases s.len(),
{
    if s.len() == 0 {
        Ok(Seq::empty())
    } else {
        match convert_all(s.drop_last()) {
            Err(e) => Err(e),
            Ok(prefix) => match convert_record(s.last()) {
                Err(e) => Err(e),
                Ok(m) => Ok(prefix.push(m)),
            },
        }
    }
}

/// Once a prefix fails to convert, every extension of it fails the same way.
proof fn lemma_convert_all_prefix_err(s: Seq<RawRecord>, k: int)
    requires
        0 <= k <= s.len(),
        convert_all(s.subrange(0, k)) is Err,
    ensures
        convert_all(s) == convert_all(s.subrange(0, k)),
    decreases s.len() - k,
{
    if k < s.len() {
        let next = s.subrange(0, k + 1);
        assert(next.drop_last() =~= s.subrange(0, k));
        lemma_convert_all_prefix_err(s, k + 1);
    } else {
        assert(s.subrange(0, k) =~= s);
    }
}

/// The views of a sequence of messages.
pub open spec fn views(s: Seq<MosquittoMessage>) -> Seq<MessageView> {
    s.map_values(|m: MosquittoMessage| m@)
}

/// Copies bytes into storage the caller owns.
pub fn copy_bytes(src: &[u8]) -> (r: Vec<u8>)
    ensures
        r@ == src@,
{
    let mut out: Vec<u8> = Vec::with_capacity(src.len());
    let mut i: usize = 0;
    while i < src.len()
        invariant
            i <= src@.len(),
            out@ == src@.subrange(0, i as int),
        decreases src@.len() - i,
    {
        out.push(src[i]);
        i = i + 1;
    }
    assert(out@ =~= src@);
    out
}

/// Relies on String::from_utf8: it succeeds exactly on valid UTF-8, and the
/// resulting string holds the characters those bytes encode.
#[verifier::external_body]
fn decode_topic(bytes: Vec<u8>) -> (r: Option<String>)
    ensures
        r is Some <==> valid_utf8(bytes@),
        r matches Some(s) ==> s@ == decode_utf8(bytes@),
{
    String::from_utf8(bytes).ok()
}

/// Converts one populated record into an owned message, copying its topic
/// and payload out of the record.
pub fn convert_one(r: &RawRecord) -> (res: Result<MosquittoMessage, ErrorKind>)
    ensures
        match res {
            Ok(m) => convert_record(*r) == Ok::<MessageView, ErrorKind>(m@),
            Err(e) => convert_record(*r) == Err::<MessageView, ErrorKind>(e),
        },
{
    let topic_bytes = match &r.topic {
        None => {
            return Err(ErrorKind::NullRecord);
        },
        Some(t) => copy_bytes(t.as_slice()),
    };
    let topic = match decode_topic(topic_bytes) {
        None => {
            return Err(ErrorKind::Decoding);
        },
        Some(s) => s,
    };
    let payload = match &r.payload {
        Some(p) => copy_bytes(p.as_slice()),
        None => {
            if r.payloadlen == 0 {
                Vec::new()
            } else {
                return Err(ErrorKind::NullRecord);
            }
        },
    };
    Ok(MosquittoMessage { topic, payload, qos: r.qos, retain: r.retain })
}

/// Converts reclaimed records, in order, into owned messages. Stops at the
/// first record that cannot be converted and returns its error.
pub fn convert_to_rust_type(messages: Vec<RawRecord>) -> (r: Result<Vec<MosquittoMessage>, ErrorKind>)
    ensures
        match r {
            Ok(v) => convert_all(messages@) == Ok::<Seq<MessageView>, ErrorKind>(views(v@)),
            Err(e) => convert_all(messages@) == Err::<Seq<MessageView>, ErrorKind>(e),
        },
{
    let mut result: Vec<MosquittoMessage> = Vec::new();
    let mut i: usize = 0;
    assert(messages@.subrange(0, 0) =~= Seq::<RawRecord>::empty());
    assert(views(result@) =~= Seq::<MessageView>::empty());
    while i < messages.len()
        invariant
            i <= messages@.len(),
            convert_all(messages@.subrange(0, i as int)) == Ok::<Seq<MessageView>, ErrorKind>(
                views(result@),
            ),
        decreases messages@.len() - i,
    {
        let m = convert_one(&messages[i]);
        let ghost prefix = messages@.subrange(0, i as int);
        let ghost next = messages@.subrange(0, i + 1);
        assert(next.drop_last() =~= prefix);
        match m {
            Err(e) => {
                proof {
                    lemma_convert_all_prefix_err(messages@, i as int + 1);
                }
                return Err(e);
            },
            Ok(msg) => {
                let ghost before = result@;
                result.push(msg);
                assert(result@.drop_last() =~= before);
                assert(views(result@) =~= views(before).push(msg@));
                assert(convert_all(next) == Ok::<Seq<MessageView>, ErrorKind>(views(before).push(msg@)));
            },
        }
        i = i + 1;
    }
    assert(messages@.subrange(0, i as int) =~= messages@);
    Ok(result)
}

/// A successful conversion yields one message per record.
pub proof fn lemma_convert_all_len(s: Seq<RawRecord>)
    ensures
        convert_all(s) matches Ok(v) ==> v.len() == s.len(),
    decreases s.len(),
{
    if s.len() > 0 {
        lemma_convert_all_len(s.drop_last());
    }
}

/// True when `r` is the record form of message `m`.
pub open spec fn encodes(r: RawRecord, m: MessageView) -> bool {
    &&& r.topic matches Some(t) && t@ == encode_utf8(m.topic)
    &&& r.payload matches Some(p) && p@ == m.payload
    &&& r.payloadlen as int == m.payload.len()
    &&& r.qos == m.qos
    &&& r.retain == m.retain
}

/// Encodes a message as the record the host would hand back for it. A topic
/// whose encoding holds a null byte cannot be carried by a null-terminated topic, and a
/// payload longer than a record can declare cannot be carried either: both
/// are `InvalidArgument`.
pub fn encode_record(m: &MosquittoMessage, mid: i32) -> (r: Result<RawRecord, ErrorKind>)
    ensures
        r is Err <==> has_nul(encode_utf8(m.topic@)) || m.payload@.len() > MAX_PAYLOAD_LEN,
        r matches Err(e) ==> e == ErrorKind::InvalidArgument,
        r matches Ok(rec) ==> encodes(rec, m@) && rec.mid == mid,
{
    let t = m.topic.as_str();
    let bytes = t.as_bytes();
    let mut topic: Vec<u8> = Vec::new();
    let mut i: usize = 0;
    while i < bytes.len()
        invariant
            bytes@ == encode_utf8(m.topic@),
            i <= bytes@.len(),
            topic@ == bytes@.subrange(0, i as int),
            forall|j: int| 0 <= j < i ==> bytes@[j] != 0,
        decreases bytes@.len() - i,
    {
        if bytes[i] == 0 {
            return Err(ErrorKind::InvalidArgument);
        }
        topic.push(bytes[i]);
        i = i + 1;
    }
    assert(topic@ =~= bytes@);
    if m.payload.len() > MAX_PAYLOAD_LEN {
        return Err(ErrorKind::InvalidArgument);
    }
    let payload = copy_bytes(m.payload.as_slice());
    Ok(
        RawRecord {
            mid,
            topic: Some(topic),
            payload: Some(payload),
            payloadlen: m.payload.len() as i32,
            qos: m.qos,
            retain: m.retain,
        },
    )
}

/// Converting the record form of a message gives back that message, field
/// for field.
pub proof fn lemma_record_round_trip(r: RawRecord, m: MessageView)
    requires
        encodes(r, m),
    ensures
        convert_record(r) == Ok::<MessageView, ErrorKind>(m),
{
    encode_utf8_valid_utf8(m.topic);
    encode_utf8_decode_utf8(m.topic);
}

} // verus!
