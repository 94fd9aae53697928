use vstd::prelude::*;

verus! {

/// The host's status code for a successful call.
pub const MOSQ_ERR_SUCCESS: i32 = 0;

/// The host's status code for an allocation failure.
pub const MOSQ_ERR_NOMEM: i32 = 1;

/// The host's status code for a protocol violation.
pub const MOSQ_ERR_PROTOCOL: i32 = 2;

/// The host's status code for an invalid argument.
pub const MOSQ_ERR_INVAL: i32 = 3;

/// The host's status code for a result buffer that is too small to hold every record.
pub const MOSQ_ERR_BUFFER_FULL: i32 = 32;

/// Marker for a call that completed successfully.
#[derive(PartialEq, Eq, Structural, Clone, Copy, Debug)]
pub struct Success;

/// Every way a call into or through the host can fail.
#[derive(PartialEq, Eq, Structural, Clone, Copy, Debug)]
pub enum ErrorKind {
    /// The host could not allocate memory.
    OutOfMemory,
    /// An argument was malformed, detected either before the call or by the host.
    InvalidArgument,
    /// The caller-provided result buffer was too small; a retry signal.
    BufferTooSmall,
    /// The host reported a protocol error.
    ProtocolError,
    /// A record handed back by the host held a topic that is not valid UTF-8.
    Decoding,
    /// A record slot or a pointer inside a populated record was null.
    NullRecord,
    /// The result buffer would have to grow beyond its configured limit.
    QueryTooLarge,
    /// Any other host status code, kept for diagnostics.
    Unknown(i32),
}

/// What a host status code means.
pub open spec fn status_of(code: i32) -> Result<Success, ErrorKind> {
    if code == MOSQ_ERR_SUCCESS {
        Ok(Success)
    } else if code == MOSQ_ERR_NOMEM {
        Err(ErrorKind::OutOfMemory)
    } else if code == MOSQ_ERR_PROTOCOL {
        Err(ErrorKind::ProtocolError)
    } else if code == MOSQ_ERR_INVAL {
        Err(ErrorKind::InvalidArgument)
    } else if code == MOSQ_ERR_BUFFER_FULL {
        Err(ErrorKind::BufferTooSmall)
    } else {
        Err(ErrorKind::Unknown(code))
    }
}

/// Translates a host status code into a structured result. Total: an
/// unrecognised code is returned as `Unknown` carrying the code itself.
pub fn translate(code: i32) -> (r: Result<Success, ErrorKind>)
    ensures
        r == status_of(code),
        r is Ok <==> code == MOSQ_ERR_SUCCESS,
{
    if code == MOSQ_ERR_SUCCESS {
        Ok(Success)
    } else if code == MOSQ_ERR_NOMEM {
        Err(ErrorKind::OutOfMemory)
    } else if code == MOSQ_ERR_PROTOCOL {
        Err(ErrorKind::ProtocolError)
    } else if code == MOSQ_ERR_INVAL {
        Err(ErrorKind::InvalidArgument)
    } else if code == MOSQ_ERR_BUFFER_FULL {
        Err(ErrorKind::BufferTooSmall)
    } else {
        Err(ErrorKind::Unknown(code))
    }
}

/// Translation loses no information: the status code can be recovered from
/// the translated result, so distinct codes never collapse into one result.
pub proof fn lemma_translation_injective(a: i32, b: i32)
    requires
        status_of(a) == status_of(b),
    ensures
        a == b,
{
}

} // verus!
