use mosq_plugin::status::{
    translate, ErrorKind, Success, MOSQ_ERR_BUFFER_FULL, MOSQ_ERR_INVAL, MOSQ_ERR_NOMEM,
    MOSQ_ERR_PROTOCOL, MOSQ_ERR_SUCCESS,
};

#[test]
fn translate_known_codes() {
    assert_eq!(translate(MOSQ_ERR_SUCCESS), Ok(Success));
    assert_eq!(translate(MOSQ_ERR_NOMEM), Err(ErrorKind::OutOfMemory));
    assert_eq!(translate(MOSQ_ERR_PROTOCOL), Err(ErrorKind::ProtocolError));
    assert_eq!(translate(MOSQ_ERR_INVAL), Err(ErrorKind::InvalidArgument));
    assert_eq!(translate(MOSQ_ERR_BUFFER_FULL), Err(ErrorKind::BufferTooSmall));
    assert_eq!(translate(0), Ok(Success));
    assert_eq!(translate(1), Err(ErrorKind::OutOfMemory));
    assert_eq!(translate(2), Err(ErrorKind::ProtocolError));
    assert_eq!(translate(3), Err(ErrorKind::InvalidArgument));
}

#[test]
fn translate_unknown_keeps_code() {
    assert_eq!(translate(7), Err(ErrorKind::Unknown(7)));
    assert_eq!(translate(-1), Err(ErrorKind::Unknown(-1)));
    assert_eq!(translate(255), Err(ErrorKind::Unknown(255)));
}

#[test]
fn translate_is_total_on_byte_range() {
    for code in 0..=255i32 {
        let r = translate(code);
        match r {
            Ok(Success) => assert_eq!(code, MOSQ_ERR_SUCCESS),
            Err(ErrorKind::Unknown(c)) => assert_eq!(c, code),
            Err(ErrorKind::OutOfMemory) => assert_eq!(code, 1),
            Err(ErrorKind::ProtocolError) => assert_eq!(code, 2),
            Err(ErrorKind::InvalidArgument) => assert_eq!(code, 3),
            Err(ErrorKind::BufferTooSmall) => assert_eq!(code, MOSQ_ERR_BUFFER_FULL),
            Err(other) => panic!("unexpected translation {:?} for {}", other, code),
        }
    }
}
