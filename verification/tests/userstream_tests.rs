use binance_ws::errors::WsError;
use binance_ws::userstream::{parse_ack_response, parse_listen_key_response, Success};

#[test]
fn a_start_reply_carries_the_listen_key() {
    let r = parse_listen_key_response(r#"{"listenKey":"pqia91ma19a5s61cv6a81va65sdf19v8a65a1a5s61cv6a81va65sdf19v8a65a1"}"#)
        .unwrap();
    assert_eq!(
        r.listen_key,
        "pqia91ma19a5s61cv6a81va65sdf19v8a65a1a5s61cv6a81va65sdf19v8a65a1"
    );
}

#[test]
fn a_start_reply_without_the_key_is_a_decode_error() {
    assert_eq!(parse_listen_key_response("{}"), Err(WsError::Decode));
    assert_eq!(parse_listen_key_response(r#"{"listenKey":7}"#), Err(WsError::Decode));
    assert_eq!(parse_listen_key_response(r#"["listenKey"]"#), Err(WsError::Decode));
    assert_eq!(parse_listen_key_response("{oops"), Err(WsError::Decode));
}

#[test]
fn an_object_reply_acknowledges_a_request() {
    assert_eq!(parse_ack_response("{}"), Ok(Success {}));
    assert_eq!(parse_ack_response(r#"{"code":200}"#), Ok(Success {}));
}

#[test]
fn a_non_object_reply_is_a_decode_error() {
    assert_eq!(parse_ack_response("[]"), Err(WsError::Decode));
    assert_eq!(parse_ack_response("true"), Err(WsError::Decode));
    assert_eq!(parse_ack_response("oops"), Err(WsError::Decode));
}
