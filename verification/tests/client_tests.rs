use timeframe::client::{encode_request, gettime_request, interpret_response, ClientError};
use timeframe::codec::encode_frame;

#[test]
fn the_gettime_request_is_one_framed_directive() {
    let wire = gettime_request();
    assert_eq!(wire, vec![0, 0, 0, 7, b'g', b'e', b't', b't', b'i', b'm', b'e']);
    assert_eq!(wire, encode_request("gettime"));
}

#[test]
fn any_directive_can_be_framed() {
    assert_eq!(encode_request("ping"), encode_frame(b"ping"));
    assert_eq!(encode_request(""), vec![0, 0, 0, 0]);
}

#[test]
fn a_text_response_is_presented_verbatim() {
    let r = interpret_response(Some(b"Mon Jan  1 2024\n".to_vec()));
    assert_eq!(r, Ok("Mon Jan  1 2024\n".to_string()));
}

#[test]
fn an_empty_response_frame_is_empty_text() {
    assert_eq!(interpret_response(Some(Vec::new())), Ok(String::new()));
}

#[test]
fn a_closed_stream_is_an_incomplete_exchange_not_a_success() {
    assert_eq!(interpret_response(None), Err(ClientError::Incomplete));
}

#[test]
fn a_non_text_response_is_an_error() {
    assert_eq!(interpret_response(Some(vec![0xc0, 0x21])), Err(ClientError::NotText));
}
