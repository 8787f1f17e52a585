//! Client request: the client side of one framed exchange.
//!
//! A client connects, sends exactly one frame carrying the directive
//! text, and awaits exactly one response frame.  The connecting, sending
//! and receiving happen outside the library; this module builds the
//! request bytes and interprets what came back.

use vstd::prelude::*;

use crate::codec::{encode_frame, spec_encode};
use crate::directive::{spec_gettime, try_utf8};

verus! {

/// Why a client exchange failed.
#[derive(Clone, Copy, PartialEq, Eq, Structural, Debug)]
pub enum ClientError {
    /// The connection closed before a response frame arrived: an
    /// incomplete exchange, never an empty success.
    Incomplete,
    /// The response payload was not UTF-8 text.
    NotText,
}

/// The wire bytes of one request frame carrying the directive text.
pub fn encode_request(d: &str) -> (r: Vec<u8>)
    requires
        vstd::utf8::encode_utf8(d@).len() <= u32::MAX,
    ensures
        r@ == spec_encode(vstd::utf8::encode_utf8(d@)),
{
    encode_frame(d.as_bytes())
}

/// The request frame for the one built-in directive, `"gettime"`.
pub fn gettime_request() -> (r: Vec<u8>)
    ensures
        r@ == spec_encode(vstd::utf8::encode_utf8(spec_gettime())),
{
    let d = "gettime";
    proof {
        reveal_strlit("gettime");
        assert(vstd::utf8::is_ascii_chars(d@));
        vstd::utf8::is_ascii_chars_encode_utf8(d@);
    }
    encode_request(d)
}

/// What the client presents, given the one response frame it awaited:
/// the response text; an incomplete-exchange error when the stream closed
/// before any frame arrived; or a text error when the payload is not
/// UTF-8.
pub fn interpret_response(frame: Option<Vec<u8>>) -> (r: Result<String, ClientError>)
    ensures
        (match frame {
            None => r == Err::<String, ClientError>(ClientError::Incomplete),
            Some(f) => {
                if vstd::utf8::valid_utf8(f@) {
                    r matches Ok(s) && s@ == vstd::utf8::decode_utf8(f@)
                } else {
                    r == Err::<String, ClientError>(ClientError::NotText)
                }
            },
        }),
{
    match frame {
        None => Err(ClientError::Incomplete),
        Some(f) => {
            match try_utf8(f.as_slice()) {
                None => Err(ClientError::NotText),
                Some(s) => {
                    proof {
                        vstd::utf8::encode_utf8_decode_utf8(s@);
                    }
                    Ok(s.to_owned())
                },
            }
        },
    }
}

} // verus!
