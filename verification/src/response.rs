//! Responses received from a card: a payload followed by a two-byte status word.

use crate::text::{format_upper_hex, upper_hex};
use vstd::prelude::*;
use vstd::string::StringExecFns;

verus! {

/// A response that was received from the card.
#[derive(Debug)]
pub struct Response<'a> {
    pub payload: &'a [u8],
    pub trailer: (u8, u8),
}

/// What a response holds: the payload bytes and the status word.
pub struct ResponseView {
    pub payload: Seq<u8>,
    pub trailer: (u8, u8),
}

impl<'a> View for Response<'a> {
    type V = ResponseView;

    open spec fn view(&self) -> ResponseView {
        ResponseView { payload: self.payload@, trailer: self.trailer }
    }
}

impl ResponseView {
    /// The response that a byte sequence received from the card decodes to.
    /// Fewer than two bytes cannot hold a status word: they are all payload,
    /// under the status word `(0, 0)`.
    pub open spec fn decode(bytes: Seq<u8>) -> ResponseView {
        if bytes.len() < 2 {
            ResponseView { payload: bytes, trailer: (0u8, 0u8) }
        } else {
            ResponseView {
                payload: bytes.subrange(0, bytes.len() - 2),
                trailer: (bytes[bytes.len() - 2], bytes[bytes.len() - 1]),
            }
        }
    }

    /// Whether the status word reports success: `90 00` or `91 00`.
    pub open spec fn is_ok(self) -> bool {
        self.trailer == (0x90u8, 0x00u8) || self.trailer == (0x91u8, 0x00u8)
    }

    /// The payload followed by the two bytes of the status word.
    pub open spec fn bytes(self) -> Seq<u8> {
        self.payload.push(self.trailer.0).push(self.trailer.1)
    }
}

impl<'a> Response<'a> {
    /// Creates an empty response.
    pub fn new() -> (r: Self)
        ensures
            r@.payload == Seq::<u8>::empty(),
            r@.trailer == (0u8, 0u8),
    {
        let payload: &[u8] = &[];
        Response { payload, trailer: (0, 0) }
    }

    /// Determines whether the response indicates success or not.
    pub fn is_ok(&self) -> (ok: bool)
        ensures
            ok == self@.is_ok(),
            ok <==> (self.trailer == (0x90u8, 0x00u8) || self.trailer == (0x91u8, 0x00u8)),
    {
        (self.trailer.0 == 0x90 || self.trailer.0 == 0x91) && self.trailer.1 == 0x00
    }

    /// Splits received bytes into payload and status word. Fewer than two
    /// bytes hold no status word: they are the payload, and the status word
    /// is `(0, 0)`.
    pub fn decode(bytes: &'a [u8]) -> (r: Self)
        ensures
            r@ == ResponseView::decode(bytes@),
            bytes@.len() < 2 ==> r@.payload == bytes@ && r@.trailer == (0u8, 0u8),
            bytes@.len() >= 2 ==> r@.payload == bytes@.subrange(0, bytes@.len() - 2) && r@.trailer
                == (bytes@[bytes@.len() - 2], bytes@[bytes@.len() - 1]),
    {
        let len = bytes.len();
        if len < 2 {
            return Response { payload: bytes, trailer: (0, 0) };
        }
        let sw2 = bytes[len - 1];
        let sw1 = bytes[len - 2];
        Response { payload: vstd::slice::slice_subrange(bytes, 0, len - 2), trailer: (sw1, sw2) }
    }
}

impl<'a> Default for Response<'a> {
    /// The empty response.
    fn default() -> (r: Self)
        ensures
            r@.payload == Seq::<u8>::empty(),
            r@.trailer == (0u8, 0u8),
    {
        Response::new()
    }
}

impl<'a> From<&'a [u8]> for Response<'a> {
    /// Decodes received bytes.
    fn from(bytes: &'a [u8]) -> (r: Self)
        ensures
            r@ == ResponseView::decode(bytes@),
    {
        let r = Response::decode(bytes);
        proof {
            let chosen = choose|c: Response<'a>| c@ == ResponseView::decode(bytes@);
            assert(chosen@ == r@);
            assert(chosen.payload =~= r.payload);
        }
        r
    }
}

impl<'a> vstd::std_specs::convert::FromSpecImpl<&'a [u8]> for Response<'a> {
    open spec fn obeys_from_spec() -> bool {
        true
    }

    /// The response that holds what the bytes decode to.
    open spec fn from_spec(bytes: &'a [u8]) -> Response<'a> {
        choose|r: Response<'a>| r@ == ResponseView::decode(bytes@)
    }
}

/// Decoding loses nothing: the payload and the status word of a response
/// that was decoded from two bytes or more are together the bytes received.
pub proof fn lemma_decode_keeps_bytes(bytes: Seq<u8>)
    requires
        bytes.len() >= 2,
    ensures
        ResponseView::decode(bytes).bytes() == bytes,
{
    assert(ResponseView::decode(bytes).bytes() =~= bytes);
}

/// Fewer than two bytes decode to a response that holds them as its payload,
/// under the status word `(0, 0)`, which never reports success.
pub proof fn lemma_decode_short_input(bytes: Seq<u8>)
    requires
        bytes.len() < 2,
    ensures
        ResponseView::decode(bytes).payload == bytes,
        ResponseView::decode(bytes).trailer == (0u8, 0u8),
        !ResponseView::decode(bytes).is_ok(),
{
}

/// An error that was returned from the card or reader. It keeps the whole
/// response, payload and status word.
#[derive(Debug)]
pub struct Error<'a> {
    pub response: Response<'a>,
}

/// The text that describes an error with the status word `(sw1, sw2)`.
pub open spec fn error_text(sw1: u8, sw2: u8) -> Seq<char> {
    "The APDU reader returned an error ("@ + upper_hex(sw1) + ", "@ + upper_hex(sw2) + ")."@
}

impl<'a> Error<'a> {
    /// Describes the error, with both status bytes in hexadecimal.
    pub fn message(&self) -> (s: String)
        ensures
            s@ == error_text(self.response.trailer.0, self.response.trailer.1),
    {
        let mut s = String::from_str("The APDU reader returned an error (");
        let sw1 = format_upper_hex(self.response.trailer.0);
        s.append(sw1.as_str());
        s.append(", ");
        let sw2 = format_upper_hex(self.response.trailer.1);
        s.append(sw2.as_str());
        s.append(").");
        s
    }
}

impl<'a> From<Response<'a>> for Result<&'a [u8], Error<'a>> {
    /// Converts the response to a result of octets: the payload of a
    /// response that reports success, else an error that holds the response.
    fn from(response: Response<'a>) -> (r: Self)
        ensures
            response@.is_ok() ==> r == Ok::<&'a [u8], Error<'a>>(response.payload),
            !response@.is_ok() ==> r == Err::<&'a [u8], Error<'a>>(Error { response }),
    {
        if response.is_ok() {
            Ok(response.payload)
        } else {
            Err(Error { response })
        }
    }
}

impl<'a> vstd::std_specs::convert::FromSpecImpl<Response<'a>> for Result<&'a [u8], Error<'a>> {
    open spec fn obeys_from_spec() -> bool {
        true
    }

    open spec fn from_spec(response: Response<'a>) -> Result<&'a [u8], Error<'a>> {
        if response@.is_ok() {
            Ok(response.payload)
        } else {
            Err(Error { response })
        }
    }
}

} // verus!
