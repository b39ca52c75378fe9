//! Request ids: the 32-byte correlation key of an update call, stored as 64
//! hexadecimal digits.
use vstd::prelude::*;
use crate::hex_text::{bytes_to_hex, hex_to_bytes, is_hex_text, lemma_hex_round_trip};

verus! {

/// The number of bytes in a request id.
pub const REQUEST_ID_LENGTH: usize = 32;

/// Text that denotes a request id: the hexadecimal form of 32 bytes.
pub open spec fn is_request_id_text(text: Seq<char>) -> bool {
    is_hex_text(text) && text.len() == 2 * REQUEST_ID_LENGTH
}

/// The correlation key of an update call.
#[derive(Clone, Copy, Debug)]
pub struct RequestId {
    pub bytes: [u8; 32],
}

impl View for RequestId {
    type V = Seq<u8>;

    open spec fn view(&self) -> Seq<u8> {
        self.bytes@
    }
}

/// `ic_agent::RequestId::from_str`: decodes the text as hexadecimal and
/// accepts it exactly when that gives 32 bytes, which are then the id.
#[verifier::external_body]
fn request_id_parse(text: &str) -> (bytes: Option<[u8; 32]>)
    ensures
        bytes is Some <==> is_request_id_text(text@),
        bytes matches Some(b) ==> b@ == hex_to_bytes(text@),
{
    match <ic_agent::RequestId as std::str::FromStr>::from_str(text) {
        Ok(id) => Some(*id),
        Err(_) => None,
    }
}

/// `String::from` on an `ic_agent::RequestId`: the lower-case hexadecimal
/// text of its 32 bytes.
#[verifier::external_body]
fn request_id_text(bytes: &[u8; 32]) -> (text: String)
    ensures
        text@ == bytes_to_hex(bytes@),
{
    String::from(ic_agent::RequestId::new(bytes))
}

impl RequestId {
    /// The request id with the given bytes.
    pub fn new(bytes: &[u8; 32]) -> (id: RequestId)
        ensures
            id@ == bytes@,
    {
        RequestId { bytes: *bytes }
    }

    /// The request id that a text denotes, or `None` where the text is not
    /// the hexadecimal form of 32 bytes.
    pub fn from_str(text: &str) -> (r: Option<RequestId>)
        ensures
            r is Some <==> is_request_id_text(text@),
            r matches Some(id) ==> id@ == hex_to_bytes(text@),
    {
        match request_id_parse(text) {
            Some(bytes) => Some(RequestId { bytes }),
            None => None,
        }
    }

    /// The canonical text of the id: 64 lower-case hexadecimal digits, from
    /// which `from_str` gives the id back.
    pub fn to_text(&self) -> (text: String)
        ensures
            text@ == bytes_to_hex(self@),
            is_request_id_text(text@),
            hex_to_bytes(text@) == self@,
    {
        proof {
            lemma_hex_round_trip(self@);
        }
        request_id_text(&self.bytes)
    }
}

} // verus!
