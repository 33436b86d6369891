//! The record codec: between the transport form of a payload (base64 text) and
//! its storage form (raw bytes). Encoding always succeeds and decoding inverts
//! it; text that is not valid base64 is rejected.

use vstd::prelude::*;
use crate::error::StoreError;

verus! {

/// The standard, padded base64 text of a byte sequence, exactly as
/// `base64::encode` produces it.
pub uninterp spec fn b64_of(b: Seq<u8>) -> Seq<char>;

/// What `base64::decode` makes of a text: the decoded bytes, or `None` where
/// the text is rejected.
pub uninterp spec fn b64_decoded(s: Seq<char>) -> Option<Seq<u8>>;

/// Byte lengths whose base64 text is sure to fit in a `usize`, with slack for
/// one final padded group and for the decoder's chunk arithmetic. Anything a
/// real process can hold in memory satisfies this.
pub open spec fn encodable(n: int) -> bool {
    4 * n + 29 <= 3 * (usize::MAX as int)
}

/// Relies on `base64::encode` (standard alphabet, padded): the text is a
/// function of the bytes alone, four characters are written for every three
/// bytes begun, and `base64::decode` accepts the text and returns exactly the
/// bytes that were encoded.
#[verifier::external_body]
fn b64_encode(b: &[u8]) -> (r: String)
    requires
        encodable(b@.len() as int),
    ensures
        r@ == b64_of(b@),
        3 * r@.len() <= 4 * b@.len() + 8,
        b64_decoded(r@) == Some(b@),
{
    base64::encode(b)
}

/// Relies on `base64::decode` (standard alphabet, nonzero trailing bits
/// rejected, padding only trailing in the final group): the outcome is a
/// function of the text alone, and every four accepted symbols yield at most
/// three bytes. An accepted text whose length is the canonical padded length
/// of its decoded bytes is the canonical encoding of those bytes: shorter,
/// unpadded spellings are the only other accepted ones.
#[verifier::external_body]
fn b64_decode(s: &str) -> (r: Option<Vec<u8>>)
    requires
        s@.len() + 7 <= usize::MAX as int,
    ensures
        match r {
            Some(d) => {
                &&& b64_decoded(s@) == Some(d@)
                &&& 4 * d@.len() <= 3 * s@.len()
                &&& s@.len() == 4 * ((d@.len() + 2) / 3) ==> s@ == b64_of(d@)
            },
            None => b64_decoded(s@) is None,
        },
{
    match base64::decode(s) {
        Ok(d) => Some(d),
        Err(_) => None,
    }
}

/// Encode a payload for transport: standard, padded base64. Total and
/// deterministic; decoding the result gives the bytes back.
pub fn encode_payload(b: &Vec<u8>) -> (r: String)
    requires
        encodable(b@.len() as int),
    ensures
        r@ == b64_of(b@),
        3 * r@.len() <= 4 * b@.len() + 8,
        b64_decoded(r@) == Some(b@),
{
    b64_encode(b.as_slice())
}

/// Decode a transport payload. Text that is not valid base64 is rejected with
/// `EncodingError`; nothing else fails. A text of canonical padded length is
/// exactly the encoding of the bytes it decodes to.
pub fn decode_payload(s: &str) -> (r: Result<Vec<u8>, StoreError>)
    requires
        s@.len() + 7 <= usize::MAX as int,
    ensures
        match r {
            Ok(d) => {
                &&& b64_decoded(s@) == Some(d@)
                &&& 4 * d@.len() <= 3 * s@.len()
                &&& s@.len() == 4 * ((d@.len() + 2) / 3) ==> s@ == b64_of(d@)
            },
            Err(e) => b64_decoded(s@) is None && e == StoreError::EncodingError,
        },
{
    match b64_decode(s) {
        Some(d) => Ok(d),
        None => Err(StoreError::EncodingError),
    }
}

/// Round trip the other way: re-encoding whatever a text decodes to gives the
/// encoding of those bytes, and gives back the text itself wherever the text
/// already had the canonical padded length.
pub fn decode_then_encode(s: &str) -> (r: Option<String>)
    requires
        s@.len() + 10 <= usize::MAX as int,
    ensures
        match r {
            Some(t) => {
                &&& b64_decoded(s@) matches Some(d)
                    && t@ == b64_of(d)
                    && (s@.len() == 4 * ((d.len() + 2) / 3) ==> t@ == s@)
            },
            None => b64_decoded(s@) is None,
        },
{
    match decode_payload(s) {
        Ok(d) => Some(encode_payload(&d)),
        Err(_) => None,
    }
}

/// Round trip: for every byte sequence, decoding its encoded payload returns
/// the sequence itself.
pub fn encode_then_decode(b: &Vec<u8>) -> (r: Vec<u8>)
    requires
        encodable(b@.len() as int),
    ensures
        r@ == b@,
{
    let s = encode_payload(b);
    match decode_payload(s.as_str()) {
        Ok(d) => d,
        Err(_) => {
            proof {
                assert(false);
            }
            vstd::pervasive::unreached()
        },
    }
}

} // verus!
