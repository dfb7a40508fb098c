//! Token encoding strategies for IPC protocol versioning.
//!
//! Version 1 sends a token sequence as a JSON array of numbers, written
//! and read by `serde_json`.

use vstd::prelude::*;
use crate::ipc::protocol::ProtocolError;
use crate::text::decimal;

verus! {

/// The numbers of `tokens` in decimal, separated by commas.
pub open spec fn json_numbers(tokens: Seq<u32>) -> Seq<char>
    decreases tokens.len(),
{
    if tokens.len() == 0 {
        Seq::empty()
    } else if tokens.len() == 1 {
        decimal(tokens[0] as nat)
    } else {
        json_numbers(tokens.drop_last()) + ","@ + decimal(tokens.last() as nat)
    }
}

/// The compact JSON text of an array of unsigned numbers: `[1,2,3]`.
pub open spec fn json_array_text(tokens: Seq<u32>) -> Seq<char> {
    "["@ + json_numbers(tokens) + "]"@
}

/// The bytes of an ASCII text.
pub open spec fn ascii_bytes(s: Seq<char>) -> Seq<u8> {
    Seq::new(s.len(), |i: int| s[i] as u8)
}

/// What `serde_json::from_slice::<Vec<u32>>` yields on these bytes: the
/// numbers when the bytes are a JSON array of numbers that fit in `u32`,
/// nothing otherwise.
pub uninterp spec fn json_parse_u32_array(bytes: Seq<u8>) -> Option<Seq<u32>>;

/// `serde_json::to_vec` on a slice of `u32`: writes `[`, the numbers in
/// decimal separated by `,`, and `]`, with no white space. Writing into a
/// `Vec<u8>` and serialising integers cannot fail, so the call returns
/// `Ok`. `serde_json` reads back what it wrote, which the last clause
/// states of the named parse.
#[verifier::external_body]
fn json_to_vec_u32(tokens: &[u32]) -> (r: Result<Vec<u8>, ()>)
    ensures
        r is Ok,
        r matches Ok(b) ==> b@ == ascii_bytes(json_array_text(tokens@)),
        r matches Ok(b) ==> json_parse_u32_array(b@) == Some(tokens@),
{
    serde_json::to_vec(tokens).map_err(|_| ())
}

/// `serde_json::from_slice::<Vec<u32>>`, with the error turned into its
/// display text. The text of the error is not stated.
#[verifier::external_body]
fn json_from_slice_u32(bytes: &[u8]) -> (r: Result<Vec<u32>, String>)
    ensures
        r is Ok <==> json_parse_u32_array(bytes@) is Some,
        r matches Ok(v) ==> json_parse_u32_array(bytes@) == Some(v@),
{
    serde_json::from_slice::<Vec<u32>>(bytes).map_err(|e| e.to_string())
}

/// Trait for encoding/decoding token sequences.
pub trait TokenEncoder {
    /// Encode tokens to bytes.
    fn encode(&self, tokens: &[u32]) -> Vec<u8>;

    /// Decode bytes back to tokens.
    fn decode(&self, bytes: &[u8]) -> Result<Vec<u32>, ProtocolError>;
}

/// V1 Encoder: JSON serialization of token arrays.
/// This is the default encoding for backward compatibility.
#[derive(Debug, Clone, Copy, Default)]
pub struct V1Encoder;

impl TokenEncoder for V1Encoder {
    /// The JSON array of the tokens; decoding it gives the tokens back.
    fn encode(&self, tokens: &[u32]) -> (r: Vec<u8>)
        ensures
            r@ == ascii_bytes(json_array_text(tokens@)),
            json_parse_u32_array(r@) == Some(tokens@),
    {
        match json_to_vec_u32(tokens) {
            Ok(b) => b,
            Err(()) => Vec::new(),
        }
    }

    /// The tokens of a JSON array of numbers; anything else is an
    /// `InvalidFormat` error.
    fn decode(&self, bytes: &[u8]) -> (r: Result<Vec<u32>, ProtocolError>)
        ensures
            r is Ok <==> json_parse_u32_array(bytes@) is Some,
            r matches Ok(v) ==> json_parse_u32_array(bytes@) == Some(v@),
            r is Err ==> r->Err_0 is InvalidFormat,
    {
        match json_from_slice_u32(bytes) {
            Ok(v) => Ok(v),
            Err(text) => Err(ProtocolError::InvalidFormat(text)),
        }
    }
}

} // verus!
