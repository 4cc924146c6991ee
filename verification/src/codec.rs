//! The identifier codec: base64 text to lowercase hexadecimal text.

use vstd::prelude::*;
use vstd::string::*;
use crate::number::{decimal_text, i64_to_text};

verus! {

/// The sixteen lowercase hexadecimal digits, by value.
pub open spec fn hex_digits() -> Seq<char> {
    seq!['0', '1', '2', '3', '4', '5', '6', '7', '8', '9', 'a', 'b', 'c', 'd', 'e', 'f']
}

/// The lowercase hexadecimal text of `bytes`: two digits per byte, the high
/// half first.
pub open spec fn hex_encoding(bytes: Seq<u8>) -> Seq<char> {
    Seq::new(
        2 * bytes.len(),
        |i: int|
            if i % 2 == 0 {
                hex_digits()[bytes[i / 2] as int / 16]
            } else {
                hex_digits()[bytes[i / 2] as int % 16]
            },
    )
}

/// The bytes that base64 text in the standard alphabet decodes to; `None`
/// for text that is not valid base64.
pub uninterp spec fn base64_decoding(text: Seq<char>) -> Option<Seq<u8>>;

/// The standard, padded base64 text of `bytes`.
pub uninterp spec fn base64_encoding(bytes: Seq<u8>) -> Seq<char>;

/// Declares `base64::DecodeError`, the error of the decoder, as an opaque
/// type: nothing is read from it.
#[verifier::external_type_specification]
#[verifier::external_body]
pub struct ExDecodeError(base64::DecodeError);

/// Why the codec refused a text.
#[derive(Clone, Copy, Debug, PartialEq, Eq, Structural)]
pub enum CodecError {
    /// The text is not valid standard base64.
    InvalidBase64,
}

/// The message that the response carries for a refusal of the codec.
pub open spec fn codec_message(error: CodecError) -> Seq<char> {
    match error {
        CodecError::InvalidBase64 => "identifier is not valid base64"@,
    }
}

impl CodecError {
    /// The message that the response carries for this refusal.
    pub fn message(&self) -> (text: String)
        ensures
            text@ == codec_message(*self),
    {
        match self {
            CodecError::InvalidBase64 => String::from_str("identifier is not valid base64"),
        }
    }
}

/// Trusted: calls `base64::decode`, the decoder for the standard alphabet.
/// The result is a function of the text alone, so it is named
/// rather than spelled out: `Ok` carries `base64_decoding` of the text, and
/// an error comes exactly where that is `None`.
#[verifier::external_body]
fn base64_decode(text: &str) -> (decoded: Result<Vec<u8>, base64::DecodeError>)
    ensures
        match decoded {
            Ok(bytes) => base64_decoding(text@) == Some(bytes@),
            Err(_) => base64_decoding(text@) is None,
        },
{
    base64::decode(text)
}

/// Trusted: calls `base64::encode`, the encoder for the standard alphabet
/// with padding. The result is named `base64_encoding` of the bytes; the one
/// fact claimed beside the name is that the standard decoder reads the bytes
/// back from it.
#[verifier::external_body]
fn base64_encode(bytes: &Vec<u8>) -> (text: String)
    ensures
        text@ == base64_encoding(bytes@),
        base64_decoding(text@) == Some(bytes@),
{
    base64::encode(bytes)
}

/// Trusted: calls `hex::encode`, documented to write each byte as two
/// lowercase hexadecimal digits, so that the text is twice as long as the
/// data.
#[verifier::external_body]
fn hex_encode(bytes: &Vec<u8>) -> (text: String)
    ensures
        text@ == hex_encoding(bytes@),
{
    hex::encode(bytes)
}

/// What the codec makes of a text: the hexadecimal text of the bytes that it
/// decodes to, or the refusal of text that is not base64.
pub open spec fn hex_of_base64(text: Seq<char>) -> Result<Seq<char>, CodecError> {
    match base64_decoding(text) {
        Some(bytes) => Ok(hex_encoding(bytes)),
        None => Err(CodecError::InvalidBase64),
    }
}

/// Decodes base64 text and writes the bytes as lowercase hexadecimal.
pub fn base64_to_hex(text: &str) -> (hex: Result<String, CodecError>)
    ensures
        hex is Ok <==> base64_decoding(text@) is Some,
        match hex {
            Ok(h) => Ok::<Seq<char>, CodecError>(h@) == hex_of_base64(text@),
            Err(e) => Err::<Seq<char>, CodecError>(e) == hex_of_base64(text@),
        },
{
    match base64_decode(text) {
        Ok(bytes) => Ok(hex_encode(&bytes)),
        Err(_) => Err(CodecError::InvalidBase64),
    }
}

/// Writes bytes as base64 and hands the text to the codec: the result is
/// always the hexadecimal text of the bytes themselves.
pub fn bytes_to_hex_via_base64(bytes: &Vec<u8>) -> (hex: Result<String, CodecError>)
    ensures
        hex matches Ok(h) && h@ == hex_encoding(bytes@),
{
    let text = base64_encode(bytes);
    base64_to_hex(text.as_str())
}

/// Brings base64 text into canonical form by decoding and encoding it again;
/// text that is not base64 is refused.
pub fn canonical_base64(text: &str) -> (canonical: Result<String, CodecError>)
    ensures
        match canonical {
            Ok(c) => base64_decoding(text@) matches Some(bytes) && c@ == base64_encoding(bytes)
                && base64_decoding(c@) == Some(bytes),
            Err(e) => base64_decoding(text@) is None && e == CodecError::InvalidBase64,
        },
{
    match base64_decode(text) {
        Ok(bytes) => Ok(base64_encode(&bytes)),
        Err(_) => Err(CodecError::InvalidBase64),
    }
}

/// The account text handed to callers: the workchain in decimal, a colon,
/// and the hexadecimal account identifier.
pub open spec fn qualified_account(workchain: i64, hex: Seq<char>) -> Seq<char> {
    decimal_text(workchain as int) + seq![':'] + hex
}

/// Builds `"<workchain>:<hex>"` from a workchain and a base64 account
/// identifier.
pub fn qualify_account(workchain: i64, account: &str) -> (text: Result<String, CodecError>)
    ensures
        match text {
            Ok(t) => base64_decoding(account@) matches Some(bytes) && t@ == qualified_account(
                workchain,
                hex_encoding(bytes),
            ),
            Err(e) => base64_decoding(account@) is None && e == CodecError::InvalidBase64,
        },
{
    match base64_to_hex(account) {
        Ok(hex) => {
            let mut out = i64_to_text(workchain);
            out.append(":");
            out.append(hex.as_str());
            proof {
                reveal_strlit(":");
                assert(":"@ =~= seq![':']);
            }
            Ok(out)
        },
        Err(e) => Err(e),
    }
}

} // verus!
