//! What the listener asks the certificate verifier, and how it reads the
//! answer.
//!
//! The peer's leaf certificate travels as PEM text, percent-encoded, in one
//! request header. A reply with a 2xx status carries the UID under which the
//! connector is registered; any other reply rejects the connector.

use crate::pem::{base64_text, der_to_pem_text, encodable, pem_text};
use crate::text::ascii_chars;
use vstd::prelude::*;
use vstd::utf8::encode_utf8;

verus! {

/// Name of the request header that carries the certificate.
pub const CLIENT_CERT_HEADER: &'static str = "X-Mtls-Clientcert";

// ---------------------------------------------------------------------------
// Percent-encoding
// ---------------------------------------------------------------------------
/// ASCII letters and digits: the bytes that percent-encoding leaves as they
/// are.
pub open spec fn is_alphanumeric(b: u8) -> bool {
    (0x30 <= b <= 0x39) || (0x41 <= b <= 0x5a) || (0x61 <= b <= 0x7a)
}

/// The upper-case hexadecimal digit for a value below 16.
pub open spec fn hex_digit(n: int) -> u8 {
    if n < 10 {
        (0x30 + n) as u8
    } else {
        (0x37 + n) as u8
    }
}

/// One byte, percent-encoded: itself if alphanumeric, else `%` and its two
/// hexadecimal digits.
pub open spec fn percent_encoded_byte(b: u8) -> Seq<u8> {
    if is_alphanumeric(b) {
        seq![b]
    } else {
        seq![0x25u8, hex_digit(b as int / 16), hex_digit(b as int % 16)]
    }
}

/// A byte sequence with every byte that is no ASCII letter or digit
/// percent-encoded.
pub open spec fn percent_encoded(bytes: Seq<u8>) -> Seq<u8>
    decreases bytes.len(),
{
    if bytes.len() == 0 {
        Seq::empty()
    } else {
        percent_encoded_byte(bytes[0]) + percent_encoded(bytes.drop_first())
    }
}

/// Calls `percent_encoding::utf8_percent_encode` with the set
/// `NON_ALPHANUMERIC` and collects the result. Every byte of the UTF-8
/// encoding of `input` that is no ASCII letter or digit comes out as `%` and
/// two upper-case hexadecimal digits, the others unchanged, in order.
#[verifier::external_body]
fn percent_encode_text(input: &str) -> (text: String)
    ensures
        text@ == ascii_chars(percent_encoded(encode_utf8(input@))),
{
    percent_encoding::utf8_percent_encode(input, percent_encoding::NON_ALPHANUMERIC).to_string()
}

/// The header value for PEM text: its UTF-8 bytes, percent-encoded.
pub open spec fn header_text(pem: Seq<char>) -> Seq<char> {
    ascii_chars(percent_encoded(encode_utf8(pem)))
}

/// The header value for a certificate given in DER: its PEM text,
/// percent-encoded.
pub open spec fn header_value(der: Seq<u8>) -> Seq<char> {
    header_text(pem_text(base64_text(der)))
}

/// Builds the value of the certificate header from the PEM text of the
/// certificate.
pub fn header_from_pem(pem: &str) -> (value: String)
    ensures
        value@ == header_text(pem@),
{
    percent_encode_text(pem)
}

/// Builds the value of the certificate header from the peer's leaf
/// certificate in DER.
pub fn client_cert_header(der: &[u8]) -> (value: String)
    requires
        encodable(der@.len()),
    ensures
        value@ == header_value(der@),
{
    let pem = der_to_pem_text(der);
    header_from_pem(pem.as_str())
}

// ---------------------------------------------------------------------------
// The verifier's reply
// ---------------------------------------------------------------------------
/// What the verifier answered: the HTTP status, and the UID in the body where
/// the body is an object with a string under `uid`.
#[derive(Debug, Clone, PartialEq, Eq)]
pub struct VerifierReply {
    pub status: u16,
    pub uid: Option<String>,
}

/// Whether an HTTP status is in the 2xx class.
pub open spec fn is_success(status: u16) -> bool {
    200 <= status < 300
}

/// Whether an HTTP status is in the 2xx class.
pub fn status_is_success(status: u16) -> (ok: bool)
    ensures
        ok == is_success(status),
{
    200 <= status && status < 300
}

} // verus!
