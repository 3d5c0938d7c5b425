//! Certificates and keys between DER bytes and PEM text.
//!
//! PEM text is a line of dashes, the Base64 of the DER bytes and another line
//! of dashes. Reading it back joins every line that does not start with five
//! dashes and decodes the result. The Base64 alphabet work itself is done by
//! the `base64` crate.

use crate::text::{first_index, lemma_first_index, lemma_first_index_unique};
use vstd::prelude::*;
use vstd::string::{StrSliceExecFns, StringExecFns};
use vstd::utf8::encode_utf8;

verus! {

/// First line of the PEM text of a certificate, with its line feed.
pub const PEM_BEGIN: &'static str = "-----BEGIN CERTIFICATE-----\n";

/// Line feed and last line of the PEM text of a certificate, with its line
/// feed.
pub const PEM_END: &'static str = "\n-----END CERTIFICATE-----\n";

/// Line feed.
pub const LF: u8 = 0x0a;

/// Carriage return.
pub const CR: u8 = 0x0d;

/// Why PEM text could not be read.
#[derive(Debug, Clone, Copy, PartialEq, Eq, Structural)]
pub enum PemError {
    /// What is left of the text without its boundary lines is not canonical
    /// padded Base64.
    InvalidBase64,
}

/// `base64::DecodeError`, carried through as it comes.
#[verifier::external_type_specification]
#[verifier::external_body]
pub struct ExDecodeError(base64::DecodeError);

// ---------------------------------------------------------------------------
// What the base64 crate computes
// ---------------------------------------------------------------------------
/// The padded Base64 text, standard alphabet, that the `base64` crate writes
/// for `data`.
pub uninterp spec fn base64_text(data: Seq<u8>) -> Seq<char>;

/// The bytes that the `base64` crate reads out of `text` as padded Base64,
/// standard alphabet, or `None` where it refuses `text`.
pub uninterp spec fn base64_data(text: Seq<u8>) -> Option<Seq<u8>>;

/// Whether `len` input bytes can be encoded: four output bytes for every
/// three input bytes, started or complete, must fit into an allocation.
pub open spec fn encodable(len: nat) -> bool {
    4 * ((len + 2) / 3) <= isize::MAX
}

/// Whether `len` input bytes can be encoded.
pub fn is_encodable(len: usize) -> (ok: bool)
    ensures
        ok == encodable(len as nat),
{
    let chunks: usize = if len % 3 == 0 {
        len / 3
    } else {
        len / 3 + 1
    };
    assert(chunks == (len + 2) / 3);
    chunks <= usize::MAX / 8
}

/// Calls `encode` of `base64::engine::general_purpose::STANDARD`. The text
/// depends on the input bytes alone. The call panics where the length of the
/// text overflows, which `encodable` rules out.
#[verifier::external_body]
fn base64_encode(data: &[u8]) -> (text: String)
    requires
        encodable(data@.len()),
    ensures
        text@ == base64_text(data@),
{
    base64::Engine::encode(&base64::engine::general_purpose::STANDARD, data)
}

/// Calls `decode` of `base64::engine::general_purpose::STANDARD`. Whether it
/// accepts the text, and the bytes it then returns, depend on the text alone.
#[verifier::external_body]
fn base64_decode(text: &[u8]) -> (res: Result<Vec<u8>, base64::DecodeError>)
    ensures
        match res {
            Ok(data) => base64_data(text@) == Some(data@),
            Err(_) => base64_data(text@) is None,
        },
{
    base64::Engine::decode(&base64::engine::general_purpose::STANDARD, text)
}

// ---------------------------------------------------------------------------
// Model
// ---------------------------------------------------------------------------
/// The PEM text around Base64 text `body`.
pub open spec fn pem_text(body: Seq<char>) -> Seq<char> {
    PEM_BEGIN@ + body + PEM_END@
}

/// Whether a line starts with five dashes, as the boundary lines do.
pub open spec fn is_boundary(line: Seq<u8>) -> bool {
    line.len() >= 5 && forall|i: int| 0 <= i < 5 ==> line[i] == 0x2d
}

/// Length of the first line of `text`, without its line feed.
pub open spec fn first_line_len(text: Seq<u8>) -> int {
    match first_index(text, LF) {
        Some(i) => i,
        None => text.len() as int,
    }
}

/// The first line of `text`: what stands before the first line feed, without
/// a carriage return that directly precedes that line feed. A last line
/// without line feed is taken as it stands.
pub open spec fn first_line(text: Seq<u8>) -> Seq<u8> {
    let n = first_line_len(text);
    if n < text.len() && n > 0 && text[n - 1] == CR {
        text.take(n - 1)
    } else {
        text.take(n)
    }
}

/// What follows the first line of `text` and its line feed.
pub open spec fn after_first_line(text: Seq<u8>) -> Seq<u8> {
    let n = first_line_len(text);
    if n < text.len() {
        text.skip(n + 1)
    } else {
        Seq::empty()
    }
}

/// The lines of `text` that are no boundary lines, joined without their line
/// endings.
pub open spec fn body_of(text: Seq<u8>) -> Seq<u8>
    decreases text.len(),
{
    if text.len() == 0 {
        Seq::empty()
    } else {
        proof {
            lemma_first_index(text, LF);
        }
        let line = first_line(text);
        let kept = if is_boundary(line) {
            Seq::empty()
        } else {
            line
        };
        kept + body_of(after_first_line(text))
    }
}

// ---------------------------------------------------------------------------
// DER to PEM
// ---------------------------------------------------------------------------
/// Puts Base64 text between the two boundary lines of a certificate.
pub fn pem_wrap(body: &str) -> (pem: String)
    ensures
        pem@ == pem_text(body@),
{
    let mut pem = String::from_str(PEM_BEGIN);
    pem.append(body);
    pem.append(PEM_END);
    pem
}

/// Converts DER bytes to the PEM text of a certificate.
pub fn der_to_pem_text(der_data: &[u8]) -> (pem: String)
    requires
        encodable(der_data@.len()),
    ensures
        pem@ == pem_text(base64_text(der_data@)),
{
    let body = base64_encode(der_data);
    pem_wrap(body.as_str())
}

/// Converts DER bytes to the PEM text of a certificate, as UTF-8 bytes.
pub fn der_to_pem(der_data: &[u8]) -> (res: Result<Vec<u8>, PemError>)
    requires
        encodable(der_data@.len()),
    ensures
        res matches Ok(pem) && pem@ == encode_utf8(pem_text(base64_text(der_data@))),
{
    let pem = der_to_pem_text(der_data);
    Ok(pem.as_str().as_bytes_vec())
}

// ---------------------------------------------------------------------------
// PEM to DER
// ---------------------------------------------------------------------------
/// Joins the lines of PEM text that are no boundary lines.
pub fn pem_body(pem_data: &[u8]) -> (body: Vec<u8>)
    ensures
        body@ == body_of(pem_data@),
{
    let mut body: Vec<u8> = Vec::new();
    let mut start: usize = 0;
    assert(pem_data@.skip(0) =~= pem_data@);
    assert(body@ + body_of(pem_data@) =~= body_of(pem_data@));
    while start < pem_data.len()
        invariant
            start <= pem_data.len(),
            body@ + body_of(pem_data@.skip(start as int)) == body_of(pem_data@),
        decreases pem_data.len() - start,
    {
        let ghost rest = pem_data@.skip(start as int);
        let mut end: usize = start;
        while end < pem_data.len() && pem_data[end] != LF
            invariant
                start <= end <= pem_data.len(),
                forall|j: int| start <= j < end ==> pem_data@[j] != LF,
            decreases pem_data.len() - end,
        {
            end += 1;
        }
        let terminated = end < pem_data.len();
        proof {
            lemma_first_index(rest, LF);
            if terminated {
                lemma_first_index_unique(rest, LF, end - start);
            }
            assert(first_line_len(rest) == end - start);
        }
        let mut line_end: usize = end;
        if terminated && end > start && pem_data[end - 1] == CR {
            line_end = end - 1;
        }
        let ghost line = first_line(rest);
        assert(line =~= pem_data@.subrange(start as int, line_end as int));
        let boundary = line_end - start >= 5 && pem_data[start] == 0x2d && pem_data[start + 1]
            == 0x2d && pem_data[start + 2] == 0x2d && pem_data[start + 3] == 0x2d && pem_data[start
            + 4] == 0x2d;
        proof {
            if boundary {
                assert forall|i: int| 0 <= i < 5 implies line[i] == 0x2d by {
                    assert(line[i] == pem_data@[start + i]);
                }
            }
            if is_boundary(line) {
                assert(line[0] == 0x2d && line[1] == 0x2d && line[2] == 0x2d && line[3] == 0x2d
                    && line[4] == 0x2d);
            }
            assert(boundary == is_boundary(line));
        }
        let ghost before = body@;
        if !boundary {
            let mut k: usize = start;
            while k < line_end
                invariant
                    start <= k <= line_end <= pem_data.len(),
                    body@ == before + pem_data@.subrange(start as int, k as int),
                decreases line_end - k,
            {
                body.push(pem_data[k]);
                k += 1;
                assert(body@ =~= before + pem_data@.subrange(start as int, k as int));
            }
        }
        let next: usize = if terminated {
            end + 1
        } else {
            end
        };
        proof {
            assert(pem_data@.skip(next as int) =~= after_first_line(rest));
            let kept = if is_boundary(first_line(rest)) {
                Seq::<u8>::empty()
            } else {
                first_line(rest)
            };
            assert(body@ =~= before + kept);
            assert(body_of(rest) == kept + body_of(after_first_line(rest)));
            assert(body@ + body_of(pem_data@.skip(next as int)) =~= before + body_of(rest));
        }
        start = next;
    }
    assert(pem_data@.skip(start as int).len() == 0);
    assert(body@ + Seq::<u8>::empty() =~= body@);
    body
}

/// Converts the PEM text of a certificate to DER bytes.
pub fn pem_to_der(pem_data: &[u8]) -> (res: Result<Vec<u8>, PemError>)
    ensures
        match res {
            Ok(der) => base64_data(body_of(pem_data@)) == Some(der@),
            Err(e) => e == PemError::InvalidBase64 && base64_data(body_of(pem_data@)) is None,
        },
{
    let body = pem_body(pem_data);
    match base64_decode(body.as_slice()) {
        Ok(der) => Ok(der),
        Err(_) => Err(PemError::InvalidBase64),
    }
}

/// Converts the PEM text of a private key to DER bytes.
pub fn key_to_der(key_data: &[u8]) -> (res: Result<Vec<u8>, PemError>)
    ensures
        match res {
            Ok(der) => base64_data(body_of(key_data@)) == Some(der@),
            Err(e) => e == PemError::InvalidBase64 && base64_data(body_of(key_data@)) is None,
        },
{
    pem_to_der(key_data)
}

} // verus!
