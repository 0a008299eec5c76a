//! Standard base64 (RFC 4648 alphabet, with padding), provided by the
//! `base64` crate.

use vstd::prelude::*;
use base64::Engine;

verus! {

/// The standard base64 text of `data`.
pub uninterp spec fn spec_base64_encode(data: Seq<u8>) -> Seq<char>;

/// The bytes that the standard base64 text `text` decodes to, or `None`
/// when the text is not valid standard base64.
pub uninterp spec fn spec_base64_decode(text: Seq<u8>) -> Option<Seq<u8>>;

/// `base64::engine::general_purpose::STANDARD.encode`: the result is the
/// standard base64 text of `data`. The crate panics when the output length
/// overflows `usize`; inputs up to half the address space are far from that.
#[verifier::external_body]
pub(crate) fn base64_encode(data: &[u8]) -> (r: String)
    requires
        data@.len() <= usize::MAX / 2,
    ensures
        r@ == spec_base64_encode(data@),
{
    base64::engine::general_purpose::STANDARD.encode(data)
}

/// `base64::engine::general_purpose::STANDARD.decode`: the decoded bytes, or
/// `None` where the crate returns its `DecodeError`.
#[verifier::external_body]
pub(crate) fn base64_decode(text: &[u8]) -> (r: Option<Vec<u8>>)
    ensures
        r matches Some(v) ==> spec_base64_decode(text@) == Some(v@),
        r is None ==> spec_base64_decode(text@) is None,
{
    match base64::engine::general_purpose::STANDARD.decode(text) {
        Ok(v) => Some(v),
        Err(_) => None,
    }
}

/// What a standard-alphabet base64 decoder that takes padding as optional
/// gives for `text`: the decoded bytes, or `None` when the text is not
/// base64.
pub uninterp spec fn spec_base64_decode_lenient(text: Seq<u8>) -> Option<Seq<u8>>;

/// `base64::engine::GeneralPurpose` with the standard alphabet and
/// `DecodePaddingMode::Indifferent`, `decode`: the decoded bytes, or `None`
/// where the crate returns its `DecodeError`.
#[verifier::external_body]
pub(crate) fn base64_decode_lenient(text: &[u8]) -> (r: Option<Vec<u8>>)
    ensures
        r matches Some(v) ==> spec_base64_decode_lenient(text@) == Some(v@),
        r is None ==> spec_base64_decode_lenient(text@) is None,
{
    let config = base64::engine::GeneralPurposeConfig::new()
        .with_decode_padding_mode(base64::engine::DecodePaddingMode::Indifferent);
    let engine = base64::engine::GeneralPurpose::new(&base64::alphabet::STANDARD, config);
    match base64::Engine::decode(&engine, text) {
        Ok(v) => Some(v),
        Err(_) => None,
    }
}

} // verus!
