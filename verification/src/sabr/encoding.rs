//! Base64, as the `base64` crate reads it.
use base64::alphabet::URL_SAFE;
use base64::engine::general_purpose::STANDARD;
use base64::engine::{DecodePaddingMode, GeneralPurpose, GeneralPurposeConfig};
use base64::Engine;
use vstd::prelude::*;

verus! {

/// What `base64` reports of a text that is no Base64.
#[verifier::external_type_specification]
#[verifier::external_body]
pub struct ExDecodeError(base64::DecodeError);

/// The bytes that a text stands for in the URL-safe alphabet, padded or not, or `None` where it
/// stands for none.
pub uninterp spec fn url_safe_bytes(s: Seq<char>) -> Option<Seq<u8>>;

/// The bytes that a text stands for in the standard alphabet with padding, or `None` where it
/// stands for none.
pub uninterp spec fn standard_bytes(s: Seq<char>) -> Option<Seq<u8>>;

/// Calls `base64::Engine::decode` with an engine for the URL-safe alphabet that is indifferent to
/// padding. Whether it succeeds, and with which bytes, depends on the text alone.
#[verifier::external_body]
pub(crate) fn decode_url_safe(s: &str) -> (res: Result<Vec<u8>, base64::DecodeError>)
    ensures
        match res {
            Ok(v) => url_safe_bytes(s@) == Some(v@),
            Err(_) => url_safe_bytes(s@) is None,
        },
{
    let config = GeneralPurposeConfig::new().with_decode_padding_mode(
        DecodePaddingMode::Indifferent,
    );
    GeneralPurpose::new(&URL_SAFE, config).decode(s)
}

/// Calls `base64::Engine::decode` with the engine for the standard alphabet, which wants the
/// canonical padding. Whether it succeeds, and with which bytes, depends on the text alone.
#[verifier::external_body]
pub(crate) fn decode_standard(s: &str) -> (res: Result<Vec<u8>, base64::DecodeError>)
    ensures
        match res {
            Ok(v) => standard_bytes(s@) == Some(v@),
            Err(_) => standard_bytes(s@) is None,
        },
{
    STANDARD.decode(s)
}

} // verus!
