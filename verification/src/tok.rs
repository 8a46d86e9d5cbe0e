//! Trusted boundary to the tokenizer.
//!
//! Mapping text to token ids and back is delegated to the `tokenizers`
//! crate; the verified engine only sequences these calls and owns the
//! token history they feed.

use vstd::prelude::*;

verus! {

/// Declares the tokenizer handle; opaque to the verified code.
#[verifier::external_type_specification]
#[verifier::external_body]
pub struct ExTokenizer(tokenizers::Tokenizer);

/// Whether a definition text describes a well-formed tokenizer; what
/// `Tokenizer::from_bytes` accepts, as a function of the text alone.
pub uninterp spec fn tokenizer_wellformed(s: Seq<char>) -> bool;

/// Relies on `Tokenizer::from_bytes`: `Ok` exactly when the bytes of the
/// definition text describe a well-formed tokenizer; the outcome is a
/// function of the text alone.
#[verifier::external_body]
pub(crate) fn load_tokenizer(definition: &str) -> (r: Result<tokenizers::Tokenizer, String>)
    ensures
        r is Ok <==> tokenizer_wellformed(definition@),
{
    tokenizers::Tokenizer::from_bytes(definition.as_bytes()).map_err(|e| e.to_string())
}

/// Relies on `Tokenizer::encode` with special tokens switched on, and
/// `Encoding::get_ids`: the prompt as a token-id sequence.
#[verifier::external_body]
pub(crate) fn encode_text(tokenizer: &tokenizers::Tokenizer, text: &str) -> (r: Result<
    Vec<u32>,
    String,
>) {
    let encoding = tokenizer.encode(text, true).map_err(|e| e.to_string())?;
    Ok(encoding.get_ids().to_vec())
}

/// Relies on `Tokenizer::decode` with special tokens kept: the text of a
/// single token id.
#[verifier::external_body]
pub(crate) fn decode_token(tokenizer: &tokenizers::Tokenizer, id: u32) -> (r: Result<
    String,
    String,
>) {
    tokenizer.decode(&[id], false).map_err(|e| e.to_string())
}

/// Relies on `Tokenizer::token_to_id`: `Some` exactly when the tokenizer
/// knows the marker text as a token.
#[verifier::external_body]
pub(crate) fn find_token(tokenizer: &tokenizers::Tokenizer, token: &str) -> (r: Option<u32>) {
    tokenizer.token_to_id(token)
}

} // verus!
