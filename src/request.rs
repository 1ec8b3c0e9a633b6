//! Encoding the cleaned text with the tokenizer and assembling the model's
//! inputs.

use vstd::prelude::*;

use tokenizers::{Encoding, Tokenizer};

verus! {

#[verifier::external_type_specification]
#[verifier::external_body]
pub struct ExTokenizer(Tokenizer);

#[verifier::external_type_specification]
#[verifier::external_body]
pub struct ExEncoding(Encoding);

/// Relies on `tokenizers::Tokenizer::encode_char_offsets` (with special
/// tokens added): it encodes the text, reporting each token's range in
/// characters of the text, or fails; nothing is assumed of what it returns.
#[verifier::external_body]
fn encode_text(tokenizer: &Tokenizer, text: &str) -> (r: Option<Encoding>) {
    tokenizer.encode_char_offsets(text, true).ok()
}

/// Relies on `tokenizers::Encoding::get_ids`: the token ids, copied out.
#[verifier::external_body]
fn encoding_ids(e: &Encoding) -> (r: Vec<u32>) {
    e.get_ids().to_vec()
}

/// Relies on `tokenizers::Encoding::get_attention_mask`: the attention mask,
/// copied out.
#[verifier::external_body]
fn encoding_attention_mask(e: &Encoding) -> (r: Vec<u32>) {
    e.get_attention_mask().to_vec()
}

/// Relies on `tokenizers::Encoding::get_type_ids`: the token type ids,
/// copied out.
#[verifier::external_body]
fn encoding_type_ids(e: &Encoding) -> (r: Vec<u32>) {
    e.get_type_ids().to_vec()
}

/// Relies on `tokenizers::Encoding::get_offsets`: each token's (start, end)
/// range, copied out.
#[verifier::external_body]
fn encoding_offsets(e: &Encoding) -> (r: Vec<(usize, usize)>) {
    e.get_offsets().to_vec()
}

/// What the model is run on, and what reconstruction needs afterwards: the
/// cleaned text, the three input rows of one batch entry, and for each
/// token the half-open range of characters of the cleaned text that it
/// covers.
#[derive(Debug)]
pub struct ModelRequest {
    pub clean_text: String,
    pub input_ids: Vec<i64>,
    pub attention_mask: Vec<i64>,
    pub token_type_ids: Vec<i64>,
    pub offsets: Vec<(usize, usize)>,
}

/// The same values as signed 64-bit integers, as the model takes them.
pub open spec fn widened(v: Seq<u32>) -> Seq<i64> {
    Seq::new(v.len(), |i: int| v[i] as i64)
}

/// Copies each value into a signed 64-bit integer.
pub fn widen(v: &Vec<u32>) -> (r: Vec<i64>)
    ensures
        r@ == widened(v@),
{
    let mut out: Vec<i64> = Vec::new();
    let mut i: usize = 0;
    while i < v.len()
        invariant
            i <= v@.len(),
            out@ == widened(v@.subrange(0, i as int)),
        decreases v@.len() - i,
    {
        out.push(v[i] as i64);
        i = i + 1;
        assert(out@ =~= widened(v@.subrange(0, i as int)));
    }
    assert(v@.subrange(0, i as int) =~= v@);
    out
}

/// Assembles a request from the tokenizer's output for `clean_text`.
pub fn build_request(
    clean_text: String,
    ids: &Vec<u32>,
    attention_mask: &Vec<u32>,
    type_ids: &Vec<u32>,
    offsets: Vec<(usize, usize)>,
) -> (r: ModelRequest)
    ensures
        r.clean_text@ == clean_text@,
        r.input_ids@ == widened(ids@),
        r.attention_mask@ == widened(attention_mask@),
        r.token_type_ids@ == widened(type_ids@),
        r.offsets@ == offsets@,
{
    ModelRequest {
        clean_text,
        input_ids: widen(ids),
        attention_mask: widen(attention_mask),
        token_type_ids: widen(type_ids),
        offsets,
    }
}

/// Encodes an already cleaned text into a request, or fails with
/// `Tokenization` when the tokenizer cannot encode it.
pub fn encode_request(tokenizer: &Tokenizer, clean_text: String) -> (r: Result<ModelRequest, crate::error::PhonikudError>)
    ensures
        r matches Ok(req) ==> req.clean_text@ == clean_text@,
        r matches Err(e) ==> e == crate::error::PhonikudError::Tokenization,
{
    match encode_text(tokenizer, clean_text.as_str()) {
        Some(enc) => {
            let ids = encoding_ids(&enc);
            let mask = encoding_attention_mask(&enc);
            let types = encoding_type_ids(&enc);
            let offsets = encoding_offsets(&enc);
            Ok(build_request(clean_text, &ids, &mask, &types, offsets))
        },
        None => Err(crate::error::PhonikudError::Tokenization),
    }
}

} // verus!
