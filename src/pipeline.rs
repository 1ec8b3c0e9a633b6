//! The two halves of a diacritization call around the model run: cleanup
//! and tokenization before it, decoding and reconstruction after it.

use vstd::prelude::*;

use tokenizers::Tokenizer;

use crate::decode::{decodable, decode_predictions, decoded_at, ScoreTable, TokenPrediction};
use crate::error::PhonikudError;
use crate::reconstruct::{reconstruct, reconstructed, spans_in_text};
use crate::request::{encode_request, ModelRequest};
use crate::text::{cleaned, remove_nikud};

verus! {

/// The request's rows and offsets have one entry per token, and every
/// token's range lies within the cleaned text.
pub open spec fn request_fits(req: ModelRequest) -> bool {
    &&& req.attention_mask@.len() == req.input_ids@.len()
    &&& req.token_type_ids@.len() == req.input_ids@.len()
    &&& req.offsets@.len() == req.input_ids@.len()
    &&& spans_in_text(req.offsets@, req.clean_text@.len())
}

/// The predictions decoded for the first `n` tokens.
pub open spec fn decoded_all(nikud: ScoreTable, shin: ScoreTable, aux: ScoreTable, n: nat) -> Seq<TokenPrediction> {
    Seq::new(n, |i: int| decoded_at(nikud, shin, aux, i))
}

/// Whether every range lies within a text of `len` characters.
pub fn spans_fit(spans: &Vec<(usize, usize)>, len: usize) -> (r: bool)
    ensures
        r == spans_in_text(spans@, len as nat),
{
    let mut i: usize = 0;
    while i < spans.len()
        invariant
            i <= spans@.len(),
            forall|j: int| 0 <= j < i ==> #[trigger] spans@[j].0 <= len && spans@[j].1 <= len,
        decreases spans@.len() - i,
    {
        let (s, e) = spans[i];
        if s > len || e > len {
            assert(!(spans@[i as int].0 <= len && spans@[i as int].1 <= len));
            return false;
        }
        i = i + 1;
    }
    true
}

/// Cleans `text` and encodes it for the model. Fails with `Tokenization`
/// when the tokenizer cannot encode the cleaned text.
pub fn prepare(tokenizer: &Tokenizer, text: &str) -> (r: Result<ModelRequest, PhonikudError>)
    ensures
        r matches Ok(req) ==> req.clean_text@ == cleaned(text@),
        r matches Err(e) ==> e == PhonikudError::Tokenization,
{
    let clean = remove_nikud(text);
    encode_request(tokenizer, clean)
}

/// Decodes the model's scores for a request and writes the annotated text;
/// `matres` is the mark for matres-lectionis letters, if any.
///
/// Fails with `Tokenization` when the request's rows and offsets disagree
/// in length or a range lies outside the text, and otherwise with
/// `Inference` exactly when the scores do not decode.
pub fn complete(
    req: &ModelRequest,
    nikud: &ScoreTable,
    shin: &ScoreTable,
    aux: &ScoreTable,
    matres: Option<&str>,
) -> (r: Result<String, PhonikudError>)
    ensures
        !request_fits(*req) ==> r == Err::<String, PhonikudError>(PhonikudError::Tokenization),
        request_fits(*req) ==> (r is Ok <==> decodable(*nikud, *shin, *aux, req.input_ids@.len())),
        request_fits(*req) && r is Err ==> r == Err::<String, PhonikudError>(PhonikudError::Inference),
        r matches Ok(s) ==> s@ == reconstructed(
            req.clean_text@,
            req.offsets@,
            decoded_all(*nikud, *shin, *aux, req.input_ids@.len()),
            matres,
        ),
{
    let n = req.input_ids.len();
    let len = req.clean_text.as_str().unicode_len();
    if req.attention_mask.len() != n || req.token_type_ids.len() != n || req.offsets.len() != n
        || !spans_fit(&req.offsets, len) {
        return Err(PhonikudError::Tokenization);
    }
    match decode_predictions(nikud, shin, aux, n) {
        Ok(preds) => {
            assert(preds@ =~= decoded_all(*nikud, *shin, *aux, n as nat));
            Ok(reconstruct(req.clean_text.as_str(), &req.offsets, &preds, matres))
        },
        Err(e) => Err(e),
    }
}

} // verus!
