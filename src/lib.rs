//! Adds Hebrew diacritics (nikud, shin/sin dots, stress, vocal shva and
//! prefix marks) to plain Hebrew text from the per-token predictions of a
//! sequence-labelling model.
//!
//! The verified core covers cleanup of the input, assembly of the model
//! request, decoding of the model's scores and the reconstruction of the
//! annotated string from the tokenizer's offsets. Running the model itself
//! is left to the caller, between `prepare` and `complete`.

use vstd::prelude::*;

pub mod decode;
pub mod error;
pub mod marks;
pub mod pipeline;
pub mod reconstruct;
pub mod request;
pub mod text;

pub use decode::{decode_predictions, ScoreTable, TokenPrediction};
pub use error::PhonikudError;
pub use marks::{NikudClass, ShinClass};
pub use pipeline::{complete, prepare};
pub use reconstruct::reconstruct;
pub use request::{build_request, ModelRequest};
pub use text::{is_hebrew_letter, is_matres_letter, remove_nikud};

verus! {

} // verus!
