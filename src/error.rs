//! The ways in which diacritization can fail.

use vstd::prelude::*;

verus! {

/// Why a call failed. The engine stays usable after a tokenization or an
/// inference failure.
#[derive(Clone, Copy, Debug, PartialEq, Eq, Structural)]
pub enum PhonikudError {
    /// The model or the tokenizer could not be loaded.
    Construction,
    /// The tokenizer could not encode the text.
    Tokenization,
    /// The inference backend failed, or its scores could not be decoded
    /// (wrong shape, a NaN in a row that is ranked, a class past the table).
    Inference,
}

} // verus!
