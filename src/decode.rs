//! Decoding the model's scores into one prediction per token.
//!
//! The model writes its scores as IEEE 754 single-precision numbers. They
//! reach the library as bit patterns (`f32::to_bits`), which are compared
//! here by their numeric order without any floating-point arithmetic.

use vstd::prelude::*;

use crate::error::PhonikudError;
use crate::marks::{nikud_class_at, shin_class_at, NikudClass, ShinClass, NIKUD_CLASS_COUNT, SHIN_CLASS_COUNT};

verus! {

/// The sign bit of a single-precision number.
pub const SIGN_BIT: u32 = 0x8000_0000;

/// The bit pattern of positive infinity; a magnitude above it is a NaN.
pub const INFINITY_BITS: u32 = 0x7f80_0000;

/// The bits of a single-precision number without its sign.
pub open spec fn magnitude(b: u32) -> int {
    (b % SIGN_BIT) as int
}

/// The bit pattern is a NaN: all exponent bits set and a fraction that is
/// not zero.
pub open spec fn is_nan_bits(b: u32) -> bool {
    magnitude(b) > INFINITY_BITS
}

/// A number that orders non-NaN scores as their values do: the magnitude
/// bits of a finite or infinite single-precision number grow with its
/// absolute value, and both zeros map to 0.
pub open spec fn score_key(b: u32) -> int {
    if b >= SIGN_BIT {
        -magnitude(b)
    } else {
        magnitude(b)
    }
}

/// The score is greater than zero; a NaN is not.
pub open spec fn above_zero(b: u32) -> bool {
    !is_nan_bits(b) && score_key(b) > 0
}

/// The position that a left-to-right scan of a row keeps when it moves to
/// a later position only on a strictly greater score: the first of the
/// greatest scores.
pub open spec fn first_max(row: Seq<u32>) -> int
    decreases row.len(),
{
    if row.len() <= 1 {
        0
    } else {
        let k = first_max(row.drop_last());
        if score_key(row.last()) > score_key(row[k]) {
            row.len() - 1
        } else {
            k
        }
    }
}

/// The position that the scan keeps is the lowest position of a greatest
/// score: no score of the row is greater, and every earlier one is smaller.
pub proof fn lemma_first_max_is_lowest_greatest(row: Seq<u32>)
    requires
        row.len() > 0,
    ensures
        0 <= first_max(row) < row.len(),
        forall|j: int| 0 <= j < row.len() ==> score_key(#[trigger] row[j]) <= score_key(row[first_max(row)]),
        forall|j: int| 0 <= j < first_max(row) ==> score_key(#[trigger] row[j]) < score_key(row[first_max(row)]),
    decreases row.len(),
{
    if row.len() > 1 {
        let init = row.drop_last();
        lemma_first_max_is_lowest_greatest(init);
        let k = first_max(init);
        let m = first_max(row);
        assert(row[k] == init[k]);
        assert forall|j: int| 0 <= j < row.len() implies score_key(#[trigger] row[j]) <= score_key(row[m]) by {
            if j < row.len() - 1 {
                assert(row[j] == init[j]);
            }
        }
        assert forall|j: int| 0 <= j < m implies score_key(#[trigger] row[j]) < score_key(row[m]) by {
            assert(row[j] == init[j]);
        }
    }
}

/// Some score of the row is a NaN.
pub open spec fn has_nan(row: Seq<u32>) -> bool {
    exists|j: int| 0 <= j < row.len() && is_nan_bits(#[trigger] row[j])
}

/// A two-dimensional array of scores, one row per token and one column per
/// class, stored row after row; each score is the bit pattern of a
/// single-precision number.
#[derive(Debug)]
pub struct ScoreTable {
    pub rows: usize,
    pub width: usize,
    pub scores: Vec<u32>,
}

/// The table holds exactly `rows` rows of `width` scores.
pub open spec fn well_shaped(t: ScoreTable) -> bool {
    t.scores@.len() == t.rows * t.width
}

/// The scores of row `i`.
pub open spec fn row(t: ScoreTable, i: int) -> Seq<u32> {
    t.scores@.subrange(i * t.width, i * t.width + t.width)
}

/// The score of class `j` at token `i`.
pub open spec fn score(t: ScoreTable, i: int, j: int) -> u32 {
    t.scores@[i * t.width + j]
}

/// The decoded predictions for one token.
#[derive(Clone, Copy, Debug, PartialEq, Eq, Structural)]
pub struct TokenPrediction {
    pub nikud: NikudClass,
    pub shin: ShinClass,
    pub stress: bool,
    pub vocal_shva: bool,
    pub prefix: bool,
}

/// The three tables have the shape the model promises for `seq_len`
/// tokens: `seq_len` rows each, at least one nikud and one shin/sin class,
/// and the three auxiliary scores.
pub open spec fn shapes_fit(nikud: ScoreTable, shin: ScoreTable, aux: ScoreTable, seq_len: nat) -> bool {
    &&& well_shaped(nikud) && well_shaped(shin) && well_shaped(aux)
    &&& nikud.rows == seq_len && shin.rows == seq_len && aux.rows == seq_len
    &&& nikud.width > 0 && shin.width > 0 && aux.width >= 3
}

/// Token `i`'s ranked rows hold no NaN and their first maxima name a class
/// of the tables.
pub open spec fn token_decodable(nikud: ScoreTable, shin: ScoreTable, i: int) -> bool {
    &&& !has_nan(row(nikud, i)) && !has_nan(row(shin, i))
    &&& first_max(row(nikud, i)) < NIKUD_CLASS_COUNT
    &&& first_max(row(shin, i)) < SHIN_CLASS_COUNT
}

/// The scores decode: the shapes fit and every token is decodable.
pub open spec fn decodable(nikud: ScoreTable, shin: ScoreTable, aux: ScoreTable, seq_len: nat) -> bool {
    &&& shapes_fit(nikud, shin, aux, seq_len)
    &&& forall|i: int| 0 <= i < seq_len ==> token_decodable(nikud, shin, i)
}

/// The prediction for token `i`: the first maximum of each ranked row, and
/// each auxiliary score compared with zero.
pub open spec fn decoded_at(nikud: ScoreTable, shin: ScoreTable, aux: ScoreTable, i: int) -> TokenPrediction {
    TokenPrediction {
        nikud: nikud_class_at(first_max(row(nikud, i)))->Some_0,
        shin: shin_class_at(first_max(row(shin, i)))->Some_0,
        stress: above_zero(score(aux, i, 0)),
        vocal_shva: above_zero(score(aux, i, 1)),
        prefix: above_zero(score(aux, i, 2)),
    }
}

/// Whether the bit pattern is a NaN.
pub fn score_is_nan(b: u32) -> (r: bool)
    ensures
        r == is_nan_bits(b),
{
    b % SIGN_BIT > INFINITY_BITS
}

/// The order key of a score.
pub fn key_of(b: u32) -> (r: i64)
    ensures
        r == score_key(b),
{
    let m = (b % SIGN_BIT) as i64;
    if b >= SIGN_BIT {
        -m
    } else {
        m
    }
}

/// Whether the score is greater than zero (never for a NaN).
pub fn is_above_zero(b: u32) -> (r: bool)
    ensures
        r == above_zero(b),
{
    !score_is_nan(b) && key_of(b) > 0
}

proof fn lemma_cell_in_table(rows: int, width: int, i: int, j: int)
    requires
        0 <= i < rows,
        0 <= j < width,
    ensures
        0 <= i * width + j < rows * width,
        i * width + width <= rows * width,
{
    assert(0 <= i * width + j < rows * width) by (nonlinear_arith)
        requires
            0 <= i < rows,
            0 <= j < width,
    ;
    assert(i * width + width <= rows * width) by (nonlinear_arith)
        requires
            0 <= i < rows,
            0 <= j < width,
    ;
}

/// The score of class `j` at token `i`.
fn score_of(t: &ScoreTable, i: usize, j: usize) -> (r: u32)
    requires
        well_shaped(*t),
        i < t.rows,
        j < t.width,
    ensures
        r == score(*t, i as int, j as int),
        r == row(*t, i as int)[j as int],
{
    proof {
        lemma_cell_in_table(t.rows as int, t.width as int, i as int, j as int);
    }
    let n = t.scores.len();
    assert(n == t.scores@.len());
    t.scores[i * t.width + j]
}

/// The first maximum of row `i`, or `None` when the row holds a NaN.
pub fn argmax_row(t: &ScoreTable, i: usize) -> (r: Option<usize>)
    requires
        well_shaped(*t),
        i < t.rows,
        t.width > 0,
    ensures
        r is None <==> has_nan(row(*t, i as int)),
        r matches Some(k) ==> k == first_max(row(*t, i as int)) && k < t.width,
{
    let ghost rw = row(*t, i as int);
    proof {
        lemma_cell_in_table(t.rows as int, t.width as int, i as int, 0);
    }
    let mut best: usize = 0;
    let first = score_of(t, i, 0);
    if score_is_nan(first) {
        return None;
    }
    let mut best_key: i64 = key_of(first);
    let mut j: usize = 1;
    assert(rw.subrange(0, 1).len() == 1);
    while j < t.width
        invariant
            well_shaped(*t),
            i < t.rows,
            rw == row(*t, i as int),
            rw.len() == t.width,
            1 <= j <= t.width,
            best < j,
            best == first_max(rw.subrange(0, j as int)),
            best_key == score_key(rw[best as int]),
            forall|m: int| 0 <= m < j ==> !is_nan_bits(#[trigger] rw[m]),
        decreases t.width - j,
    {
        let s = score_of(t, i, j);
        if score_is_nan(s) {
            return None;
        }
        let k = key_of(s);
        assert(rw.subrange(0, j + 1).drop_last() =~= rw.subrange(0, j as int));
        if k > best_key {
            best = j;
            best_key = k;
        }
        j = j + 1;
    }
    assert(rw.subrange(0, j as int) =~= rw);
    Some(best)
}

/// Decodes the scores of `seq_len` tokens: for each token the first maximum
/// of its nikud row and of its shin/sin row (ties go to the lowest class),
/// and its stress, vocal-shva and prefix scores each compared with zero.
///
/// Fails with `Inference` exactly when the tables do not have the shape of
/// `seq_len` tokens, a ranked row holds a NaN, or a maximum falls past the
/// class tables.
pub fn decode_predictions(nikud: &ScoreTable, shin: &ScoreTable, aux: &ScoreTable, seq_len: usize) -> (r:
    Result<Vec<TokenPrediction>, PhonikudError>)
    ensures
        r is Ok <==> decodable(*nikud, *shin, *aux, seq_len as nat),
        r matches Err(e) ==> e == PhonikudError::Inference,
        r matches Ok(p) ==> p@.len() == seq_len && forall|i: int|
            0 <= i < seq_len ==> #[trigger] p@[i] == decoded_at(*nikud, *shin, *aux, i),
{
    let shaped = nikud.rows == seq_len && shin.rows == seq_len && aux.rows == seq_len
        && nikud.width > 0 && shin.width > 0 && aux.width >= 3
        && nikud.rows.checked_mul(nikud.width) == Some(nikud.scores.len())
        && shin.rows.checked_mul(shin.width) == Some(shin.scores.len())
        && aux.rows.checked_mul(aux.width) == Some(aux.scores.len());
    if !shaped {
        return Err(PhonikudError::Inference);
    }
    let mut out: Vec<TokenPrediction> = Vec::new();
    let mut i: usize = 0;
    while i < seq_len
        invariant
            shapes_fit(*nikud, *shin, *aux, seq_len as nat),
            i <= seq_len,
            out@.len() == i,
            forall|m: int| 0 <= m < i ==> token_decodable(*nikud, *shin, m),
            forall|m: int| 0 <= m < i ==> #[trigger] out@[m] == decoded_at(*nikud, *shin, *aux, m),
        decreases seq_len - i,
    {
        let nk = argmax_row(nikud, i);
        let sk = argmax_row(shin, i);
        if nk.is_none() || sk.is_none() {
            assert(!token_decodable(*nikud, *shin, i as int));
            return Err(PhonikudError::Inference);
        }
        let nc = NikudClass::from_index(nk.unwrap());
        let sc = ShinClass::from_index(sk.unwrap());
        if nc.is_none() || sc.is_none() {
            assert(!token_decodable(*nikud, *shin, i as int));
            return Err(PhonikudError::Inference);
        }
        let nc = nc.unwrap();
        let sc = sc.unwrap();
        let p = TokenPrediction {
            nikud: nc,
            shin: sc,
            stress: is_above_zero(score_of(aux, i, 0)),
            vocal_shva: is_above_zero(score_of(aux, i, 1)),
            prefix: is_above_zero(score_of(aux, i, 2)),
        };
        out.push(p);
        i = i + 1;
    }
    Ok(out)
}

} // verus!
