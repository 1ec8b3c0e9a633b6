//! Threading the decoded predictions back onto the cleaned text.
//!
//! The tokenizer reports, for each token, the range of characters of the
//! cleaned text that produced it. Walking the tokens in order, text that no
//! token covers is copied as it is, a token of several characters is copied
//! as it is, and a token of one Hebrew letter is written with the marks that
//! its predictions call for.

use vstd::prelude::*;

use crate::decode::TokenPrediction;
use crate::marks::{nikud_mark, shin_mark, NikudClass, STRESS_MARK, VOCAL_SHVA_MARK};
use crate::text::{
    cleaned, hebrew_letter, is_hebrew_letter, is_matres_letter, lemma_cleanup_keeps_plain_text, matres_letter,
    removed_by_cleanup, PREFIX_BAR, SHIN,
};

verus! {

/// A piece of the output: characters taken from the cleaned text, then the
/// marks added after them.
pub type Piece = (Seq<char>, Seq<char>);

/// The prediction for token `n`, if the model scored that many tokens.
pub open spec fn prediction_at(preds: Seq<TokenPrediction>, n: int) -> Option<TokenPrediction> {
    if 0 <= n < preds.len() {
        Some(preds[n])
    } else {
        None
    }
}

/// What a matres-lectionis placeholder adds after letter `c`: the caller's
/// mark on alef, vav or yod when one was given, nothing otherwise.
pub open spec fn matres_marks(c: char, matres: Option<&str>) -> Seq<char> {
    if matres_letter(c) && matres is Some {
        matres->Some_0@
    } else {
        Seq::empty()
    }
}

/// A single mark, or nothing.
pub open spec fn mark_if(b: bool, m: char) -> Seq<char> {
    if b {
        seq![m]
    } else {
        Seq::empty()
    }
}

/// The shin/sin dot after a letter: only the letter shin has one.
pub open spec fn shin_part(c: char, p: TokenPrediction) -> Seq<char> {
    mark_if(c == SHIN, shin_mark(p.shin))
}

/// The vowel marks after a letter: the class's marks, or for the
/// matres-lectionis placeholder what the caller's policy allows.
pub open spec fn vowel_part(c: char, p: TokenPrediction, matres: Option<&str>) -> Seq<char> {
    if p.nikud == NikudClass::MatresLectionis {
        matres_marks(c, matres)
    } else {
        nikud_mark(p.nikud)
    }
}

/// The stress, vocal-shva and prefix marks, in that order.
pub open spec fn aux_marks(p: TokenPrediction) -> Seq<char> {
    mark_if(p.stress, STRESS_MARK) + mark_if(p.vocal_shva, VOCAL_SHVA_MARK) + mark_if(p.prefix, PREFIX_BAR)
}

/// The marks added after a token of the one character `c`: none for a
/// character that is not a Hebrew letter or a token without a prediction;
/// otherwise, in this order, the shin/sin dot (on shin only), the nikud
/// (or the matres-lectionis mark), stress, vocal shva and the prefix bar.
pub open spec fn letter_marks(c: char, pred: Option<TokenPrediction>, matres: Option<&str>) -> Seq<char> {
    if !hebrew_letter(c) || pred is None {
        Seq::empty()
    } else {
        let p = pred->Some_0;
        shin_part(c, p) + vowel_part(c, p, matres) + aux_marks(p)
    }
}

/// One token of the walk: from the pieces so far and the cursor (the end
/// of the last token that was written), the pieces and cursor after it.
pub open spec fn step(
    text: Seq<char>,
    span: (usize, usize),
    pred: Option<TokenPrediction>,
    matres: Option<&str>,
    state: (Seq<Piece>, int),
) -> (Seq<Piece>, int) {
    let (pieces, cursor) = state;
    let start = span.0 as int;
    let end = span.1 as int;
    let pieces = if start > cursor {
        pieces.push((text.subrange(cursor, start), Seq::empty()))
    } else {
        pieces
    };
    if end <= start {
        (pieces, cursor)
    } else if end - start != 1 {
        (pieces.push((text.subrange(start, end), Seq::empty())), end)
    } else {
        (pieces.push((seq![text[start]], letter_marks(text[start], pred, matres))), end)
    }
}

/// The pieces and cursor after the first `n` tokens.
pub open spec fn walk(
    text: Seq<char>,
    spans: Seq<(usize, usize)>,
    preds: Seq<TokenPrediction>,
    matres: Option<&str>,
    n: nat,
) -> (Seq<Piece>, int)
    decreases n,
{
    if n == 0 {
        (Seq::empty(), 0)
    } else {
        step(
            text,
            spans[n - 1],
            prediction_at(preds, n - 1),
            matres,
            walk(text, spans, preds, matres, (n - 1) as nat),
        )
    }
}

/// All pieces of the output: those of the walk, then the text after the
/// last token.
pub open spec fn pieces(
    text: Seq<char>,
    spans: Seq<(usize, usize)>,
    preds: Seq<TokenPrediction>,
    matres: Option<&str>,
) -> Seq<Piece> {
    let (ps, cursor) = walk(text, spans, preds, matres, spans.len());
    ps.push((text.subrange(cursor, text.len() as int), Seq::empty()))
}

/// The output written from pieces: each piece's characters, then its marks.
pub open spec fn render(ps: Seq<Piece>) -> Seq<char>
    decreases ps.len(),
{
    if ps.len() == 0 {
        Seq::empty()
    } else {
        render(ps.drop_last()) + ps.last().0 + ps.last().1
    }
}

/// The characters of the pieces with their marks left out.
pub open spec fn kept(ps: Seq<Piece>) -> Seq<char>
    decreases ps.len(),
{
    if ps.len() == 0 {
        Seq::empty()
    } else {
        kept(ps.drop_last()) + ps.last().0
    }
}

/// The annotated text.
pub open spec fn reconstructed(
    text: Seq<char>,
    spans: Seq<(usize, usize)>,
    preds: Seq<TokenPrediction>,
    matres: Option<&str>,
) -> Seq<char> {
    render(pieces(text, spans, preds, matres))
}

/// Every token's range lies within the text.
pub open spec fn spans_in_text(spans: Seq<(usize, usize)>, len: nat) -> bool {
    forall|i: int| 0 <= i < spans.len() ==> #[trigger] spans[i].0 <= len && spans[i].1 <= len
}

proof fn lemma_render_push(ps: Seq<Piece>, p: Piece)
    ensures
        render(ps.push(p)) == render(ps) + p.0 + p.1,
        kept(ps.push(p)) == kept(ps) + p.0,
{
    assert(ps.push(p).drop_last() =~= ps);
}

/// Appends `s` to `out`.
fn append_str(out: &mut String, s: &str)
    ensures
        final(out)@ == old(out)@ + s@,
{
    out.append(s);
}

/// Appends `m` to `out` when `b` holds.
fn append_mark_if(out: &mut String, b: bool, m: char)
    ensures
        final(out)@ == old(out)@ + mark_if(b, m),
{
    if b {
        out.push(m);
    } else {
        assert(old(out)@ + mark_if(b, m) =~= old(out)@);
    }
}

/// Appends the vowel marks of a letter.
fn append_vowel(out: &mut String, c: char, p: TokenPrediction, matres: Option<&str>)
    ensures
        final(out)@ == old(out)@ + vowel_part(c, p, matres),
{
    if p.nikud == NikudClass::MatresLectionis {
        if is_matres_letter(c) && matres.is_some() {
            append_str(out, matres.unwrap());
        } else {
            assert(old(out)@ + matres_marks(c, matres) =~= old(out)@);
        }
    } else {
        p.nikud.push_mark(out);
    }
}

/// Appends the stress, vocal-shva and prefix marks that a prediction calls for.
fn append_aux(out: &mut String, p: TokenPrediction)
    ensures
        final(out)@ == old(out)@ + aux_marks(p),
{
    let ghost s0 = out@;
    append_mark_if(out, p.stress, STRESS_MARK);
    append_mark_if(out, p.vocal_shva, VOCAL_SHVA_MARK);
    append_mark_if(out, p.prefix, PREFIX_BAR);
    assert(out@ =~= s0 + aux_marks(p));
}

/// Appends the marks of a one-letter token.
fn append_letter_marks(out: &mut String, c: char, pred: Option<TokenPrediction>, matres: Option<&str>)
    ensures
        final(out)@ == old(out)@ + letter_marks(c, pred, matres),
{
    if !is_hebrew_letter(c) || pred.is_none() {
        assert(old(out)@ + letter_marks(c, pred, matres) =~= old(out)@);
        return;
    }
    let p = pred.unwrap();
    let ghost s0 = out@;
    append_mark_if(out, c == SHIN, p.shin.mark());
    append_vowel(out, c, p, matres);
    append_aux(out, p);
    assert(out@ =~= s0 + (shin_part(c, p) + vowel_part(c, p, matres) + aux_marks(p)));
}

/// Writes the cleaned `text` with the marks that the predictions call for.
///
/// `spans[n]` is the half-open range of characters of `text` that produced
/// token `n`, and `preds[n]` its predictions (a token past the end of
/// `preds` gets no marks). Tokens are walked in order with a cursor that
/// starts at 0: text between the cursor and a token's start is copied; an
/// empty token adds nothing; a token of several characters is copied
/// without marks and moves the cursor to its end; a token of one character
/// writes that character, followed by its marks if it is a Hebrew letter,
/// and moves the cursor to its end. The text after the cursor ends the
/// output.
pub fn reconstruct(
    text: &str,
    spans: &Vec<(usize, usize)>,
    preds: &Vec<TokenPrediction>,
    matres: Option<&str>,
) -> (r: String)
    requires
        spans_in_text(spans@, text@.len()),
    ensures
        r@ == reconstructed(text@, spans@, preds@, matres),
{
    let len = text.unicode_len();
    let mut result = String::new();
    let mut prev: usize = 0;
    let mut idx: usize = 0;
    proof {
        assert(result@ =~= render(Seq::empty()));
    }
    while idx < spans.len()
        invariant
            spans_in_text(spans@, text@.len()),
            len == text@.len(),
            idx <= spans@.len(),
            (walk(text@, spans@, preds@, matres, idx as nat).1 == prev as int),
            result@ == render(walk(text@, spans@, preds@, matres, idx as nat).0),
            prev <= len,
        decreases spans@.len() - idx,
    {
        let ghost before = walk(text@, spans@, preds@, matres, idx as nat);
        let (start, end) = spans[idx];
        assert(spans@[idx as int].0 <= len && spans@[idx as int].1 <= len);
        let pred = if idx < preds.len() {
            Some(preds[idx])
        } else {
            None
        };
        assert(pred == prediction_at(preds@, idx as int));
        let ghost gap_pieces = if start as int > prev as int {
            before.0.push((text@.subrange(prev as int, start as int), Seq::<char>::empty()))
        } else {
            before.0
        };
        if start > prev {
            let gap = text.substring_char(prev, start);
            append_str(&mut result, gap);
            proof {
                lemma_render_push(before.0, (text@.subrange(prev as int, start as int), Seq::<char>::empty()));
                assert(result@ =~= render(gap_pieces));
            }
        }
        assert(result@ == render(gap_pieces));
        if end <= start {
        } else if end - start != 1 {
            let tok = text.substring_char(start, end);
            append_str(&mut result, tok);
            proof {
                lemma_render_push(gap_pieces, (text@.subrange(start as int, end as int), Seq::<char>::empty()));
                assert(result@ =~= render(gap_pieces.push((text@.subrange(start as int, end as int), Seq::<char>::empty()))));
            }
            prev = end;
        } else {
            let c = text.get_char(start);
            let ghost s0 = result@;
            result.push(c);
            append_letter_marks(&mut result, c, pred, matres);
            proof {
                let p: Piece = (seq![c], letter_marks(c, pred, matres));
                lemma_render_push(gap_pieces, p);
                assert(result@ =~= render(gap_pieces.push(p)));
            }
            prev = end;
        }
        idx = idx + 1;
    }
    let rest = text.substring_char(prev, len);
    let ghost before = walk(text@, spans@, preds@, matres, idx as nat);
    append_str(&mut result, rest);
    proof {
        assert(idx == spans@.len());
        lemma_render_push(before.0, (text@.subrange(prev as int, len as int), Seq::<char>::empty()));
        assert(result@ =~= render(pieces(text@, spans@, preds@, matres)));
    }
    result
}

/// Where the walk's cursor stands after the first `n` tokens: the end of
/// the last non-empty one, or 0.
pub open spec fn cursor_after(spans: Seq<(usize, usize)>, n: nat) -> int
    decreases n,
{
    if n == 0 {
        0
    } else if spans[n - 1].1 > spans[n - 1].0 {
        spans[n - 1].1 as int
    } else {
        cursor_after(spans, (n - 1) as nat)
    }
}

/// The tokens come in text order: a non-empty token starts at or after the
/// end of the one before it, and an empty token starts no later than that.
pub open spec fn spans_ordered(spans: Seq<(usize, usize)>) -> bool {
    forall|i: int|
        0 <= i < spans.len() ==> if #[trigger] spans[i].1 > spans[i].0 {
            cursor_after(spans, i as nat) <= spans[i].0
        } else {
            spans[i].0 <= cursor_after(spans, i as nat)
        }
}

proof fn lemma_walk_keeps_prefix(
    text: Seq<char>,
    spans: Seq<(usize, usize)>,
    preds: Seq<TokenPrediction>,
    matres: Option<&str>,
    n: nat,
)
    requires
        n <= spans.len(),
        spans_in_text(spans, text.len()),
        spans_ordered(spans),
    ensures
        walk(text, spans, preds, matres, n).1 == cursor_after(spans, n),
        0 <= cursor_after(spans, n) <= text.len(),
        kept(walk(text, spans, preds, matres, n).0) == text.subrange(0, cursor_after(spans, n)),
    decreases n,
{
    if n > 0 {
        let m = (n - 1) as nat;
        lemma_walk_keeps_prefix(text, spans, preds, matres, m);
        let (ps, cur) = walk(text, spans, preds, matres, m);
        let span = spans[m as int];
        let start = span.0 as int;
        let end = span.1 as int;
        assert(span.0 <= text.len() && span.1 <= text.len());
        let gap = if start > cur {
            ps.push((text.subrange(cur, start), Seq::<char>::empty()))
        } else {
            ps
        };
        if start > cur {
            lemma_render_push(ps, (text.subrange(cur, start), Seq::<char>::empty()));
        }
        if end > start {
            assert(kept(gap) =~= text.subrange(0, start));
            if end - start != 1 {
                lemma_render_push(gap, (text.subrange(start, end), Seq::<char>::empty()));
            } else {
                let p: Piece = (seq![text[start]], letter_marks(text[start], prediction_at(preds, m as int), matres));
                lemma_render_push(gap, p);
            }
            assert(kept(walk(text, spans, preds, matres, n).0) =~= text.subrange(0, end));
        }
    }
}

/// Taking out the marks that reconstruction adds gives back the cleaned
/// text: the output is a run of pieces, each some characters of the text
/// followed by the marks added after them, and when the tokens come in text
/// order the characters of the pieces, in order, are exactly the text.
pub proof fn lemma_marks_removed_give_text(
    text: Seq<char>,
    spans: Seq<(usize, usize)>,
    preds: Seq<TokenPrediction>,
    matres: Option<&str>,
)
    requires
        spans_in_text(spans, text.len()),
        spans_ordered(spans),
    ensures
        reconstructed(text, spans, preds, matres) == render(pieces(text, spans, preds, matres)),
        kept(pieces(text, spans, preds, matres)) == text,
{
    lemma_walk_keeps_prefix(text, spans, preds, matres, spans.len());
    let (ps, cur) = walk(text, spans, preds, matres, spans.len());
    lemma_render_push(ps, (text.subrange(cur, text.len() as int), Seq::<char>::empty()));
    assert(kept(pieces(text, spans, preds, matres)) =~= text);
}

/// The matres-lectionis placeholder on a letter other than alef, vav and
/// yod adds nothing, whatever the policy; on alef, vav or yod it adds
/// exactly the caller's mark when one is given and nothing otherwise. The
/// other marks of the letter are unaffected.
pub proof fn lemma_matres_gating(c: char, p: TokenPrediction, matres: Option<&str>)
    requires
        hebrew_letter(c),
        p.nikud == NikudClass::MatresLectionis,
    ensures
        !matres_letter(c) ==> letter_marks(c, Some(p), matres) == shin_part(c, p) + aux_marks(p),
        matres_letter(c) && matres is Some ==> letter_marks(c, Some(p), matres) == matres->Some_0@
            + aux_marks(p),
        matres is None ==> letter_marks(c, Some(p), matres) == shin_part(c, p) + aux_marks(p),
{
    assert(shin_part(c, p) + Seq::<char>::empty() =~= shin_part(c, p));
    if matres_letter(c) {
        assert(shin_part(c, p) =~= Seq::<char>::empty());
        assert(Seq::<char>::empty() + matres_marks(c, matres) =~= matres_marks(c, matres));
    }
}

/// The marks after a shin with a literal nikud and all three auxiliary
/// signals come in this order: the shin/sin dot, the nikud, stress, vocal
/// shva, the prefix bar.
pub proof fn lemma_mark_order(p: TokenPrediction, matres: Option<&str>)
    requires
        p.nikud != NikudClass::MatresLectionis,
        p.stress && p.vocal_shva && p.prefix,
    ensures
        letter_marks(SHIN, Some(p), matres) == seq![shin_mark(p.shin)] + nikud_mark(p.nikud) + seq![
            STRESS_MARK,
            VOCAL_SHVA_MARK,
            PREFIX_BAR,
        ],
{
    assert(letter_marks(SHIN, Some(p), matres) =~= seq![shin_mark(p.shin)] + nikud_mark(p.nikud) + seq![
        STRESS_MARK,
        VOCAL_SHVA_MARK,
        PREFIX_BAR,
    ]);
}

proof fn lemma_no_letters_no_marks(
    text: Seq<char>,
    spans: Seq<(usize, usize)>,
    preds: Seq<TokenPrediction>,
    matres: Option<&str>,
    n: nat,
)
    requires
        n <= spans.len(),
        spans_in_text(spans, text.len()),
        forall|i: int| 0 <= i < text.len() ==> !hebrew_letter(#[trigger] text[i]),
    ensures
        render(walk(text, spans, preds, matres, n).0) == kept(walk(text, spans, preds, matres, n).0),
    decreases n,
{
    if n > 0 {
        let m = (n - 1) as nat;
        lemma_no_letters_no_marks(text, spans, preds, matres, m);
        let (ps, cur) = walk(text, spans, preds, matres, m);
        let span = spans[m as int];
        let start = span.0 as int;
        let end = span.1 as int;
        assert(span.0 <= text.len() && span.1 <= text.len());
        let gap = if start > cur {
            ps.push((text.subrange(cur, start), Seq::<char>::empty()))
        } else {
            ps
        };
        if start > cur {
            lemma_render_push(ps, (text.subrange(cur, start), Seq::<char>::empty()));
            assert(render(gap) =~= kept(gap));
        }
        if end > start {
            if end - start != 1 {
                lemma_render_push(gap, (text.subrange(start, end), Seq::<char>::empty()));
                assert(render(walk(text, spans, preds, matres, n).0) =~= kept(walk(text, spans, preds, matres, n).0));
            } else {
                let p: Piece = (seq![text[start]], letter_marks(text[start], prediction_at(preds, m as int), matres));
                lemma_render_push(gap, p);
                assert(render(walk(text, spans, preds, matres, n).0) =~= kept(walk(text, spans, preds, matres, n).0));
            }
        }
    }
}

/// A text of digits, punctuation, Latin letters or anything else without
/// Hebrew letters, marks or prefix bars comes out of cleanup and
/// reconstruction unchanged, whatever the predictions, when the tokens come
/// in text order.
pub proof fn lemma_non_letters_pass_through(
    text: Seq<char>,
    spans: Seq<(usize, usize)>,
    preds: Seq<TokenPrediction>,
    matres: Option<&str>,
)
    requires
        forall|i: int| 0 <= i < text.len() ==> !hebrew_letter(#[trigger] text[i]) && !removed_by_cleanup(text[i]),
        spans_in_text(spans, text.len()),
        spans_ordered(spans),
    ensures
        cleaned(text) == text,
        reconstructed(cleaned(text), spans, preds, matres) == text,
{
    lemma_cleanup_keeps_plain_text(text);
    lemma_marks_removed_give_text(text, spans, preds, matres);
    lemma_no_letters_no_marks(text, spans, preds, matres, spans.len());
    let (ps, cur) = walk(text, spans, preds, matres, spans.len());
    lemma_render_push(ps, (text.subrange(cur, text.len() as int), Seq::<char>::empty()));
    assert(render(pieces(text, spans, preds, matres)) =~= kept(pieces(text, spans, preds, matres)));
}

/// A token of several characters is copied as it stands, with no marks,
/// whatever its predictions: alone in the text's tokens it leaves the text
/// unchanged.
pub proof fn lemma_long_token_verbatim(
    text: Seq<char>,
    start: usize,
    end: usize,
    preds: Seq<TokenPrediction>,
    matres: Option<&str>,
)
    requires
        start + 2 <= end <= text.len(),
    ensures
        reconstructed(text, seq![(start, end)], preds, matres) == text,
{
    let spans = seq![(start, end)];
    assert(spans_ordered(spans));
    let e: Seq<char> = Seq::empty();
    let ps0: Seq<Piece> = Seq::empty();
    let gap = if start > 0 { ps0.push((text.subrange(0, start as int), e)) } else { ps0 };
    if start > 0 {
        lemma_render_push(ps0, (text.subrange(0, start as int), e));
    }
    assert(render(gap) =~= text.subrange(0, start as int));
    let ps1 = gap.push((text.subrange(start as int, end as int), e));
    lemma_render_push(gap, (text.subrange(start as int, end as int), e));
    lemma_render_push(ps1, (text.subrange(end as int, text.len() as int), e));
    assert(walk(text, spans, preds, matres, 0) == (ps0, 0int));
    assert(walk(text, spans, preds, matres, 1) == (ps1, end as int));
    assert(render(ps1) =~= text.subrange(0, end as int));
    assert(reconstructed(text, spans, preds, matres) =~= text);
}

} // verus!
