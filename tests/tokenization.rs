use phonikud_rs::{complete, prepare, ScoreTable};
use std::str::FromStr;
use tokenizers::Tokenizer;

const WORD_TOKENIZER: &str = r#"{
  "version": "1.0",
  "truncation": null,
  "padding": null,
  "added_tokens": [],
  "normalizer": null,
  "pre_tokenizer": {"type": "Whitespace"},
  "post_processor": null,
  "decoder": null,
  "model": {"type": "WordLevel", "vocab": {"[UNK]": 0, "abc": 1}, "unk_token": "[UNK]"}
}"#;

fn table(rows: usize, width: usize, winner: usize, fill: f32) -> ScoreTable {
    let mut scores = Vec::new();
    for _ in 0..rows {
        for j in 0..width {
            let x: f32 = if j == winner { 4.0 } else { fill };
            scores.push(x.to_bits());
        }
    }
    ScoreTable { rows, width, scores }
}

#[test]
fn prepare_cleans_and_encodes_with_character_offsets() {
    let tok = Tokenizer::from_str(WORD_TOKENIZER).unwrap();
    let req = prepare(&tok, "\u{05e9}\u{05c1}\u{05b8}\u{05dc}\u{05d5}\u{05b9}\u{05dd} abc").unwrap();
    assert_eq!(req.clean_text, "\u{05e9}\u{05dc}\u{05d5}\u{05dd} abc");
    assert_eq!(req.offsets, vec![(0, 4), (5, 8)]);
    assert_eq!(req.input_ids, vec![0i64, 1]);
    assert_eq!(req.attention_mask, vec![1i64, 1]);
    assert_eq!(req.token_type_ids, vec![0i64, 0]);

    // Both tokens span several characters: nothing is marked.
    let out = complete(&req, &table(2, 29, 10, -1.0), &table(2, 2, 1, -1.0), &table(2, 3, 0, -1.0), None).unwrap();
    assert_eq!(out, "\u{05e9}\u{05dc}\u{05d5}\u{05dd} abc");
}

#[test]
fn one_letter_word_gets_its_marks() {
    let tok = Tokenizer::from_str(WORD_TOKENIZER).unwrap();
    let req = prepare(&tok, "\u{05e9}| abc").unwrap();
    assert_eq!(req.clean_text, "\u{05e9} abc");
    assert_eq!(req.offsets, vec![(0, 1), (2, 5)]);
    let out = complete(&req, &table(2, 29, 10, -1.0), &table(2, 2, 1, -1.0), &table(2, 3, 0, -1.0), None).unwrap();
    assert_eq!(out, "\u{05e9}\u{05c2}\u{05b7}\u{05ab} abc");
}
