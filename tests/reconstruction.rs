use phonikud_rs::{reconstruct, NikudClass, ShinClass, TokenPrediction};

fn pred(nikud: NikudClass, shin: ShinClass, stress: bool, vocal_shva: bool, prefix: bool) -> TokenPrediction {
    TokenPrediction { nikud, shin, stress, vocal_shva, prefix }
}

fn plain(nikud: NikudClass) -> TokenPrediction {
    pred(nikud, ShinClass::Shin, false, false, false)
}

fn is_added_mark(c: char) -> bool {
    ('\u{0590}'..='\u{05c7}').contains(&c) || c == '|'
}

#[test]
fn matres_placeholder_on_non_matres_letter_adds_nothing() {
    let text = "\u{05d1}";
    let spans = vec![(0, 1)];
    let preds = vec![plain(NikudClass::MatresLectionis)];
    assert_eq!(reconstruct(text, &spans, &preds, Some("\u{05af}")), "\u{05d1}");
    assert_eq!(reconstruct(text, &spans, &preds, None), "\u{05d1}");
}

#[test]
fn matres_placeholder_on_matres_letters_follows_policy() {
    let text = "\u{05d0}\u{05d5}\u{05d9}";
    let spans = vec![(0, 1), (1, 2), (2, 3)];
    let preds = vec![plain(NikudClass::MatresLectionis); 3];
    assert_eq!(
        reconstruct(text, &spans, &preds, Some("\u{05af}")),
        "\u{05d0}\u{05af}\u{05d5}\u{05af}\u{05d9}\u{05af}"
    );
    assert_eq!(reconstruct(text, &spans, &preds, None), text);
}

#[test]
fn marks_come_in_fixed_order() {
    let text = "\u{05e9}";
    let spans = vec![(0, 1)];
    let preds = vec![pred(NikudClass::DageshQamats, ShinClass::Sin, true, true, true)];
    assert_eq!(
        reconstruct(text, &spans, &preds, None),
        "\u{05e9}\u{05c2}\u{05bc}\u{05b8}\u{05ab}\u{05bd}|"
    );
}

#[test]
fn shin_dot_only_on_shin() {
    let text = "\u{05e9}\u{05dc}";
    let spans = vec![(0, 1), (1, 2)];
    let preds = vec![plain(NikudClass::NoMark), plain(NikudClass::Qamats)];
    assert_eq!(reconstruct(text, &spans, &preds, None), "\u{05e9}\u{05c1}\u{05dc}\u{05b8}");
}

#[test]
fn non_letters_pass_through() {
    let text = "abc 123, (x)!";
    let spans: Vec<(usize, usize)> = vec![(0, 0), (0, 3), (4, 5), (5, 6), (6, 7), (8, 9), (9, 10), (10, 11), (0, 0)];
    let preds = vec![pred(NikudClass::Patah, ShinClass::Sin, true, true, true); 9];
    assert_eq!(reconstruct(text, &spans, &preds, Some("\u{05af}")), text);
}

#[test]
fn three_character_token_is_copied_verbatim() {
    let text = "\u{05e9}\u{05dc}\u{05d5}\u{05dd}";
    let spans = vec![(0, 3), (3, 4)];
    let preds = vec![
        pred(NikudClass::Patah, ShinClass::Sin, true, true, true),
        plain(NikudClass::Tsere),
    ];
    assert_eq!(reconstruct(text, &spans, &preds, None), "\u{05e9}\u{05dc}\u{05d5}\u{05dd}\u{05b5}");
}

#[test]
fn gaps_and_trailing_text_are_copied() {
    let text = "  \u{05d1} x \u{05d2}.";
    let spans = vec![(2, 3), (6, 7)];
    let preds = vec![plain(NikudClass::Hiriq), plain(NikudClass::Segol)];
    assert_eq!(reconstruct(text, &spans, &preds, None), "  \u{05d1}\u{05b4} x \u{05d2}\u{05b6}.");
}

#[test]
fn tokens_without_predictions_get_no_marks() {
    let text = "\u{05d1}\u{05d2}";
    let spans = vec![(0, 1), (1, 2)];
    let preds = vec![plain(NikudClass::Hiriq)];
    assert_eq!(reconstruct(text, &spans, &preds, None), "\u{05d1}\u{05b4}\u{05d2}");
}

#[test]
fn empty_token_after_gap_does_not_move_the_cursor() {
    let text = "ab";
    let spans = vec![(1, 1), (1, 2)];
    let preds = vec![plain(NikudClass::NoMark); 2];
    assert_eq!(reconstruct(text, &spans, &preds, None), "aab");
}

#[test]
fn removing_added_marks_gives_back_the_text() {
    let text = "\u{05d4}\u{05d9}\u{05dc}\u{05d3} 7 \u{05e9}\u{05e8}";
    let spans = vec![(0, 0), (0, 1), (1, 2), (2, 3), (3, 4), (5, 6), (7, 8), (8, 9), (0, 0)];
    let preds = vec![pred(NikudClass::DageshPatah, ShinClass::Sin, true, false, true); 9];
    let out = reconstruct(text, &spans, &preds, None);
    assert_ne!(out, text);
    let stripped: String = out.chars().filter(|c| !is_added_mark(*c)).collect();
    assert_eq!(stripped, text);
}
