use phonikud_rs::{build_request, complete, decode_predictions, NikudClass, PhonikudError, ScoreTable, ShinClass};

fn table(rows: Vec<Vec<f32>>) -> ScoreTable {
    let width = rows.first().map(|r| r.len()).unwrap_or(0);
    let scores: Vec<u32> = rows.iter().flat_map(|r| r.iter().map(|x| x.to_bits())).collect();
    ScoreTable { rows: rows.len(), width, scores }
}

fn one_hot(width: usize, k: usize) -> Vec<f32> {
    (0..width).map(|j| if j == k { 3.0 } else { -1.0 }).collect()
}

#[test]
fn shalom_with_patah_everywhere() {
    let text = "\u{05e9}\u{05dc}\u{05d5}\u{05dd}".to_string();
    // [CLS], four letters, [SEP]
    let offsets = vec![(0, 0), (0, 1), (1, 2), (2, 3), (3, 4), (0, 0)];
    let n = offsets.len();
    let ids: Vec<u32> = (0..n as u32).collect();
    let ones = vec![1u32; n];
    let zeros = vec![0u32; n];
    let req = build_request(text, &ids, &ones, &zeros, offsets);
    assert_eq!(req.input_ids, vec![0i64, 1, 2, 3, 4, 5]);
    assert_eq!(req.attention_mask, vec![1i64; 6]);
    let nikud = table((0..n).map(|_| one_hot(29, 10)).collect());
    let shin = table((0..n).map(|_| one_hot(2, 0)).collect());
    let aux = table((0..n).map(|_| vec![-2.0, -0.5, -3.0]).collect());
    let out = complete(&req, &nikud, &shin, &aux, None).unwrap();
    assert_eq!(out, "\u{05e9}\u{05c1}\u{05b7}\u{05dc}\u{05b7}\u{05d5}\u{05b7}\u{05dd}\u{05b7}");
}

#[test]
fn argmax_ties_go_to_the_lowest_class() {
    let nikud = table(vec![vec![0.0, 5.0, 5.0, -7.0]]);
    let shin = table(vec![vec![1.5, 1.5]]);
    let aux = table(vec![vec![0.0, -0.0, 1e-30]]);
    let p = decode_predictions(&nikud, &shin, &aux, 1).unwrap();
    assert_eq!(p.len(), 1);
    assert_eq!(p[0].nikud, NikudClass::MatresLectionis);
    assert_eq!(p[0].shin, ShinClass::Shin);
    assert!(!p[0].stress);
    assert!(!p[0].vocal_shva);
    assert!(p[0].prefix);
}

#[test]
fn argmax_orders_negative_scores() {
    let nikud = table(vec![vec![-3.0, -1.0, -2.0, f32::NEG_INFINITY]]);
    let shin = table(vec![vec![-0.0, 0.0]]);
    let aux = table(vec![vec![f32::INFINITY, f32::NAN, -1.0]]);
    let p = decode_predictions(&nikud, &shin, &aux, 1).unwrap();
    assert_eq!(p[0].nikud, NikudClass::MatresLectionis);
    assert_eq!(p[0].shin, ShinClass::Shin);
    assert!(p[0].stress);
    assert!(!p[0].vocal_shva);
    assert!(!p[0].prefix);
}

#[test]
fn last_class_is_dagesh_qamats_qatan() {
    let nikud = table(vec![one_hot(29, 28), one_hot(29, 27)]);
    let shin = table(vec![one_hot(2, 1), one_hot(2, 0)]);
    let aux = table(vec![vec![-1.0; 3], vec![-1.0; 3]]);
    let p = decode_predictions(&nikud, &shin, &aux, 2).unwrap();
    assert_eq!(p[0].nikud, NikudClass::DageshQamatsQatan);
    assert_eq!(p[1].nikud, NikudClass::QamatsQatan);
    assert_eq!(p[0].shin, ShinClass::Sin);
}

#[test]
fn nan_in_a_ranked_row_is_an_inference_error() {
    let nikud = table(vec![vec![1.0, f32::NAN, 0.0]]);
    let shin = table(vec![vec![1.0, 0.0]]);
    let aux = table(vec![vec![0.0; 3]]);
    assert_eq!(decode_predictions(&nikud, &shin, &aux, 1), Err(PhonikudError::Inference));
    let nikud = table(vec![vec![1.0, 0.0]]);
    let shin = table(vec![vec![f32::NAN, 0.0]]);
    assert_eq!(decode_predictions(&nikud, &shin, &aux, 1), Err(PhonikudError::Inference));
}

#[test]
fn class_past_the_table_is_an_inference_error() {
    let nikud = table(vec![one_hot(30, 29)]);
    let shin = table(vec![one_hot(2, 0)]);
    let aux = table(vec![vec![0.0; 3]]);
    assert_eq!(decode_predictions(&nikud, &shin, &aux, 1), Err(PhonikudError::Inference));
    let nikud = table(vec![one_hot(29, 3)]);
    let shin = table(vec![one_hot(3, 2)]);
    assert_eq!(decode_predictions(&nikud, &shin, &aux, 1), Err(PhonikudError::Inference));
}

#[test]
fn wrong_shapes_are_an_inference_error() {
    let nikud = table(vec![one_hot(29, 3)]);
    let shin = table(vec![one_hot(2, 0)]);
    let aux = table(vec![vec![0.0; 2]]);
    assert_eq!(decode_predictions(&nikud, &shin, &aux, 1), Err(PhonikudError::Inference));
    let aux = table(vec![vec![0.0; 3]]);
    assert_eq!(decode_predictions(&nikud, &shin, &aux, 2), Err(PhonikudError::Inference));
    let broken = ScoreTable { rows: 1, width: 29, scores: vec![0; 28] };
    assert_eq!(decode_predictions(&broken, &shin, &aux, 1), Err(PhonikudError::Inference));
    assert_eq!(decode_predictions(&nikud, &shin, &aux, 1).map(|p| p.len()), Ok(1));
}

#[test]
fn offsets_outside_the_text_are_a_tokenization_error() {
    let req = build_request("\u{05d1}".to_string(), &vec![7], &vec![1], &vec![0], vec![(0, 2)]);
    let nikud = table(vec![one_hot(29, 3)]);
    let shin = table(vec![one_hot(2, 0)]);
    let aux = table(vec![vec![0.0; 3]]);
    assert_eq!(complete(&req, &nikud, &shin, &aux, None), Err(PhonikudError::Tokenization));
    let req = build_request("\u{05d1}".to_string(), &vec![7, 8], &vec![1], &vec![0], vec![(0, 1)]);
    assert_eq!(complete(&req, &nikud, &shin, &aux, None), Err(PhonikudError::Tokenization));
}

#[test]
fn complete_reports_undecodable_scores() {
    let req = build_request("\u{05d1}".to_string(), &vec![7], &vec![1], &vec![0], vec![(0, 1)]);
    let nikud = table(vec![vec![f32::NAN, 1.0]]);
    let shin = table(vec![one_hot(2, 0)]);
    let aux = table(vec![vec![0.0; 3]]);
    assert_eq!(complete(&req, &nikud, &shin, &aux, None), Err(PhonikudError::Inference));
}
