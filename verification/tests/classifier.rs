use image_classifier::LoadError;
use image_classifier::Model;
use image_classifier::ModelInput;
use image_classifier::PrepareError;
use image_classifier::SignatureDef;
use image_classifier::SignatureManifest;
use image_classifier::TensorBinding;
use image_classifier::ZERO_SCORE;
use image_classifier::reduce_output;

/// Encodes an f32 score as an order key: larger scores give larger keys,
/// a zero score gives `ZERO_SCORE`, and a NaN gives the smallest key so
/// that it never displaces the accumulator.
fn score_key(x: f32) -> u32 {
    if x.is_nan() {
        0
    } else if x.is_sign_negative() {
        !x.to_bits()
    } else {
        x.to_bits() | 0x8000_0000
    }
}

/// Decodes an order key back to the f32 score it was made from.
fn key_score(k: u32) -> f32 {
    if k >= 0x8000_0000 {
        f32::from_bits(k - 0x8000_0000)
    } else {
        f32::from_bits(!k)
    }
}

/// A binary PGM image: one grayscale byte per pixel, row-major.
fn pgm_bytes(width: u32, height: u32, pixels: &[u8]) -> Vec<u8> {
    let mut bytes = format!("P5\n{width} {height}\n255\n").into_bytes();
    bytes.extend_from_slice(pixels);
    bytes
}

fn sample_manifest() -> SignatureManifest {
    SignatureManifest {
        signatures: vec![SignatureDef {
            key: "serving_default".to_string(),
            inputs: vec![TensorBinding {
                alias: "input_1".to_string(),
                op_name: "input_layer".to_string(),
                slot_index: 0,
            }],
            outputs: vec![TensorBinding {
                alias: "dense_2/Softmax".to_string(),
                op_name: "dense_2".to_string(),
                slot_index: 1,
            }],
        }],
    }
}

#[test]
fn resolve_returns_bindings() {
    let manifest = sample_manifest();
    let model = Model::resolve(
        &manifest,
        &"serving_default".to_string(),
        &"input_1".to_string(),
        &"dense_2/Softmax".to_string(),
    )
    .unwrap();
    assert_eq!(model.input_op, "input_layer");
    assert_eq!(model.input_index, 0);
    assert_eq!(model.output_op, "dense_2");
    assert_eq!(model.output_index, 1);
}

#[test]
fn resolve_reports_missing_signature() {
    let manifest = sample_manifest();
    let err = Model::resolve(
        &manifest,
        &"other".to_string(),
        &"input_1".to_string(),
        &"dense_2/Softmax".to_string(),
    )
    .unwrap_err();
    assert_eq!(err, LoadError::SignatureNotFound { key: "other".to_string() });
}

#[test]
fn resolve_reports_missing_input_alias() {
    let manifest = sample_manifest();
    let err = Model::resolve(
        &manifest,
        &"serving_default".to_string(),
        &"input_7".to_string(),
        &"dense_2/Softmax".to_string(),
    )
    .unwrap_err();
    assert_eq!(err, LoadError::TensorAliasNotFound { key: "input_7".to_string() });
}

#[test]
fn resolve_reports_missing_output_alias() {
    let manifest = sample_manifest();
    let err = Model::resolve(
        &manifest,
        &"serving_default".to_string(),
        &"input_1".to_string(),
        &"dense_9/Softmax".to_string(),
    )
    .unwrap_err();
    assert_eq!(err, LoadError::TensorAliasNotFound { key: "dense_9/Softmax".to_string() });
}

#[test]
fn prepare_keeps_pixels() {
    let bytes = pgm_bytes(2, 2, &[10, 20, 30, 40]);
    let input = ModelInput::from_image_bytes(bytes, 2, 2).unwrap();
    assert_eq!(input.values().as_slice(), &[10, 20, 30, 40]);
    assert_eq!(input.len(), 4);
}

#[test]
fn prepare_resamples_to_target_size() {
    let bytes = pgm_bytes(4, 4, &[77; 16]);
    let input = ModelInput::from_image_bytes(bytes, 2, 2).unwrap();
    assert_eq!(input.values().as_slice(), &[77, 77, 77, 77]);
}

#[test]
fn prepare_is_deterministic() {
    let bytes = pgm_bytes(3, 3, &[0, 32, 64, 96, 128, 160, 192, 224, 255]);
    let first = ModelInput::from_image_bytes(bytes.clone(), 2, 2).unwrap();
    let second = ModelInput::from_image_bytes(bytes, 2, 2).unwrap();
    assert_eq!(first.values(), second.values());
}

#[test]
fn prepare_normalised_values_stay_in_unit_interval() {
    let bytes = pgm_bytes(2, 2, &[0, 255, 1, 254]);
    let input = ModelInput::from_image_bytes(bytes, 2, 2).unwrap();
    for &raw in input.values() {
        let normalised = f32::from(raw) / 255.0;
        assert!((0.0..=1.0).contains(&normalised));
    }
    assert_eq!(input.values().as_slice(), &[0, 255, 1, 254]);
}

#[test]
fn prepare_rejects_non_image() {
    let err = ModelInput::from_image_bytes(vec![0u8; 64], 2, 2).unwrap_err();
    let PrepareError::DecodeFailure { cause } = err;
    assert!(!cause.is_empty());
}

#[test]
fn score_key_preserves_order() {
    assert!(score_key(0.1) < score_key(0.2));
    assert!(score_key(-0.5) < score_key(0.0));
    assert!(score_key(-1.0) < score_key(-0.5));
    assert_eq!(score_key(0.0), ZERO_SCORE);
    assert_eq!(key_score(score_key(0.9)), 0.9);
    assert_eq!(key_score(score_key(-0.25)), -0.25);
}

#[test]
fn reduce_picks_first_maximum() {
    let scores: Vec<u32> = [0.2f32, 0.9, 0.9, 0.1].iter().map(|&x| score_key(x)).collect();
    let prediction = reduce_output(&scores);
    assert_eq!(prediction.label, 1);
    assert_eq!(key_score(prediction.confidence), 0.9);
}

#[test]
fn reduce_zero_vector_yields_label_zero() {
    let scores: Vec<u32> = [0.0f32, 0.0, 0.0].iter().map(|&x| score_key(x)).collect();
    let prediction = reduce_output(&scores);
    assert_eq!(prediction.label, 0);
    assert_eq!(prediction.confidence, ZERO_SCORE);
    assert_eq!(key_score(prediction.confidence), 0.0);
}

#[test]
fn reduce_empty_scores_yields_label_zero() {
    let prediction = reduce_output(&Vec::new());
    assert_eq!(prediction.label, 0);
    assert_eq!(prediction.confidence, ZERO_SCORE);
}

#[test]
fn reduce_all_negative_scores_yields_label_zero() {
    let scores: Vec<u32> = [-1.0f32, -0.5, -0.125].iter().map(|&x| score_key(x)).collect();
    let prediction = reduce_output(&scores);
    assert_eq!(prediction.label, 0);
    assert_eq!(key_score(prediction.confidence), 0.0);
}

#[test]
fn reduce_single_positive_score() {
    let scores = vec![score_key(0.75)];
    let prediction = reduce_output(&scores);
    assert_eq!(prediction.label, 0);
    assert_eq!(key_score(prediction.confidence), 0.75);
}
