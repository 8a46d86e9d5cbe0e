use model_in_browser::engine::{
    apply_penalty, context_start, penalty_window_start, resolve_eos_token, FALLBACK_EOS_TOKEN,
};
use model_in_browser::errors::EngineError;
use model_in_browser::params::REPEAT_PENALTY_DISABLED_BITS;

fn logits_tensor(values: &[f32]) -> candle_core::Tensor {
    candle_core::Tensor::new(values, &candle_core::Device::Cpu).unwrap()
}

#[test]
fn disabled_penalty_returns_the_logits_unchanged() {
    let logits = logits_tensor(&[1.5f32, -2.0, 3.25]);
    let history: Vec<u32> = vec![0, 1, 2, 0];
    let out = apply_penalty(logits, REPEAT_PENALTY_DISABLED_BITS, &history, 64).unwrap();
    let values: Vec<f32> = out.to_vec1().unwrap();
    assert_eq!(values, vec![1.5f32, -2.0, 3.25]);
}

#[test]
fn active_penalty_divides_positive_and_multiplies_negative() {
    let logits = logits_tensor(&[2.0f32, -2.0, 4.0, 8.0]);
    let history: Vec<u32> = vec![0, 1, 2];
    let out = apply_penalty(logits, (2.0f64).to_bits(), &history, 64).unwrap();
    let values: Vec<f32> = out.to_vec1().unwrap();
    // Tokens 0, 1 and 2 are in the window: positive logits are divided by
    // the penalty, negative ones multiplied; token 3 is untouched.
    assert_eq!(values, vec![1.0f32, -4.0, 2.0, 8.0]);
}

#[test]
fn penalty_window_respects_repeat_last_n() {
    let logits = logits_tensor(&[2.0f32, 2.0, 2.0]);
    let history: Vec<u32> = vec![0, 1, 2];
    // Only the last entry of the history is inside the window.
    let out = apply_penalty(logits, (2.0f64).to_bits(), &history, 1).unwrap();
    let values: Vec<f32> = out.to_vec1().unwrap();
    assert_eq!(values, vec![2.0f32, 2.0, 1.0]);
}

#[test]
fn out_of_vocabulary_history_penalises_nothing() {
    // An out-of-vocabulary history id penalises nothing.
    let logits = logits_tensor(&[1.0f32]);
    let history: Vec<u32> = vec![9];
    let out = apply_penalty(logits, (2.0f64).to_bits(), &history, 64).unwrap();
    let values: Vec<f32> = out.to_vec1().unwrap();
    assert_eq!(values, vec![1.0f32]);
}

#[test]
fn sampling_error_kind_carries_backend_message() {
    // A rank-2 tensor is rejected by the penalty routine of the backend.
    let logits = candle_core::Tensor::new(&[[1.0f32, 2.0], [3.0, 4.0]], &candle_core::Device::Cpu)
        .unwrap();
    let history: Vec<u32> = vec![0];
    let r = apply_penalty(logits, (2.0f64).to_bits(), &history, 64);
    assert!(matches!(r, Err(EngineError::Sampling(_))));
}

#[test]
fn window_start_arithmetic() {
    assert_eq!(penalty_window_start(10, 4), 6);
    assert_eq!(penalty_window_start(3, 64), 0);
    assert_eq!(penalty_window_start(0, 0), 0);
    assert_eq!(penalty_window_start(64, 64), 0);
}

#[test]
fn context_start_feeds_prompt_then_single_token() {
    assert_eq!(context_start(true, 7), 0);
    assert_eq!(context_start(false, 7), 6);
    assert_eq!(context_start(false, 1), 0);
}

#[test]
fn eos_resolution_falls_back_in_order() {
    assert_eq!(resolve_eos_token(Some(11), Some(22)), 11);
    assert_eq!(resolve_eos_token(None, Some(22)), 22);
    assert_eq!(resolve_eos_token(None, None), FALLBACK_EOS_TOKEN);
    assert_eq!(FALLBACK_EOS_TOKEN, 2);
}
