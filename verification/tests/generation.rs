use model_in_browser::engine::StepOutcome;
use model_in_browser::errors::EngineError;
use model_in_browser::model::ModelSlot;
use model_in_browser::params::GenerationParams;

/// A word-level tokenizer over a sixteen-word vocabulary, with `</s>` as
/// the end-of-sequence marker at id 2.
const TOKENIZER_JSON: &str = r#"{
  "version": "1.0",
  "truncation": null,
  "padding": null,
  "added_tokens": [],
  "normalizer": null,
  "pre_tokenizer": {"type": "Whitespace"},
  "post_processor": null,
  "decoder": null,
  "model": {
    "type": "WordLevel",
    "vocab": {
      "<unk>": 0, "<s>": 1, "</s>": 2, "The": 3, "sky": 4, "is": 5,
      "blue": 6, "red": 7, "green": 8, "sun": 9, "moon": 10, "star": 11,
      "cloud": 12, "rain": 13, "wind": 14, "sea": 15
    },
    "unk_token": "<unk>"
  }
}"#;

/// A one-layer transformer sized to the sixteen-word vocabulary.
const CONFIG_JSON: &str = r#"{
  "hidden_size": 8,
  "intermediate_size": 16,
  "vocab_size": 16,
  "num_hidden_layers": 1,
  "num_attention_heads": 2,
  "num_key_value_heads": 2,
  "rms_norm_eps": 1e-5,
  "rope_theta": 10000.0,
  "max_position_embeddings": 64
}"#;

/// Deterministic pseudo-random weight values in (-scale/2, scale/2).
fn det_vals(seed: u64, n: usize, scale: f32) -> Vec<f32> {
    let mut state = seed.wrapping_mul(0x9E3779B97F4A7C15).wrapping_add(1);
    let mut out = Vec::with_capacity(n);
    for _ in 0..n {
        state = state
            .wrapping_mul(6364136223846793005)
            .wrapping_add(1442695040888963407);
        let unit = ((state >> 33) as f64) / ((1u64 << 31) as f64);
        out.push(((unit - 0.5) as f32) * scale);
    }
    out
}

fn f32_bytes(vals: &[f32]) -> Vec<u8> {
    let mut out = Vec::with_capacity(vals.len() * 4);
    for v in vals {
        out.extend_from_slice(&v.to_le_bytes());
    }
    out
}

/// Serialize a full tiny-model weight set keyed by the given seed.
fn tiny_weights(seed: u64) -> Vec<u8> {
    tiny_weights_without(seed, "")
}

/// As `tiny_weights`, leaving out the tensor with the given name.
fn tiny_weights_without(seed: u64, skip: &str) -> Vec<u8> {
    let mut tensors: Vec<(String, Vec<usize>, Vec<u8>)> = Vec::new();
    let mut push = |tensors: &mut Vec<(String, Vec<usize>, Vec<u8>)>,
                    name: &str,
                    shape: Vec<usize>,
                    vals: Vec<f32>| {
        tensors.push((name.to_string(), shape, f32_bytes(&vals)));
    };
    let ones = |n: usize| vec![1.0f32; n];
    push(
        &mut tensors,
        "model.embed_tokens.weight",
        vec![16, 8],
        det_vals(seed.wrapping_add(1), 128, 1.0),
    );
    push(
        &mut tensors,
        "lm_head.weight",
        vec![16, 8],
        det_vals(seed.wrapping_add(2), 128, 1.0),
    );
    push(&mut tensors, "model.norm.weight", vec![8], ones(8));
    let layer = "model.layers.0";
    push(
        &mut tensors,
        &format!("{layer}.self_attn.q_proj.weight"),
        vec![8, 8],
        det_vals(seed.wrapping_add(3), 64, 0.8),
    );
    push(
        &mut tensors,
        &format!("{layer}.self_attn.k_proj.weight"),
        vec![8, 8],
        det_vals(seed.wrapping_add(4), 64, 0.8),
    );
    push(
        &mut tensors,
        &format!("{layer}.self_attn.v_proj.weight"),
        vec![8, 8],
        det_vals(seed.wrapping_add(5), 64, 0.8),
    );
    push(
        &mut tensors,
        &format!("{layer}.self_attn.o_proj.weight"),
        vec![8, 8],
        det_vals(seed.wrapping_add(6), 64, 0.8),
    );
    push(
        &mut tensors,
        &format!("{layer}.mlp.gate_proj.weight"),
        vec![16, 8],
        det_vals(seed.wrapping_add(7), 128, 0.8),
    );
    push(
        &mut tensors,
        &format!("{layer}.mlp.up_proj.weight"),
        vec![16, 8],
        det_vals(seed.wrapping_add(8), 128, 0.8),
    );
    push(
        &mut tensors,
        &format!("{layer}.mlp.down_proj.weight"),
        vec![8, 16],
        det_vals(seed.wrapping_add(9), 128, 0.8),
    );
    push(
        &mut tensors,
        &format!("{layer}.input_layernorm.weight"),
        vec![8],
        ones(8),
    );
    push(
        &mut tensors,
        &format!("{layer}.post_attention_layernorm.weight"),
        vec![8],
        ones(8),
    );
    let views: Vec<(String, safetensors::tensor::TensorView)> = tensors
        .iter()
        .filter(|(name, _, _)| name.as_str() != skip)
        .map(|(name, shape, data)| {
            (
                name.clone(),
                safetensors::tensor::TensorView::new(safetensors::Dtype::F32, shape.clone(), data)
                    .unwrap(),
            )
        })
        .collect();
    safetensors::serialize(views, None).unwrap()
}

fn load_tiny(slot: &mut ModelSlot, weight_seed: u64) {
    let weights = tiny_weights(weight_seed);
    slot.load_model(&weights, TOKENIZER_JSON, CONFIG_JSON).unwrap();
    assert!(slot.is_model_loaded());
}

fn params(max_tokens: usize, temperature: f64, top_p: f64, penalty: f64, seed: u64) -> GenerationParams {
    GenerationParams {
        max_tokens,
        temperature_bits: temperature.to_bits(),
        top_p_bits: top_p.to_bits(),
        repeat_penalty_bits: penalty.to_bits(),
        repeat_last_n: 64,
        seed,
    }
}

#[test]
fn load_replaces_and_clear_empties() {
    let mut slot = ModelSlot::new();
    assert!(!slot.is_model_loaded());
    load_tiny(&mut slot, 10);
    assert!(slot.is_model_loaded());
    load_tiny(&mut slot, 20);
    assert!(slot.is_model_loaded());
    slot.clear_model();
    assert!(!slot.is_model_loaded());
    slot.clear_model();
    assert!(!slot.is_model_loaded());
}

#[test]
fn greedy_generation_is_deterministic() {
    let mut texts: Vec<String> = Vec::new();
    for _ in 0..2 {
        let mut slot = ModelSlot::new();
        load_tiny(&mut slot, 7);
        let out = slot.generate("The sky is", &params(5, 0.0, 0.9, 1.0, 42)).unwrap();
        texts.push(out.text);
    }
    assert_eq!(texts[0], texts[1]);
}

#[test]
fn greedy_generation_ignores_the_seed() {
    let mut texts: Vec<String> = Vec::new();
    for seed in [1u64, 99u64] {
        let mut slot = ModelSlot::new();
        load_tiny(&mut slot, 7);
        let out = slot.generate("The sky is", &params(5, 0.0, 0.9, 1.0, seed)).unwrap();
        texts.push(out.text);
    }
    assert_eq!(texts[0], texts[1]);
}

#[test]
fn sampled_generation_differs_across_seeds() {
    let mut outputs: Vec<(String, usize)> = Vec::new();
    for seed in [1u64, 2u64] {
        let mut slot = ModelSlot::new();
        load_tiny(&mut slot, 7);
        let out = slot.generate("The sky is", &params(12, 2.0, 1.0, 1.0, seed)).unwrap();
        outputs.push((out.text, out.tokens_generated));
    }
    assert_ne!(outputs[0], outputs[1]);
}

#[test]
fn generated_tokens_respect_max_tokens() {
    let mut slot = ModelSlot::new();
    load_tiny(&mut slot, 7);
    let out = slot.generate("The sky is", &params(4, 0.7, 0.9, 1.1, 42)).unwrap();
    assert!(out.tokens_generated <= 4);
    if out.tokens_generated < 4 {
        assert!(out.eos_reached);
    }
    assert!(out.fragments.len() <= out.tokens_generated);
}

#[test]
fn fragments_concatenate_to_the_returned_text() {
    let mut slot = ModelSlot::new();
    load_tiny(&mut slot, 7);
    let out = slot.generate("The sky is", &params(6, 0.9, 0.9, 1.1, 5)).unwrap();
    let joined: String = out.fragments.concat();
    assert_eq!(joined, out.text);
}

#[test]
fn failed_load_leaves_the_original_model_in_use() {
    let mut slot = ModelSlot::new();
    load_tiny(&mut slot, 7);
    let r = slot.load_model(&[], TOKENIZER_JSON, "{not json");
    assert!(matches!(r, Err(EngineError::ConfigParse(_))));
    assert!(slot.is_model_loaded());
    let text_after_failed_load = slot
        .generate("The sky is", &params(5, 0.0, 0.9, 1.0, 42))
        .unwrap()
        .text;

    let mut fresh = ModelSlot::new();
    load_tiny(&mut fresh, 7);
    let text_fresh = fresh
        .generate("The sky is", &params(5, 0.0, 0.9, 1.0, 42))
        .unwrap()
        .text;
    assert_eq!(text_after_failed_load, text_fresh);
}

#[test]
fn missing_layer_tensor_is_a_weights_load_error() {
    let mut slot = ModelSlot::new();
    let weights = tiny_weights_without(7, "model.layers.0.self_attn.k_proj.weight");
    let r = slot.load_model(&weights, TOKENIZER_JSON, CONFIG_JSON);
    assert!(matches!(r, Err(EngineError::WeightsLoad(_))));
    assert!(!slot.is_model_loaded());
}

#[test]
fn empty_prompt_is_a_tokenization_error() {
    // The word-level tokenizer inserts no begin marker, so an empty
    // prompt encodes to no tokens and the engine reports it rather than
    // feeding the backend an empty input.
    let mut slot = ModelSlot::new();
    load_tiny(&mut slot, 7);
    let r = slot.generate("", &params(4, 0.0, 0.9, 1.0, 42));
    assert!(matches!(r, Err(EngineError::Tokenization(_))));
    assert!(slot.is_model_loaded());
}

#[test]
fn zero_max_tokens_does_no_work() {
    let mut slot = ModelSlot::new();
    load_tiny(&mut slot, 7);
    let out = slot.generate("The sky is", &params(0, 0.7, 0.9, 1.1, 42)).unwrap();
    assert_eq!(out.tokens_generated, 0);
    assert_eq!(out.text, "");
    assert!(out.fragments.is_empty());
    assert!(!out.eos_reached);
}

#[test]
fn repeat_penalty_changes_greedy_repetition() {
    // With the penalty disabled and with it active, the engine runs the
    // same greedy decode; the histories may then diverge.  The call must
    // succeed either way and respect the bound.
    let mut slot = ModelSlot::new();
    load_tiny(&mut slot, 7);
    let out = slot.generate("The sky is", &params(6, 0.0, 0.9, 1.5, 42)).unwrap();
    assert!(out.tokens_generated <= 6);
}

#[test]
fn stepwise_session_streams_in_order() {
    let mut slot = ModelSlot::new();
    load_tiny(&mut slot, 7);
    let mut session = slot.begin_generation("The sky is", &params(6, 0.0, 0.9, 1.1, 42)).unwrap();
    assert!(!slot.is_model_loaded());
    let mut streamed: Vec<String> = Vec::new();
    loop {
        match session.step() {
            Ok(StepOutcome::Fragment(fragment)) => streamed.push(fragment),
            Ok(StepOutcome::Skipped) => {}
            Ok(StepOutcome::Finished) => break,
            Err(e) => panic!("{}", e.message()),
        }
    }
    let out = session.finish(&mut slot);
    assert!(slot.is_model_loaded());
    assert_eq!(streamed, out.fragments);
    assert_eq!(streamed.concat(), out.text);

    let mut fresh = ModelSlot::new();
    load_tiny(&mut fresh, 7);
    let direct = fresh.generate("The sky is", &params(6, 0.0, 0.9, 1.1, 42)).unwrap();
    assert_eq!(out.text, direct.text);
    assert_eq!(out.tokens_generated, direct.tokens_generated);
}
