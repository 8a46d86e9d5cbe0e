use model_in_browser::errors::EngineError;
use model_in_browser::get_version;
use model_in_browser::model::ModelSlot;
use model_in_browser::params::GenerationParams;

#[test]
fn version_string() {
    assert_eq!(get_version(), "0.1.0");
}

#[test]
fn fresh_slot_is_unloaded() {
    let slot = ModelSlot::new();
    assert!(!slot.is_model_loaded());
}

#[test]
fn clear_is_idempotent_on_empty_slot() {
    let mut slot = ModelSlot::new();
    slot.clear_model();
    assert!(!slot.is_model_loaded());
    slot.clear_model();
    assert!(!slot.is_model_loaded());
}

#[test]
fn generate_without_model_is_model_not_loaded() {
    let mut slot = ModelSlot::new();
    let params = GenerationParams::default();
    let r = slot.generate("The sky is", &params);
    assert!(matches!(r, Err(EngineError::ModelNotLoaded(_))));
    assert!(!slot.is_model_loaded());
}

#[test]
fn load_with_malformed_config_fails_and_installs_nothing() {
    let mut slot = ModelSlot::new();
    let r = slot.load_model(&[], "{}", "{not json");
    assert!(matches!(r, Err(EngineError::ConfigParse(_))));
    assert!(!slot.is_model_loaded());
}

#[test]
fn load_with_malformed_tokenizer_fails_and_installs_nothing() {
    let mut slot = ModelSlot::new();
    let config = "{\"hidden_size\":8,\"intermediate_size\":16,\"vocab_size\":16,\
                   \"num_hidden_layers\":1,\"num_attention_heads\":2,\"num_key_value_heads\":2,\
                   \"rms_norm_eps\":1e-5,\"rope_theta\":10000.0,\"max_position_embeddings\":64}";
    let r = slot.load_model(&[], "{not a tokenizer", config);
    assert!(matches!(r, Err(EngineError::TokenizerLoad(_))));
    assert!(!slot.is_model_loaded());
}

#[test]
fn zero_attention_heads_is_a_config_parse_error() {
    let mut slot = ModelSlot::new();
    let config = "{\"hidden_size\":8,\"intermediate_size\":16,\"vocab_size\":16,\
                   \"num_hidden_layers\":1,\"num_attention_heads\":0,\"num_key_value_heads\":0,\
                   \"rms_norm_eps\":1e-5,\"rope_theta\":10000.0,\"max_position_embeddings\":64}";
    let r = slot.load_model(&[], "{}", config);
    assert!(matches!(r, Err(EngineError::ConfigParse(_))));
    assert!(!slot.is_model_loaded());
}

#[test]
fn error_message_is_kept() {
    let e = EngineError::ModelNotLoaded(String::from("no model is loaded"));
    assert_eq!(e.message(), "no model is loaded");
}
