//! Trusted boundary to the numeric backend.
//!
//! The transformer forward pass, the tensors it works on, and the seeded
//! sampling of the next token are executed by the `candle` crates.  Each
//! wrapper makes one narrow call chain; the engine's verified logic
//! decides what is fed in and what is done with the results.
//!
//! Wrappers that rebuild a model configuration take the configuration
//! text itself, so that what they accept is named as a function of that
//! text (`config_spec`) and the preconditions that keep the collaborator
//! from aborting are stated over it.  Floating-point settings cross this
//! boundary as IEEE 754 bit patterns (see `params`); a wrapper rebuilds
//! the float by reinterpreting the bytes of the pattern through
//! `Tensor::from_raw_buffer`.

use vstd::prelude::*;

verus! {

/// Declares the backend's device handle; opaque to the verified code.
#[verifier::external_type_specification]
#[verifier::external_body]
pub struct ExDevice(candle_core::Device);

/// Declares the backend's error type, which its operator impls mention.
#[verifier::external_type_specification]
#[verifier::external_body]
pub struct ExCandleError(candle_core::Error);

/// Declares the backend's tensor; opaque to the verified code.
#[verifier::external_type_specification]
#[verifier::external_body]
pub struct ExTensor(candle_core::Tensor);

/// Declares the transformer model handle; opaque to the verified code.
#[verifier::external_type_specification]
#[verifier::external_body]
pub struct ExLlama(candle_transformers::models::llama::Llama);

/// Declares the key/value cache mutated by forward passes.
#[verifier::external_type_specification]
#[verifier::external_body]
pub struct ExLlamaCache(candle_transformers::models::llama::Cache);

/// Declares the resolved model configuration.
#[verifier::external_type_specification]
#[verifier::external_body]
pub struct ExConfig(candle_transformers::models::llama::Config);

/// Declares the seeded sampling policy over logits.
#[verifier::external_type_specification]
#[verifier::external_body]
pub struct ExLogitsProcessor(candle_transformers::generation::LogitsProcessor);

/// The dimensions the engine reads out of a parsed model configuration:
/// the plain values its screening decisions are made over.
#[derive(Clone, Copy, Debug, PartialEq, Eq, Structural)]
pub struct ConfigDims {
    /// Width of the hidden representation.
    pub hidden_size: usize,
    /// Width of the feed-forward intermediate representation.
    pub intermediate_size: usize,
    /// Number of transformer layers.
    pub num_hidden_layers: usize,
    /// Number of attention heads.
    pub num_attention_heads: usize,
    /// Number of key/value heads.
    pub num_key_value_heads: usize,
}

/// The parse of a configuration text: `Some` with its dimensions exactly
/// when the text matches the model-configuration schema; a function of
/// the text alone.
pub uninterp spec fn config_spec(s: Seq<char>) -> Option<ConfigDims>;

/// A configuration the backend can be driven with: it parses, and it has
/// at least one attention head and one key/value head — the counts the
/// collaborator divides by.
pub open spec fn config_usable(s: Seq<char>) -> bool {
    match config_spec(s) {
        Some(d) => d.num_attention_heads >= 1 && d.num_key_value_heads >= 1,
        None => false,
    }
}

/// Relies on `serde_json::from_str::<LlamaConfig>` and
/// `LlamaConfig::into_config` (flash attention off): `Ok` exactly when
/// the text matches the schema, handing back the resolved configuration
/// together with its dimensions as plain values.
#[verifier::external_body]
pub(crate) fn parse_config(config_json: &str) -> (r: Result<
    (candle_transformers::models::llama::Config, ConfigDims),
    String,
>)
    ensures
        r is Ok <==> config_spec(config_json@) is Some,
        r matches Ok(p) ==> Some(p.1) == config_spec(config_json@),
{
    let parsed: candle_transformers::models::llama::LlamaConfig = serde_json::from_str(config_json)
        .map_err(|e| e.to_string())?;
    let config = parsed.into_config(false);
    let dims = ConfigDims {
        hidden_size: config.hidden_size,
        intermediate_size: config.intermediate_size,
        num_hidden_layers: config.num_hidden_layers,
        num_attention_heads: config.num_attention_heads,
        num_key_value_heads: config.num_key_value_heads,
    };
    Ok((config, dims))
}

/// Relies on `Device::Cpu` being the single-threaded CPU backend the
/// engine targets.
#[verifier::external_body]
pub(crate) fn cpu_device() -> (r: candle_core::Device) {
    candle_core::Device::Cpu
}

/// Whether the bytes are a well-formed safetensors archive; what
/// `SliceSafetensors::new` accepts, as a function of the bytes alone.
pub uninterp spec fn weights_wellformed(w: Seq<u8>) -> bool;

/// The named tensor's header entry in a well-formed archive: `None` when
/// the archive has no tensor of that name or its data cannot be loaded,
/// otherwise its dimensions together with whether its element type is one
/// the model builder can convert to 32-bit floats.  A function of the
/// bytes and the name alone.
pub uninterp spec fn weights_entry(w: Seq<u8>, name: Seq<char>) -> Option<(Seq<usize>, bool)>;

/// Whether the model builder accepts the weight bytes under the
/// configuration text: what `Llama::load` returns `Ok` for, as a function
/// of the two alone.
pub uninterp spec fn llama_buildable(w: Seq<u8>, c: Seq<char>) -> bool;

/// Whether the cache allocator accepts the configuration text: what
/// `Cache::new` returns `Ok` for, as a function of the text alone.
pub uninterp spec fn cache_buildable(c: Seq<char>) -> bool;

/// The decimal digit characters.
pub open spec fn spec_digit(d: nat) -> char {
    if d == 0 {
        '0'
    } else if d == 1 {
        '1'
    } else if d == 2 {
        '2'
    } else if d == 3 {
        '3'
    } else if d == 4 {
        '4'
    } else if d == 5 {
        '5'
    } else if d == 6 {
        '6'
    } else if d == 7 {
        '7'
    } else if d == 8 {
        '8'
    } else {
        '9'
    }
}

/// The decimal text of a number.
pub open spec fn spec_decimal(n: nat) -> Seq<char>
    decreases n,
{
    if n < 10 {
        seq![spec_digit(n)]
    } else {
        spec_decimal(n / 10).push(spec_digit(n % 10))
    }
}

/// The name of one per-layer tensor: the layer prefix, the decimal layer
/// index, and the component suffix.
pub open spec fn layer_tensor_name(i: nat, suffix: Seq<char>) -> Seq<char> {
    ("model.layers.")@ + spec_decimal(i) + suffix
}

/// The archive holds the named tensor as a convertible matrix of the
/// given shape.
pub open spec fn entry_matches2(w: Seq<u8>, name: Seq<char>, d0: int, d1: int) -> bool {
    match weights_entry(w, name) {
        Some(p) => p.1 && p.0.len() == 2 && p.0[0] as int == d0 && p.0[1] as int == d1,
        None => false,
    }
}

/// The archive holds the named tensor as a convertible vector of the
/// given length.
pub open spec fn entry_matches1(w: Seq<u8>, name: Seq<char>, d0: int) -> bool {
    match weights_entry(w, name) {
        Some(p) => p.1 && p.0.len() == 1 && p.0[0] as int == d0,
        None => false,
    }
}

/// The archive holds every tensor of one layer with the exact shape the
/// model builder demands of it.
pub open spec fn layer_ok(w: Seq<u8>, dims: ConfigDims, i: nat) -> bool {
    let h = dims.hidden_size as int;
    let m = dims.intermediate_size as int;
    let head = h / (dims.num_attention_heads as int);
    let size_q = head * (dims.num_attention_heads as int);
    let size_kv = head * (dims.num_key_value_heads as int);
    &&& entry_matches2(w, layer_tensor_name(i, (".self_attn.q_proj.weight")@), size_q, h)
    &&& entry_matches2(w, layer_tensor_name(i, (".self_attn.k_proj.weight")@), size_kv, h)
    &&& entry_matches2(w, layer_tensor_name(i, (".self_attn.v_proj.weight")@), size_kv, h)
    &&& entry_matches2(w, layer_tensor_name(i, (".self_attn.o_proj.weight")@), h, size_q)
    &&& entry_matches2(w, layer_tensor_name(i, (".mlp.gate_proj.weight")@), m, h)
    &&& entry_matches2(w, layer_tensor_name(i, (".mlp.up_proj.weight")@), m, h)
    &&& entry_matches2(w, layer_tensor_name(i, (".mlp.down_proj.weight")@), h, m)
    &&& entry_matches1(w, layer_tensor_name(i, (".input_layernorm.weight")@), h)
    &&& entry_matches1(w, layer_tensor_name(i, (".post_attention_layernorm.weight")@), h)
}

/// The whole per-layer screen: a well-formed archive holding, for every
/// layer the configuration asks for, each tensor the builder will fetch,
/// with the builder's shape and a convertible element type.  This is the
/// condition under which the builder cannot abort.
pub open spec fn weights_table_ok(w: Seq<u8>, dims: ConfigDims) -> bool {
    &&& weights_wellformed(w)
    &&& forall|i: nat| i < dims.num_hidden_layers ==> #[trigger] layer_ok(w, dims, i)
}

/// Weight bytes the loading stage accepts under a configuration text:
/// the screened table together with the builder's own acceptance.
pub open spec fn weights_acceptable(w: Seq<u8>, c: Seq<char>) -> bool {
    &&& weights_table_ok(w, config_spec(c)->0)
    &&& llama_buildable(w, c)
}

/// Relies on `SliceSafetensors::new`: `Ok` exactly when the bytes are a
/// well-formed safetensors archive.
#[verifier::external_body]
pub(crate) fn check_weights_archive(model_weights: &[u8]) -> (r: Result<(), String>)
    ensures
        r is Ok <==> weights_wellformed(model_weights@),
{
    candle_core::safetensors::SliceSafetensors::new(model_weights).map(|_| ()).map_err(
        |e| e.to_string(),
    )
}

/// Relies on `SliceSafetensors::new`/`load` and `Tensor::dims`/`dtype`:
/// the named tensor's dimensions, and whether its element type is one
/// `to_dtype` can turn into 32-bit floats — the four packed formats it
/// refuses are screened out here.
#[verifier::external_body]
pub(crate) fn weights_entry_of(model_weights: &[u8], name: &str) -> (r: Option<(Vec<usize>, bool)>)
    ensures
        weights_wellformed(model_weights@) ==> ((r is Some <==> weights_entry(
            model_weights@,
            name@,
        ) is Some) && (r matches Some(p) ==> weights_entry(model_weights@, name@) == Some(
            (p.0@, p.1),
        ))),
{
    let archive = candle_core::safetensors::SliceSafetensors::new(model_weights).ok()?;
    let tensor = archive.load(name, &candle_core::Device::Cpu).ok()?;
    let convertible = !matches!(
        tensor.dtype(),
        candle_core::DType::F6E2M3
            | candle_core::DType::F6E3M2
            | candle_core::DType::F4
            | candle_core::DType::F8E8M0
    );
    Some((tensor.dims().to_vec(), convertible))
}

/// Relies on `candle_core::safetensors::load_buffer`,
/// `VarBuilder::from_tensors` and `Llama::load`: builds the transformer
/// from the weight bytes.  The preconditions — a usable configuration and
/// a screened weight table — exclude the zero-head division and the
/// per-layer abort inside `Llama::load`; every other shortfall returns
/// `Err`.  Success is a function of the bytes and the text, named
/// `llama_buildable`.
#[verifier::external_body]
pub(crate) fn load_weights(
    model_weights: &[u8],
    config_json: &str,
    device: &candle_core::Device,
) -> (r: Result<candle_transformers::models::llama::Llama, String>)
    requires
        config_usable(config_json@),
        weights_table_ok(model_weights@, config_spec(config_json@)->0),
    ensures
        r is Ok <==> llama_buildable(model_weights@, config_json@),
{
    let parsed: candle_transformers::models::llama::LlamaConfig = serde_json::from_str(config_json)
        .map_err(|e| e.to_string())?;
    let config = parsed.into_config(false);
    let tensors = candle_core::safetensors::load_buffer(model_weights, device).map_err(
        |e| e.to_string(),
    )?;
    let vb = candle_nn::VarBuilder::from_tensors(tensors, candle_core::DType::F32, device);
    candle_transformers::models::llama::Llama::load(vb, &config).map_err(|e| e.to_string())
}

/// Relies on `serde_json::from_str::<LlamaConfig>`, `into_config` and
/// `Cache::new`: allocates a fresh key/value cache sized to the
/// configuration, with the cache switched on.  The usable-configuration
/// precondition excludes the division by a zero head count in the
/// rotary-frequency setup; success is a function of the text, named
/// `cache_buildable`.
#[verifier::external_body]
pub(crate) fn new_cache(config_json: &str, device: &candle_core::Device) -> (r: Result<
    candle_transformers::models::llama::Cache,
    String,
>)
    requires
        config_usable(config_json@),
    ensures
        r is Ok <==> cache_buildable(config_json@),
{
    let parsed: candle_transformers::models::llama::LlamaConfig = serde_json::from_str(config_json)
        .map_err(|e| e.to_string())?;
    let config = parsed.into_config(false);
    candle_transformers::models::llama::Cache::new(true, candle_core::DType::F32, &config, device)
        .map_err(|e| e.to_string())
}

/// Relies on `Tensor::new`, `Tensor::unsqueeze`, `Llama::forward` and
/// `Tensor::squeeze`: one forward pass over the token ids at the given
/// position offset, mutating the cache; the collaborator narrows to the
/// last input position internally, so the squeezed result is that
/// position's logits row.  The non-empty precondition excludes the
/// position underflow on an empty input inside `Llama::forward`; the
/// division by the key/value-head count there cannot trap either, since
/// every model handle in this crate comes from `ModelSlot::load_model`,
/// which rejects a zero head count.
#[verifier::external_body]
pub(crate) fn forward_pass(
    model: &candle_transformers::models::llama::Llama,
    tokens: &[u32],
    index_pos: usize,
    cache: &mut candle_transformers::models::llama::Cache,
    device: &candle_core::Device,
) -> (r: Result<candle_core::Tensor, String>)
    requires
        tokens@.len() >= 1,
{
    let input = candle_core::Tensor::new(tokens, device).map_err(|e| e.to_string())?;
    let input = input.unsqueeze(0).map_err(|e| e.to_string())?;
    let logits = model.forward(&input, index_pos, cache).map_err(|e| e.to_string())?;
    logits.squeeze(0).map_err(|e| e.to_string())
}

/// Relies on `candle_transformers::utils::apply_repeat_penalty`: divides
/// (positive scores) or multiplies (negative scores) each context token's
/// logit by the penalty.  The penalty arrives as 64-bit float bits and is
/// rebuilt by reinterpreting those bytes through `Tensor::from_raw_buffer`
/// and narrowing with `Tensor::to_dtype`.
#[verifier::external_body]
pub(crate) fn penalize_logits(
    logits: &candle_core::Tensor,
    penalty_bits: u64,
    context: &[u32],
) -> (r: Result<candle_core::Tensor, String>) {
    let raw = penalty_bits.to_ne_bytes();
    let device = candle_core::Device::Cpu;
    let penalty = candle_core::Tensor::from_raw_buffer(&raw, candle_core::DType::F64, &[], &device)
        .and_then(|t| t.to_dtype(candle_core::DType::F32))
        .and_then(|t| t.to_scalar())
        .map_err(|e| e.to_string())?;
    candle_transformers::utils::apply_repeat_penalty(logits, penalty, context).map_err(
        |e| e.to_string(),
    )
}

/// Relies on `LogitsProcessor::new`: a sampling policy seeded with the
/// given seed, over the temperature and nucleus threshold whose 64-bit
/// float bits are handed in (temperature below 1e-7 means greedy argmax
/// decoding).  The bits are rebuilt into floats by reinterpreting their
/// bytes through `Tensor::from_raw_buffer`.
#[verifier::external_body]
pub(crate) fn new_logits_processor(seed: u64, temperature_bits: u64, top_p_bits: u64) -> (r:
    Result<candle_transformers::generation::LogitsProcessor, String>) {
    let device = candle_core::Device::Cpu;
    let dtype = candle_core::DType::F64;
    let temperature = candle_core::Tensor::from_raw_buffer(
        &temperature_bits.to_ne_bytes(), dtype, &[], &device,
    )
        .and_then(|t| t.to_scalar())
        .map_err(|e| e.to_string())?;
    let top_p = candle_core::Tensor::from_raw_buffer(&top_p_bits.to_ne_bytes(), dtype, &[], &device)
        .and_then(|t| t.to_scalar())
        .map_err(|e| e.to_string())?;
    Ok(candle_transformers::generation::LogitsProcessor::new(seed, Some(temperature), Some(top_p)))
}

/// Relies on `LogitsProcessor::sample`: draws the next token id from a
/// logits row, advancing the processor's seeded random generator.
#[verifier::external_body]
pub(crate) fn sample_token(
    processor: &mut candle_transformers::generation::LogitsProcessor,
    logits: &candle_core::Tensor,
) -> (r: Result<u32, String>) {
    processor.sample(logits).map_err(|e| e.to_string())
}

} // verus!
