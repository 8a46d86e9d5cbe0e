//! The model instance and the lifecycle manager that owns it.
//!
//! A `ModelSlot` is the process-wide container holding at most one
//! `SmolLM2Model`.  Loading parses the configuration, screens it and the
//! weight table against the shapes the backend will demand, builds every
//! part of the new instance, and only then installs it — so a failed
//! load leaves the previous state untouched; clearing empties the slot
//! and is idempotent.

use vstd::prelude::*;

use crate::backend;
use crate::backend::ConfigDims;
use crate::errors::EngineError;
use crate::tok;

verus! {

/// One loaded model instance: the transformer handle, the tokenizer, the
/// resolved configuration, the device context and the mutable key/value
/// cache.  Created whole by a successful load; destroyed by being
/// replaced or cleared.  Values of the opaque fields originate in
/// `ModelSlot::load_model`, which screens the configuration and the
/// weight table so that the backend's aborts are unreachable through
/// them.
pub struct SmolLM2Model {
    /// The transformer forward-pass handle.
    pub(crate) model: candle_transformers::models::llama::Llama,
    /// The text-to-token-id mapping.
    pub(crate) tokenizer: tokenizers::Tokenizer,
    /// The resolved model configuration the instance was built from.
    pub(crate) config: candle_transformers::models::llama::Config,
    /// The device the tensors live on.
    pub(crate) device: candle_core::Device,
    /// Per-layer memory of past attention computations, mutated by
    /// forward passes of the running generation only.
    pub(crate) cache: candle_transformers::models::llama::Cache,
}

impl SmolLM2Model {
    /// Everything of the instance but its key/value cache: the parts a
    /// generation call must leave untouched.  The fields themselves stay
    /// crate-visible, so model and cache can never be recombined across
    /// instances from outside.
    pub closed spec fn parts(&self) -> (
        candle_transformers::models::llama::Llama,
        tokenizers::Tokenizer,
        candle_transformers::models::llama::Config,
        candle_core::Device,
    ) {
        (self.model, self.tokenizer, self.config, self.device)
    }
}

/// Whether two instances are the same model: every part equal except the
/// key/value cache, which forward passes advance.
pub open spec fn same_model_parts(a: SmolLM2Model, b: SmolLM2Model) -> bool {
    a.parts() == b.parts()
}

/// Field-wise equality of the non-cache parts spells out `same_model_parts`.
pub(crate) proof fn lemma_same_parts(a: SmolLM2Model, b: SmolLM2Model)
    requires
        a.model == b.model,
        a.tokenizer == b.tokenizer,
        a.config == b.config,
        a.device == b.device,
    ensures
        same_model_parts(a, b),
{
}

/// The single slot that owns at most one model instance.
pub struct ModelSlot {
    /// The installed instance, if any.
    pub slot: Option<SmolLM2Model>,
}

/// The slot state after an instance is installed: exactly the new
/// instance, whatever was there before.
pub open spec fn install_spec(slot: ModelSlot, instance: SmolLM2Model) -> ModelSlot {
    ModelSlot { slot: Some(instance) }
}

/// The slot state after a clear: empty, whatever was there before.
pub open spec fn clear_spec(slot: ModelSlot) -> ModelSlot {
    ModelSlot { slot: None }
}

/// The decimal text of one digit.
fn digit_text(d: usize) -> (r: &'static str)
    requires
        d < 10,
    ensures
        r@ == seq![backend::spec_digit(d as nat)],
{
    if d == 0 {
        proof {
            reveal_strlit("0");
        }
        "0"
    } else if d == 1 {
        proof {
            reveal_strlit("1");
        }
        "1"
    } else if d == 2 {
        proof {
            reveal_strlit("2");
        }
        "2"
    } else if d == 3 {
        proof {
            reveal_strlit("3");
        }
        "3"
    } else if d == 4 {
        proof {
            reveal_strlit("4");
        }
        "4"
    } else if d == 5 {
        proof {
            reveal_strlit("5");
        }
        "5"
    } else if d == 6 {
        proof {
            reveal_strlit("6");
        }
        "6"
    } else if d == 7 {
        proof {
            reveal_strlit("7");
        }
        "7"
    } else if d == 8 {
        proof {
            reveal_strlit("8");
        }
        "8"
    } else {
        proof {
            reveal_strlit("9");
        }
        "9"
    }
}

/// Append the decimal digits of `n` to a name under construction.
fn append_usize(s: &mut String, n: usize)
    ensures
        final(s)@ == old(s)@ + backend::spec_decimal(n as nat),
    decreases n,
{
    if n >= 10 {
        let q = n / 10;
        append_usize(s, q);
    }
    s.append(digit_text(n % 10));
    proof {
        assert(final(s)@ =~= old(s)@ + backend::spec_decimal(n as nat));
    }
}

/// The name of one per-layer tensor: the layer prefix, the index, and
/// the component suffix.
fn layer_name(i: usize, suffix: &str) -> (r: String)
    ensures
        r@ == backend::layer_tensor_name(i as nat, suffix@),
{
    let mut name = String::from_str("model.layers.");
    append_usize(&mut name, i);
    name.append(suffix);
    proof {
        assert(name@ =~= backend::layer_tensor_name(i as nat, suffix@));
    }
    name
}

/// Whether the archive holds the named tensor as a convertible matrix of
/// the given shape.
fn dims2_match(model_weights: &[u8], name: &String, d0: usize, d1: usize) -> (r: bool)
    requires
        backend::weights_wellformed(model_weights@),
    ensures
        r == backend::entry_matches2(model_weights@, name@, d0 as int, d1 as int),
{
    match backend::weights_entry_of(model_weights, name.as_str()) {
        Some(p) => {
            let (d, convertible) = p;
            if convertible && d.len() == 2 {
                d[0] == d0 && d[1] == d1
            } else {
                false
            }
        },
        None => false,
    }
}

/// Whether the archive holds the named tensor as a convertible vector of
/// the given length.
fn dims1_match(model_weights: &[u8], name: &String, d0: usize) -> (r: bool)
    requires
        backend::weights_wellformed(model_weights@),
    ensures
        r == backend::entry_matches1(model_weights@, name@, d0 as int),
{
    match backend::weights_entry_of(model_weights, name.as_str()) {
        Some(p) => {
            let (d, convertible) = p;
            if convertible && d.len() == 1 {
                d[0] == d0
            } else {
                false
            }
        },
        None => false,
    }
}

/// Screen the weight archive against every per-layer tensor the model
/// builder will fetch, with the shape and element type it demands: the
/// builder aborts rather than failing on a shortfall there, so the screen
/// runs first and a shortfall becomes an ordinary error.
fn check_layer_tensors(model_weights: &[u8], dims: &ConfigDims) -> (r: bool)
    requires
        dims.num_attention_heads >= 1,
        backend::weights_wellformed(model_weights@),
    ensures
        r == backend::weights_table_ok(model_weights@, *dims),
{
    if dims.num_hidden_layers == 0 {
        return true;
    }
    let head_dim = dims.hidden_size / dims.num_attention_heads;
    proof {
        assert(head_dim as int * dims.num_attention_heads as int <= dims.hidden_size as int) by {
            vstd::arithmetic::div_mod::lemma_fundamental_div_mod(
                dims.hidden_size as int,
                dims.num_attention_heads as int,
            );
            vstd::arithmetic::div_mod::lemma_mod_bound(
                dims.hidden_size as int,
                dims.num_attention_heads as int,
            );
            vstd::arithmetic::mul::lemma_mul_is_commutative(
                head_dim as int,
                dims.num_attention_heads as int,
            );
        }
    }
    let size_q = head_dim * dims.num_attention_heads;
    let size_kv = match head_dim.checked_mul(dims.num_key_value_heads) {
        Some(v) => v,
        None => {
            proof {
                assert(!backend::layer_ok(model_weights@, *dims, 0nat));
                assert(!backend::weights_table_ok(model_weights@, *dims));
            }
            return false;
        },
    };
    let mut i: usize = 0;
    while i < dims.num_hidden_layers
        invariant
            i <= dims.num_hidden_layers,
            dims.num_attention_heads >= 1,
            backend::weights_wellformed(model_weights@),
            head_dim == dims.hidden_size as int / dims.num_attention_heads as int,
            size_q == head_dim * dims.num_attention_heads,
            size_kv == head_dim * dims.num_key_value_heads,
            forall|j: nat| j < i ==> #[trigger] backend::layer_ok(model_weights@, *dims, j),
        decreases dims.num_hidden_layers - i,
    {
        let ok = dims2_match(
            model_weights,
            &layer_name(i, ".self_attn.q_proj.weight"),
            size_q,
            dims.hidden_size,
        ) && dims2_match(
            model_weights,
            &layer_name(i, ".self_attn.k_proj.weight"),
            size_kv,
            dims.hidden_size,
        ) && dims2_match(
            model_weights,
            &layer_name(i, ".self_attn.v_proj.weight"),
            size_kv,
            dims.hidden_size,
        ) && dims2_match(
            model_weights,
            &layer_name(i, ".self_attn.o_proj.weight"),
            dims.hidden_size,
            size_q,
        ) && dims2_match(
            model_weights,
            &layer_name(i, ".mlp.gate_proj.weight"),
            dims.intermediate_size,
            dims.hidden_size,
        ) && dims2_match(
            model_weights,
            &layer_name(i, ".mlp.up_proj.weight"),
            dims.intermediate_size,
            dims.hidden_size,
        ) && dims2_match(
            model_weights,
            &layer_name(i, ".mlp.down_proj.weight"),
            dims.hidden_size,
            dims.intermediate_size,
        ) && dims1_match(model_weights, &layer_name(i, ".input_layernorm.weight"), dims.hidden_size)
            && dims1_match(
            model_weights,
            &layer_name(i, ".post_attention_layernorm.weight"),
            dims.hidden_size,
        );
        if !ok {
            proof {
                assert(!backend::layer_ok(model_weights@, *dims, i as nat));
                assert(!backend::weights_table_ok(model_weights@, *dims));
            }
            return false;
        }
        proof {
            assert(backend::layer_ok(model_weights@, *dims, i as nat));
        }
        i = i + 1;
    }
    true
}

impl ModelSlot {
    /// Whether an instance is installed.
    pub open spec fn loaded(&self) -> bool {
        self.slot is Some
    }

    /// An empty slot: nothing loaded before the first load.
    pub fn new() -> (s: ModelSlot)
        ensures
            !s.loaded(),
    {
        ModelSlot { slot: None }
    }

    /// Report whether a model instance is currently installed.
    pub fn is_model_loaded(&self) -> (r: bool)
        ensures
            r == self.loaded(),
    {
        self.slot.is_some()
    }

    /// Remove and release the current instance, if any; clearing an empty
    /// slot is a no-op success.
    pub fn clear_model(&mut self)
        ensures
            *final(self) == clear_spec(*old(self)),
            !final(self).loaded(),
    {
        self.slot = None;
    }

    /// Install a fully built instance, replacing whatever was installed.
    fn install(&mut self, instance: SmolLM2Model)
        ensures
            *final(self) == install_spec(*old(self), instance),
    {
        self.slot = Some(instance);
    }

    /// Parse and screen the configuration, build the tokenizer, screen
    /// the weight archive against the builder's demands, build the model,
    /// allocate a fresh cache, and only then atomically install the new
    /// instance.  Any failure aborts without installing and leaves the
    /// prior state intact.
    ///
    /// Success is owed exactly when every stage accepts its input, and
    /// the error kind identifies the failing stage, tried in order: an
    /// unusable configuration is exactly `ConfigParse`, a rejected
    /// tokenizer definition is exactly `TokenizerLoad`, an unacceptable
    /// weight set is exactly `WeightsLoad`, and a refused cache is
    /// exactly `CacheAllocation`.
    pub fn load_model(
        &mut self,
        model_weights: &[u8],
        tokenizer_json: &str,
        config_json: &str,
    ) -> (r: Result<(), EngineError>)
        ensures
            r is Ok <==> (backend::config_usable(config_json@) && tok::tokenizer_wellformed(
                tokenizer_json@,
            ) && backend::weights_acceptable(model_weights@, config_json@)
                && backend::cache_buildable(config_json@)),
            r is Ok ==> final(self).loaded(),
            r matches Err(e) ==> *final(self) == *old(self),
            r matches Err(e) ==> (e is ConfigParse <==> !backend::config_usable(config_json@)),
            r matches Err(e) ==> (e is TokenizerLoad <==> (backend::config_usable(config_json@)
                && !tok::tokenizer_wellformed(tokenizer_json@))),
            r matches Err(e) ==> (e is WeightsLoad <==> (backend::config_usable(config_json@)
                && tok::tokenizer_wellformed(tokenizer_json@) && !backend::weights_acceptable(
                model_weights@,
                config_json@,
            ))),
            r matches Err(e) ==> (e is CacheAllocation <==> (backend::config_usable(config_json@)
                && tok::tokenizer_wellformed(tokenizer_json@) && backend::weights_acceptable(
                model_weights@,
                config_json@,
            ) && !backend::cache_buildable(config_json@))),
    {
        let (config, dims) = match backend::parse_config(config_json) {
            Ok(p) => p,
            Err(m) => {
                return Err(EngineError::ConfigParse(m));
            },
        };
        if dims.num_attention_heads == 0 || dims.num_key_value_heads == 0 {
            return Err(
                EngineError::ConfigParse(
                    String::from_str(
                        "configuration needs at least one attention head and one key/value head",
                    ),
                ),
            );
        }
        let tokenizer = match tok::load_tokenizer(tokenizer_json) {
            Ok(t) => t,
            Err(m) => {
                return Err(EngineError::TokenizerLoad(m));
            },
        };
        let device = backend::cpu_device();
        if let Err(m) = backend::check_weights_archive(model_weights) {
            return Err(EngineError::WeightsLoad(m));
        }
        if !check_layer_tensors(model_weights, &dims) {
            return Err(
                EngineError::WeightsLoad(
                    String::from_str(
                        "weights are missing a required layer tensor or hold one with the wrong shape",
                    ),
                ),
            );
        }
        let model = match backend::load_weights(model_weights, config_json, &device) {
            Ok(m) => m,
            Err(m) => {
                return Err(EngineError::WeightsLoad(m));
            },
        };
        let cache = match backend::new_cache(config_json, &device) {
            Ok(c) => c,
            Err(m) => {
                return Err(EngineError::CacheAllocation(m));
            },
        };
        self.install(SmolLM2Model { model, tokenizer, config, device, cache });
        Ok(())
    }
}

/// Law: installing is atomic replacement.  Two installs in succession
/// leave exactly the second instance, the same state as installing the
/// second alone; the slot reports loaded after either install.
pub proof fn lemma_atomic_replace(s: ModelSlot, first: SmolLM2Model, second: SmolLM2Model)
    ensures
        install_spec(install_spec(s, first), second) == install_spec(s, second),
        install_spec(install_spec(s, first), second).slot == Some(second),
        install_spec(s, first).loaded(),
        install_spec(install_spec(s, first), second).loaded(),
{
}

/// Law: clearing is idempotent and is the only lifecycle step that leaves
/// the slot unloaded; a clear after any install undoes it.
pub proof fn lemma_clear_idempotent(s: ModelSlot, instance: SmolLM2Model)
    ensures
        clear_spec(clear_spec(s)) == clear_spec(s),
        !clear_spec(s).loaded(),
        clear_spec(install_spec(s, instance)) == clear_spec(s),
{
}

} // verus!
