//! Per-call generation parameters and their structured-text form.
//!
//! Floating-point settings (temperature, nucleus threshold, repeat penalty)
//! are held as IEEE 754 bit patterns so that the engine's decisions about
//! them are over plain integers; the numeric backend receives the floats
//! rebuilt from the very same bits.

use vstd::prelude::*;

use crate::errors::EngineError;
use crate::jsonio;

verus! {

/// Default bound on the number of generated tokens.
pub const DEFAULT_MAX_TOKENS: usize = 256;

/// Bits of the default sampling temperature, 0.7 as a 64-bit float.
pub const DEFAULT_TEMPERATURE_BITS: u64 = 0x3FE6666666666666;

/// Bits of the default nucleus threshold, 0.9 as a 64-bit float.
pub const DEFAULT_TOP_P_BITS: u64 = 0x3FECCCCCCCCCCCCD;

/// Bits of the default repeat penalty, 1.1 as a 64-bit float.
pub const DEFAULT_REPEAT_PENALTY_BITS: u64 = 0x3FF199999999999A;

/// Bits of the repeat penalty that disables the transform, 1.0 as a
/// 64-bit float.  1.0 has exactly one such representation, so comparing
/// bit patterns agrees with comparing the floats themselves here.
pub const REPEAT_PENALTY_DISABLED_BITS: u64 = 0x3FF0000000000000;

/// Default size of the repeat-penalty window.
pub const DEFAULT_REPEAT_LAST_N: usize = 64;

/// Default seed of the sampling random generator.
pub const DEFAULT_SEED: u64 = 42;

/// Immutable configuration of one `generate` call.
///
/// The three floating-point settings are stored as IEEE 754 bit patterns
/// (64-bit float bits in every case); every float value is representable
/// exactly.
#[derive(Debug, Clone, PartialEq, Eq, Structural)]
pub struct GenerationParams {
    /// Maximum number of tokens to generate.
    pub max_tokens: usize,
    /// Bits of the sampling temperature (0.0 means greedy decoding).
    pub temperature_bits: u64,
    /// Bits of the top-p (nucleus) sampling threshold.
    pub top_p_bits: u64,
    /// Bits of the repeat penalty (1.0 means the transform is disabled).
    pub repeat_penalty_bits: u64,
    /// Number of history tokens the repeat penalty looks back over.
    pub repeat_last_n: usize,
    /// Seed of the sampling random generator.
    pub seed: u64,
}

impl GenerationParams {
    /// The default parameter set as a mathematical value.
    pub open spec fn default_spec() -> GenerationParams {
        GenerationParams {
            max_tokens: DEFAULT_MAX_TOKENS,
            temperature_bits: DEFAULT_TEMPERATURE_BITS,
            top_p_bits: DEFAULT_TOP_P_BITS,
            repeat_penalty_bits: DEFAULT_REPEAT_PENALTY_BITS,
            repeat_last_n: DEFAULT_REPEAT_LAST_N,
            seed: DEFAULT_SEED,
        }
    }
}

impl Default for GenerationParams {
    /// The defaults named in the configuration schema.
    fn default() -> (d: Self)
        ensures
            d == GenerationParams::default_spec(),
    {
        GenerationParams {
            max_tokens: DEFAULT_MAX_TOKENS,
            temperature_bits: DEFAULT_TEMPERATURE_BITS,
            top_p_bits: DEFAULT_TOP_P_BITS,
            repeat_penalty_bits: DEFAULT_REPEAT_PENALTY_BITS,
            repeat_last_n: DEFAULT_REPEAT_LAST_N,
            seed: DEFAULT_SEED,
        }
    }
}

/// One optional unsigned-integer field, combined with its default:
/// absent means the default, present means the value, and a field that
/// is not an unsigned integer means rejection.
pub open spec fn field_or_default_u64(f: Option<Option<u64>>, d: u64) -> Option<u64> {
    match f {
        None => Some(d),
        Some(Some(v)) => Some(v),
        Some(None) => None,
    }
}

/// As `field_or_default_u64`, with the value also required to fit the
/// machine's word.
pub open spec fn field_or_default_usize(f: Option<Option<u64>>, d: usize) -> Option<usize> {
    match f {
        None => Some(d),
        Some(Some(v)) => if v <= usize::MAX {
            Some(v as usize)
        } else {
            None
        },
        Some(None) => None,
    }
}

/// The parameters a non-empty configuration text denotes: `None` exactly
/// when the text is rejected (not a JSON object, a field of the wrong
/// type, or an integer field that does not fit), and otherwise each of
/// the six schema fields as given, with the documented default for each
/// absent one.
pub open spec fn params_of_text(s: Seq<char>) -> Option<GenerationParams> {
    if !jsonio::params_text_wellformed(s) {
        None
    } else {
        let max_tokens = field_or_default_usize(
            jsonio::json_field_u64(s, ("max_tokens")@),
            DEFAULT_MAX_TOKENS,
        );
        let temperature_bits = field_or_default_u64(
            jsonio::json_field_bits(s, ("temperature")@),
            DEFAULT_TEMPERATURE_BITS,
        );
        let top_p_bits = field_or_default_u64(
            jsonio::json_field_bits(s, ("top_p")@),
            DEFAULT_TOP_P_BITS,
        );
        let repeat_penalty_bits = field_or_default_u64(
            jsonio::json_field_bits(s, ("repeat_penalty")@),
            DEFAULT_REPEAT_PENALTY_BITS,
        );
        let repeat_last_n = field_or_default_usize(
            jsonio::json_field_u64(s, ("repeat_last_n")@),
            DEFAULT_REPEAT_LAST_N,
        );
        let seed = field_or_default_u64(jsonio::json_field_u64(s, ("seed")@), DEFAULT_SEED);
        if max_tokens is Some && temperature_bits is Some && top_p_bits is Some
            && repeat_penalty_bits is Some && repeat_last_n is Some && seed is Some {
            Some(
                GenerationParams {
                    max_tokens: max_tokens->0,
                    temperature_bits: temperature_bits->0,
                    top_p_bits: top_p_bits->0,
                    repeat_penalty_bits: repeat_penalty_bits->0,
                    repeat_last_n: repeat_last_n->0,
                    seed: seed->0,
                },
            )
        } else {
            None
        }
    }
}

/// Read one unsigned-integer field that must fit the machine's word.
fn read_usize_field(params_json: &str, key: &str, default: usize) -> (r: Result<
    usize,
    EngineError,
>)
    ensures
        (r is Ok) <==> field_or_default_usize(
            jsonio::json_field_u64(params_json@, key@),
            default,
        ) is Some,
        r matches Ok(v) ==> field_or_default_usize(
            jsonio::json_field_u64(params_json@, key@),
            default,
        ) == Some(v),
        r matches Err(e) ==> e is ConfigParse,
{
    match jsonio::read_field_u64(params_json, key) {
        None => Ok(default),
        Some(Some(v)) => {
            if v <= usize::MAX as u64 {
                Ok(v as usize)
            } else {
                Err(EngineError::ConfigParse(String::from_str(
                    "parameter does not fit in a machine word",
                )))
            }
        },
        Some(None) => Err(EngineError::ConfigParse(String::from_str(
            "parameter is not an unsigned integer",
        ))),
    }
}

/// Read one unsigned 64-bit integer field.
fn read_u64_field(params_json: &str, key: &str, default: u64) -> (r: Result<u64, EngineError>)
    ensures
        (r is Ok) <==> field_or_default_u64(
            jsonio::json_field_u64(params_json@, key@),
            default,
        ) is Some,
        r matches Ok(v) ==> field_or_default_u64(
            jsonio::json_field_u64(params_json@, key@),
            default,
        ) == Some(v),
        r matches Err(e) ==> e is ConfigParse,
{
    match jsonio::read_field_u64(params_json, key) {
        None => Ok(default),
        Some(Some(v)) => Ok(v),
        Some(None) => Err(EngineError::ConfigParse(String::from_str(
            "parameter is not an unsigned integer",
        ))),
    }
}

/// Read one numeric field as 64-bit float bits.
fn read_bits_field(params_json: &str, key: &str, default: u64) -> (r: Result<u64, EngineError>)
    ensures
        (r is Ok) <==> field_or_default_u64(
            jsonio::json_field_bits(params_json@, key@),
            default,
        ) is Some,
        r matches Ok(v) ==> field_or_default_u64(
            jsonio::json_field_bits(params_json@, key@),
            default,
        ) == Some(v),
        r matches Err(e) ==> e is ConfigParse,
{
    match jsonio::read_field_bits(params_json, key) {
        None => Ok(default),
        Some(Some(v)) => Ok(v),
        Some(None) => Err(EngineError::ConfigParse(String::from_str(
            "parameter is not a number",
        ))),
    }
}

/// Parse the structured parameter text of one `generate` call.
///
/// An empty text selects the documented defaults.  Otherwise the text
/// must be a JSON object; each of the six schema fields is optional and
/// an absent field takes its default.  The result is exactly what the
/// text denotes: rejection — always `ConfigParse` — happens precisely on
/// text that is not a JSON object, a field of the wrong type, or an
/// integer field that does not fit.  Out-of-range values are not
/// otherwise rejected; they are the caller's responsibility.
pub fn parse_params(params_json: &str) -> (r: Result<GenerationParams, EngineError>)
    ensures
        params_json@.len() == 0 ==> r == Ok::<GenerationParams, EngineError>(
            GenerationParams::default_spec(),
        ),
        params_json@.len() > 0 ==> ((r is Ok) <==> params_of_text(params_json@) is Some),
        params_json@.len() > 0 && r is Ok ==> params_of_text(params_json@) == Some(r->Ok_0),
        r matches Err(e) ==> e is ConfigParse,
{
    if params_json.unicode_len() == 0 {
        return Ok(GenerationParams::default());
    }
    if let Err(m) = jsonio::check_params_text(params_json) {
        return Err(EngineError::ConfigParse(m));
    }
    let max_tokens = match read_usize_field(params_json, "max_tokens", DEFAULT_MAX_TOKENS) {
        Ok(v) => v,
        Err(e) => {
            return Err(e);
        },
    };
    let temperature_bits = match read_bits_field(
        params_json,
        "temperature",
        DEFAULT_TEMPERATURE_BITS,
    ) {
        Ok(v) => v,
        Err(e) => {
            return Err(e);
        },
    };
    let top_p_bits = match read_bits_field(params_json, "top_p", DEFAULT_TOP_P_BITS) {
        Ok(v) => v,
        Err(e) => {
            return Err(e);
        },
    };
    let repeat_penalty_bits = match read_bits_field(
        params_json,
        "repeat_penalty",
        DEFAULT_REPEAT_PENALTY_BITS,
    ) {
        Ok(v) => v,
        Err(e) => {
            return Err(e);
        },
    };
    let repeat_last_n = match read_usize_field(params_json, "repeat_last_n", DEFAULT_REPEAT_LAST_N) {
        Ok(v) => v,
        Err(e) => {
            return Err(e);
        },
    };
    let seed = match read_u64_field(params_json, "seed", DEFAULT_SEED) {
        Ok(v) => v,
        Err(e) => {
            return Err(e);
        },
    };
    Ok(
        GenerationParams {
            max_tokens,
            temperature_bits,
            top_p_bits,
            repeat_penalty_bits,
            repeat_last_n,
            seed,
        },
    )
}

} // verus!
