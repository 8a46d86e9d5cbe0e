//! Browser-oriented single-instance language-model inference engine.
//!
//! The crate owns the generation control loop and the model-lifecycle
//! manager: a process-wide slot holding at most one model instance, a
//! sampling policy, and the autoregressive loop that turns a prompt into a
//! stream of decoded text fragments.  The tensor math and the tokenizer's
//! encode/decode algorithms are external collaborators reached through a
//! small set of trusted wrappers.

use vstd::prelude::*;

pub mod engine;
pub mod errors;
pub mod model;
pub mod params;

mod backend;
mod jsonio;
mod tok;

verus! {

/// The crate's semantic version string.
pub fn get_version() -> (v: String)
    ensures
        v@ == "0.1.0"@,
{
    String::from_str("0.1.0")
}

} // verus!
