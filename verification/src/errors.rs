//! The closed set of failures the engine can report.
//!
//! Every fallible boundary operation returns one of these kinds together
//! with a human-readable message identifying the failing stage.  All of
//! them are terminal for the current call; none is retried internally.

use vstd::prelude::*;

verus! {

/// One error kind per failing stage, each carrying a diagnostic message.
#[derive(Debug, Clone)]
pub enum EngineError {
    /// A structured configuration text could not be parsed.
    ConfigParse(String),
    /// The tokenizer definition could not be turned into a tokenizer.
    TokenizerLoad(String),
    /// The model weights could not be loaded into the numeric backend.
    WeightsLoad(String),
    /// The key/value cache could not be allocated.
    CacheAllocation(String),
    /// Exclusive access to the model slot could not be taken.
    LockContention(String),
    /// The prompt could not be encoded into token ids.
    Tokenization(String),
    /// A forward pass of the numeric backend failed.
    ForwardPass(String),
    /// Drawing the next token from the logits failed.
    Sampling(String),
    /// An operation that needs a model found the slot empty.
    ModelNotLoaded(String),
}

impl EngineError {
    /// The diagnostic message attached to this error.
    pub open spec fn message_spec(&self) -> Seq<char> {
        match self {
            EngineError::ConfigParse(m) => m@,
            EngineError::TokenizerLoad(m) => m@,
            EngineError::WeightsLoad(m) => m@,
            EngineError::CacheAllocation(m) => m@,
            EngineError::LockContention(m) => m@,
            EngineError::Tokenization(m) => m@,
            EngineError::ForwardPass(m) => m@,
            EngineError::Sampling(m) => m@,
            EngineError::ModelNotLoaded(m) => m@,
        }
    }

    /// Hand out the diagnostic message.
    pub fn message(&self) -> (m: &str)
        ensures
            m@ == self.message_spec(),
    {
        match self {
            EngineError::ConfigParse(m) => m.as_str(),
            EngineError::TokenizerLoad(m) => m.as_str(),
            EngineError::WeightsLoad(m) => m.as_str(),
            EngineError::CacheAllocation(m) => m.as_str(),
            EngineError::LockContention(m) => m.as_str(),
            EngineError::Tokenization(m) => m.as_str(),
            EngineError::ForwardPass(m) => m.as_str(),
            EngineError::Sampling(m) => m.as_str(),
            EngineError::ModelNotLoaded(m) => m.as_str(),
        }
    }
}

} // verus!
