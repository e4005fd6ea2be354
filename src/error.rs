//! Errors of the synthesis engine.

use vstd::prelude::*;

verus! {

/// A configuration value that is rejected before any inference runs.
#[derive(Debug, Clone, Copy, PartialEq, Eq, Structural)]
pub enum ConfigError {
    /// The flow sampler needs at least one integration step.
    ZeroFlowSteps,
    /// Streaming needs at least one token per chunk.
    ZeroChunkSize,
    /// The sampling temperature is not a positive finite number.
    InvalidTemperature,
}

/// A failure of the model stack while synthesising.
#[derive(Debug, Clone)]
pub enum InferenceError {
    /// The generation loop produced no latent frame.
    EmptyTrajectory,
    /// Positions `offset..offset + seq_len` reach past the `max` positions
    /// that have a positional encoding.
    SequenceTooLong { offset: usize, seq_len: usize, max: usize },
    /// A tensor does not have the axes its use needs.
    ShapeMismatch,
    /// A shape or arithmetic failure reported by the tensor library.
    Backend(String),
}

/// A voice file that cannot be turned into an embedding.
#[derive(Debug, Clone)]
pub enum VoiceFileError {
    /// The bytes are not a valid tensor archive.
    Format(String),
    /// The archive holds no tensor under any of the accepted names.
    MissingEmbedding,
    /// The embedding's element type is not one the tensor library loads.
    UnsupportedDtype,
}

/// Every error that the engine reports to its caller.
#[derive(Debug, Clone)]
pub enum TtsError {
    /// Invalid configuration, rejected before inference.
    InvalidConfig(ConfigError),
    /// Failure during inference; the utterance is aborted.
    InferenceFailed(InferenceError),
    /// Generation was stepped without a valid prefill, or after it ended.
    CacheState,
    /// The model files could not be loaded.
    ModelLoadFailed(String),
    /// A voice file could not be loaded.
    VoiceFile(VoiceFileError),
    /// The text could not be tokenized.
    TokenizationFailed(String),
}

} // verus!
