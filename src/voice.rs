//! Voice identities: one embedding per built-in voice, or one supplied by the
//! caller.
//!
//! An embedding holds one vector per reference-audio frame, `[frames, dim]`.
//! The tensors themselves belong to the tensor library; this module keeps the
//! shape bookkeeping and the choice of voice.

use vstd::prelude::*;

use candle_core::Tensor;

use crate::error::{InferenceError, TtsError};

verus! {

#[verifier::external_type_specification]
#[verifier::external_body]
pub struct ExTensor(Tensor);

#[verifier::external_type_specification]
#[verifier::external_body]
pub struct ExCandleError(candle_core::Error);

/// Relies on `Clone` of `candle_core::Tensor`, which shares the storage; used
/// when a voice embedding is cloned.
pub assume_specification[ <Tensor as Clone>::clone ](t: &Tensor) -> Tensor;

/// Relies on `candle_core::Tensor::dims`: the size of each axis of the tensor.
#[verifier::external_body]
fn tensor_dims(t: &Tensor) -> (r: Vec<usize>) {
    t.dims().to_vec()
}

/// Relies on `candle_core::Tensor::unsqueeze`: a view with a new axis of size
/// one at `axis`.
#[verifier::external_body]
fn tensor_unsqueeze(t: &Tensor, axis: usize) -> (r: Result<Tensor, candle_core::Error>) {
    t.unsqueeze(axis)
}

/// Relies on `candle_core::Tensor::mean`: the mean over `axis`, which is removed.
#[verifier::external_body]
fn tensor_mean(t: &Tensor, axis: usize) -> (r: Result<Tensor, candle_core::Error>) {
    t.mean(axis)
}

/// Relies on `candle_core::Tensor::expand`: the tensor broadcast to `dims`.
#[verifier::external_body]
fn tensor_expand(t: &Tensor, dims: Vec<usize>) -> (r: Result<Tensor, candle_core::Error>) {
    t.expand(dims)
}

/// Relies on the `Display` text of `candle_core::Error` for the message.
#[verifier::external_body]
fn backend_error(e: candle_core::Error) -> (r: TtsError)
    ensures
        r matches TtsError::InferenceFailed(InferenceError::Backend(_)),
{
    TtsError::InferenceFailed(InferenceError::Backend(e.to_string()))
}

/// Width used when no voice was loaded.
pub const DEFAULT_VOICE_DIM: usize = 512;

/// How a tensor of the given axis sizes becomes an embedding.
#[derive(Debug, Clone, Copy, PartialEq, Eq, Structural)]
pub struct VoiceLayout {
    /// Width of each frame vector: the size of the last axis.
    pub voice_dim: usize,
    /// A single vector `[dim]` gets a leading frame axis, becoming `[1, dim]`.
    pub add_frame_axis: bool,
}

/// The layout of an embedding tensor with axis sizes `dims`; a scalar has none.
pub fn voice_layout(dims: &[usize]) -> (r: Option<VoiceLayout>)
    ensures
        dims@.len() == 0 ==> r is None,
        dims@.len() > 0 ==> r == Some(
            VoiceLayout { voice_dim: dims@.last(), add_frame_axis: dims@.len() == 1 },
        ),
{
    let n = dims.len();
    if n == 0 {
        None
    } else {
        Some(VoiceLayout { voice_dim: dims[n - 1], add_frame_axis: n == 1 })
    }
}

/// Whether a stored embedding of axis sizes `dims` is `[1, frames, dim]`, whose
/// leading batch axis is dropped on load.
pub fn has_batch_axis(dims: &[usize]) -> (r: bool)
    ensures
        r == (dims@.len() == 3 && dims@[0] == 1),
{
    dims.len() == 3 && dims[0] == 1
}

/// A voice embedding: one vector of `voice_dim` values per reference frame.
#[derive(Debug, Clone)]
pub struct VoiceEmbedding {
    embedding: Tensor,
    voice_dim: usize,
}

impl VoiceEmbedding {
    pub closed spec fn voice_dim_spec(&self) -> usize {
        self.voice_dim
    }

    /// Wraps a `[frames, dim]` or `[dim]` tensor; a single vector becomes one
    /// frame. A scalar is a shape error.
    pub fn from_tensor(embedding: Tensor) -> (r: Result<Self, TtsError>)
        ensures
            r matches Err(e) ==> e is InferenceFailed,
    {
        let dims = tensor_dims(&embedding);
        match voice_layout(dims.as_slice()) {
            None => Err(TtsError::InferenceFailed(InferenceError::ShapeMismatch)),
            Some(layout) => {
                if layout.add_frame_axis {
                    match tensor_unsqueeze(&embedding, 0) {
                        Ok(framed) => Ok(VoiceEmbedding { embedding: framed, voice_dim: layout.voice_dim }),
                        Err(e) => Err(backend_error(e)),
                    }
                } else {
                    Ok(VoiceEmbedding { embedding, voice_dim: layout.voice_dim })
                }
            },
        }
    }

    /// The `[frames, dim]` tensor.
    pub fn embedding(&self) -> &Tensor {
        &self.embedding
    }

    /// Width of each frame vector.
    pub fn voice_dim(&self) -> (r: usize)
        ensures
            r == self.voice_dim_spec(),
    {
        self.voice_dim
    }

    /// The mean of the frame vectors, broadcast to `[batch_size, seq_len, dim]`
    /// so that it conditions every text position.
    pub fn expand_to_seq(&self, batch_size: usize, seq_len: usize) -> (r: Result<Tensor, TtsError>)
        ensures
            r matches Err(e) ==> e is InferenceFailed,
    {
        let pooled = match tensor_mean(&self.embedding, 0) {
            Ok(t) => t,
            Err(e) => {
                return Err(backend_error(e));
            },
        };
        let row = match tensor_unsqueeze(&pooled, 0) {
            Ok(t) => t,
            Err(e) => {
                return Err(backend_error(e));
            },
        };
        let grid = match tensor_unsqueeze(&row, 0) {
            Ok(t) => t,
            Err(e) => {
                return Err(backend_error(e));
            },
        };
        match tensor_expand(&grid, vec![batch_size, seq_len, self.voice_dim]) {
            Ok(t) => Ok(t),
            Err(e) => Err(backend_error(e)),
        }
    }

    /// Number of reference frames: the size of the first axis.
    pub fn prompt_seq_len(&self) -> (r: Result<usize, TtsError>)
        ensures
            r matches Err(e) ==> e is InferenceFailed,
    {
        let dims = tensor_dims(&self.embedding);
        if dims.len() == 0 {
            Err(TtsError::InferenceFailed(InferenceError::ShapeMismatch))
        } else {
            Ok(dims[0])
        }
    }
}

/// The built-in voices, by index.
#[derive(Debug)]
pub struct VoiceBank {
    voices: Vec<VoiceEmbedding>,
    voice_dim: usize,
}

impl VoiceBank {
    /// The voices held, by index.
    pub closed spec fn voices_spec(&self) -> Seq<VoiceEmbedding> {
        self.voices@
    }

    pub closed spec fn voice_dim_spec(&self) -> usize {
        self.voice_dim
    }

    /// An empty bank for voices of width `voice_dim`.
    pub fn new(voice_dim: usize) -> (r: Self)
        ensures
            r.voices_spec().len() == 0,
            r.voice_dim_spec() == voice_dim,
    {
        VoiceBank { voices: Vec::with_capacity(8), voice_dim }
    }

    /// A bank of the given voices, in order. Its width is that of the last
    /// voice, or `DEFAULT_VOICE_DIM` when there is none.
    pub fn from_voices(voices: Vec<VoiceEmbedding>) -> (r: Self)
        ensures
            r.voices_spec() == voices@,
            voices@.len() == 0 ==> r.voice_dim_spec() == DEFAULT_VOICE_DIM,
            voices@.len() > 0 ==> r.voice_dim_spec() == voices@.last().voice_dim_spec(),
    {
        let n = voices.len();
        let voice_dim = if n == 0 {
            DEFAULT_VOICE_DIM
        } else {
            voices[n - 1].voice_dim()
        };
        VoiceBank { voices, voice_dim }
    }

    /// The voice at `index`, if there is one.
    pub fn get(&self, index: usize) -> (r: Option<&VoiceEmbedding>)
        ensures
            index < self.voices_spec().len() ==> r == Some(&self.voices_spec()[index as int]),
            index >= self.voices_spec().len() ==> r is None,
    {
        if index < self.voices.len() {
            Some(&self.voices[index])
        } else {
            None
        }
    }

    /// Number of voices held.
    pub fn len(&self) -> (r: usize)
        ensures
            r == self.voices_spec().len(),
    {
        self.voices.len()
    }

    pub fn is_empty(&self) -> (r: bool)
        ensures
            r == (self.voices_spec().len() == 0),
    {
        self.voices.len() == 0
    }

    /// Width of the voices held.
    pub fn voice_dim(&self) -> (r: usize)
        ensures
            r == self.voice_dim_spec(),
    {
        self.voice_dim
    }
}

/// The voice an utterance is conditioned on: the caller's own voice if one is
/// set, else the built-in voice at `index`, else none.
pub fn select_voice<'a>(custom: Option<&'a VoiceEmbedding>, bank: &'a VoiceBank, index: usize) -> (r:
    Option<&'a VoiceEmbedding>)
    ensures
        custom is Some ==> r == custom,
        custom is None && index < bank.voices_spec().len() ==> r == Some(
            &bank.voices_spec()[index as int],
        ),
        custom is None && index >= bank.voices_spec().len() ==> r is None,
{
    match custom {
        Some(v) => Some(v),
        None => bank.get(index),
    }
}

} // verus!
