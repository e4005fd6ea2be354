//! Generation and streaming-decode engine of the Pocket text-to-speech model.
//!
//! The tensor arithmetic (attention scores, convolution, normalisation) is
//! done by a tensor library; this crate holds the parts with state and
//! ordering:
//!
//! - [`kv_cache`]: the append-only key/value store of each attention layer;
//! - [`attention`]: which cached positions a new position may attend to;
//! - [`rotary`]: the range check of positional encodings;
//! - [`generation`]: the autoregressive loop and its stopping rule;
//! - [`flow`]: the time grid of the flow-matching sampler;
//! - [`streaming`]: overlap-add across decoded chunks and the chunk loop;
//! - [`voice`]: voice embeddings and the choice of voice;
//! - [`error`]: the errors reported to callers.

pub mod attention;
pub mod error;
pub mod flow;
pub mod generation;
pub mod kv_cache;
pub mod rotary;
pub mod streaming;
pub mod voice;
