//! Position bookkeeping of the rotary positional encoding.

use vstd::prelude::*;

use crate::error::{InferenceError, TtsError};

verus! {

/// Checks that positions `offset..offset + seq_len` all have a rotary encoding
/// among the first `max_seq_len` positions, and returns the end of the range.
///
/// The offset is the number of positions already in the key/value cache, so a
/// new position is encoded relative to everything that came before it.
pub fn rotary_range(offset: usize, seq_len: usize, max_seq_len: usize) -> (r: Result<usize, TtsError>)
    ensures
        offset + seq_len <= max_seq_len ==> r == Ok::<usize, TtsError>((offset + seq_len) as usize),
        offset + seq_len > max_seq_len ==> (r matches Err(
            TtsError::InferenceFailed(InferenceError::SequenceTooLong { offset: o, seq_len: l, max: m }),
        ) && o == offset && l == seq_len && m == max_seq_len),
{
    if seq_len > max_seq_len || offset > max_seq_len - seq_len {
        return Err(
            TtsError::InferenceFailed(
                InferenceError::SequenceTooLong { offset, seq_len, max: max_seq_len },
            ),
        );
    }
    Ok(offset + seq_len)
}

} // verus!
