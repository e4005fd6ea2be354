use pocket_tts::attention::{causal_mask, is_visible};
use pocket_tts::error::{ConfigError, InferenceError, TtsError};
use pocket_tts::flow::{flow_time_grid, FlowNetConfig, TimeStep};
use pocket_tts::rotary::rotary_range;
use pocket_tts::streaming::{
    blend_len, overlap_add, plan_token_chunks, ChunkStream, FadeWeight, TokenChunk,
};

fn crossfade(previous: f32, next: f32, w: FadeWeight) -> f32 {
    previous * (w.previous as f32 / w.total as f32) + next * (w.next as f32 / w.total as f32)
}

#[test]
fn flow_net_config_default_widths() {
    let c = FlowNetConfig::default();
    assert_eq!(c.hidden_dim, 512);
    assert_eq!(c.cond_dim, 1024);
    assert_eq!(c.latent_dim, 32);
    assert_eq!(c.num_res_blocks, 6);
    assert_eq!(c.time_embed_dim, 256);
}

#[test]
fn single_flow_step_goes_from_zero_to_one() {
    let grid = flow_time_grid(1).unwrap();
    assert_eq!(grid, vec![TimeStep { start: 0, end: 1, steps: 1 }]);
}

#[test]
fn flow_grid_covers_unit_interval() {
    let grid = flow_time_grid(4).unwrap();
    assert_eq!(grid.len(), 4);
    for (i, step) in grid.iter().enumerate() {
        assert_eq!(*step, TimeStep { start: i, end: i + 1, steps: 4 });
    }
    assert_eq!(flow_time_grid(0), Err(ConfigError::ZeroFlowSteps));
}

#[test]
fn crossfade_weights_follow_linear_ramp() {
    let tail = vec![1.0f32, 1.0, 1.0, 1.0];
    let chunk = vec![0.0f32, 0.0, 0.0, 0.0, 0.5, 0.25];
    let (out, new_tail) = overlap_add(&chunk, 4, Some(&tail), crossfade);
    assert_eq!(out.len(), chunk.len());
    assert_eq!(&out[..4], &[1.0, 0.75, 0.5, 0.25]);
    assert_eq!(&out[4..], &[0.5, 0.25]);
    assert_eq!(new_tail, vec![0.0, 0.0, 0.5, 0.25]);
}

#[test]
fn overlap_longer_than_tail_is_clamped() {
    let tail = vec![2.0f32, 2.0];
    let chunk = vec![4.0f32; 10];
    let (out, new_tail) = overlap_add(&chunk, 6, Some(&tail), crossfade);
    assert_eq!(blend_len(6, Some(2), 10), 2);
    assert_eq!(out.len(), 10);
    assert_eq!(out[0], 2.0);
    assert_eq!(out[1], 3.0);
    assert!(out[2..].iter().all(|&s| s == 4.0));
    assert_eq!(new_tail.len(), 6);
}

#[test]
fn short_chunk_limits_blend_and_tail() {
    let tail = vec![1.0f32; 8];
    let chunk = vec![0.0f32, 0.0, 0.0];
    let (out, new_tail) = overlap_add(&chunk, 8, Some(&tail), crossfade);
    assert_eq!(blend_len(8, Some(8), 3), 3);
    assert_eq!(out, vec![1.0, 2.0 / 3.0, 1.0 / 3.0]);
    assert_eq!(new_tail, chunk);
}

#[test]
fn first_chunk_passes_through() {
    let chunk = vec![0.1f32, 0.2, 0.3, 0.4, 0.5];
    let (out, tail) = overlap_add(&chunk, 2, None, crossfade);
    assert_eq!(out, chunk);
    assert_eq!(tail, vec![0.4, 0.5]);
    assert_eq!(blend_len(2, None, 5), 0);
    let (out, tail) = overlap_add(&chunk, 0, Some(&[9.0f32][..]), crossfade);
    assert_eq!(out, chunk);
    assert!(tail.is_empty());
}

#[test]
fn token_chunks_split_in_order() {
    let chunks = plan_token_chunks(70, 32).unwrap();
    assert_eq!(
        chunks,
        vec![
            TokenChunk { start: 0, end: 32, is_last: false },
            TokenChunk { start: 32, end: 64, is_last: false },
            TokenChunk { start: 64, end: 70, is_last: true },
        ]
    );
    let chunks = plan_token_chunks(64, 32).unwrap();
    assert_eq!(chunks.len(), 2);
    assert!(chunks[1].is_last);
    assert!(plan_token_chunks(0, 32).unwrap().is_empty());
    assert_eq!(plan_token_chunks(5, 0), Err(ConfigError::ZeroChunkSize));
}

#[test]
fn positions_past_the_encoding_table_are_rejected() {
    assert!(matches!(rotary_range(10, 5, 2048), Ok(15)));
    assert!(matches!(rotary_range(2040, 8, 2048), Ok(2048)));
    assert!(matches!(
        rotary_range(2040, 9, 2048),
        Err(TtsError::InferenceFailed(InferenceError::SequenceTooLong { offset: 2040, seq_len: 9, max: 2048 }))
    ));
    assert!(matches!(
        rotary_range(usize::MAX, 2, 2048),
        Err(TtsError::InferenceFailed(InferenceError::SequenceTooLong { .. }))
    ));
}

#[test]
fn stream_hands_out_every_chunk_in_order() {
    let mut stream = ChunkStream::new(40, 16).unwrap();
    let mut seen = Vec::new();
    while let Some(span) = stream.next_chunk() {
        seen.push((span.start, span.end, span.is_last));
        stream.record_emitted(true);
    }
    assert_eq!(seen, vec![(0, 16, false), (16, 32, false), (32, 40, true)]);
    assert_eq!(stream.emitted(), 3);
    assert!(stream.is_done());
}

#[test]
fn stop_answer_ends_stream_before_next_chunk() {
    let mut stream = ChunkStream::new(100, 10).unwrap();
    let first = stream.next_chunk().unwrap();
    assert_eq!(first, TokenChunk { start: 0, end: 10, is_last: false });
    stream.record_emitted(true);
    assert_eq!(stream.next_chunk().unwrap().start, 10);
    stream.record_emitted(false);
    assert!(stream.is_done());
    assert_eq!(stream.next_chunk(), None);
    assert_eq!(stream.emitted(), 2);
    assert!(matches!(ChunkStream::new(5, 0), Err(TtsError::InvalidConfig(ConfigError::ZeroChunkSize))));
    let empty = ChunkStream::new(0, 8).unwrap();
    assert!(empty.is_done());
}

#[test]
fn causal_mask_lets_queries_see_the_past() {
    // Prefill: three positions, nothing cached before.
    assert_eq!(
        causal_mask(3, 3),
        vec![true, false, false, true, true, false, true, true, true]
    );
    // One new position after four cached ones sees all five.
    assert_eq!(causal_mask(1, 5), vec![true; 5]);
    // Two new positions after two cached ones.
    assert_eq!(causal_mask(2, 4), vec![true, true, true, false, true, true, true, true]);
    assert!(causal_mask(0, 7).is_empty());
    assert!(!is_visible(0, 3, 3, 3));
    assert!(is_visible(2, 0, 3, 3));
    // More queries than keys: the first queries see nothing.
    assert_eq!(causal_mask(3, 2), vec![false, false, true, false, true, true]);
}
