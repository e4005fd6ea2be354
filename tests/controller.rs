use pocket_tts::error::{InferenceError, TtsError};
use pocket_tts::generation::{
    generate, max_gen_len_for, GenerationConfig, GenerationState, LatentModel, StepOutput,
    DEFAULT_FRAMES_AFTER_EOS, DEFAULT_MIN_GEN_STEPS,
};

/// A stand-in model: frame `n` is the number `n`, and the EOS score crosses the
/// threshold at the steps listed in `eos_at` (or at every step from
/// `eos_from` on).
struct StubModel {
    eos_at: Vec<usize>,
    eos_from: Option<usize>,
    steps: usize,
    prefills: usize,
    resets: usize,
    fail_at: Option<usize>,
}

impl StubModel {
    fn new() -> Self {
        StubModel { eos_at: vec![], eos_from: None, steps: 0, prefills: 0, resets: 0, fail_at: None }
    }
}

impl LatentModel for StubModel {
    type Frame = u64;
    type Hidden = usize;

    fn reset_cache(&mut self) {
        self.resets += 1;
        self.steps = 0;
    }

    fn prefill(&mut self, token_ids: &[u32]) -> Result<(), TtsError> {
        self.prefills += 1;
        if token_ids.is_empty() {
            return Err(TtsError::InferenceFailed(InferenceError::Backend("empty".to_string())));
        }
        Ok(())
    }

    fn bos_frame(&self) -> Result<u64, TtsError> {
        Ok(1000)
    }

    fn forward_step(&mut self, previous: &u64) -> Result<StepOutput<usize>, TtsError> {
        let step = self.steps;
        if self.fail_at == Some(step) {
            return Err(TtsError::InferenceFailed(InferenceError::Backend("shape".to_string())));
        }
        if step == 0 {
            assert_eq!(*previous, 1000);
        } else {
            assert_eq!(*previous, step as u64 - 1);
        }
        self.steps += 1;
        let eos = self.eos_at.contains(&step) || self.eos_from.map_or(false, |f| step >= f);
        Ok(StepOutput { hidden: step, eos_detected: eos })
    }

    fn sample_frame(&mut self, hidden: &usize) -> Result<u64, TtsError> {
        Ok(*hidden as u64)
    }
}

fn config(min: usize, after: usize, max: usize) -> GenerationConfig {
    GenerationConfig { min_gen_steps: min, frames_after_eos: after, max_gen_len: max }
}

#[test]
fn max_len_is_one_and_a_half_frames_per_token_plus_twenty() {
    assert_eq!(max_gen_len_for(0), 20);
    assert_eq!(max_gen_len_for(10), 35);
    assert_eq!(max_gen_len_for(11), 36);
    let c = GenerationConfig::for_tokens(10);
    assert_eq!(c.min_gen_steps, DEFAULT_MIN_GEN_STEPS);
    assert_eq!(c.frames_after_eos, DEFAULT_FRAMES_AFTER_EOS);
    assert_eq!(c.max_gen_len, 35);
    assert_eq!(DEFAULT_MIN_GEN_STEPS, 40);
    assert_eq!(DEFAULT_FRAMES_AFTER_EOS, 3);
}

#[test]
fn eos_at_known_step_stops_after_grace_frames() {
    for k in [0usize, 2, 5, 9] {
        let mut model = StubModel::new();
        model.eos_at = vec![k];
        let out = generate(&mut model, &[1, 2, 3], config(0, 3, 100)).unwrap();
        assert_eq!(out.frames.len(), k + 3 + 1);
        assert_eq!(out.eos_step, Some(k));
        let expected: Vec<u64> = (0..(k as u64 + 4)).collect();
        assert_eq!(out.frames, expected);
        let reports: Vec<bool> = (0..k + 4).map(|s| s == k).collect();
        assert_eq!(out.eos_reports, reports);
    }
}

#[test]
fn eos_before_floor_is_ignored() {
    let mut model = StubModel::new();
    model.eos_from = Some(0);
    let out = generate(&mut model, &[1], config(6, 2, 100)).unwrap();
    assert_eq!(out.eos_step, Some(6));
    assert_eq!(out.frames.len(), 9);
    assert_eq!(out.eos_reports, vec![true; 9]);

    let mut model = StubModel::new();
    model.eos_at = vec![1, 3];
    let out = generate(&mut model, &[1], config(4, 2, 12)).unwrap();
    assert_eq!(out.eos_step, None);
    assert_eq!(out.frames.len(), 12);
}

#[test]
fn only_first_eos_counts() {
    let mut model = StubModel::new();
    model.eos_at = vec![3, 4, 5];
    let out = generate(&mut model, &[1], config(2, 5, 100)).unwrap();
    assert_eq!(out.eos_step, Some(3));
    assert_eq!(out.frames.len(), 9);
}

#[test]
fn no_eos_runs_to_max_length() {
    for max in [1usize, 2, 20] {
        let mut model = StubModel::new();
        let out = generate(&mut model, &[1], config(0, 3, max)).unwrap();
        assert_eq!(out.frames.len(), max);
        assert_eq!(out.eos_step, None);
    }
}

#[test]
fn max_length_cuts_grace_frames() {
    let mut model = StubModel::new();
    model.eos_at = vec![8];
    let out = generate(&mut model, &[1], config(0, 3, 10)).unwrap();
    assert_eq!(out.eos_step, Some(8));
    assert_eq!(out.frames.len(), 10);
}

#[test]
fn zero_budget_is_an_empty_trajectory_error() {
    let mut model = StubModel::new();
    let r = generate(&mut model, &[1], config(0, 3, 0));
    assert!(matches!(r, Err(TtsError::InferenceFailed(InferenceError::EmptyTrajectory))));
}

#[test]
fn model_errors_are_returned_unchanged() {
    let mut model = StubModel::new();
    let r = generate(&mut model, &[], config(0, 3, 10));
    assert!(matches!(r, Err(TtsError::InferenceFailed(InferenceError::Backend(ref m))) if m == "empty"));

    let mut model = StubModel::new();
    model.fail_at = Some(2);
    let r = generate(&mut model, &[1], config(0, 3, 10));
    assert!(matches!(r, Err(TtsError::InferenceFailed(InferenceError::Backend(ref m))) if m == "shape"));
}

#[test]
fn repeated_generation_is_identical() {
    let mut model = StubModel::new();
    model.eos_at = vec![4];
    let first = generate(&mut model, &[5, 6], config(1, 2, 30)).unwrap();
    let second = generate(&mut model, &[5, 6], config(1, 2, 30)).unwrap();
    assert_eq!(first.frames, second.frames);
    assert_eq!(first.eos_step, second.eos_step);
    assert_eq!(first.eos_reports, second.eos_reports);
    assert_eq!(model.resets, 2);
    assert_eq!(model.prefills, 2);
}

#[test]
fn stepping_requires_prefill() {
    let mut state: GenerationState<u8> = GenerationState::new(config(0, 1, 5));
    assert!(matches!(state.record_step(false, 1), Err(TtsError::CacheState)));
    assert_eq!(state.step_index(), 0);
    assert!(state.begin().is_ok());
    assert!(matches!(state.begin(), Err(TtsError::CacheState)));
    assert!(state.record_step(false, 1).is_ok());
    assert_eq!(state.last_frame(), Some(&1));
    assert!(state.record_step(true, 2).is_ok());
    assert_eq!(state.eos_step(), Some(1));
    assert!(!state.is_finished());
    assert!(state.record_step(false, 3).is_ok());
    assert!(state.is_finished());
    assert!(matches!(state.record_step(false, 4), Err(TtsError::CacheState)));
    assert_eq!(state.frames(), &[1, 2, 3]);
    let out = state.into_outcome().unwrap();
    assert_eq!(out.frames, vec![1, 2, 3]);
    assert_eq!(out.eos_step, Some(1));
    assert_eq!(out.eos_reports, vec![false, true, false]);
}

#[test]
fn unfinished_state_has_no_outcome() {
    let mut state: GenerationState<u8> = GenerationState::new(config(0, 1, 5));
    assert!(state.begin().is_ok());
    assert!(state.record_step(false, 7).is_ok());
    assert!(matches!(state.into_outcome(), Err(TtsError::CacheState)));
}
