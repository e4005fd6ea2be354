//! The autoregressive generation controller and its stopping rule.
//!
//! One run produces latent frames one step at a time. Each step reports
//! whether the end-of-sequence score crossed its threshold; the first such
//! report at or after `min_gen_steps` is recorded as the EOS step, and the run
//! ends once `frames_after_eos` more frames have followed it, or once
//! `max_gen_len` frames exist, whichever comes first.

use vstd::prelude::*;

use crate::error::{InferenceError, TtsError};

verus! {

/// Default floor below which an EOS report is ignored.
pub const DEFAULT_MIN_GEN_STEPS: usize = 40;

/// Default number of frames generated after the EOS step.
pub const DEFAULT_FRAMES_AFTER_EOS: usize = 3;

/// Frames allowed on top of one and a half frames per token.
pub const MAX_LEN_MARGIN: usize = 20;

/// The bounds of one generation run.
#[derive(Debug, Clone, Copy, PartialEq, Eq, Structural)]
pub struct GenerationConfig {
    pub min_gen_steps: usize,
    pub frames_after_eos: usize,
    pub max_gen_len: usize,
}

/// Estimated frame budget for `n` tokens: one and a half frames per token
/// (rounded down) plus a fixed margin.
pub open spec fn max_gen_len_spec(n: nat) -> nat {
    n + n / 2 + MAX_LEN_MARGIN as nat
}

/// The frame budget of an utterance of `num_tokens` tokens.
pub fn max_gen_len_for(num_tokens: usize) -> (r: usize)
    requires
        max_gen_len_spec(num_tokens as nat) <= usize::MAX,
    ensures
        r == max_gen_len_spec(num_tokens as nat),
{
    num_tokens + num_tokens / 2 + MAX_LEN_MARGIN
}

impl GenerationConfig {
    /// The default stopping rule for an utterance of `num_tokens` tokens.
    pub fn for_tokens(num_tokens: usize) -> (r: Self)
        requires
            max_gen_len_spec(num_tokens as nat) <= usize::MAX,
        ensures
            r.min_gen_steps == DEFAULT_MIN_GEN_STEPS,
            r.frames_after_eos == DEFAULT_FRAMES_AFTER_EOS,
            r.max_gen_len == max_gen_len_spec(num_tokens as nat),
    {
        GenerationConfig {
            min_gen_steps: DEFAULT_MIN_GEN_STEPS,
            frames_after_eos: DEFAULT_FRAMES_AFTER_EOS,
            max_gen_len: max_gen_len_for(num_tokens),
        }
    }
}

/// The EOS step recorded after the steps whose reports are `flags`: the first
/// step at or after `min` whose report was set.
pub open spec fn eos_step_of(min: nat, flags: Seq<bool>) -> Option<nat>
    decreases flags.len(),
{
    if flags.len() == 0 {
        None
    } else {
        let before = eos_step_of(min, flags.drop_last());
        if before is Some {
            before
        } else if flags.len() - 1 >= min && flags.last() {
            Some((flags.len() - 1) as nat)
        } else {
            None
        }
    }
}

/// Whether a run stops once the steps whose reports are `flags` have each
/// produced their frame.
pub open spec fn stops(config: GenerationConfig, flags: Seq<bool>) -> bool {
    flags.len() >= config.max_gen_len || match eos_step_of(config.min_gen_steps as nat, flags) {
        Some(k) => flags.len() >= k + config.frames_after_eos + 1,
        None => false,
    }
}

/// `flags` are the reports of a whole run: the run stops after the last of
/// them and not before.
pub open spec fn is_run(config: GenerationConfig, flags: Seq<bool>) -> bool {
    &&& stops(config, flags)
    &&& forall|j: int| 0 <= j < flags.len() ==> !stops(config, #[trigger] flags.take(j))
}

/// A recorded EOS step is never before `min`: it is a step at or after `min`
/// whose report was set, and no step between `min` and it had its report set.
pub proof fn lemma_eos_not_before_min(min: nat, flags: Seq<bool>)
    ensures
        eos_step_of(min, flags) matches Some(k) ==> {
            &&& min <= k < flags.len()
            &&& flags[k as int]
            &&& forall|i: int| min <= i < k ==> !flags[i]
        },
        eos_step_of(min, flags) is None ==> forall|i: int|
            min <= i < flags.len() ==> !flags[i],
    decreases flags.len(),
{
    if flags.len() > 0 {
        let prefix = flags.drop_last();
        lemma_eos_not_before_min(min, prefix);
        assert forall|i: int| 0 <= i < prefix.len() implies prefix[i] == flags[i] by {}
    }
}

/// An optional step number as a mathematical integer.
pub open spec fn opt_nat(o: Option<usize>) -> Option<nat> {
    match o {
        Some(k) => Some(k as nat),
        None => None,
    }
}

/// Where a generation run stands.
#[derive(Debug, Clone, Copy, PartialEq, Eq, Structural)]
pub enum Phase {
    /// The conditioning has not yet been run through the transformer.
    Prefill,
    /// Frames are being produced.
    Generating,
    /// The stopping rule has fired.
    Done,
}

/// The frames of a finished run and the EOS step it recorded, if any.
///
/// A run that ends at `max_gen_len` with no EOS step is a soft failure that the
/// caller may report; the frames are still returned.
#[derive(Debug)]
pub struct Generated<F> {
    pub frames: Vec<F>,
    pub eos_step: Option<usize>,
    /// Whether each step's EOS score crossed the threshold, as the model
    /// reported it; the stopping rule was applied to these reports.
    pub eos_reports: Vec<bool>,
}

/// The state of one generation run: step index, EOS step and the frames so far.
pub struct GenerationState<F> {
    config: GenerationConfig,
    phase: Phase,
    eos_step: Option<usize>,
    frames: Vec<F>,
    reports: Vec<bool>,
}

impl<F> GenerationState<F> {
    pub closed spec fn config_spec(&self) -> GenerationConfig {
        self.config
    }

    pub closed spec fn phase_spec(&self) -> Phase {
        self.phase
    }

    pub closed spec fn eos_spec(&self) -> Option<usize> {
        self.eos_step
    }

    /// The frames produced so far, oldest first.
    pub closed spec fn frame_seq(&self) -> Seq<F> {
        self.frames@
    }

    /// The EOS report of each step taken so far.
    pub closed spec fn flags(&self) -> Seq<bool> {
        self.reports@
    }

    /// The step reports, frames, EOS step and phase agree with the stopping rule.
    pub open spec fn wf(&self) -> bool {
        let cfg = self.config_spec();
        let flags = self.flags();
        &&& self.frame_seq().len() == flags.len()
        &&& opt_nat(self.eos_spec()) == eos_step_of(cfg.min_gen_steps as nat, flags)
        &&& forall|j: int| 0 <= j < flags.len() ==> !stops(cfg, #[trigger] flags.take(j))
        &&& self.phase_spec() == Phase::Prefill ==> flags.len() == 0
        &&& self.phase_spec() == Phase::Generating ==> !stops(cfg, flags)
        &&& self.phase_spec() == Phase::Done ==> stops(cfg, flags)
    }

    /// A run waiting for its prefill.
    pub fn new(config: GenerationConfig) -> (r: Self)
        ensures
            r.wf(),
            r.config_spec() == config,
            r.phase_spec() == Phase::Prefill,
            r.eos_spec() is None,
            r.flags() == Seq::<bool>::empty(),
            r.frame_seq() == Seq::<F>::empty(),
    {
        GenerationState {
            config,
            phase: Phase::Prefill,
            eos_step: None,
            frames: Vec::new(),
            reports: Vec::new(),
        }
    }

    /// Marks the prefill as done. A run with no frame budget is done at once.
    pub fn begin(&mut self) -> (r: Result<(), TtsError>)
        requires
            old(self).wf(),
        ensures
            final(self).wf(),
            final(self).config_spec() == old(self).config_spec(),
            final(self).eos_spec() == old(self).eos_spec(),
            final(self).flags() == old(self).flags(),
            final(self).frame_seq() == old(self).frame_seq(),
            old(self).phase_spec() == Phase::Prefill ==> r is Ok && final(self).phase_spec() == (
            if old(self).config_spec().max_gen_len == 0 {
                Phase::Done
            } else {
                Phase::Generating
            }),
            old(self).phase_spec() != Phase::Prefill ==> (r matches Err(TtsError::CacheState))
                && final(self).phase_spec() == old(self).phase_spec(),
    {
        if self.phase != Phase::Prefill {
            return Err(TtsError::CacheState);
        }
        if self.config.max_gen_len == 0 {
            self.phase = Phase::Done;
        } else {
            self.phase = Phase::Generating;
        }
        Ok(())
    }

    /// Records the frame of the current step and whether its EOS score crossed
    /// the threshold, then applies the stopping rule.
    pub fn record_step(&mut self, eos_detected: bool, frame: F) -> (r: Result<(), TtsError>)
        requires
            old(self).wf(),
        ensures
            final(self).wf(),
            final(self).config_spec() == old(self).config_spec(),
            old(self).phase_spec() == Phase::Generating ==> {
                &&& r is Ok
                &&& final(self).flags() == old(self).flags().push(eos_detected)
                &&& final(self).frame_seq() == old(self).frame_seq().push(frame)
                &&& final(self).phase_spec() == if stops(
                    old(self).config_spec(),
                    final(self).flags(),
                ) {
                    Phase::Done
                } else {
                    Phase::Generating
                }
            },
            old(self).phase_spec() != Phase::Generating ==> {
                &&& r matches Err(TtsError::CacheState)
                &&& final(self).phase_spec() == old(self).phase_spec()
                &&& final(self).eos_spec() == old(self).eos_spec()
                &&& final(self).flags() == old(self).flags()
                &&& final(self).frame_seq() == old(self).frame_seq()
            },
    {
        if self.phase != Phase::Generating {
            return Err(TtsError::CacheState);
        }
        let ghost old_flags = self.reports@;
        let step = self.frames.len();
        proof {
            lemma_eos_not_before_min(self.config.min_gen_steps as nat, old_flags.push(eos_detected));
            assert(old_flags.push(eos_detected).drop_last() == old_flags);
            assert(old_flags.push(eos_detected).take(step as int) == old_flags);
        }
        if self.eos_step.is_none() && step >= self.config.min_gen_steps && eos_detected {
            self.eos_step = Some(step);
        }
        self.frames.push(frame);
        self.reports.push(eos_detected);
        let len = self.frames.len();
        let stop = if len >= self.config.max_gen_len {
            true
        } else {
            match self.eos_step {
                Some(k) => len - 1 - k >= self.config.frames_after_eos,
                None => false,
            }
        };
        if stop {
            self.phase = Phase::Done;
        }
        proof {
            let flags = self.reports@;
            assert forall|j: int| 0 <= j < flags.len() implies !stops(
                self.config,
                #[trigger] flags.take(j),
            ) by {
                if j < old_flags.len() {
                    assert(flags.take(j) == old_flags.take(j));
                } else {
                    assert(flags.take(j) == old_flags);
                }
            }
        }
        Ok(())
    }

    /// Whether the stopping rule has fired.
    pub fn is_finished(&self) -> (r: bool)
        ensures
            r == (self.phase_spec() == Phase::Done),
    {
        self.phase == Phase::Done
    }

    /// The index of the next step, which is the number of frames so far.
    pub fn step_index(&self) -> (r: usize)
        ensures
            r == self.frame_seq().len(),
    {
        self.frames.len()
    }

    /// The recorded EOS step, if any.
    pub fn eos_step(&self) -> (r: Option<usize>)
        ensures
            r == self.eos_spec(),
    {
        self.eos_step
    }

    /// The frames produced so far, oldest first.
    pub fn frames(&self) -> (r: &[F])
        ensures
            r@ == self.frame_seq(),
    {
        self.frames.as_slice()
    }

    /// The most recent frame, which is the next step's input.
    pub fn last_frame(&self) -> (r: Option<&F>)
        ensures
            self.frame_seq().len() == 0 ==> r is None,
            self.frame_seq().len() > 0 ==> r == Some(&self.frame_seq().last()),
    {
        if self.frames.len() == 0 {
            None
        } else {
            Some(&self.frames[self.frames.len() - 1])
        }
    }

    /// Hands over the frames of a finished run.
    pub fn into_outcome(self) -> (r: Result<Generated<F>, TtsError>)
        ensures
            self.phase_spec() != Phase::Done ==> r matches Err(TtsError::CacheState),
            self.phase_spec() == Phase::Done && self.frame_seq().len() == 0 ==> r matches Err(
                TtsError::InferenceFailed(InferenceError::EmptyTrajectory),
            ),
            self.phase_spec() == Phase::Done && self.frame_seq().len() > 0 ==> (r matches Ok(g)
                && g.frames@ == self.frame_seq() && g.eos_step == self.eos_spec()
                && g.eos_reports@ == self.flags()),
    {
        if self.phase != Phase::Done {
            return Err(TtsError::CacheState);
        }
        if self.frames.len() == 0 {
            return Err(TtsError::InferenceFailed(InferenceError::EmptyTrajectory));
        }
        Ok(Generated { frames: self.frames, eos_step: self.eos_step, eos_reports: self.reports })
    }
}

/// A run ends after at least one frame and after at most `max_gen_len` frames.
pub proof fn lemma_run_length_bounds(config: GenerationConfig, flags: Seq<bool>)
    requires
        is_run(config, flags),
        config.max_gen_len >= 1,
    ensures
        1 <= flags.len() <= config.max_gen_len,
{
    assert(eos_step_of(config.min_gen_steps as nat, Seq::<bool>::empty()) is None);
    if flags.len() == 0 {
        assert(!stops(config, flags));
    }
    if flags.len() > config.max_gen_len {
        let j = config.max_gen_len as int;
        assert(flags.take(j).len() == j);
        assert(!stops(config, flags.take(j)));
    }
}

/// The length of a run whose EOS step is `eos`: `max_gen_len` without an EOS
/// step, else the EOS step plus `frames_after_eos` plus one, capped at
/// `max_gen_len`.
pub open spec fn run_len_spec(config: GenerationConfig, eos: Option<nat>) -> nat {
    match eos {
        Some(k) => if k + config.frames_after_eos + 1 <= config.max_gen_len {
            (k + config.frames_after_eos + 1) as nat
        } else {
            config.max_gen_len as nat
        },
        None => config.max_gen_len as nat,
    }
}

/// The EOS step seen by a prefix of the reports: the full run's EOS step if
/// the prefix reaches past it, else none.
proof fn lemma_eos_of_prefix(min: nat, flags: Seq<bool>, j: int)
    requires
        0 <= j <= flags.len(),
    ensures
        eos_step_of(min, flags) matches Some(k) ==> eos_step_of(min, flags.take(j)) == (if k < j {
            Some(k)
        } else {
            None::<nat>
        }),
        eos_step_of(min, flags) is None ==> eos_step_of(min, flags.take(j)) is None,
{
    let prefix = flags.take(j);
    lemma_eos_not_before_min(min, flags);
    lemma_eos_not_before_min(min, prefix);
    assert forall|i: int| 0 <= i < j implies prefix[i] == flags[i] by {}
    if let Some(k) = eos_step_of(min, flags) {
        if k < j {
            assert(prefix[k as int]);
        }
    }
}

/// A whole run is exactly as long as the stopping rule says, given its EOS step.
pub proof fn lemma_run_length(config: GenerationConfig, flags: Seq<bool>)
    requires
        is_run(config, flags),
    ensures
        flags.len() == run_len_spec(config, eos_step_of(config.min_gen_steps as nat, flags)),
{
    let min = config.min_gen_steps as nat;
    let n = flags.len();
    lemma_eos_not_before_min(min, flags);
    if n > 0 {
        let prefix = flags.take(n - 1);
        lemma_eos_of_prefix(min, flags, n - 1);
        assert(!stops(config, prefix));
    }
}

/// Stopping honours the grace frames exactly: when the first EOS report at or
/// after `min_gen_steps` comes at step `k`, and `max_gen_len` leaves room, the
/// run holds `k + frames_after_eos + 1` frames.
pub proof fn lemma_stop_after_grace(config: GenerationConfig, flags: Seq<bool>, k: nat)
    requires
        is_run(config, flags),
        config.min_gen_steps <= k,
        k + config.frames_after_eos + 1 <= config.max_gen_len,
        forall|i: int| config.min_gen_steps <= i < k && i < flags.len() ==> !flags[i],
        k < flags.len() ==> flags[k as int],
    ensures
        flags.len() == k + config.frames_after_eos + 1,
{
    let min = config.min_gen_steps as nat;
    let n = flags.len();
    lemma_eos_not_before_min(min, flags);
    if n <= k {
        assert(false);
    }
    assert(eos_step_of(min, flags) == Some(k));
    if n > k + config.frames_after_eos + 1 {
        let j = (k + config.frames_after_eos + 1) as int;
        let prefix = flags.take(j);
        lemma_eos_not_before_min(min, prefix);
        assert(prefix[k as int] == flags[k as int]);
        assert(eos_step_of(min, prefix) == Some(k));
        assert(!stops(config, prefix));
    }
}

/// What the generation loop needs from the model stack.
///
/// `forward_step` runs the transformer over one input frame with the key/value
/// caches, and reports the hidden vector of that position and whether its
/// end-of-sequence score exceeded the threshold. `sample_frame` runs the flow
/// sampler on that hidden vector and returns the denormalised latent frame.
pub trait LatentModel {
    type Frame;

    type Hidden;

    /// Empties every key/value cache.
    fn reset_cache(&mut self);

    /// Runs the voice and text conditioning through the stack, filling the caches.
    fn prefill(&mut self, token_ids: &[u32]) -> Result<(), TtsError>;

    /// The frame fed to the first generation step.
    fn bos_frame(&self) -> Result<Self::Frame, TtsError>;

    fn forward_step(&mut self, previous: &Self::Frame) -> Result<StepOutput<Self::Hidden>, TtsError>;

    fn sample_frame(&mut self, hidden: &Self::Hidden) -> Result<Self::Frame, TtsError>;
}

/// The result of one transformer step.
#[derive(Debug)]
pub struct StepOutput<H> {
    pub hidden: H,
    pub eos_detected: bool,
}

/// Generates the latent frames of one utterance.
///
/// The caches are reset, the conditioning is prefilled, and then each step
/// feeds the previous frame (the BOS frame at first) through the transformer,
/// samples the next frame and applies the stopping rule. Errors of the model
/// are returned unchanged.
pub fn generate<M: LatentModel>(model: &mut M, token_ids: &[u32], config: GenerationConfig) -> (r:
    Result<Generated<M::Frame>, TtsError>)
    ensures
        config.max_gen_len == 0 ==> r is Err,
        r matches Ok(g) ==> {
            &&& 1 <= g.frames@.len() <= config.max_gen_len
            &&& g.eos_step matches Some(k) ==> config.min_gen_steps <= k < g.frames@.len()
            &&& g.frames@.len() == run_len_spec(config, opt_nat(g.eos_step))
            &&& is_run(config, g.eos_reports@)
            &&& g.eos_reports@.len() == g.frames@.len()
            &&& opt_nat(g.eos_step) == eos_step_of(config.min_gen_steps as nat, g.eos_reports@)
        },
{
    model.reset_cache();
    match model.prefill(token_ids) {
        Ok(()) => {},
        Err(e) => {
            return Err(e);
        },
    }
    let mut state: GenerationState<M::Frame> = GenerationState::new(config);
    let _ = state.begin();
    let bos = match model.bos_frame() {
        Ok(bos) => bos,
        Err(e) => {
            return Err(e);
        },
    };
    while !state.is_finished()
        invariant
            state.wf(),
            state.config_spec() == config,
            state.phase_spec() != Phase::Prefill,
            state.frame_seq().len() <= config.max_gen_len,
        decreases config.max_gen_len - state.frame_seq().len(),
    {
        let stepped = match state.last_frame() {
            Some(previous) => model.forward_step(previous),
            None => model.forward_step(&bos),
        };
        let out = match stepped {
            Ok(out) => out,
            Err(e) => {
                return Err(e);
            },
        };
        let frame = match model.sample_frame(&out.hidden) {
            Ok(frame) => frame,
            Err(e) => {
                return Err(e);
            },
        };
        let _ = state.record_step(out.eos_detected, frame);
    }
    let ghost flags = state.flags();
    proof {
        lemma_eos_not_before_min(config.min_gen_steps as nat, flags);
        if config.max_gen_len >= 1 {
            lemma_run_length_bounds(config, flags);
        }
        lemma_run_length(config, flags);
    }
    let r = state.into_outcome();
    proof {
        if r is Ok {
            assert(is_run(config, flags));
        }
    }
    r
}

} // verus!
