//! Configuration and time discretisation of the flow-matching sampler.
//!
//! The sampler integrates a learned velocity field from a normal sample
//! toward a latent frame with `num_steps` explicit Euler steps. Step `i` goes
//! from time `i / num_steps` to time `(i + 1) / num_steps`; both times condition
//! the velocity prediction.

use vstd::prelude::*;

use crate::error::ConfigError;

verus! {

/// Widths of the flow-matching network.
#[derive(Debug, Clone, Copy, PartialEq, Eq, Structural)]
pub struct FlowNetConfig {
    pub hidden_dim: usize,
    pub cond_dim: usize,
    pub latent_dim: usize,
    pub num_res_blocks: usize,
    pub time_embed_dim: usize,
}

impl Default for FlowNetConfig {
    fn default() -> (r: Self)
        ensures
            r.hidden_dim == 512,
            r.cond_dim == 1024,
            r.latent_dim == 32,
            r.num_res_blocks == 6,
            r.time_embed_dim == 256,
    {
        FlowNetConfig {
            hidden_dim: 512,
            cond_dim: 1024,
            latent_dim: 32,
            num_res_blocks: 6,
            time_embed_dim: 256,
        }
    }
}

/// One Euler step: from time `start / steps` to time `end / steps`, with step
/// size `1 / steps`.
#[derive(Debug, Clone, Copy, PartialEq, Eq, Structural)]
pub struct TimeStep {
    pub start: usize,
    pub end: usize,
    pub steps: usize,
}

/// The `i`-th of `n` Euler steps.
pub open spec fn time_step_spec(i: nat, n: nat) -> TimeStep {
    TimeStep { start: i as usize, end: (i + 1) as usize, steps: n as usize }
}

/// The Euler steps of one sampling call, in order; zero steps are rejected.
pub fn flow_time_grid(num_steps: usize) -> (r: Result<Vec<TimeStep>, ConfigError>)
    ensures
        num_steps == 0 ==> r == Err::<Vec<TimeStep>, ConfigError>(ConfigError::ZeroFlowSteps),
        num_steps > 0 ==> (r matches Ok(v) && v@.len() == num_steps && forall|i: int|
            0 <= i < num_steps ==> #[trigger] v@[i] == time_step_spec(i as nat, num_steps as nat)),
{
    if num_steps == 0 {
        return Err(ConfigError::ZeroFlowSteps);
    }
    let mut grid: Vec<TimeStep> = Vec::with_capacity(num_steps);
    let mut i: usize = 0;
    while i < num_steps
        invariant
            i <= num_steps,
            grid@.len() == i,
            forall|j: int| 0 <= j < i ==> #[trigger] grid@[j] == time_step_spec(j as nat, num_steps as nat),
        decreases num_steps - i,
    {
        grid.push(TimeStep { start: i, end: i + 1, steps: num_steps });
        i = i + 1;
    }
    Ok(grid)
}

} // verus!
