//! The scheduler's configuration.
use vstd::prelude::*;

verus! {

/// How a task's latency criticality fades over time.
#[derive(Clone, Copy, Debug, PartialEq, Eq, Structural)]
pub enum DecayFunction {
    /// Scaled by `0.5^(elapsed / half-life)` at every decay.
    Continous,
    /// Halved once per whole half-life, dropping the fractional part.
    Discrete,
}

/// How many tasks each dispatch round hands to the kernel.
#[derive(Clone, Copy, Debug, PartialEq, Eq, Structural)]
pub enum DispatchStrategy {
    /// Send twice as many tasks as are cpus on the machine per dispatch
    Batch,
    /// Send a single task to the cpu per dispatch
    DripFeed,
}

/// The scheduler's settings.
#[derive(Clone, Copy, Debug)]
pub struct Settings {
    pub decay_function: DecayFunction,
    pub dispatch_strategy: DispatchStrategy,
    /// Enable criticality inheritance from the waker to the wakee
    pub inherit: bool,
}

impl Default for DecayFunction {
    /// The discrete decay.
    fn default() -> (d: Self)
        ensures
            d == DecayFunction::Discrete,
    {
        DecayFunction::Discrete
    }
}

impl Default for DispatchStrategy {
    /// One task per round.
    fn default() -> (d: Self)
        ensures
            d == DispatchStrategy::DripFeed,
    {
        DispatchStrategy::DripFeed
    }
}

impl Default for Settings {
    /// The settings of a run without options: discrete decay, one task per
    /// round, criticality inheritance on.
    fn default() -> (s: Self)
        ensures
            s.decay_function == DecayFunction::Discrete,
            s.dispatch_strategy == DispatchStrategy::DripFeed,
            s.inherit,
    {
        Settings {
            decay_function: DecayFunction::Discrete,
            dispatch_strategy: DispatchStrategy::DripFeed,
            inherit: true,
        }
    }
}

impl DecayFunction {
    /// The name under which the decay function is shown and chosen.
    pub fn to_string(&self) -> (s: String)
        ensures
            s@ == (match self {
                DecayFunction::Discrete => "discrete"@,
                DecayFunction::Continous => "continous"@,
            }),
    {
        match self {
            DecayFunction::Discrete => "discrete".to_owned(),
            DecayFunction::Continous => "continous".to_owned(),
        }
    }
}

impl DispatchStrategy {
    /// The name under which the dispatch strategy is shown and chosen.
    pub fn to_string(&self) -> (s: String)
        ensures
            s@ == (match self {
                DispatchStrategy::Batch => "batch"@,
                DispatchStrategy::DripFeed => "drip-feed"@,
            }),
    {
        match self {
            DispatchStrategy::Batch => "batch".to_owned(),
            DispatchStrategy::DripFeed => "drip-feed".to_owned(),
        }
    }
}

} // verus!
