//! Sampling configuration and validation of orbit configurations.

use vstd::prelude::*;

verus! {

/// How finely one period of an orbit is sampled for output: the raw
/// trajectory records `frames * subframes` evenly spaced sub-steps, plus
/// the initial state.
#[derive(Clone, Copy, PartialEq, Eq, Structural)]
pub struct SimulationConfig {
    pub frames: usize,
    pub subframes: usize,
}

impl SimulationConfig {
    /// Number of recorded sub-steps across one whole period.
    pub fn sample_count(&self) -> (n: usize)
        requires
            self.frames * self.subframes <= usize::MAX,
        ensures
            n == self.frames * self.subframes,
    {
        self.frames * self.subframes
    }
}

/// Why an orbit configuration was rejected before any simulation work.
#[derive(Clone, Copy, Debug, PartialEq, Eq, Structural)]
pub enum ConfigError {
    /// The mass, position and velocity lists do not all have the same
    /// length.
    MismatchedLengths,
    /// The configuration has no bodies at all.
    NoBodies,
    /// The declared period is not greater than zero.
    NonPositivePeriod,
    /// Some body's mass is not greater than zero.
    NonPositiveMass,
}

/// What validation needs to know of an orbit configuration: the lengths
/// of its three per-body lists, and whether its scalar fields passed
/// their sign tests.
#[derive(Clone, Copy, Debug, PartialEq, Eq, Structural)]
pub struct OrbitShape {
    /// Length of the per-body mass list.
    pub mass_count: usize,
    /// Length of the per-body initial-position list.
    pub position_count: usize,
    /// Length of the per-body initial-velocity list.
    pub velocity_count: usize,
    /// Whether the declared period is greater than zero.
    pub period_positive: bool,
    /// Whether every listed mass is greater than zero.
    pub masses_positive: bool,
}

/// The verdict on one orbit configuration: the number of bodies if it is
/// well formed, otherwise the first configuration error found.
pub open spec fn orbit_verdict(shape: OrbitShape) -> Result<usize, ConfigError> {
    if shape.mass_count != shape.position_count || shape.mass_count != shape.velocity_count {
        Err(ConfigError::MismatchedLengths)
    } else if shape.mass_count == 0 {
        Err(ConfigError::NoBodies)
    } else if !shape.period_positive {
        Err(ConfigError::NonPositivePeriod)
    } else if !shape.masses_positive {
        Err(ConfigError::NonPositiveMass)
    } else {
        Ok(shape.mass_count)
    }
}

/// Checks one orbit configuration before any simulation work begins:
/// the three per-body lists must agree in length, at least one body must
/// be present, and the period and every mass must be positive. Returns
/// the body count exactly when all of that holds, and otherwise the
/// first error in that order.
pub fn validate_orbit(shape: &OrbitShape) -> (verdict: Result<usize, ConfigError>)
    ensures
        verdict == orbit_verdict(*shape),
{
    if shape.mass_count != shape.position_count || shape.mass_count != shape.velocity_count {
        Err(ConfigError::MismatchedLengths)
    } else if shape.mass_count == 0 {
        Err(ConfigError::NoBodies)
    } else if !shape.period_positive {
        Err(ConfigError::NonPositivePeriod)
    } else if !shape.masses_positive {
        Err(ConfigError::NonPositiveMass)
    } else {
        Ok(shape.mass_count)
    }
}

/// The per-orbit verdicts of a whole batch, each one a function of its
/// own orbit alone.
pub open spec fn batch_verdicts(shapes: Seq<OrbitShape>) -> Seq<Result<usize, ConfigError>> {
    Seq::new(shapes.len(), |i: int| orbit_verdict(shapes[i]))
}

/// Checks every orbit of a batch. Each orbit gets its own verdict; a
/// rejected orbit never prevents the others from being checked, and the
/// verdicts come back in the orbits' own order.
pub fn validate_batch(shapes: &Vec<OrbitShape>) -> (verdicts: Vec<Result<usize, ConfigError>>)
    ensures
        verdicts@ == batch_verdicts(shapes@),
{
    let mut verdicts: Vec<Result<usize, ConfigError>> = Vec::new();
    let mut i: usize = 0;
    while i < shapes.len()
        invariant
            i <= shapes@.len(),
            verdicts@.len() == i,
            forall|j: int| 0 <= j < i ==> verdicts@[j] == orbit_verdict(shapes@[j]),
        decreases shapes@.len() - i,
    {
        let verdict = validate_orbit(&shapes[i]);
        verdicts.push(verdict);
        i += 1;
    }
    proof {
        assert(verdicts@ =~= batch_verdicts(shapes@));
    }
    verdicts
}

/// Batch isolation: an orbit's verdict depends on that orbit alone.
/// Wherever the same orbit configuration appears — in whatever batch, at
/// whatever position, among whatever neighbours — its verdict is the
/// same, so one orbit's failure can neither mask nor cause another's.
pub proof fn lemma_batch_isolation(
    batch_a: Seq<OrbitShape>,
    batch_b: Seq<OrbitShape>,
    i: int,
    j: int,
)
    requires
        0 <= i < batch_a.len(),
        0 <= j < batch_b.len(),
        batch_a[i] == batch_b[j],
    ensures
        batch_verdicts(batch_a)[i] == batch_verdicts(batch_b)[j],
{
}

} // verus!
