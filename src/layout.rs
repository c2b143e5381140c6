use vstd::prelude::*;

verus! {

/// Why a ring configuration was refused.
#[derive(Debug, Clone, Copy, PartialEq, Eq, Structural)]
pub enum ConfigError {
    /// Fewer than two pillars: no bulkhead could join a pair.
    TooFewPillars,
    /// An odd number of pillars: the last pillar would have no partner.
    OddPillarCount,
    /// A duty cycle of no steps at all.
    EmptyCycle,
}

/// The discrete shape of the ring: how many pillars stand on it.
#[derive(Debug, Clone, Copy, PartialEq, Eq, Structural)]
pub struct RingLayout {
    pillar_count: usize,
}

/// A pillar count that pairs up into bulkheads.
pub open spec fn valid_pillar_count(n: nat) -> bool {
    n >= 2 && n % 2 == 0
}

impl RingLayout {
    pub closed spec fn pillars(self) -> nat {
        self.pillar_count as nat
    }

    pub open spec fn wf(self) -> bool {
        valid_pillar_count(self.pillars())
    }

    /// Accepts an even pillar count of at least two.
    pub fn new(pillar_count: usize) -> (r: Result<RingLayout, ConfigError>)
        ensures
            pillar_count < 2 <==> r == Err::<RingLayout, ConfigError>(ConfigError::TooFewPillars),
            (pillar_count >= 2 && pillar_count % 2 == 1) <==> r == Err::<RingLayout, ConfigError>(
                ConfigError::OddPillarCount,
            ),
            r is Ok <==> valid_pillar_count(pillar_count as nat),
            r matches Ok(l) ==> l.pillars() == pillar_count && l.wf(),
    {
        if pillar_count < 2 {
            Err(ConfigError::TooFewPillars)
        } else if pillar_count % 2 == 1 {
            Err(ConfigError::OddPillarCount)
        } else {
            Ok(RingLayout { pillar_count })
        }
    }

    pub fn pillar_count(&self) -> (r: usize)
        ensures
            r == self.pillars(),
    {
        self.pillar_count
    }

    /// One bulkhead for each pair of neighbouring pillars.
    pub fn bulkhead_count(&self) -> (r: usize)
        ensures
            r == self.pillars() / 2,
    {
        self.pillar_count / 2
    }
}

/// Returns the pillars `(i - 1, i)` that a bulkhead joins after pillar `i`,
/// or `None` where pillar `i` opens a pair.
pub fn bulkhead_pillars(i: usize) -> (r: Option<(usize, usize)>)
    ensures
        i % 2 == 1 ==> r == Some(((i - 1) as usize, i)),
        i % 2 == 0 ==> r is None,
{
    if i % 2 == 1 {
        Some((i - 1, i))
    } else {
        None
    }
}

} // verus!
