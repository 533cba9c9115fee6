use vstd::prelude::*;

use crate::spread::{lemma_in_range_is_kept, EmissionSpread};

verus! {

/// How an emitter picks the place of each particle in its shape.
#[derive(Debug, Clone, Copy, PartialEq, Eq, Structural)]
pub enum EmissionMode {
    /// Particles are placed at random in the volume.
    Random,
    /// Particles are placed in successive slices of the volume.
    Spread(EmissionSpread),
}

/// What the shape sampler is asked for, for one particle.
#[derive(Debug, Clone, Copy, PartialEq, Eq, Structural)]
pub enum EmissionPlan {
    /// A point anywhere in the shape.
    Random,
    /// A point in the slice of the shape between two spread indices.
    Spread { previous_index: i64, current_index: i64, uniform: bool },
}

impl Default for EmissionMode {
    fn default() -> (r: Self)
        ensures
            r == EmissionMode::Random,
    {
        EmissionMode::Random
    }
}

impl EmissionMode {
    /// The mode can plan its next particle without overflowing the spread index.
    pub open spec fn can_plan(self) -> bool {
        match self {
            EmissionMode::Random => true,
            EmissionMode::Spread(s) => s.step_fits(),
        }
    }

    /// Random emission, or spread emission whose state is in range.
    pub open spec fn in_range(self) -> bool {
        match self {
            EmissionMode::Random => true,
            EmissionMode::Spread(s) => s.in_range(),
        }
    }

    /// The plan for the next particle, and the mode after it.
    pub open spec fn next_plan(self) -> (EmissionPlan, EmissionMode) {
        match self {
            EmissionMode::Random => (EmissionPlan::Random, EmissionMode::Random),
            EmissionMode::Spread(s) => (
                EmissionPlan::Spread {
                    previous_index: s.current_index,
                    current_index: s.advanced().current_index,
                    uniform: s.uniform,
                },
                EmissionMode::Spread(s.advanced()),
            ),
        }
    }

    /// Decides how the next particle is sampled: at random, or from the slice
    /// that the spread index moves over, which advances the index.
    pub fn plan_emission(&mut self) -> (r: EmissionPlan)
        requires
            old(self).can_plan(),
        ensures
            r == old(self).next_plan().0,
            *final(self) == old(self).next_plan().1,
    {
        match self {
            EmissionMode::Random => EmissionPlan::Random,
            EmissionMode::Spread(spread) => {
                let uniform = spread.uniform;
                let (previous_index, current_index) = spread.update_index();
                EmissionPlan::Spread { previous_index, current_index, uniform }
            },
        }
    }
}

/// A mode in range can plan its next particle, and is in range after it: an
/// emitter can plan particles from it forever.
pub proof fn lemma_plannable_forever(m: EmissionMode)
    requires
        m.in_range(),
    ensures
        m.can_plan(),
        m.next_plan().1.in_range(),
{
    if let EmissionMode::Spread(s) = m {
        lemma_in_range_is_kept(s);
    }
}

} // verus!
