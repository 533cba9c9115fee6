use vstd::prelude::*;

verus! {

/// Fixed-point scale of a spread index: `INDEX_ONE` stands for the whole
/// shape (1.0), `INDEX_ONE / 10` for a tenth of it.
pub const INDEX_ONE: i64 = 1_000_000;

/// How the spread index wraps once it has gone round the shape.
#[derive(Debug, Clone, Copy, PartialEq, Eq, Structural)]
pub enum SpreadLoopMode {
    /// Starts over past the end of each cycle.
    Loop,
    /// Each cycle runs in the opposite direction to the last.
    PingPong,
}

impl Default for SpreadLoopMode {
    fn default() -> (r: Self)
        ensures
            r == SpreadLoopMode::Loop,
    {
        SpreadLoopMode::Loop
    }
}

/// Spread emission: the step size and wrap mode chosen by the user, and the
/// running index (with its direction) that each emitted particle advances.
///
/// `amount` and `current_index` are fixed-point values over `INDEX_ONE`.
#[derive(Debug, Clone, Copy, PartialEq, Eq, Structural)]
pub struct EmissionSpread {
    /// Step of the index per particle: `INDEX_ONE / 10` emits at tenths of the shape.
    pub amount: i64,
    /// Wrap mode of the index.
    pub loop_mode: SpreadLoopMode,
    /// Particles are placed evenly inside each slice rather than at random.
    pub uniform: bool,
    /// Running index, owned by the emitter.
    pub current_index: i64,
    /// Running direction of the index, owned by the emitter.
    pub upwards: bool,
}

impl EmissionSpread {
    /// The index one step further in the running direction, before any wrap.
    pub open spec fn stepped(self) -> int {
        if self.upwards {
            self.current_index + self.amount
        } else {
            self.current_index - self.amount
        }
    }

    /// The step in the running direction stays within `i64`.
    pub open spec fn step_fits(self) -> bool {
        i64::MIN <= self.stepped() <= i64::MAX
    }

    /// The state after one advance of the index.
    ///
    /// `Loop` sends an index past `INDEX_ONE` to `INDEX_ONE - index` (a
    /// reflection below zero, not a modulo). `PingPong` discards a step that
    /// leaves `[0, INDEX_ONE]` and reverses the running direction instead.
    pub open spec fn advanced(self) -> EmissionSpread {
        let s = self.stepped();
        let next: int = match self.loop_mode {
            SpreadLoopMode::Loop => if s > INDEX_ONE { INDEX_ONE - s } else { s },
            SpreadLoopMode::PingPong => if s < 0 || s > INDEX_ONE {
                self.current_index as int
            } else {
                s
            },
        };
        let flips = self.loop_mode == SpreadLoopMode::PingPong && (s < 0 || s > INDEX_ONE);
        EmissionSpread {
            amount: self.amount,
            loop_mode: self.loop_mode,
            uniform: self.uniform,
            current_index: next as i64,
            upwards: if flips { !self.upwards } else { self.upwards },
        }
    }

    /// The states that stay within range forever: a step of at most
    /// `INDEX_ONE`, and an index in `[0, INDEX_ONE]` for `PingPong`, or an
    /// upward index in `[-INDEX_ONE, INDEX_ONE]` for `Loop`.
    pub open spec fn in_range(self) -> bool {
        &&& 0 <= self.amount <= INDEX_ONE
        &&& match self.loop_mode {
            SpreadLoopMode::Loop => self.upwards && -INDEX_ONE <= self.current_index <= INDEX_ONE,
            SpreadLoopMode::PingPong => 0 <= self.current_index <= INDEX_ONE,
        }
    }

    /// Tells whether the next step of the index fits in `i64`, that is whether
    /// `update_index` may be called.
    pub fn fits_next_step(&self) -> (r: bool)
        ensures
            r == self.step_fits(),
    {
        if self.upwards {
            self.current_index.checked_add(self.amount).is_some()
        } else {
            self.current_index.checked_sub(self.amount).is_some()
        }
    }

    /// Advances the index by one step and returns the slice `(previous, current)`
    /// of the shape that the next particle is drawn from.
    pub fn update_index(&mut self) -> (r: (i64, i64))
        requires
            old(self).step_fits(),
        ensures
            *final(self) == old(self).advanced(),
            r == (old(self).current_index, final(self).current_index),
    {
        let previous_index = self.current_index;
        if self.upwards {
            self.current_index = self.current_index + self.amount;
        } else {
            self.current_index = self.current_index - self.amount;
        }
        match self.loop_mode {
            SpreadLoopMode::Loop => {
                if self.current_index > INDEX_ONE {
                    self.current_index = INDEX_ONE - self.current_index;
                }
            },
            SpreadLoopMode::PingPong => {
                if self.current_index < 0 || self.current_index > INDEX_ONE {
                    self.upwards = !self.upwards;
                    self.current_index = previous_index;
                }
            },
        }
        (previous_index, self.current_index)
    }
}

impl Default for EmissionSpread {
    fn default() -> (r: Self)
        ensures
            r.amount == INDEX_ONE / 10,
            r.loop_mode == SpreadLoopMode::Loop,
            !r.uniform,
            r.current_index == 0,
            r.upwards,
    {
        EmissionSpread {
            amount: INDEX_ONE / 10,
            loop_mode: SpreadLoopMode::default(),
            uniform: false,
            current_index: 0,
            upwards: true,
        }
    }
}

/// A spread state in range stays in range: its next step fits in `i64`, and
/// the state after it is in range again, so an emitter can advance it forever.
pub proof fn lemma_in_range_is_kept(s: EmissionSpread)
    requires
        s.in_range(),
    ensures
        s.step_fits(),
        s.advanced().in_range(),
{
}

/// With a step of zero the index never moves, as long as it has not passed
/// the end of the shape.
pub proof fn lemma_zero_amount_holds_index(s: EmissionSpread)
    requires
        s.amount == 0,
        s.current_index <= INDEX_ONE,
    ensures
        s.step_fits(),
        s.advanced().current_index == s.current_index,
{
}

} // verus!
