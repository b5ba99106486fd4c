//! The adaptive-timestep constraint in its ladder-of-timesteps form.
//!
//! A [`TimeStepConstraint`] holds the candidate timesteps sorted from
//! finest to coarsest, the index currently in use, the fraction of frame
//! time the simulation is allowed to take, and the two hysteresis
//! windows. The stepping system reports each frame whether the
//! simulation ran slow or fast; once a report has persisted past its
//! window, the timestep is moved one rung.

use vstd::prelude::*;

verus! {

/// The type of timestep to use for the simulation.
pub enum TimeStep {
    /// Always use the given timestep, in nanoseconds.
    Fixed(u64),
    /// Use one of a ladder of timesteps, changing rungs when the
    /// simulation falls behind or catches up.
    SemiFixed(TimeStepConstraint),
}

impl Default for TimeStep {
    /// A fixed timestep of one one-hundred-twentieth of a second.
    fn default() -> (r: TimeStep)
        ensures
            r matches TimeStep::Fixed(d) && d == 8_333_333u64,
    {
        TimeStep::Fixed(8_333_333)
    }
}

/// Error when trying to change the active timestep of a semi-fixed
/// ladder.
#[derive(Clone, Copy, Debug, PartialEq, Eq, Structural)]
pub enum TimeStepChangeError {
    /// No smaller timestep is available.
    MinimumTimestepReached,
    /// No larger timestep is available.
    MaximumTimestepReached,
}

/// Constraints for a semi-fixed timestep: the ladder, the budget
/// fraction and the hysteresis windows. Times are nanoseconds; the
/// budget fraction is in millionths.
pub struct TimeStepConstraint {
    /// The candidate timesteps, strictly increasing: finest first.
    pub time_steps: Vec<u64>,
    /// The index of the timestep currently in use.
    pub current_index: usize,
    /// The fraction of frame time the simulation may take, in millionths.
    pub max_physics_time_fraction: u32,
    /// How long the simulation must run slow before the timestep grows.
    pub minimum_time_running_slow: u64,
    /// How long the simulation must run fast before the timestep shrinks.
    pub minimum_time_running_fast: u64,
    /// When the simulation started running slow, if it is.
    pub running_slow_since: Option<u64>,
    /// When the simulation started running fast, if it is.
    pub running_fast_since: Option<u64>,
}

impl TimeStepConstraint {
    /// The ladder is non-empty, strictly increasing, positive, and the
    /// active index is in bounds.
    pub open spec fn wf(self) -> bool {
        &&& self.time_steps@.len() > 0
        &&& self.current_index < self.time_steps@.len()
        &&& forall|i: int| 0 <= i < self.time_steps@.len() ==> #[trigger] self.time_steps@[i] > 0
        &&& forall|i: int, j: int|
            0 <= i < j < self.time_steps@.len() ==> self.time_steps@[i] < self.time_steps@[j]
    }

    /// Every recorded timestamp is at or before `now`.
    pub open spec fn stamps_le(self, now: u64) -> bool {
        &&& (self.running_slow_since is Some ==> self.running_slow_since->0 <= now)
        &&& (self.running_fast_since is Some ==> self.running_fast_since->0 <= now)
    }

    /// Builds a constraint from candidate timesteps — in any order,
    /// duplicates allowed — the budget fraction and the two hysteresis
    /// windows. The ladder starts at its finest timestep.
    pub fn new(
        time_steps: &Vec<u64>,
        max_physics_time_fraction: u32,
        minimum_time_running_slow: u64,
        minimum_time_running_fast: u64,
    ) -> (r: TimeStepConstraint)
        requires
            time_steps@.len() > 0,
            forall|i: int| 0 <= i < time_steps@.len() ==> #[trigger] time_steps@[i] > 0,
        ensures
            r.wf(),
            r.stamps_le(0),
            forall|x: u64| r.time_steps@.contains(x) <==> time_steps@.contains(x),
            r.current_index == 0,
            r.max_physics_time_fraction == max_physics_time_fraction,
            r.minimum_time_running_slow == minimum_time_running_slow,
            r.minimum_time_running_fast == minimum_time_running_fast,
            r.running_slow_since is None,
            r.running_fast_since is None,
    {
        let mut sorted: Vec<u64> = Vec::new();
        let mut i: usize = 0;
        while i < time_steps.len()
            invariant
                i <= time_steps@.len(),
                forall|a: int, b: int|
                    0 <= a < b < sorted@.len() ==> sorted@[a] < sorted@[b],
                forall|x: u64|
                    #[trigger] sorted@.contains(x) <==> time_steps@.take(i as int).contains(x),
            decreases time_steps@.len() - i,
        {
            let v = time_steps[i];
            let ghost pre = sorted@;
            // Find the insertion point for `v` in the sorted prefix.
            let mut p: usize = 0;
            while p < sorted.len() && sorted[p] < v
                invariant
                    p <= sorted@.len(),
                    sorted@ == pre,
                    forall|a: int, b: int| 0 <= a < b < sorted@.len() ==> sorted@[a] < sorted@[b],
                    forall|a: int| 0 <= a < p ==> #[trigger] sorted@[a] < v,
                decreases sorted@.len() - p,
            {
                p = p + 1;
            }
            let duplicate = p < sorted.len() && sorted[p] == v;
            if !duplicate {
                sorted.insert(p, v);
                proof {
                    assert forall|a: int, b: int|
                        0 <= a < b < sorted@.len() implies sorted@[a] < sorted@[b] by {
                        if b < p {
                        } else if a < p && b == p {
                        } else if a < p && b > p {
                            assert(pre[a] < v);
                            assert(v < pre[b - 1] || v == sorted@[b]) by {
                                assert(sorted@[b] == pre[b - 1]);
                            }
                            assert(pre[b - 1] >= v);
                        } else if a == p {
                            assert(sorted@[b] == pre[b - 1]);
                            assert(pre[b - 1] >= v && pre[b - 1] != v);
                        } else {
                            assert(sorted@[a] == pre[a - 1]);
                            assert(sorted@[b] == pre[b - 1]);
                        }
                    }
                }
            }
            proof {
                assert(time_steps@.take(i + 1).drop_last() =~= time_steps@.take(i as int));
                assert(time_steps@.take(i + 1).last() == time_steps@[i as int]);
                assert forall|x: u64|
                    #[trigger] sorted@.contains(x) <==> time_steps@.take(i + 1).contains(x) by {
                    let s1 = time_steps@.take(i + 1);
                    let s0 = time_steps@.take(i as int);
                    if duplicate {
                        assert(sorted@ == pre);
                        if x == v {
                            assert(pre.contains(v)) by {
                                assert((#[trigger] pre[p as int]) == v);
                            }
                            assert(s1.contains(v)) by {
                                assert((#[trigger] s1[i as int]) == v);
                            }
                        }
                        if s1.contains(x) {
                            let ix = choose|ix: int| 0 <= ix < s1.len() && (#[trigger] s1[ix]) == x;
                            if ix < i {
                                assert(s0.contains(x)) by {
                                    assert((#[trigger] s0[ix]) == x);
                                }
                            }
                        }
                        if pre.contains(x) {
                            assert(s0.contains(x));
                            let ix = choose|ix: int| 0 <= ix < s0.len() && (#[trigger] s0[ix]) == x;
                            assert(s1.contains(x)) by {
                                assert((#[trigger] s1[ix]) == x);
                            }
                        }
                    } else {
                        assert(sorted@ == pre.insert(p as int, v));
                        if sorted@.contains(x) {
                            let ix = choose|ix: int|
                                0 <= ix < sorted@.len() && (#[trigger] sorted@[ix]) == x;
                            if ix == p {
                                assert(x == v);
                                assert(s1.contains(v)) by {
                                    assert((#[trigger] s1[i as int]) == v);
                                }
                            } else {
                                if ix < p {
                                    assert(pre[ix] == x);
                                    assert(pre.contains(x)) by {
                                        assert((#[trigger] pre[ix]) == x);
                                    }
                                } else {
                                    assert(pre[ix - 1] == x);
                                    assert(pre.contains(x)) by {
                                        assert((#[trigger] pre[ix - 1]) == x);
                                    }
                                }
                                assert(s0.contains(x));
                                let jx = choose|jx: int|
                                    0 <= jx < s0.len() && (#[trigger] s0[jx]) == x;
                                assert(s1.contains(x)) by {
                                    assert((#[trigger] s1[jx]) == x);
                                }
                            }
                        }
                        if s1.contains(x) {
                            let ix = choose|ix: int| 0 <= ix < s1.len() && (#[trigger] s1[ix]) == x;
                            if ix < i {
                                assert(s0.contains(x)) by {
                                    assert((#[trigger] s0[ix]) == x);
                                }
                                assert(pre.contains(x));
                                let jx = choose|jx: int|
                                    0 <= jx < pre.len() && (#[trigger] pre[jx]) == x;
                                if jx < p {
                                    assert(sorted@.contains(x)) by {
                                        assert((#[trigger] sorted@[jx]) == x);
                                    }
                                } else {
                                    assert(sorted@.contains(x)) by {
                                        assert((#[trigger] sorted@[jx + 1]) == x);
                                    }
                                }
                            } else {
                                assert(x == v);
                                assert(sorted@.contains(v)) by {
                                    assert((#[trigger] sorted@[p as int]) == v);
                                }
                            }
                        }
                    }
                }
            }
            i = i + 1;
        }
        proof {
            assert(time_steps@.take(time_steps@.len() as int) =~= time_steps@);
            assert(time_steps@.contains(time_steps@[0]));
            assert(sorted@.contains(time_steps@[0]));
            assert(sorted@.len() > 0);
            assert forall|a: int| 0 <= a < sorted@.len() implies (#[trigger] sorted@[a]) > 0 by {
                assert(sorted@.contains(sorted@[a]));
                let jx = choose|jx: int|
                    0 <= jx < time_steps@.len() && (#[trigger] time_steps@[jx]) == sorted@[a];
            }
        }
        TimeStepConstraint {
            time_steps: sorted,
            current_index: 0,
            max_physics_time_fraction,
            minimum_time_running_slow,
            minimum_time_running_fast,
            running_slow_since: None,
            running_fast_since: None,
        }
    }

    /// Moves to the next larger timestep — fewer updates per second —
    /// resetting both hysteresis timers; fails at the top of the ladder.
    pub fn increase_timestep(&mut self) -> (r: Result<u64, TimeStepChangeError>)
        requires
            old(self).wf(),
        ensures
            final(self).wf(),
            final(self).time_steps == old(self).time_steps,
            r is Err <==> old(self).current_index >= old(self).time_steps@.len() - 1,
            r is Err ==> r == Result::<u64, TimeStepChangeError>::Err(
                TimeStepChangeError::MaximumTimestepReached,
            ) && *final(self) == *old(self),
            r is Ok ==> {
                &&& final(self).current_index == old(self).current_index + 1
                &&& r == Result::<u64, TimeStepChangeError>::Ok(
                    old(self).time_steps@[old(self).current_index + 1],
                )
                &&& final(self).running_slow_since is None
                &&& final(self).running_fast_since is None
            },
    {
        if self.current_index >= self.time_steps.len() - 1 {
            return Err(TimeStepChangeError::MaximumTimestepReached);
        }
        self.current_index = self.current_index + 1;
        self.running_slow_since = None;
        self.running_fast_since = None;
        Ok(self.current_timestep())
    }

    /// Moves to the next smaller timestep — more updates per second —
    /// resetting both hysteresis timers; fails at the bottom of the
    /// ladder.
    pub fn decrease_timestep(&mut self) -> (r: Result<u64, TimeStepChangeError>)
        requires
            old(self).wf(),
        ensures
            final(self).wf(),
            final(self).time_steps == old(self).time_steps,
            r is Err <==> old(self).current_index == 0,
            r is Err ==> r == Result::<u64, TimeStepChangeError>::Err(
                TimeStepChangeError::MinimumTimestepReached,
            ) && *final(self) == *old(self),
            r is Ok ==> {
                &&& final(self).current_index == old(self).current_index - 1
                &&& r == Result::<u64, TimeStepChangeError>::Ok(
                    old(self).time_steps@[old(self).current_index - 1],
                )
                &&& final(self).running_slow_since is None
                &&& final(self).running_fast_since is None
            },
    {
        if self.current_index == 0 {
            return Err(TimeStepChangeError::MinimumTimestepReached);
        }
        self.current_index = self.current_index - 1;
        self.running_slow_since = None;
        self.running_fast_since = None;
        Ok(self.current_timestep())
    }

    /// The timestep currently in use.
    pub fn current_timestep(&self) -> (r: u64)
        requires
            self.wf(),
        ensures
            r == self.time_steps@[self.current_index as int],
    {
        self.time_steps[self.current_index]
    }

    /// The next smaller timestep, if one exists.
    pub fn smaller_timestep(&self) -> (r: Option<u64>)
        requires
            self.wf(),
        ensures
            self.current_index == 0 ==> r is None,
            self.current_index > 0 ==> r == Some(self.time_steps@[self.current_index - 1]),
    {
        if self.current_index == 0 {
            None
        } else {
            Some(self.time_steps[self.current_index - 1])
        }
    }

    /// The fraction of frame time the simulation may take, in millionths.
    pub fn max_physics_time_fraction(&self) -> (r: u32)
        ensures
            r == self.max_physics_time_fraction,
    {
        self.max_physics_time_fraction
    }

    /// Reports whether the simulation is currently running slow. Call
    /// every frame: the timer starts when slowness begins and clears when
    /// it ends; repeated reports of the same state change nothing.
    pub fn set_running_slow(&mut self, is_running_slow: bool, now: u64)
        requires
            old(self).wf(),
            old(self).stamps_le(now),
        ensures
            final(self).wf(),
            final(self).stamps_le(now),
            final(self).running_slow_since == (match (
                old(self).running_slow_since,
                is_running_slow,
            ) {
                (Option::<u64>::None, true) => Some(now),
                (Some(_), false) => None::<u64>,
                _ => old(self).running_slow_since,
            }),
            *final(self) == (TimeStepConstraint {
                running_slow_since: final(self).running_slow_since,
                ..*old(self)
            }),
    {
        self.running_slow_since = match (self.running_slow_since, is_running_slow) {
            (None, true) => Some(now),
            (Some(_), false) => None,
            (other, _) => other,
        };
    }

    /// Reports whether the simulation is currently running fast, in the
    /// same manner as [`TimeStepConstraint::set_running_slow`].
    pub fn set_running_fast(&mut self, is_running_fast: bool, now: u64)
        requires
            old(self).wf(),
            old(self).stamps_le(now),
        ensures
            final(self).wf(),
            final(self).stamps_le(now),
            final(self).running_fast_since == (match (
                old(self).running_fast_since,
                is_running_fast,
            ) {
                (Option::<u64>::None, true) => Some(now),
                (Some(_), false) => None::<u64>,
                _ => old(self).running_fast_since,
            }),
            *final(self) == (TimeStepConstraint {
                running_fast_since: final(self).running_fast_since,
                ..*old(self)
            }),
    {
        self.running_fast_since = match (self.running_fast_since, is_running_fast) {
            (None, true) => Some(now),
            (Some(_), false) => None,
            (other, _) => other,
        };
    }

    /// Whether the simulation has been running slow past the configured
    /// window, so the timestep should be increased.
    pub fn should_increase_timestep(&self, now: u64) -> (r: bool)
        requires
            self.stamps_le(now),
        ensures
            r == (self.running_slow_since matches Some(t) && now - t
                > self.minimum_time_running_slow),
    {
        match self.running_slow_since {
            None => false,
            Some(time) => now - time > self.minimum_time_running_slow,
        }
    }

    /// Whether the simulation has been running fast past the configured
    /// window, so the timestep should be decreased.
    pub fn should_decrease_timestep(&self, now: u64) -> (r: bool)
        requires
            self.stamps_le(now),
        ensures
            r == (self.running_fast_since matches Some(t) && now - t
                > self.minimum_time_running_fast),
    {
        match self.running_fast_since {
            None => false,
            Some(time) => now - time > self.minimum_time_running_fast,
        }
    }
}

} // verus!
