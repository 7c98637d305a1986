//! The producers' decisions: what each task writes and drives at each step.
//!
//! Each producer owns one hardware signal and one field of the status record.
//! The hardware edges themselves (the interval timer, the physical output,
//! the edge-triggered input) are the scheduler's suspension points and stay
//! outside this crate; what stands here is each producer's step function,
//! from its state and the observed event to the output level it drives and
//! the mutation it submits to the store. Neither producer has an error path,
//! and both loops run forever.

use vstd::prelude::*;
use crate::status::Mutation;

verus! {

/// A digital line level, as the producers see it.
#[derive(Clone, Copy, PartialEq, Eq, Structural, Debug)]
pub enum Level {
    Low,
    High,
}

/// The periodic toggle producer: two states, "low" and "high". On a fixed
/// interval tick it drives its output to the new level, records the matching
/// boolean in `indicator1`, and flips its internal state.
pub struct Blinker {
    phase: bool,
}

impl Blinker {
    /// The state last driven and published: true while the line is high.
    pub closed spec fn phase(self) -> bool {
        self.phase
    }

    /// The level the output is driven to when the published value is `b`:
    /// high exactly when the indicator shows on, as for the other producer.
    pub open spec fn spec_drive_level(b: bool) -> Level {
        if b {
            Level::High
        } else {
            Level::Low
        }
    }

    /// A fresh blinker starts in the "low" state, the physical default
    /// level, with the indicator off.
    pub fn new() -> (p: Blinker)
        ensures
            !p.phase(),
    {
        Blinker { phase: false }
    }

    /// One interval tick: flips to the new state, yields the level to drive
    /// on the physical output and the mutation to submit to the store. The
    /// mutation always rewrites `indicator1` as a whole, with the boolean
    /// corresponding to the driven level: the on-screen indicator matches
    /// the physical line.
    pub fn tick(&mut self) -> (out: (Level, Mutation))
        ensures
            out.0 == Blinker::spec_drive_level(!old(self).phase()),
            out.1 == Mutation::SetIndicator1(!old(self).phase()),
            out.1 == Mutation::SetIndicator1(out.0 == Level::High),
            final(self).phase() == !old(self).phase(),
    {
        let next: bool = !self.phase;
        let level: Level = if next {
            Level::High
        } else {
            Level::Low
        };
        let m: Mutation = Mutation::SetIndicator1(next);
        self.phase = next;
        (level, m)
    }
}

/// The edge-triggered monitor's decision: after any rising-or-falling edge,
/// the level read from the input is forwarded raw (no debouncing at this
/// layer) as a whole-field write of `indicator2`, true exactly when the
/// level is high.
pub fn monitor_event(level: Level) -> (m: Mutation)
    ensures
        m == Mutation::SetIndicator2(level == Level::High),
{
    match level {
        Level::High => Mutation::SetIndicator2(true),
        Level::Low => Mutation::SetIndicator2(false),
    }
}

} // verus!
