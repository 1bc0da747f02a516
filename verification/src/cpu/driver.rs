//! The frame driver: runs the machine from interrupt to interrupt.

use crate::cpu::machine::{lemma_cost_bounds, Event, Fault, HALF_FRAME};
use crate::cpu::state8080::State8080;
use vstd::prelude::*;

verus! {

impl State8080 {
    /// Runs the machine to the end of the current half frame: instructions while
    /// cycles are left, then the interrupt, which is returned as it went:
    /// [`Event::Interrupt`] or [`Event::InterruptMasked`]. Stops at the first step
    /// that faults, with the machine as that step found it.
    pub fn run_half_frame(&mut self) -> (r: Result<Event, Fault>)
        requires
            old(self).wf(),
        ensures
            final(self).wf(),
            final(self)@ == old(self)@.run_half_frame().0,
            r == old(self)@.run_half_frame().1,
    {
        loop
            invariant
                self.wf(),
                self@.run_half_frame() == old(self)@.run_half_frame(),
            decreases
                (if self.cycles < HALF_FRAME {
                    HALF_FRAME - self.cycles
                } else {
                    0
                }),
        {
            proof {
                if self.cycles < HALF_FRAME && self.pc < 0x4000 {
                    lemma_cost_bounds(self@.memory[self.pc as int], true);
                    lemma_cost_bounds(self@.memory[self.pc as int], false);
                }
            }
            let at_boundary = self.cycles >= HALF_FRAME;
            match self.step() {
                Err(f) => {
                    return Err(f);
                },
                Ok(event) => {
                    if at_boundary {
                        return Ok(event);
                    }
                },
            }
        }
    }

    /// Runs the machine for one video frame: two half frames. Returns the two
    /// interrupts that ended them, in their order. Stops at the first step that
    /// faults, with the machine as that step found it.
    pub fn run_frame(&mut self) -> (r: Result<(Event, Event), Fault>)
        requires
            old(self).wf(),
        ensures
            final(self).wf(),
            final(self)@ == old(self)@.run_frame().0,
            r == old(self)@.run_frame().1,
    {
        let first = match self.run_half_frame() {
            Ok(event) => event,
            Err(f) => {
                return Err(f);
            },
        };
        match self.run_half_frame() {
            Ok(second) => Ok((first, second)),
            Err(f) => Err(f),
        }
    }
}

} // verus!
