//! The hardware timers, advanced with the CPU clock.
use vstd::prelude::*;
use crate::bus::{Bus, spec_tick_timers};

verus! {

/// Drives the four timers of the bus.
pub struct Timers;

impl Timers {
    pub fn new() -> (r: Timers) {
        Timers
    }

    /// Advances every running timer by `cycles` CPU cycles.
    pub fn tick(&mut self, bus: &mut Bus, cycles: u32)
        ensures
            final(bus)@ == spec_tick_timers(old(bus)@, cycles),
    {
        bus.tick_timers(cycles);
    }
}

impl Default for Timers {
    fn default() -> (r: Timers) {
        Timers
    }
}

} // verus!
