//! Button state as the KEYINPUT register sees it.
use vstd::prelude::*;
use crate::bus::{Bus, io_store16, spec_keyinput, REG_KEYINPUT};

verus! {

pub const BUTTON_A: u16 = 0x0001;
pub const BUTTON_B: u16 = 0x0002;
pub const BUTTON_SELECT: u16 = 0x0004;
pub const BUTTON_START: u16 = 0x0008;
pub const BUTTON_RIGHT: u16 = 0x0010;
pub const BUTTON_LEFT: u16 = 0x0020;
pub const BUTTON_UP: u16 = 0x0040;
pub const BUTTON_DOWN: u16 = 0x0080;
pub const BUTTON_R: u16 = 0x0100;
pub const BUTTON_L: u16 = 0x0200;

/// Mask of every button the console has.
pub const BUTTON_MASK: u16 = 0x03FF;

/// The buttons currently held, one bit per `BUTTON_*` constant.
pub struct Input {
    held_mask: u16,
}

impl View for Input {
    type V = u16;

    closed spec fn view(&self) -> u16 {
        self.held_mask
    }
}

impl Input {
    pub fn new() -> (r: Input)
        ensures
            r@ == 0,
    {
        Input { held_mask: 0 }
    }

    /// Records the held buttons; bits that name no button are dropped.
    pub fn set_held_mask(&mut self, held_mask: u16)
        ensures
            final(self)@ == held_mask & BUTTON_MASK,
    {
        self.held_mask = held_mask & BUTTON_MASK;
    }

    /// Publishes the held buttons to KEYINPUT (a held button reads as 0).
    pub fn tick(&mut self, bus: &mut Bus)
        ensures
            final(self)@ == old(self)@,
            final(bus)@ == io_store16(old(bus)@, REG_KEYINPUT, spec_keyinput(old(self)@)),
    {
        bus.set_keyinput_from_held_mask(self.held_mask);
    }
}

impl Default for Input {
    fn default() -> (r: Input)
        ensures
            r@ == 0,
    {
        Input::new()
    }
}

} // verus!
