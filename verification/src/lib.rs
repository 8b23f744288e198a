use vstd::prelude::*;

pub mod bus;
pub mod bus_laws;
pub mod canvas;
pub mod cli;
pub mod cpu;
pub mod cpu_laws;
pub mod gba;
pub mod gba_laws;
pub mod input;
pub mod launcher;
pub mod launcher_view;
pub mod ppu;
pub mod ppu_laws;
pub mod progress;
pub mod session;
pub mod timers;

verus! {
}
