//! The whole console: CPU, bus, picture unit, timers and buttons run frame by frame.
use vstd::prelude::*;
use crate::bus::{
    Bus, BusState, io16, io_store16, IO_SIZE, IO_START, power_on_state, spec_keyinput, spec_read8, spec_read16,
    spec_read32, spec_tick_timers, spec_write8, spec_write16, DMA_NEST_LIMIT, REG_DISPCNT,
    REG_IE, REG_IF, REG_IME, REG_KEYINPUT, REG_VCOUNT,
};
use crate::cpu::{
    initial_cpu_state, lemma_step_cycles, pc_of, reset_cpu_state, UnknownInstruction, spec_force_boot_to_bios,
    spec_force_boot_to_rom, spec_jump_to_rom_entry, spec_step, BranchTrace, Cpu, CpuState,
    MAX_STEP_CYCLES,
};
use crate::input::{Input, BUTTON_MASK};
use crate::ppu::{initial_ppu_state, spec_ppu_tick, Ppu, PpuState, SCREEN_PIXELS, SCANLINE_CYCLES, TOTAL_SCANLINES};
use crate::timers::Timers;

verus! {

/// CPU cycles in one frame: 228 scanlines of 1232 cycles.
pub const CYCLES_PER_FRAME: u32 = 280_896;
/// Frames that the BIOS may spin at one address before the cartridge is started
/// without it.
pub const BIOS_STALL_HANDOFF_FRAMES: u32 = 20;
/// BIOS instructions in a frame above which a frame without cartridge code counts as
/// a BIOS stall.
pub const BIOS_STALL_MIN_STEPS: u32 = 100_000;
/// End of the BIOS address range.
pub const BIOS_END: u32 = 0x0000_4000;
pub const ROM_REGION_START: u32 = 0x0800_0000;
pub const ROM_REGION_END: u32 = 0x0E00_0000;
/// `last_bios_pc` when no BIOS address has been seen.
pub const NO_BIOS_PC: u32 = 0xFFFF_FFFF;

/// Registers and memory words shown by the debug log.
#[derive(Debug, Clone, Copy)]
pub struct DebugSnapshot {
    pub pc: u32,
    pub cycles: u64,
    pub cpsr: u32,
    pub r0: u32,
    pub r1: u32,
    pub r2: u32,
    pub r3: u32,
    pub r4: u32,
    pub r7: u32,
    pub sp: u32,
    pub lr: u32,
    pub dispcnt: u16,
    pub vcount: u16,
    pub ime: u16,
    pub ie: u16,
    pub iflags: u16,
    pub handoff_7ff0: u8,
    pub bios_irq_flags: u16,
    pub irq_vec: u32,
    pub irq_check: u16,
    pub frame_bios_steps: u32,
    pub frame_rom_steps: u32,
    pub bg0cnt: u16,
    pub bg0hofs: u16,
    pub bg0vofs: u16,
    pub palette0: u16,
    pub palette1: u16,
    pub vram0: u16,
    pub vram10: u16,
    pub vram100: u16,
    pub vram1000: u16,
    pub vram3800: u16,
    pub ew_22b4: u16,
    pub ew_22b6: u16,
    pub ew_22c0: u32,
}

/// Abstract state of the console.
#[verifier::ext_equal]
pub ghost struct GbaState {
    pub bus: BusState,
    pub cpu: CpuState,
    pub ppu: PpuState,
    pub held_mask: u16,
    pub last_frame_bios_steps: u32,
    pub last_frame_rom_steps: u32,
    pub bios_stall_frame_count: u32,
    pub last_bios_pc: u32,
    pub branch_log: Seq<BranchTrace>,
}

impl GbaState {
    /// The picture has its size and the stall count is below its limit.
    pub open spec fn shape_wf(self) -> bool {
        &&& self.ppu.framebuffer.len() == SCREEN_PIXELS
        &&& self.bios_stall_frame_count < BIOS_STALL_HANDOFF_FRAMES
    }

    /// A console state that frames keep: besides the shape, every memory has its size,
    /// the picture unit is inside a scanline and VCOUNT names a line (0 to 227).
    pub open spec fn wf(self) -> bool {
        &&& self.shape_wf()
        &&& self.bus.wf()
        &&& self.ppu.scanline_cycles < SCANLINE_CYCLES
        &&& spec_read16(self.bus, REG_VCOUNT) < TOTAL_SCANLINES
    }
}

pub struct Gba {
    pub bus: Bus,
    pub cpu: Cpu,
    ppu: Ppu,
    input: Input,
    timers: Timers,
    last_frame_bios_steps: u32,
    last_frame_rom_steps: u32,
    bios_stall_frame_count: u32,
    last_bios_pc: u32,
    branch_log: Vec<BranchTrace>,
}

impl View for Gba {
    type V = GbaState;

    closed spec fn view(&self) -> GbaState {
        GbaState {
            bus: self.bus@,
            cpu: self.cpu@,
            ppu: self.ppu@,
            held_mask: self.input@,
            last_frame_bios_steps: self.last_frame_bios_steps,
            last_frame_rom_steps: self.last_frame_rom_steps,
            bios_stall_frame_count: self.bios_stall_frame_count,
            last_bios_pc: self.last_bios_pc,
            branch_log: self.branch_log@,
        }
    }
}

pub open spec fn initial_gba_state() -> GbaState {
    GbaState {
        bus: power_on_state(),
        cpu: initial_cpu_state(),
        ppu: initial_ppu_state(),
        held_mask: 0,
        last_frame_bios_steps: 0,
        last_frame_rom_steps: 0,
        bios_stall_frame_count: 0,
        last_bios_pc: NO_BIOS_PC,
        branch_log: Seq::empty(),
    }
}

/// Without a BIOS, some titles wait in startup loops on bytes and halfwords in IWRAM
/// that their (BIOS-dispatched) interrupt callbacks would refresh; these writes keep
/// them set, and mirror the pending interrupt flags into the two IRQ-check halfwords.
pub open spec fn spec_biosless_fixups(b: BusState) -> BusState {
    if b.bios_loaded {
        b
    } else {
        let b1 = spec_write8(b, 0x0300_34A9, 1);
        let b2 = spec_write8(b1, 0x0300_6A0C, 1);
        let b3 = spec_write16(b2, 0x0300_22DC, spec_read16(b2, 0x0300_22DC) | 1, DMA_NEST_LIMIT as nat);
        let b4 = spec_write16(b3, 0x0300_22F8, spec_read16(b3, 0x0300_22F8) | 1, DMA_NEST_LIMIT as nat);
        let iflags = spec_read16(b4, REG_IF);
        if iflags != 0 {
            let b5 = spec_write16(
                b4,
                0x0300_22DC,
                spec_read16(b4, 0x0300_22DC) | iflags | 1,
                DMA_NEST_LIMIT as nat,
            );
            spec_write16(b5, 0x0300_22F8, spec_read16(b5, 0x0300_22F8) | iflags | 1, DMA_NEST_LIMIT as nat)
        } else {
            b4
        }
    }
}

/// One CPU step and everything clocked by it: timers, picture unit, buttons, the
/// BIOS-less fix-ups, and the branch log. Returns the cycles spent.
#[verifier::opaque]
pub open spec fn spec_frame_step(g: GbaState, render_video: bool) -> (GbaState, u32) {
    let (c1, b1, spent) = spec_step(g.cpu, g.bus);
    let b2 = spec_tick_timers(b1, spent);
    let (p3, b3) = spec_ppu_tick(g.ppu, b2, spent, render_video);
    let b4 = io_store16(b3, REG_KEYINPUT, spec_keyinput(g.held_mask));
    let b5 = spec_biosless_fixups(b4);
    let log = match c1.last_branch {
        Some(t) => g.branch_log.push(t),
        None => g.branch_log,
    };
    (GbaState { bus: b5, cpu: c1, ppu: p3, branch_log: log, ..g }, spent)
}

pub open spec fn in_bios_range(pc: u32) -> bool {
    pc < BIOS_END
}

pub open spec fn in_rom_range(pc: u32) -> bool {
    ROM_REGION_START <= pc < ROM_REGION_END
}

/// Steps until the frame's cycles reach `CYCLES_PER_FRAME`, counting the steps that
/// end in the BIOS and in the cartridge (saturating). Returns the state and the counts.
pub open spec fn spec_frame_loop(g: GbaState, render_video: bool, cycles: int, bios_steps: u32, rom_steps: u32) -> (
    GbaState,
    u32,
    u32,
)
    decreases CYCLES_PER_FRAME + MAX_STEP_CYCLES - cycles,
{
    if cycles >= CYCLES_PER_FRAME || cycles < 0 {
        (g, bios_steps, rom_steps)
    } else {
        let (g1, spent) = spec_frame_step(g, render_video);
        let pc = pc_of(g1.cpu);
        let bios1 = if in_bios_range(pc) {
            bios_steps.saturating_add(1)
        } else {
            bios_steps
        };
        let rom1 = if !in_bios_range(pc) && in_rom_range(pc) {
            rom_steps.saturating_add(1)
        } else {
            rom_steps
        };
        proof {
            lemma_frame_step_cycles(g, render_video);
        }
        spec_frame_loop(g1, render_video, cycles + spent, bios1, rom1)
    }
}

/// The state in which the cartridge is started without the BIOS: the BIOS is unmapped
/// and the CPU jumps to the cartridge entry point.
pub open spec fn spec_boot_without_bios(g: GbaState) -> GbaState {
    GbaState {
        bus: BusState { bios_loaded: false, ..g.bus },
        cpu: spec_jump_to_rom_entry(g.cpu),
        ..g
    }
}

/// End-of-frame bookkeeping: records the step counts, and when the BIOS ran a busy
/// frame without reaching the cartridge, counts frames that end at the same BIOS
/// address; at `BIOS_STALL_HANDOFF_FRAMES` of them the cartridge is started without
/// the BIOS.
pub open spec fn spec_end_frame(g: GbaState, bios_steps: u32, rom_steps: u32) -> GbaState {
    let g0 = GbaState { last_frame_bios_steps: bios_steps, last_frame_rom_steps: rom_steps, ..g };
    let pc = pc_of(g.cpu);
    if g.bus.bios_loaded && rom_steps == 0 && bios_steps > BIOS_STALL_MIN_STEPS && in_bios_range(pc) {
        if pc == g.last_bios_pc {
            if g.bios_stall_frame_count + 1 >= BIOS_STALL_HANDOFF_FRAMES {
                GbaState {
                    bios_stall_frame_count: 0,
                    last_bios_pc: NO_BIOS_PC,
                    ..spec_boot_without_bios(g0)
                }
            } else {
                GbaState { bios_stall_frame_count: (g.bios_stall_frame_count + 1) as u32, ..g0 }
            }
        } else {
            GbaState { last_bios_pc: pc, bios_stall_frame_count: 0, ..g0 }
        }
    } else {
        g0
    }
}

/// One frame: at least `CYCLES_PER_FRAME` cycles of emulation, then the end-of-frame
/// bookkeeping.
pub open spec fn spec_run_frame(g: GbaState, render_video: bool) -> GbaState {
    let (g1, bios_steps, rom_steps) = spec_frame_loop(g, render_video, 0, 0, 0);
    spec_end_frame(g1, bios_steps, rom_steps)
}

/// A frame starting from a CPU cycle counter this far from overflow cannot overflow it.
pub open spec fn frame_cycles_fit(g: GbaState) -> bool {
    g.cpu.cycles + CYCLES_PER_FRAME + MAX_STEP_CYCLES <= u64::MAX
}

/// The KEYINPUT register as stored on the bus.
pub open spec fn frame_keyinput(g: GbaState) -> u16 {
    io16(g.bus, REG_KEYINPUT)
}

pub open spec fn spec_debug_snapshot(g: GbaState) -> DebugSnapshot {
    let b = g.bus;
    DebugSnapshot {
        pc: pc_of(g.cpu),
        cycles: g.cpu.cycles,
        cpsr: g.cpu.cpsr,
        r0: g.cpu.regs[0],
        r1: g.cpu.regs[1],
        r2: g.cpu.regs[2],
        r3: g.cpu.regs[3],
        r4: g.cpu.regs[4],
        r7: g.cpu.regs[7],
        sp: g.cpu.regs[13],
        lr: g.cpu.regs[14],
        dispcnt: spec_read16(b, REG_DISPCNT),
        vcount: spec_read16(b, REG_VCOUNT),
        ime: spec_read16(b, REG_IME),
        ie: spec_read16(b, REG_IE),
        iflags: spec_read16(b, REG_IF),
        handoff_7ff0: spec_read8(b, 0x0300_7FF0),
        bios_irq_flags: spec_read16(b, 0x03FF_FFF8),
        irq_vec: spec_read32(b, 0x03FF_FFFC),
        irq_check: spec_read16(b, 0x0300_22DC),
        frame_bios_steps: g.last_frame_bios_steps,
        frame_rom_steps: g.last_frame_rom_steps,
        bg0cnt: spec_read16(b, 0x0400_0008),
        bg0hofs: spec_read16(b, 0x0400_0010),
        bg0vofs: spec_read16(b, 0x0400_0012),
        palette0: spec_read16(b, 0x0500_0000),
        palette1: spec_read16(b, 0x0500_0002),
        vram0: spec_read16(b, 0x0600_0000),
        vram10: spec_read16(b, 0x0600_0010),
        vram100: spec_read16(b, 0x0600_0100),
        vram1000: spec_read16(b, 0x0600_1000),
        vram3800: spec_read16(b, 0x0600_3800),
        ew_22b4: spec_read16(b, 0x0300_22B4),
        ew_22b6: spec_read16(b, 0x0300_22B6),
        ew_22c0: spec_read32(b, 0x0300_22C0),
    }
}

fn apply_biosless_fixups(bus: &mut Bus)
    ensures
        final(bus)@ == spec_biosless_fixups(old(bus)@),
        final(bus)@.io == old(bus)@.io,
{
    proof {
        lemma_biosless_fixups_keep_io(bus@);
    }
    if bus.has_bios() {
        return;
    }
    bus.write8(0x0300_34A9, 1);
    bus.write8(0x0300_6A0C, 1);
    // Startup wait loops periodically clear bit 0 and expect the interrupt callback to
    // set it again.
    let check = bus.read16(0x0300_22DC) | 0x0001;
    bus.write16(0x0300_22DC, check);
    let check_alt = bus.read16(0x0300_22F8) | 0x0001;
    bus.write16(0x0300_22F8, check_alt);
    let iflags = bus.read_io16(REG_IF);
    if iflags != 0 {
        let irq_check = bus.read16(0x0300_22DC) | iflags | 0x0001;
        bus.write16(0x0300_22DC, irq_check);
        let irq_check_alt = bus.read16(0x0300_22F8) | iflags | 0x0001;
        bus.write16(0x0300_22F8, irq_check_alt);
    }
}

impl Gba {
    pub open spec fn wf(&self) -> bool {
        self@.wf()
    }

    pub fn new() -> (g: Gba)
        ensures
            g@ == initial_gba_state(),
            g.wf(),
    {
        proof {
            crate::bus::lemma_power_on_vcount();
        }
        Gba {
            bus: Bus::new(),
            cpu: Cpu::new(),
            ppu: Ppu::new(),
            input: Input::new(),
            timers: Timers::new(),
            last_frame_bios_steps: 0,
            last_frame_rom_steps: 0,
            bios_stall_frame_count: 0,
            last_bios_pc: NO_BIOS_PC,
            branch_log: Vec::new(),
        }
    }

    /// Resets the CPU and boots: through the BIOS reset vector when a BIOS is loaded,
    /// else straight into the cartridge.
    pub fn reset(&mut self)
        ensures
            final(self)@ == (GbaState {
                cpu: if old(self)@.bus.bios_loaded {
                    spec_force_boot_to_bios(reset_cpu_state(old(self)@.cpu.trace_branches, old(self)@.cpu.strict_unknown))
                } else {
                    spec_force_boot_to_rom(reset_cpu_state(old(self)@.cpu.trace_branches, old(self)@.cpu.strict_unknown))
                },
                ..old(self)@
            }),
    {
        self.cpu.reset();
        if self.bus.has_bios() {
            self.cpu.force_boot_to_bios();
        } else {
            self.cpu.force_boot_to_rom();
        }
    }

    /// Installs a BIOS image (see `Bus::load_bios`).
    pub fn load_bios(&mut self, data: &[u8])
        ensures
            ({
                let len = if data@.len() < crate::bus::BIOS_SIZE {
                    data@.len() as int
                } else {
                    crate::bus::BIOS_SIZE as int
                };
                final(self)@ == GbaState {
                    bus: BusState {
                        bios: data@.subrange(0, len) + old(self)@.bus.bios.subrange(len, crate::bus::BIOS_SIZE as int),
                        bios_loaded: len > 0,
                        ..old(self)@.bus
                    },
                    ..old(self)@
                }
            }),
    {
        self.bus.load_bios(data);
    }

    /// Installs a cartridge image.
    pub fn load_rom(&mut self, data: Vec<u8>)
        ensures
            final(self)@ == (GbaState { bus: BusState { rom: data@, ..old(self)@.bus }, ..old(self)@ }),
    {
        self.bus.load_rom(data);
    }

    /// The bus.
    pub fn bus(&self) -> (r: &Bus)
        ensures
            r@ == self@.bus,
    {
        &self.bus
    }

    /// The CPU.
    pub fn cpu(&self) -> (r: &Cpu)
        ensures
            r@ == self@.cpu,
    {
        &self.cpu
    }

    /// Whether the CPU cycle counter has room for another frame (it overflows only after
    /// some hundred thousand years of emulated time).
    pub fn can_run_frame(&self) -> (r: bool)
        ensures
            r == frame_cycles_fit(self@),
    {
        self.cpu.cycles() <= u64::MAX - CYCLES_PER_FRAME as u64 - MAX_STEP_CYCLES as u64
    }

    /// Runs one frame and renders it.
    pub fn run_frame(&mut self)
        requires
            old(self).wf(),
            frame_cycles_fit(old(self)@),
        ensures
            final(self).wf(),
            final(self)@ == spec_run_frame(old(self)@, true),
    {
        self.run_frame_internal(true);
    }

    /// Runs one frame without rendering (timing, VBlank and interrupts still run).
    pub fn run_frame_headless(&mut self)
        requires
            old(self).wf(),
            frame_cycles_fit(old(self)@),
        ensures
            final(self).wf(),
            final(self)@ == spec_run_frame(old(self)@, false),
    {
        self.run_frame_internal(false);
    }

    fn run_frame_internal(&mut self, render_video: bool)
        requires
            old(self).wf(),
            frame_cycles_fit(old(self)@),
        ensures
            final(self).wf(),
            final(self)@ == spec_run_frame(old(self)@, render_video),
    {
        let ghost start = self@;
        let ghost target = spec_frame_loop(start, render_video, 0, 0, 0);
        let mut cycles: u32 = 0;
        let mut frame_bios_steps: u32 = 0;
        let mut frame_rom_steps: u32 = 0;
        while cycles < CYCLES_PER_FRAME
            invariant
                self@.shape_wf(),
                cycles <= CYCLES_PER_FRAME + MAX_STEP_CYCLES,
                self@.cpu.cycles <= start.cpu.cycles + cycles,
                frame_cycles_fit(start),
                self@.held_mask == start.held_mask,
                cycles > 0 ==> frame_keyinput(self@) == spec_keyinput(start.held_mask),
                spec_frame_loop(self@, render_video, cycles as int, frame_bios_steps, frame_rom_steps) == target,
            decreases CYCLES_PER_FRAME + MAX_STEP_CYCLES - cycles,
        {
            proof {
                lemma_step_cycles(self.cpu@, self.bus@);
                lemma_step_cycle_count(self.cpu@, self.bus@);
                reveal(spec_frame_step);
            }
            let spent = self.cpu.step(&mut self.bus);
            let pc = self.cpu.pc();
            if pc < BIOS_END {
                frame_bios_steps = frame_bios_steps.saturating_add(1);
            } else if ROM_REGION_START <= pc && pc < ROM_REGION_END {
                frame_rom_steps = frame_rom_steps.saturating_add(1);
            }
            self.timers.tick(&mut self.bus, spent);
            self.ppu.tick(spent, &mut self.bus, render_video);
            self.bus.lemma_wf();
            proof {
                crate::bus::lemma_io16_after_store(self.bus@, REG_KEYINPUT, spec_keyinput(start.held_mask));
            }
            self.input.tick(&mut self.bus);
            apply_biosless_fixups(&mut self.bus);
            match self.cpu.last_branch() {
                Some(t) => self.branch_log.push(t),
                None => {},
            }
            cycles = cycles + spent;
        }
        self.end_frame(frame_bios_steps, frame_rom_steps);
        self.bus.lemma_wf();
        proof {
            crate::gba_laws::law_frame_reaches_vblank(start, render_video);
        }
    }

    fn end_frame(&mut self, frame_bios_steps: u32, frame_rom_steps: u32)
        requires
            old(self)@.shape_wf(),
        ensures
            final(self)@.shape_wf(),
            final(self)@ == spec_end_frame(old(self)@, frame_bios_steps, frame_rom_steps),
            final(self)@.bus.io == old(self)@.bus.io,
            final(self)@.cpu.cycles == old(self)@.cpu.cycles,
    {
        self.last_frame_bios_steps = frame_bios_steps;
        self.last_frame_rom_steps = frame_rom_steps;
        // A BIOS that ran a busy frame without reaching the cartridge and keeps ending
        // frames at one address has finished its work and waits forever: start the
        // cartridge without it.
        if self.bus.has_bios() && frame_rom_steps == 0 && frame_bios_steps > BIOS_STALL_MIN_STEPS {
            let pc = self.cpu.pc();
            if pc < BIOS_END {
                if pc == self.last_bios_pc {
                    self.bios_stall_frame_count = self.bios_stall_frame_count + 1;
                    if self.bios_stall_frame_count >= BIOS_STALL_HANDOFF_FRAMES {
                        self.force_boot_to_rom_without_bios();
                        self.bios_stall_frame_count = 0;
                        self.last_bios_pc = NO_BIOS_PC;
                    }
                } else {
                    self.last_bios_pc = pc;
                    self.bios_stall_frame_count = 0;
                }
            }
        }
    }

    /// Records the buttons held from now on.
    pub fn set_input_held_mask(&mut self, held_mask: u16)
        ensures
            final(self)@ == (GbaState { held_mask: held_mask & BUTTON_MASK, ..old(self)@ }),
    {
        self.input.set_held_mask(held_mask);
    }

    /// Reports whether a frame was completed since the last call, and clears the report.
    pub fn take_frame_ready(&mut self) -> (r: bool)
        ensures
            r == old(self)@.ppu.frame_ready,
            final(self)@ == (GbaState { ppu: PpuState { frame_ready: false, ..old(self)@.ppu }, ..old(self)@ }),
    {
        self.ppu.take_frame_ready()
    }

    /// The 240x160 ARGB picture.
    pub fn framebuffer(&self) -> (r: &[u32])
        ensures
            r@ == self@.ppu.framebuffer,
    {
        self.ppu.framebuffer()
    }

    pub fn debug_snapshot(&self) -> (r: DebugSnapshot)
        ensures
            r == spec_debug_snapshot(self@),
    {
        DebugSnapshot {
            pc: self.cpu.pc(),
            cycles: self.cpu.cycles(),
            cpsr: self.cpu.cpsr(),
            r0: self.cpu.read_reg(0),
            r1: self.cpu.read_reg(1),
            r2: self.cpu.read_reg(2),
            r3: self.cpu.read_reg(3),
            r4: self.cpu.read_reg(4),
            r7: self.cpu.read_reg(7),
            sp: self.cpu.read_reg(13),
            lr: self.cpu.read_reg(14),
            dispcnt: self.bus.read_io16(REG_DISPCNT),
            vcount: self.bus.read_io16(REG_VCOUNT),
            ime: self.bus.read_io16(REG_IME),
            ie: self.bus.read_io16(REG_IE),
            iflags: self.bus.read_io16(REG_IF),
            handoff_7ff0: self.bus.read8(0x0300_7FF0),
            bios_irq_flags: self.bus.read16(0x03FF_FFF8),
            irq_vec: self.bus.read32(0x03FF_FFFC),
            irq_check: self.bus.read16(0x0300_22DC),
            frame_bios_steps: self.last_frame_bios_steps,
            frame_rom_steps: self.last_frame_rom_steps,
            bg0cnt: self.bus.read_io16(0x0400_0008),
            bg0hofs: self.bus.read_io16(0x0400_0010),
            bg0vofs: self.bus.read_io16(0x0400_0012),
            palette0: self.bus.read16(0x0500_0000),
            palette1: self.bus.read16(0x0500_0002),
            vram0: self.bus.read16(0x0600_0000),
            vram10: self.bus.read16(0x0600_0010),
            vram100: self.bus.read16(0x0600_0100),
            vram1000: self.bus.read16(0x0600_1000),
            vram3800: self.bus.read16(0x0600_3800),
            ew_22b4: self.bus.read16(0x0300_22B4),
            ew_22b6: self.bus.read16(0x0300_22B6),
            ew_22c0: self.bus.read32(0x0300_22C0),
        }
    }

    /// Turns branch tracing on or off; traced branches collect in the branch log.
    pub fn set_trace_branches(&mut self, enabled: bool)
        ensures
            final(self)@ == (GbaState { cpu: CpuState { trace_branches: enabled, ..old(self)@.cpu }, ..old(self)@ }),
    {
        self.cpu.set_trace_branches(enabled);
    }

    /// Turns the reporting of undecoded instructions on or off.
    pub fn set_strict_unknown(&mut self, enabled: bool)
        ensures
            final(self)@ == (GbaState { cpu: CpuState { strict_unknown: enabled, ..old(self)@.cpu }, ..old(self)@ }),
    {
        self.cpu.set_strict_unknown(enabled);
    }

    /// The first undecoded instruction met since the last call while reporting was on,
    /// and clears it.
    pub fn take_unknown_instruction(&mut self) -> (r: Option<UnknownInstruction>)
        ensures
            r == old(self)@.cpu.unknown_hit,
            final(self)@ == (GbaState { cpu: CpuState { unknown_hit: None, ..old(self)@.cpu }, ..old(self)@ }),
    {
        self.cpu.take_unknown_instruction()
    }

    /// Hands out the branches traced since the last call, oldest first, and empties the log.
    pub fn take_branch_log(&mut self) -> (r: Vec<BranchTrace>)
        ensures
            r@ == old(self)@.branch_log,
            final(self)@ == (GbaState { branch_log: Seq::empty(), ..old(self)@ }),
    {
        let mut log: Vec<BranchTrace> = Vec::new();
        std::mem::swap(&mut log, &mut self.branch_log);
        log
    }

    /// Unmaps the BIOS and starts the cartridge at its entry point in ARM System mode.
    pub fn force_boot_to_rom_without_bios(&mut self)
        ensures
            final(self)@ == spec_boot_without_bios(old(self)@),
    {
        self.bus.disable_bios();
        self.cpu.jump_to_rom_entry();
    }
}

impl Default for Gba {
    fn default() -> (g: Gba)
        ensures
            g@ == initial_gba_state(),
            g.wf(),
    {
        Gba::new()
    }
}

/// The fix-ups write IWRAM only.
pub proof fn lemma_biosless_fixups_keep_io(b: BusState)
    ensures
        spec_biosless_fixups(b).io == b.io,
{
}

/// A frame step spends what the CPU step spends.
pub proof fn lemma_frame_step_cycles(g: GbaState, render_video: bool)
    ensures
        spec_frame_step(g, render_video).1 == spec_step(g.cpu, g.bus).2,
        1 <= spec_frame_step(g, render_video).1 <= MAX_STEP_CYCLES,
{
    reveal(spec_frame_step);
    lemma_step_cycles(g.cpu, g.bus);
}

/// A step adds at most the cycles it reports to the CPU's cycle counter.
proof fn lemma_step_cycle_count(c: CpuState, b: BusState)
    ensures
        spec_step(c, b).0.cycles <= c.cycles + spec_step(c, b).2,
{
}

} // verus!
