//! Memory map of the system: BIOS, work RAM, I/O registers, palette, video RAM,
//! object attribute memory, cartridge ROM and the flash-ID backup chip, plus the
//! I/O side effects (interrupt flags, timers, DMA, serial port).
use vstd::prelude::*;

verus! {

pub const BIOS_START: u32 = 0x0000_0000;
pub const BIOS_SIZE: usize = 16 * 1024;

pub const EWRAM_START: u32 = 0x0200_0000;
pub const EWRAM_SIZE: usize = 256 * 1024;
pub const EWRAM_REGION_SIZE: u32 = 0x0100_0000;

pub const IWRAM_START: u32 = 0x0300_0000;
pub const IWRAM_SIZE: usize = 32 * 1024;
pub const IWRAM_REGION_SIZE: u32 = 0x0100_0000;

pub const IO_START: u32 = 0x0400_0000;
pub const IO_SIZE: usize = 1024;

pub const PALETTE_RAM_START: u32 = 0x0500_0000;
pub const PALETTE_RAM_SIZE: usize = 1024;

pub const VRAM_START: u32 = 0x0600_0000;
pub const VRAM_SIZE: usize = 96 * 1024;

pub const OAM_START: u32 = 0x0700_0000;
pub const OAM_SIZE: usize = 1024;

pub const GAMEPAK_ROM_START: u32 = 0x0800_0000;
pub const GAMEPAK_ROM_END: u32 = 0x0E00_0000;
pub const GAMEPAK_SRAM_START: u32 = 0x0E00_0000;
pub const GAMEPAK_SRAM_END: u32 = 0x0E01_0000;

pub const REG_DISPCNT: u32 = 0x0400_0000;
pub const REG_DISPSTAT: u32 = 0x0400_0004;
pub const REG_VCOUNT: u32 = 0x0400_0006;
pub const REG_KEYINPUT: u32 = 0x0400_0130;
pub const REG_SIODATA32_L: u32 = 0x0400_0120;
pub const REG_SIODATA32_H: u32 = 0x0400_0122;
pub const REG_SIOMULTI0: u32 = 0x0400_0120;
pub const REG_SIOMULTI1: u32 = 0x0400_0122;
pub const REG_SIOMULTI2: u32 = 0x0400_0124;
pub const REG_SIOMULTI3: u32 = 0x0400_0126;
pub const REG_SIOCNT: u32 = 0x0400_0128;
pub const REG_IE: u32 = 0x0400_0200;
pub const REG_IF: u32 = 0x0400_0202;
pub const REG_IME: u32 = 0x0400_0208;
pub const REG_HALTCNT: u32 = 0x0400_0301;
pub const REG_JOY_RECV: u32 = 0x0400_0150;
pub const REG_JOY_TRANS: u32 = 0x0400_0154;
pub const REG_JOYSTAT: u32 = 0x0400_0158;

/// Last byte of the I/O block: a halfword access starting there would reach past it.
pub const IO_LAST: u32 = 0x0400_03FF;

pub const IRQ_VBLANK: u16 = 0x0001;
pub const IRQ_HBLANK: u16 = 0x0002;
pub const IRQ_VCOUNT: u16 = 0x0004;
pub const IRQ_TIMER0: u16 = 0x0008;
pub const IRQ_TIMER1: u16 = 0x0010;
pub const IRQ_TIMER2: u16 = 0x0020;
pub const IRQ_TIMER3: u16 = 0x0040;
pub const IRQ_SERIAL: u16 = 0x0080;

pub const FLASH_ID_MANUFACTURER: u8 = 0x62;
pub const FLASH_ID_DEVICE: u8 = 0x13;

/// How deeply a DMA transfer may start another immediate DMA transfer through a
/// write to a DMA control register; a start nested deeper than this does not run
/// (this bound is what makes every write terminate).
pub const DMA_NEST_LIMIT: u32 = 8;

/// Abstract state of the bus: every memory as a sequence of bytes.
#[verifier::ext_equal]
pub ghost struct BusState {
    pub bios: Seq<u8>,
    pub bios_loaded: bool,
    pub ewram: Seq<u8>,
    pub iwram: Seq<u8>,
    pub io: Seq<u8>,
    pub palette_ram: Seq<u8>,
    pub vram: Seq<u8>,
    pub oam: Seq<u8>,
    pub rom: Seq<u8>,
    pub timer_divider: Seq<u32>,
    pub timer_reload: Seq<u16>,
    pub halt_requested: bool,
    pub flash_cmd_stage: u8,
    pub flash_id_mode: bool,
}

/// Largest timer prescaler: a timer's prescaler phase always stays below it.
pub const MAX_TIMER_PRESCALER: u32 = 1024;

impl BusState {
    /// Every memory has its hardware size, and every timer's prescaler phase is below
    /// the largest prescaler.
    pub open spec fn wf(self) -> bool {
        &&& self.sizes_wf()
        &&& forall|i: int| 0 <= i < 4 ==> #[trigger] self.timer_divider[i] < MAX_TIMER_PRESCALER
    }

    /// Every memory has its hardware size.
    pub open spec fn sizes_wf(self) -> bool {
        &&& self.bios.len() == BIOS_SIZE
        &&& self.ewram.len() == EWRAM_SIZE
        &&& self.iwram.len() == IWRAM_SIZE
        &&& self.io.len() == IO_SIZE
        &&& self.palette_ram.len() == PALETTE_RAM_SIZE
        &&& self.vram.len() == VRAM_SIZE
        &&& self.oam.len() == OAM_SIZE
        &&& self.timer_divider.len() == 4
        &&& self.timer_reload.len() == 4
    }
}

pub struct Bus {
    bios: [u8; BIOS_SIZE],
    bios_loaded: bool,
    ewram: [u8; EWRAM_SIZE],
    iwram: [u8; IWRAM_SIZE],
    io: [u8; IO_SIZE],
    palette_ram: [u8; PALETTE_RAM_SIZE],
    vram: [u8; VRAM_SIZE],
    oam: [u8; OAM_SIZE],
    rom: Vec<u8>,
    timer_divider: [u32; 4],
    timer_reload: [u16; 4],
    halt_requested: bool,
    flash_cmd_stage: u8,
    flash_id_mode: bool,
}

impl View for Bus {
    type V = BusState;

    closed spec fn view(&self) -> BusState {
        BusState {
            bios: self.bios@,
            bios_loaded: self.bios_loaded,
            ewram: self.ewram@,
            iwram: self.iwram@,
            io: self.io@,
            palette_ram: self.palette_ram@,
            vram: self.vram@,
            oam: self.oam@,
            rom: self.rom@,
            timer_divider: self.timer_divider@,
            timer_reload: self.timer_reload@,
            halt_requested: self.halt_requested,
            flash_cmd_stage: self.flash_cmd_stage,
            flash_id_mode: self.flash_id_mode,
        }
    }
}

// ---------------------------------------------------------------------------
// Address decoding
// ---------------------------------------------------------------------------

pub open spec fn in_bios(addr: u32) -> bool {
    BIOS_START <= addr < BIOS_START + BIOS_SIZE
}

pub open spec fn in_ewram(addr: u32) -> bool {
    EWRAM_START <= addr < EWRAM_START + EWRAM_REGION_SIZE
}

pub open spec fn in_iwram(addr: u32) -> bool {
    IWRAM_START <= addr < IWRAM_START + IWRAM_REGION_SIZE
}

pub open spec fn in_io(addr: u32) -> bool {
    IO_START <= addr < IO_START + IO_SIZE
}

pub open spec fn in_palette(addr: u32) -> bool {
    PALETTE_RAM_START <= addr < PALETTE_RAM_START + PALETTE_RAM_SIZE
}

pub open spec fn in_vram(addr: u32) -> bool {
    VRAM_START <= addr < VRAM_START + VRAM_SIZE
}

pub open spec fn in_oam(addr: u32) -> bool {
    OAM_START <= addr < OAM_START + OAM_SIZE
}

pub open spec fn in_rom(addr: u32) -> bool {
    GAMEPAK_ROM_START <= addr < GAMEPAK_ROM_END
}

pub open spec fn in_sram(addr: u32) -> bool {
    GAMEPAK_SRAM_START <= addr < GAMEPAK_SRAM_END
}

/// Offset of an address inside the mirrored external work RAM.
pub open spec fn ewram_offset(addr: u32) -> int {
    (addr - EWRAM_START) % (EWRAM_SIZE as int)
}

/// Offset of an address inside the mirrored internal work RAM.
pub open spec fn iwram_offset(addr: u32) -> int {
    (addr - IWRAM_START) % (IWRAM_SIZE as int)
}

/// Even offset of the halfword that holds an address of a 16-bit-wide memory.
pub open spec fn halfword_offset(addr: u32, start: u32) -> int {
    ((addr - start) as u32 & !1u32) as int
}

/// Offset of the word that holds an address of a 16-bit-wide memory.
pub open spec fn word_offset(addr: u32, start: u32) -> int {
    ((addr - start) as u32 & !3u32) as int
}

// ---------------------------------------------------------------------------
// Reads
// ---------------------------------------------------------------------------

/// The byte that a read at `addr` gives back.
pub open spec fn spec_read8(b: BusState, addr: u32) -> u8 {
    if in_bios(addr) {
        b.bios[addr - BIOS_START]
    } else if in_ewram(addr) {
        b.ewram[ewram_offset(addr)]
    } else if in_iwram(addr) {
        b.iwram[iwram_offset(addr)]
    } else if in_io(addr) {
        b.io[addr - IO_START]
    } else if in_palette(addr) {
        b.palette_ram[addr - PALETTE_RAM_START]
    } else if in_vram(addr) {
        b.vram[addr - VRAM_START]
    } else if in_oam(addr) {
        b.oam[addr - OAM_START]
    } else if in_rom(addr) {
        if b.rom.len() == 0 {
            0xFF
        } else {
            b.rom[(addr - GAMEPAK_ROM_START) % (b.rom.len() as int)]
        }
    } else if in_sram(addr) {
        let off = (addr - GAMEPAK_SRAM_START) as u32 & 0xFFFFu32;
        if b.flash_id_mode {
            if off == 0 {
                FLASH_ID_MANUFACTURER
            } else if off == 1 {
                FLASH_ID_DEVICE
            } else {
                0xFF
            }
        } else {
            0xFF
        }
    } else {
        0
    }
}

/// Little-endian halfword made of the bytes at `addr` and `addr + 1`.
pub open spec fn spec_read16(b: BusState, addr: u32) -> u16 {
    (spec_read8(b, addr) as u16) | ((spec_read8(b, addr.wrapping_add(1)) as u16) << 8u16)
}

/// Little-endian word made of the bytes at `addr .. addr + 3`.
pub open spec fn spec_read32(b: BusState, addr: u32) -> u32 {
    (spec_read8(b, addr) as u32) | ((spec_read8(b, addr.wrapping_add(1)) as u32) << 8u32) | ((
    spec_read8(b, addr.wrapping_add(2)) as u32) << 16u32) | ((spec_read8(b, addr.wrapping_add(3))
        as u32) << 24u32)
}

/// The I/O halfword at an I/O address, read straight from the register file.
pub open spec fn io16(b: BusState, addr: u32) -> u16 {
    (b.io[addr - IO_START] as u16) | ((b.io[addr - IO_START + 1] as u16) << 8u16)
}

/// True when I/O halfword `addr` lies fully inside the I/O block.
pub open spec fn io16_addr(addr: u32) -> bool {
    IO_START <= addr && addr < IO_LAST
}

/// Store an I/O halfword with no side effect.
pub open spec fn io_store16(b: BusState, addr: u32, value: u16) -> BusState {
    let i = addr - IO_START;
    BusState { io: b.io.update(i, (value & 0xFFu16) as u8).update(i + 1, (value >> 8u16) as u8), ..b }
}

/// Store an I/O word with no side effect.
pub open spec fn io_store32(b: BusState, addr: u32, value: u32) -> BusState {
    io_store16(io_store16(b, addr, (value & 0xFFFFu32) as u16), addr.wrapping_add(2), (value >> 16u32) as u16)
}

// ---------------------------------------------------------------------------
// Writes
// ---------------------------------------------------------------------------

/// Next state of the flash-ID command decoder on a byte written at backup offset `off`.
pub open spec fn flash_command(b: BusState, off: u32, value: u8) -> BusState {
    if b.flash_cmd_stage == 0 {
        if off == 0x5555 && value == 0xAA {
            BusState { flash_cmd_stage: 1, ..b }
        } else if value == 0xF0 {
            BusState { flash_id_mode: false, ..b }
        } else {
            b
        }
    } else if b.flash_cmd_stage == 1 {
        if off == 0x2AAA && value == 0x55 {
            BusState { flash_cmd_stage: 2, ..b }
        } else {
            BusState { flash_cmd_stage: 0, ..b }
        }
    } else {
        let id_mode = if off == 0x5555 && value == 0x90 {
            true
        } else if off == 0x5555 && value == 0xF0 {
            false
        } else {
            b.flash_id_mode
        };
        BusState { flash_cmd_stage: 0, flash_id_mode: id_mode, ..b }
    }
}

/// Byte that an internal work RAM write stores: with the BIOS mapped, the serial helper
/// state byte refuses the value 2 while its gate byte is set.
pub open spec fn iwram_stored(b: BusState, addr: u32, value: u8) -> u8 {
    if b.bios_loaded && addr == 0x0300_001B && value == 2 && spec_read8(b, 0x0300_0019) != 0 {
        0
    } else {
        value
    }
}

/// State after a byte write at `addr`.
pub open spec fn spec_write8(b: BusState, addr: u32, value: u8) -> BusState {
    if in_ewram(addr) {
        BusState { ewram: b.ewram.update(ewram_offset(addr), value), ..b }
    } else if in_iwram(addr) {
        BusState { iwram: b.iwram.update(iwram_offset(addr), iwram_stored(b, addr, value)), ..b }
    } else if in_io(addr) {
        if addr == REG_HALTCNT {
            if value & 0x80 == 0 {
                BusState { halt_requested: true, ..b }
            } else {
                b
            }
        } else if addr == REG_IF {
            io_store16(b, REG_IF, io16(b, REG_IF) & !(value as u16))
        } else if addr == REG_IF + 1 {
            io_store16(b, REG_IF, io16(b, REG_IF) & !((value as u16) << 8u16))
        } else if addr == REG_VCOUNT || addr == REG_VCOUNT + 1 || addr == REG_KEYINPUT || addr
            == REG_KEYINPUT + 1 {
            b
        } else {
            BusState { io: b.io.update(addr - IO_START, value), ..b }
        }
    } else if in_palette(addr) {
        let off = halfword_offset(addr, PALETTE_RAM_START);
        BusState { palette_ram: b.palette_ram.update(off, value).update(off + 1, value), ..b }
    } else if in_vram(addr) {
        let off = halfword_offset(addr, VRAM_START);
        BusState { vram: b.vram.update(off, value).update(off + 1, value), ..b }
    } else if in_oam(addr) {
        BusState { oam: b.oam.update(addr - OAM_START, value), ..b }
    } else if in_sram(addr) {
        flash_command(b, (addr - GAMEPAK_SRAM_START) as u32 & 0xFFFFu32, value)
    } else {
        b
    }
}

/// Halfword write made of two byte writes (the path of every memory without a
/// dedicated halfword path).
pub open spec fn bytes_write16(b: BusState, addr: u32, value: u16) -> BusState {
    spec_write8(
        spec_write8(b, addr, (value & 0x00FFu16) as u8),
        addr.wrapping_add(1),
        (value >> 8u16) as u8,
    )
}

/// State after an interrupt request with mask `irq_mask`.
pub open spec fn spec_request_interrupt(b: BusState, irq_mask: u16) -> BusState {
    let b1 = io_store16(b, REG_IF, io16(b, REG_IF) | irq_mask);
    let b2 = if b1.bios_loaded && (irq_mask & IRQ_SERIAL) != 0 {
        spec_write8(b1, 0x0300_0019, 1)
    } else {
        b1
    };
    if !b2.bios_loaded {
        let irq_check = spec_read16(b2, 0x0300_22DC) | irq_mask | 0x0001u16;
        let b3 = bytes_write16(b2, 0x0300_22DC, irq_check);
        let irq_check_alt = spec_read16(b3, 0x0300_22F8) | irq_mask | 0x0001u16;
        bytes_write16(b3, 0x0300_22F8, irq_check_alt)
    } else {
        b2
    }
}

pub open spec fn timer_reload_addr(i: int) -> u32 {
    (IO_START + 0x100 + 4 * i) as u32
}

pub open spec fn timer_ctrl_addr(i: int) -> u32 {
    (IO_START + 0x102 + 4 * i) as u32
}

pub open spec fn timer_irq_mask(i: int) -> u16 {
    if i == 0 {
        IRQ_TIMER0
    } else if i == 1 {
        IRQ_TIMER1
    } else if i == 2 {
        IRQ_TIMER2
    } else {
        IRQ_TIMER3
    }
}

pub open spec fn spec_timer_prescaler(sel: u16) -> u32 {
    if sel == 0 {
        1
    } else if sel == 1 {
        64
    } else if sel == 2 {
        256
    } else {
        1024
    }
}

pub open spec fn dma_sad_addr(ch: int) -> u32 {
    (IO_START + 0x0B0 + 12 * ch) as u32
}

pub open spec fn dma_dad_addr(ch: int) -> u32 {
    (IO_START + 0x0B4 + 12 * ch) as u32
}

pub open spec fn dma_cnt_l_addr(ch: int) -> u32 {
    (IO_START + 0x0B8 + 12 * ch) as u32
}

pub open spec fn dma_cnt_h_addr(ch: int) -> u32 {
    (IO_START + 0x0BA + 12 * ch) as u32
}

pub open spec fn dma_irq_mask(ch: int) -> u16 {
    if ch == 0 {
        0x0100
    } else if ch == 1 {
        0x0200
    } else if ch == 2 {
        0x0400
    } else {
        0x0800
    }
}

/// Timer whose reload register is at `addr`, if any.
pub open spec fn spec_timer_index_from_reload_addr(addr: u32) -> Option<usize> {
    if addr == timer_reload_addr(0) {
        Some(0)
    } else if addr == timer_reload_addr(1) {
        Some(1)
    } else if addr == timer_reload_addr(2) {
        Some(2)
    } else if addr == timer_reload_addr(3) {
        Some(3)
    } else {
        None
    }
}

/// Timer whose control register is at `addr`, if any.
pub open spec fn spec_timer_index_from_ctrl_addr(addr: u32) -> Option<usize> {
    if addr == timer_ctrl_addr(0) {
        Some(0)
    } else if addr == timer_ctrl_addr(1) {
        Some(1)
    } else if addr == timer_ctrl_addr(2) {
        Some(2)
    } else if addr == timer_ctrl_addr(3) {
        Some(3)
    } else {
        None
    }
}

/// DMA channel whose high control register is at `addr`, if any.
pub open spec fn spec_dma_channel_from_cnt_h_addr(addr: u32) -> Option<usize> {
    if addr == dma_cnt_h_addr(0) {
        Some(0)
    } else if addr == dma_cnt_h_addr(1) {
        Some(1)
    } else if addr == dma_cnt_h_addr(2) {
        Some(2)
    } else if addr == dma_cnt_h_addr(3) {
        Some(3)
    } else {
        None
    }
}

/// Next DMA address for address-control mode `control` (0 and 3 increment, 1
/// decrements, 2 stays).
pub open spec fn spec_update_dma_addr(addr: u32, control: u16, amount: u32) -> u32 {
    if control == 0 || control == 3 {
        addr.wrapping_add(amount)
    } else if control == 1 {
        addr.wrapping_sub(amount)
    } else {
        addr
    }
}

/// Effect of the serial control register write `value` (previous value `old_value`):
/// with no link partner, a requested transfer completes at once.
pub open spec fn serial_side_effects(b: BusState, old_value: u16, value: u16) -> BusState {
    let mode = value & 0x3000;
    if mode == 0x2000 {
        let effective = value | 0x007C;
        let b1 = if effective != value {
            io_store16(b, REG_SIOCNT, effective)
        } else {
            b
        };
        let irq_enabled = (effective & 0x4000) != 0;
        let became_armed = (old_value & 0x4000) == 0 && irq_enabled;
        let start_requested = (value & 0x0080) != 0;
        if irq_enabled && (became_armed || start_requested) {
            let b2 = io_store16(
                io_store16(
                    io_store16(io_store16(b1, REG_SIOMULTI0, 0xFFFF), REG_SIOMULTI1, 0xFFFF),
                    REG_SIOMULTI2,
                    0xFFFF,
                ),
                REG_SIOMULTI3,
                0xFFFF,
            );
            spec_request_interrupt(b2, IRQ_SERIAL)
        } else {
            b1
        }
    } else if mode == 0x1000 {
        let b1 = io_store16(io_store16(b, REG_SIODATA32_L, 0xFFFF), REG_SIODATA32_H, 0xFFFF);
        let irq_enabled = (value & 0x4000) != 0;
        let start_requested = (value & 0x0080) != 0;
        if irq_enabled && start_requested {
            io_store16(spec_request_interrupt(b1, IRQ_SERIAL), REG_SIOCNT, value & !0x0080u16)
        } else {
            b1
        }
    } else {
        b
    }
}

/// Effect of the halfword I/O write `value` at `addr` (previous value `old_value`),
/// after the value itself was stored. DMA transfers that it starts run with nesting
/// budget `depth`.
pub open spec fn spec_io_side_effects(
    b: BusState,
    addr: u32,
    old_value: u16,
    value: u16,
    depth: nat,
) -> BusState
    decreases depth, 2nat, 0nat,
{
    if addr == REG_SIOCNT {
        serial_side_effects(b, old_value, value)
    } else if spec_timer_index_from_reload_addr(addr) is Some {
        let idx = spec_timer_index_from_reload_addr(addr)->0;
        BusState { timer_reload: b.timer_reload.update(idx as int, value), ..b }
    } else if spec_dma_channel_from_cnt_h_addr(addr) is Some {
        let channel = spec_dma_channel_from_cnt_h_addr(addr)->0;
        let newly_enabled = (value & 0x8000) != 0 && (old_value & 0x8000) == 0;
        let start_timing = (value >> 12u16) & 0x3;
        if newly_enabled && start_timing == 0 && depth > 0 {
            spec_run_dma(b, channel as int, (depth - 1) as nat)
        } else {
            b
        }
    } else if spec_timer_index_from_ctrl_addr(addr) is Some {
        let idx = spec_timer_index_from_ctrl_addr(addr)->0;
        let enabled = (value & 0x0080) != 0;
        let was_enabled = (old_value & 0x0080) != 0;
        if enabled && !was_enabled {
            let b1 = BusState { timer_divider: b.timer_divider.update(idx as int, 0), ..b };
            io_store16(b1, timer_reload_addr(idx as int), b1.timer_reload[idx as int])
        } else {
            b
        }
    } else {
        b
    }
}

/// State after a halfword write at `addr`.
pub open spec fn spec_write16(b: BusState, addr: u32, value: u16, depth: nat) -> BusState
    decreases depth, 3nat, 0nat,
{
    if addr == REG_VCOUNT || addr == REG_KEYINPUT {
        b
    } else if addr == REG_IF {
        io_store16(b, REG_IF, io16(b, REG_IF) & !value)
    } else if in_io(addr) {
        let old_value = io16(b, addr);
        spec_io_side_effects(io_store16(b, addr, value), addr, old_value, value, depth)
    } else if in_vram(addr) {
        let off = halfword_offset(addr, VRAM_START);
        BusState {
            vram: b.vram.update(off, (value & 0xFFu16) as u8).update(off + 1, (value >> 8u16) as u8),
            ..b
        }
    } else if in_palette(addr) {
        let off = halfword_offset(addr, PALETTE_RAM_START);
        BusState {
            palette_ram: b.palette_ram.update(off, (value & 0xFFu16) as u8).update(
                off + 1,
                (value >> 8u16) as u8,
            ),
            ..b
        }
    } else {
        bytes_write16(b, addr, value)
    }
}

/// A word stored little-endian in four consecutive bytes of `s` from `off`.
pub open spec fn store_word(s: Seq<u8>, off: int, value: u32) -> Seq<u8> {
    s.update(off, (value & 0xFFu32) as u8).update(off + 1, ((value >> 8u32) & 0xFFu32) as u8).update(
        off + 2,
        ((value >> 16u32) & 0xFFu32) as u8,
    ).update(off + 3, ((value >> 24u32) & 0xFFu32) as u8)
}

/// State after a word write at `addr`.
pub open spec fn spec_write32(b: BusState, addr: u32, value: u32, depth: nat) -> BusState
    decreases depth, 4nat, 0nat,
{
    if in_io(addr) {
        spec_write16(
            spec_write16(b, addr, (value & 0xFFFFu32) as u16, depth),
            addr.wrapping_add(2),
            (value >> 16u32) as u16,
            depth,
        )
    } else if in_palette(addr) {
        BusState {
            palette_ram: store_word(b.palette_ram, word_offset(addr, PALETTE_RAM_START), value),
            ..b
        }
    } else if in_vram(addr) {
        BusState { vram: store_word(b.vram, word_offset(addr, VRAM_START), value), ..b }
    } else {
        let b1 = spec_write8(b, addr, (value & 0xFFu32) as u8);
        let b2 = spec_write8(b1, addr.wrapping_add(1), ((value >> 8u32) & 0xFFu32) as u8);
        let b3 = spec_write8(b2, addr.wrapping_add(2), ((value >> 16u32) & 0xFFu32) as u8);
        spec_write8(b3, addr.wrapping_add(3), ((value >> 24u32) & 0xFFu32) as u8)
    }
}

/// The parameters of one DMA transfer, as decoded from its control register.
pub struct DmaParams {
    pub transfer32: bool,
    pub src_ctrl: u16,
    pub dst_ctrl: u16,
    pub unit_size: u32,
}

/// `count` DMA units copied from `src` to `dst`: the state and the final addresses.
pub open spec fn spec_dma_copy(
    b: BusState,
    p: DmaParams,
    src: u32,
    dst: u32,
    count: nat,
    depth: nat,
) -> (BusState, u32, u32)
    decreases depth, 5nat, count,
{
    if count == 0 {
        (b, src, dst)
    } else {
        let b1 = if p.transfer32 {
            spec_write32(b, dst & !3u32, spec_read32(b, src & !3u32), depth)
        } else {
            spec_write16(b, dst & !1u32, spec_read16(b, src & !1u32), depth)
        };
        spec_dma_copy(
            b1,
            p,
            spec_update_dma_addr(src, p.src_ctrl, p.unit_size),
            spec_update_dma_addr(dst, p.dst_ctrl, p.unit_size),
            (count - 1) as nat,
            depth,
        )
    }
}

pub open spec fn dma_params(cnt_h: u16) -> DmaParams {
    let transfer32 = (cnt_h & 0x0400) != 0;
    DmaParams {
        transfer32,
        src_ctrl: (cnt_h >> 7u16) & 0x3,
        dst_ctrl: (cnt_h >> 5u16) & 0x3,
        unit_size: if transfer32 {
            4
        } else {
            2
        },
    }
}

/// Number of units of a DMA transfer: a count of 0 means the channel maximum.
pub open spec fn dma_word_count(ch: int, cnt_l: u16) -> nat {
    if cnt_l == 0 {
        if ch == 3 {
            0x1_0000
        } else {
            0x4000
        }
    } else {
        cnt_l as nat
    }
}

/// State after DMA channel `ch` runs.
pub open spec fn spec_run_dma(b: BusState, ch: int, depth: nat) -> BusState
    decreases depth, 6nat, 0nat,
{
    let sad = dma_sad_addr(ch);
    let dad = dma_dad_addr(ch);
    let src = spec_read32(b, sad);
    let dst = spec_read32(b, dad);
    let cnt_l = io16(b, dma_cnt_l_addr(ch));
    let cnt_h = io16(b, dma_cnt_h_addr(ch));
    let p = dma_params(cnt_h);
    let start_timing = (cnt_h >> 12u16) & 0x3;
    let repeat = (cnt_h & 0x0200) != 0;
    let (b1, src2, dst2) = spec_dma_copy(b, p, src, dst, dma_word_count(ch, cnt_l), depth);
    let b2 = io_store32(b1, sad, src2);
    let b3 = if p.dst_ctrl == 3 && repeat && start_timing != 0 {
        io_store32(b2, dad, dst)
    } else {
        io_store32(b2, dad, dst2)
    };
    let cnt_h2 = if !repeat || start_timing == 0 {
        cnt_h & !0x8000u16
    } else {
        cnt_h
    };
    let b4 = if !repeat || start_timing == 0 {
        io_store16(b3, dma_cnt_h_addr(ch), cnt_h2)
    } else {
        b3
    };
    if (cnt_h2 & 0x4000) != 0 {
        spec_request_interrupt(b4, dma_irq_mask(ch))
    } else {
        b4
    }
}

/// Channels `ch ..= 3` whose start timing is `timing` and that are enabled, run in order.
pub open spec fn spec_trigger_dma_from(b: BusState, timing: u16, ch: nat) -> BusState
    decreases 4 - ch,
{
    if ch >= 4 {
        b
    } else {
        let cnt_h = io16(b, dma_cnt_h_addr(ch as int));
        let enabled = (cnt_h & 0x8000) != 0;
        let start_timing = (cnt_h >> 12u16) & 0x3;
        let b1 = if enabled && start_timing == timing {
            spec_run_dma(b, ch as int, DMA_NEST_LIMIT as nat)
        } else {
            b
        };
        spec_trigger_dma_from(b1, timing, ch + 1)
    }
}

/// Prescaler periods that elapse on a running timer: each one increments the counter,
/// which reloads (and may raise its interrupt) on overflow.
pub open spec fn spec_timer_run(b: BusState, i: int, ctrl: u16, prescaler: u32, divider: u32) -> BusState
    decreases divider,
{
    if prescaler > 0 && divider >= prescaler {
        let counter = io16(b, timer_reload_addr(i)).wrapping_add(1);
        let (b1, counter2) = if counter == 0 {
            if (ctrl & 0x0040) != 0 {
                (spec_request_interrupt(b, timer_irq_mask(i)), b.timer_reload[i])
            } else {
                (b, b.timer_reload[i])
            }
        } else {
            (b, counter)
        };
        spec_timer_run(
            io_store16(b1, timer_reload_addr(i), counter2),
            i,
            ctrl,
            prescaler,
            (divider - prescaler) as u32,
        )
    } else {
        BusState { timer_divider: b.timer_divider.update(i, divider), ..b }
    }
}

/// One timer advanced by `cycles` (cascade timers and stopped timers do not move).
pub open spec fn spec_tick_timer(b: BusState, i: int, cycles: u32) -> BusState {
    let ctrl = io16(b, timer_ctrl_addr(i));
    if (ctrl & 0x0080) == 0 || (ctrl & 0x0004) != 0 {
        b
    } else {
        let prescaler = spec_timer_prescaler(ctrl & 0x3);
        spec_timer_run(b, i, ctrl, prescaler, b.timer_divider[i].wrapping_add(cycles))
    }
}

pub open spec fn spec_tick_timers(b: BusState, cycles: u32) -> BusState {
    spec_tick_timer(
        spec_tick_timer(spec_tick_timer(spec_tick_timer(b, 0, cycles), 1, cycles), 2, cycles),
        3,
        cycles,
    )
}

/// Power-on register defaults: keys released, link port idle high.
pub open spec fn io_defaults(b: BusState) -> BusState {
    let b1 = io_store16(b, REG_KEYINPUT, 0xFFFF);
    let b2 = io_store16(b1, REG_JOY_RECV, 0xFFFF);
    let b3 = io_store16(b2, (REG_JOY_RECV + 2) as u32, 0xFFFF);
    let b4 = io_store16(b3, REG_JOY_TRANS, 0xFFFF);
    let b5 = io_store16(b4, (REG_JOY_TRANS + 2) as u32, 0xFFFF);
    let b6 = io_store16(b5, REG_JOYSTAT, 0x0000);
    let b7 = io_store16(b6, REG_SIODATA32_L, 0xFFFF);
    let b8 = io_store16(b7, REG_SIODATA32_H, 0xFFFF);
    let b9 = io_store16(b8, REG_SIOMULTI0, 0xFFFF);
    let b10 = io_store16(b9, REG_SIOMULTI1, 0xFFFF);
    let b11 = io_store16(b10, REG_SIOMULTI2, 0xFFFF);
    io_store16(b11, REG_SIOMULTI3, 0xFFFF)
}

pub open spec fn zeros8(n: nat) -> Seq<u8> {
    Seq::new(n, |i: int| 0u8)
}

/// Every RAM, register and peripheral state cleared; BIOS image and ROM kept.
pub open spec fn cleared(b: BusState) -> BusState {
    BusState {
        bios: b.bios,
        bios_loaded: b.bios_loaded,
        ewram: zeros8(EWRAM_SIZE as nat),
        iwram: zeros8(IWRAM_SIZE as nat),
        io: zeros8(IO_SIZE as nat),
        palette_ram: zeros8(PALETTE_RAM_SIZE as nat),
        vram: zeros8(VRAM_SIZE as nat),
        oam: zeros8(OAM_SIZE as nat),
        rom: b.rom,
        timer_divider: Seq::new(4, |i: int| 0u32),
        timer_reload: Seq::new(4, |i: int| 0u16),
        halt_requested: false,
        flash_cmd_stage: 0,
        flash_id_mode: false,
    }
}

/// The state of a freshly built bus.
pub open spec fn power_on_state() -> BusState {
    io_defaults(
        cleared(
            BusState {
                bios: zeros8(BIOS_SIZE as nat),
                bios_loaded: false,
                rom: Seq::empty(),
                ..arbitrary()
            },
        ),
    )
}

pub open spec fn spec_keyinput(held_mask: u16) -> u16 {
    ((!held_mask) & 0x03FF) | 0xFC00
}

pub open spec fn spec_has_pending_interrupts(b: BusState) -> bool {
    (io16(b, REG_IME) & 1) != 0 && (io16(b, REG_IE) & io16(b, REG_IF)) != 0
}

/// Lowest pending interrupt enabled in IE, as a one-bit mask.
pub open spec fn spec_claim_pending_interrupt(b: BusState) -> Option<u16> {
    let pending = io16(b, REG_IE) & io16(b, REG_IF);
    if pending == 0 {
        None
    } else {
        Some(1u16 << (pending.trailing_zeros() as u16))
    }
}


// ---------------------------------------------------------------------------
// Executable bus
// ---------------------------------------------------------------------------

fn timer_prescaler(sel: u16) -> (r: u32)
    ensures
        r == spec_timer_prescaler(sel),
        r >= 1,
{
    if sel == 0 {
        1
    } else if sel == 1 {
        64
    } else if sel == 2 {
        256
    } else {
        1024
    }
}

fn timer_index_from_ctrl_addr(addr: u32) -> (r: Option<usize>)
    ensures
        r == spec_timer_index_from_ctrl_addr(addr),
{
    let mut i: usize = 0;
    while i < 4
        invariant
            i <= 4,
            forall|j: int| 0 <= j < i ==> addr != timer_ctrl_addr(j),
        decreases 4 - i,
    {
        if IO_START + 0x102 + 4 * (i as u32) == addr {
            return Some(i);
        }
        i = i + 1;
    }
    None
}

fn timer_index_from_reload_addr(addr: u32) -> (r: Option<usize>)
    ensures
        r == spec_timer_index_from_reload_addr(addr),
{
    let mut i: usize = 0;
    while i < 4
        invariant
            i <= 4,
            forall|j: int| 0 <= j < i ==> addr != timer_reload_addr(j),
        decreases 4 - i,
    {
        if IO_START + 0x100 + 4 * (i as u32) == addr {
            return Some(i);
        }
        i = i + 1;
    }
    None
}

fn dma_channel_from_cnt_h_addr(addr: u32) -> (r: Option<usize>)
    ensures
        r == spec_dma_channel_from_cnt_h_addr(addr),
{
    let mut i: usize = 0;
    while i < 4
        invariant
            i <= 4,
            forall|j: int| 0 <= j < i ==> addr != dma_cnt_h_addr(j),
        decreases 4 - i,
    {
        if IO_START + 0x0BA + 12 * (i as u32) == addr {
            return Some(i);
        }
        i = i + 1;
    }
    None
}

fn update_dma_addr(addr: u32, control: u16, amount: u32) -> (r: u32)
    ensures
        r == spec_update_dma_addr(addr, control, amount),
{
    match control {
        0 => addr.wrapping_add(amount),
        1 => addr.wrapping_sub(amount),
        2 => addr,
        3 => addr.wrapping_add(amount),
        _ => addr,
    }
}

/// A halfword is its low byte joined with its high byte.
pub proof fn lemma_halfword_bytes(value: u16)
    by (bit_vector)
    ensures
        ((value & 0xFFu16) as u8 as u16) | (((value >> 8u16) as u8 as u16) << 8u16) == value,
        (0u8 as u16) | ((0u8 as u16) << 8u16) == 0u16,
{
}

/// At power-on VCOUNT reads line 0.
pub proof fn lemma_power_on_vcount()
    ensures
        spec_read16(power_on_state(), REG_VCOUNT) == 0,
        power_on_state().wf(),
{
    let z = zeros8(IO_SIZE as nat);
    assert(z[6] == 0 && z[7] == 0);
    assert(power_on_state().io[6] == 0);
    assert(power_on_state().io[7] == 0);
    lemma_halfword_bytes(0);
    assert(spec_read8(power_on_state(), REG_VCOUNT) == 0u8);
    assert(spec_read8(power_on_state(), REG_VCOUNT.wrapping_add(1)) == 0u8);
}

/// An I/O halfword stored with no side effect reads back as stored.
pub proof fn lemma_io16_after_store(b: BusState, addr: u32, value: u16)
    requires
        b.io.len() == IO_SIZE,
        IO_START <= addr,
        addr + 1 < IO_START + IO_SIZE,
    ensures
        io16(io_store16(b, addr, value), addr) == value,
        io_store16(b, addr, value).io.len() == IO_SIZE,
{
    lemma_halfword_bytes(value);
}

proof fn lemma_halfword_offset(x: u32, size: u32)
    requires
        x < size,
        size % 2 == 0,
        size <= 0x10_0000,
    ensures
        (x & !1u32) + 1 < size,
        (x & !1u32) <= x,
{
    assert((x & !1u32) <= x && (x & !1u32) % 2 == 0) by (bit_vector);
}

proof fn lemma_word_offset(x: u32, size: u32)
    requires
        x < size,
        size % 4 == 0,
        size <= 0x10_0000,
    ensures
        (x & !3u32) + 3 < size,
{
    assert((x & !3u32) <= x && (x & !3u32) % 4 == 0) by (bit_vector);
}

impl Bus {
    /// A bus with cleared memories and the power-on register defaults.
    pub fn new() -> (bus: Bus)
        ensures
            bus@ == power_on_state(),
    {
        let mut bus = Bus {
            bios: [0u8; BIOS_SIZE],
            bios_loaded: false,
            ewram: [0u8; EWRAM_SIZE],
            iwram: [0u8; IWRAM_SIZE],
            io: [0u8; IO_SIZE],
            palette_ram: [0u8; PALETTE_RAM_SIZE],
            vram: [0u8; VRAM_SIZE],
            oam: [0u8; OAM_SIZE],
            rom: Vec::new(),
            timer_divider: [0u32; 4],
            timer_reload: [0u16; 4],
            halt_requested: false,
            flash_cmd_stage: 0,
            flash_id_mode: false,
        };
        assert(bus@ == cleared(
            BusState {
                bios: zeros8(BIOS_SIZE as nat),
                bios_loaded: false,
                rom: Seq::empty(),
                ..arbitrary()
            },
        ));
        bus.apply_io_defaults();
        bus
    }

    fn apply_io_defaults(&mut self)
        requires
            old(self)@.wf(),
        ensures
            final(self)@ == io_defaults(old(self)@),
    {
        proof {
            use_type_invariant(&*self);
        }
        self.write_io16_raw(REG_KEYINPUT, 0xFFFF);
        // Joybus idle state (no host attached) prevents BIOS link polling deadlocks.
        self.write_io16_raw(REG_JOY_RECV, 0xFFFF);
        self.write_io16_raw(REG_JOY_RECV + 2, 0xFFFF);
        self.write_io16_raw(REG_JOY_TRANS, 0xFFFF);
        self.write_io16_raw(REG_JOY_TRANS + 2, 0xFFFF);
        self.write_io16_raw(REG_JOYSTAT, 0x0000);
        // Serial data lines idle high when no cable/peer is attached.
        self.write_io16_raw(REG_SIODATA32_L, 0xFFFF);
        self.write_io16_raw(REG_SIODATA32_H, 0xFFFF);
        self.write_io16_raw(REG_SIOMULTI0, 0xFFFF);
        self.write_io16_raw(REG_SIOMULTI1, 0xFFFF);
        self.write_io16_raw(REG_SIOMULTI2, 0xFFFF);
        self.write_io16_raw(REG_SIOMULTI3, 0xFFFF);
    }

    /// Every timer's prescaler phase is below the largest prescaler.
    #[verifier::type_invariant]
    spec fn dividers_bounded(self) -> bool {
        forall|i: int| 0 <= i < 4 ==> #[trigger] self.timer_divider[i] < MAX_TIMER_PRESCALER
    }

    /// Every bus is well formed (its memories have their sizes and its prescaler
    /// phases are bounded); this does nothing at run time.
    pub fn lemma_wf(&self)
        ensures
            self@.wf(),
    {
        proof {
            use_type_invariant(self);
        }
    }

    /// Clears every RAM and peripheral state for a boot without BIOS; the BIOS image
    /// and the ROM stay.
    pub fn reset_for_rom_boot(&mut self)
        ensures
            final(self)@ == io_defaults(cleared(old(self)@)),
    {
        proof {
            use_type_invariant(&*self);
        }
        self.ewram = [0u8; EWRAM_SIZE];
        self.iwram = [0u8; IWRAM_SIZE];
        self.io = [0u8; IO_SIZE];
        self.palette_ram = [0u8; PALETTE_RAM_SIZE];
        self.vram = [0u8; VRAM_SIZE];
        self.oam = [0u8; OAM_SIZE];
        self.timer_divider = [0u32; 4];
        self.timer_reload = [0u16; 4];
        self.halt_requested = false;
        self.flash_cmd_stage = 0;
        self.flash_id_mode = false;
        assert(self@ == cleared(old(self)@));
        // Reapply power-on peripheral defaults used by no-BIOS startup.
        self.apply_io_defaults();
    }

    /// Copies a BIOS image (at most the BIOS size) to the start of the BIOS memory.
    pub fn load_bios(&mut self, data: &[u8])
        ensures
            ({
                let len = if data@.len() < BIOS_SIZE {
                    data@.len() as int
                } else {
                    BIOS_SIZE as int
                };
                &&& final(self)@ == BusState {
                    bios: data@.subrange(0, len) + old(self)@.bios.subrange(len, BIOS_SIZE as int),
                    bios_loaded: len > 0,
                    ..old(self)@
                }
            }),
    {
        proof {
            use_type_invariant(&*self);
        }
        let len = if data.len() < BIOS_SIZE {
            data.len()
        } else {
            BIOS_SIZE
        };
        let mut i: usize = 0;
        while i < len
            invariant
                len <= data@.len(),
                len <= BIOS_SIZE,
                i <= len,
                self@ == (BusState {
                    bios: data@.subrange(0, i as int) + old(self)@.bios.subrange(i as int, BIOS_SIZE as int),
                    ..old(self)@
                }),
                forall|k: int| 0 <= k < 4 ==> #[trigger] self.timer_divider[k] < MAX_TIMER_PRESCALER,
            decreases len - i,
        {
            self.bios[i] = data[i];
            i = i + 1;
            assert(self.bios@ =~= data@.subrange(0, i as int) + old(self)@.bios.subrange(i as int, BIOS_SIZE as int));
        }
        self.bios_loaded = len > 0;
    }

    pub fn has_bios(&self) -> (r: bool)
        ensures
            r == self@.bios_loaded,
    {
        self.bios_loaded
    }

    pub fn disable_bios(&mut self)
        ensures
            final(self)@ == (BusState { bios_loaded: false, ..old(self)@ }),
    {
        proof {
            use_type_invariant(&*self);
        }
        self.bios_loaded = false;
    }

    /// Installs a cartridge image.
    pub fn load_rom(&mut self, data: Vec<u8>)
        ensures
            final(self)@ == (BusState { rom: data@, ..old(self)@ }),
    {
        proof {
            use_type_invariant(&*self);
        }
        self.rom = data;
    }

    pub fn vram(&self) -> (r: &[u8])
        ensures
            r@ == self@.vram,
    {
        self.vram.as_slice()
    }

    pub fn read8(&self, addr: u32) -> (r: u8)
        ensures
            r == spec_read8(self@, addr),
    {
        if BIOS_START <= addr && addr < BIOS_START + BIOS_SIZE as u32 {
            return self.bios[(addr - BIOS_START) as usize];
        }
        if EWRAM_START <= addr && addr < EWRAM_START + EWRAM_REGION_SIZE {
            let off = ((addr - EWRAM_START) as usize) % EWRAM_SIZE;
            return self.ewram[off];
        }
        if IWRAM_START <= addr && addr < IWRAM_START + IWRAM_REGION_SIZE {
            let off = ((addr - IWRAM_START) as usize) % IWRAM_SIZE;
            return self.iwram[off];
        }
        if IO_START <= addr && addr < IO_START + IO_SIZE as u32 {
            return self.io[(addr - IO_START) as usize];
        }
        if PALETTE_RAM_START <= addr && addr < PALETTE_RAM_START + PALETTE_RAM_SIZE as u32 {
            return self.palette_ram[(addr - PALETTE_RAM_START) as usize];
        }
        if VRAM_START <= addr && addr < VRAM_START + VRAM_SIZE as u32 {
            return self.vram[(addr - VRAM_START) as usize];
        }
        if OAM_START <= addr && addr < OAM_START + OAM_SIZE as u32 {
            return self.oam[(addr - OAM_START) as usize];
        }
        if GAMEPAK_ROM_START <= addr && addr < GAMEPAK_ROM_END {
            if self.rom.len() == 0 {
                return 0xFF;
            }
            let offset = ((addr - GAMEPAK_ROM_START) as usize) % self.rom.len();
            return self.rom[offset];
        }
        if GAMEPAK_SRAM_START <= addr && addr < GAMEPAK_SRAM_END {
            let off = (addr - GAMEPAK_SRAM_START) & 0xFFFF;
            let value = if self.flash_id_mode {
                if off == 0 {
                    FLASH_ID_MANUFACTURER
                } else if off == 1 {
                    FLASH_ID_DEVICE
                } else {
                    0xFF
                }
            } else {
                // Backup memory contents are not emulated; reads fall back to open bus.
                0xFF
            };
            return value;
        }
        0
    }

    pub fn read16(&self, addr: u32) -> (r: u16)
        ensures
            r == spec_read16(self@, addr),
    {
        let lo = self.read8(addr) as u16;
        let hi = self.read8(addr.wrapping_add(1)) as u16;
        lo | (hi << 8u16)
    }

    pub fn read32(&self, addr: u32) -> (r: u32)
        ensures
            r == spec_read32(self@, addr),
    {
        let b0 = self.read8(addr) as u32;
        let b1 = self.read8(addr.wrapping_add(1)) as u32;
        let b2 = self.read8(addr.wrapping_add(2)) as u32;
        let b3 = self.read8(addr.wrapping_add(3)) as u32;
        b0 | (b1 << 8u32) | (b2 << 16u32) | (b3 << 24u32)
    }

    pub fn write8(&mut self, addr: u32, value: u8)
        ensures
            final(self)@ == spec_write8(old(self)@, addr, value),
    {
        proof {
            use_type_invariant(&*self);
        }
        if EWRAM_START <= addr && addr < EWRAM_START + EWRAM_REGION_SIZE {
            let off = ((addr - EWRAM_START) as usize) % EWRAM_SIZE;
            self.ewram[off] = value;
            return;
        }
        if IWRAM_START <= addr && addr < IWRAM_START + IWRAM_REGION_SIZE {
            let off = ((addr - IWRAM_START) as usize) % IWRAM_SIZE;
            let mut stored = value;
            if self.bios_loaded && addr == 0x0300_001B && value == 2 && self.read8(0x0300_0019) != 0 {
                stored = 0;
            }
            self.iwram[off] = stored;
            return;
        }
        if IO_START <= addr && addr < IO_START + IO_SIZE as u32 {
            if addr == REG_HALTCNT {
                // HALTCNT bit7=0 enters HALT; STOP (bit7=1) is not emulated.
                if (value & 0x80) == 0 {
                    self.halt_requested = true;
                }
                return;
            }
            if addr == REG_IF || addr == REG_IF + 1 {
                let current = self.read_io16_raw(REG_IF);
                let clear_mask = if addr == REG_IF {
                    value as u16
                } else {
                    (value as u16) << 8u16
                };
                self.write_io16_raw(REG_IF, current & !clear_mask);
                return;
            }
            if addr == REG_VCOUNT || addr == REG_VCOUNT + 1 || addr == REG_KEYINPUT || addr
                == REG_KEYINPUT + 1 {
                return;
            }
            let index = (addr - IO_START) as usize;
            self.io[index] = value;
            return;
        }
        if PALETTE_RAM_START <= addr && addr < PALETTE_RAM_START + PALETTE_RAM_SIZE as u32 {
            let x = addr - PALETTE_RAM_START;
            proof {
                lemma_halfword_offset(x, PALETTE_RAM_SIZE as u32);
            }
            let off = (x & !1u32) as usize;
            self.palette_ram[off] = value;
            self.palette_ram[off + 1] = value;
            return;
        }
        if VRAM_START <= addr && addr < VRAM_START + VRAM_SIZE as u32 {
            let x = addr - VRAM_START;
            proof {
                lemma_halfword_offset(x, VRAM_SIZE as u32);
            }
            let off = (x & !1u32) as usize;
            self.vram[off] = value;
            self.vram[off + 1] = value;
            return;
        }
        if OAM_START <= addr && addr < OAM_START + OAM_SIZE as u32 {
            self.oam[(addr - OAM_START) as usize] = value;
            return;
        }
        if GAMEPAK_SRAM_START <= addr && addr < GAMEPAK_SRAM_END {
            let off = (addr - GAMEPAK_SRAM_START) & 0xFFFF;
            if self.flash_cmd_stage == 0 {
                if off == 0x5555 && value == 0xAA {
                    self.flash_cmd_stage = 1;
                } else if value == 0xF0 {
                    self.flash_id_mode = false;
                }
            } else if self.flash_cmd_stage == 1 {
                if off == 0x2AAA && value == 0x55 {
                    self.flash_cmd_stage = 2;
                } else {
                    self.flash_cmd_stage = 0;
                }
            } else {
                if off == 0x5555 {
                    if value == 0x90 {
                        self.flash_id_mode = true;
                    } else if value == 0xF0 {
                        self.flash_id_mode = false;
                    }
                }
                self.flash_cmd_stage = 0;
            }
            return;
        }
    }

    /// Halfword write as two byte writes.
    fn write16_bytes(&mut self, addr: u32, value: u16)
        ensures
            final(self)@ == bytes_write16(old(self)@, addr, value),
    {
        proof {
            use_type_invariant(&*self);
        }
        self.write8(addr, (value & 0x00FF) as u8);
        self.write8(addr.wrapping_add(1), (value >> 8u16) as u8);
    }

    pub fn write16(&mut self, addr: u32, value: u16)
        requires
            addr != IO_LAST,
        ensures
            final(self)@ == spec_write16(old(self)@, addr, value, DMA_NEST_LIMIT as nat),
    {
        proof {
            use_type_invariant(&*self);
        }
        self.write16_nested(addr, value, DMA_NEST_LIMIT);
    }

    fn write16_nested(&mut self, addr: u32, value: u16, depth: u32)
        requires
            addr != IO_LAST,
        ensures
            final(self)@ == spec_write16(old(self)@, addr, value, depth as nat),
        decreases depth, 3nat, 0nat,
    {
        proof {
            use_type_invariant(&*self);
        }
        if addr == REG_VCOUNT || addr == REG_KEYINPUT {
            return;
        }
        if addr == REG_IF {
            // IF is write-1-to-clear.
            let current = self.read_io16_raw(REG_IF);
            self.write_io16_raw(REG_IF, current & !value);
            return;
        }
        if IO_START <= addr && addr < IO_START + IO_SIZE as u32 {
            let old_value = self.read_io16_raw(addr);
            self.write_io16_raw(addr, value);
            self.handle_side_effects_16(addr, old_value, value, depth);
            return;
        }
        if VRAM_START <= addr && addr < VRAM_START + VRAM_SIZE as u32 {
            let x = addr - VRAM_START;
            proof {
                lemma_halfword_offset(x, VRAM_SIZE as u32);
            }
            let off = (x & !1u32) as usize;
            self.vram[off] = (value & 0xFF) as u8;
            self.vram[off + 1] = (value >> 8u16) as u8;
            return;
        }
        if PALETTE_RAM_START <= addr && addr < PALETTE_RAM_START + PALETTE_RAM_SIZE as u32 {
            let x = addr - PALETTE_RAM_START;
            proof {
                lemma_halfword_offset(x, PALETTE_RAM_SIZE as u32);
            }
            let off = (x & !1u32) as usize;
            self.palette_ram[off] = (value & 0xFF) as u8;
            self.palette_ram[off + 1] = (value >> 8u16) as u8;
            return;
        }
        self.write16_bytes(addr, value);
    }

    pub fn write32(&mut self, addr: u32, value: u32)
        requires
            addr != IO_LAST,
            addr != IO_LAST - 2,
        ensures
            final(self)@ == spec_write32(old(self)@, addr, value, DMA_NEST_LIMIT as nat),
    {
        proof {
            use_type_invariant(&*self);
        }
        self.write32_nested(addr, value, DMA_NEST_LIMIT);
    }

    fn write32_nested(&mut self, addr: u32, value: u32, depth: u32)
        requires
            addr != IO_LAST,
            addr != IO_LAST - 2,
        ensures
            final(self)@ == spec_write32(old(self)@, addr, value, depth as nat),
        decreases depth, 4nat, 0nat,
    {
        proof {
            use_type_invariant(&*self);
        }
        if IO_START <= addr && addr < IO_START + IO_SIZE as u32 {
            self.write16_nested(addr, (value & 0xFFFF) as u16, depth);
            self.write16_nested(addr.wrapping_add(2), (value >> 16u32) as u16, depth);
            return;
        }
        if PALETTE_RAM_START <= addr && addr < PALETTE_RAM_START + PALETTE_RAM_SIZE as u32 {
            let x = addr - PALETTE_RAM_START;
            proof {
                lemma_word_offset(x, PALETTE_RAM_SIZE as u32);
            }
            let off = (x & !3u32) as usize;
            self.palette_ram[off] = (value & 0xFF) as u8;
            self.palette_ram[off + 1] = ((value >> 8u32) & 0xFF) as u8;
            self.palette_ram[off + 2] = ((value >> 16u32) & 0xFF) as u8;
            self.palette_ram[off + 3] = ((value >> 24u32) & 0xFF) as u8;
            return;
        }
        if VRAM_START <= addr && addr < VRAM_START + VRAM_SIZE as u32 {
            let x = addr - VRAM_START;
            proof {
                lemma_word_offset(x, VRAM_SIZE as u32);
            }
            let off = (x & !3u32) as usize;
            self.vram[off] = (value & 0xFF) as u8;
            self.vram[off + 1] = ((value >> 8u32) & 0xFF) as u8;
            self.vram[off + 2] = ((value >> 16u32) & 0xFF) as u8;
            self.vram[off + 3] = ((value >> 24u32) & 0xFF) as u8;
            return;
        }
        self.write8(addr, (value & 0x0000_00FF) as u8);
        self.write8(addr.wrapping_add(1), ((value >> 8u32) & 0xFF) as u8);
        self.write8(addr.wrapping_add(2), ((value >> 16u32) & 0xFF) as u8);
        self.write8(addr.wrapping_add(3), ((value >> 24u32) & 0xFF) as u8);
    }

    pub fn read_io16(&self, addr: u32) -> (r: u16)
        ensures
            r == spec_read16(self@, addr),
    {
        self.read16(addr)
    }

    pub fn write_io16(&mut self, addr: u32, value: u16)
        requires
            addr != IO_LAST,
        ensures
            final(self)@ == spec_write16(old(self)@, addr, value, DMA_NEST_LIMIT as nat),
    {
        proof {
            use_type_invariant(&*self);
        }
        self.write16(addr, value);
    }

    /// Key input register from the mask of held buttons (a held button reads as 0).
    pub fn set_keyinput_from_held_mask(&mut self, held_mask: u16)
        ensures
            final(self)@ == io_store16(old(self)@, REG_KEYINPUT, spec_keyinput(held_mask)),
    {
        proof {
            use_type_invariant(&*self);
        }
        let keyinput = ((!held_mask) & 0x03FF) | 0xFC00;
        self.write_io16_raw(REG_KEYINPUT, keyinput);
    }

    pub fn set_vcount(&mut self, value: u16)
        ensures
            final(self)@ == io_store16(old(self)@, REG_VCOUNT, value),
    {
        proof {
            use_type_invariant(&*self);
        }
        self.write_io16_raw(REG_VCOUNT, value);
    }

    pub fn request_interrupt(&mut self, irq_mask: u16)
        ensures
            final(self)@ == spec_request_interrupt(old(self)@, irq_mask),
    {
        proof {
            use_type_invariant(&*self);
        }
        let pending = self.read_io16_raw(REG_IF) | irq_mask;
        self.write_io16_raw(REG_IF, pending);

        if self.bios_loaded && (irq_mask & IRQ_SERIAL) != 0 {
            // BIOS serial helper gate: a completed no-link serial cycle should
            // unblock helper progression instead of leaving state byte stuck at 0.
            self.write8(0x0300_0019, 1);
        }
        if !self.bios_loaded {
            // No-BIOS compatibility: many commercial games rely on a RAM IRQ-check
            // halfword normally maintained by their installed IRQ callback.
            // Mirror pending IRQ bits into that location so wait loops can progress.
            let mut irq_check = self.read16(0x0300_22DC);
            irq_check = irq_check | irq_mask | 0x0001;
            self.write16_bytes(0x0300_22DC, irq_check);

            // Some titles also poll a second halfword that needs bit0 as a generic wake
            // flag in addition to the specific IRQ mask bits.
            let mut irq_check_alt = self.read16(0x0300_22F8);
            irq_check_alt = irq_check_alt | irq_mask | 0x0001;
            self.write16_bytes(0x0300_22F8, irq_check_alt);
        }
    }

    pub fn has_pending_interrupts(&self) -> (r: bool)
        ensures
            r == spec_has_pending_interrupts(self@),
    {
        let ime = self.read_io16_raw(REG_IME);
        let ie = self.read_io16_raw(REG_IE);
        let iflags = self.read_io16_raw(REG_IF);
        (ime & 1) != 0 && (ie & iflags) != 0
    }

    pub fn claim_pending_interrupt(&mut self) -> (r: Option<u16>)
        ensures
            r == spec_claim_pending_interrupt(old(self)@),
            final(self)@ == old(self)@,
    {
        proof {
            use_type_invariant(&*self);
        }
        let ie = self.read_io16_raw(REG_IE);
        let iflags = self.read_io16_raw(REG_IF);
        let pending = ie & iflags;
        if pending == 0 {
            return None;
        }
        let tz = pending.trailing_zeros();
        proof {
            vstd::std_specs::bits::axiom_u16_trailing_zeros(pending);
        }
        let mask = 1u16 << (tz as u16);
        Some(mask)
    }

    pub fn take_halt_request(&mut self) -> (r: bool)
        ensures
            r == old(self)@.halt_requested,
            final(self)@ == (BusState { halt_requested: false, ..old(self)@ }),
    {
        proof {
            use_type_invariant(&*self);
        }
        let requested = self.halt_requested;
        self.halt_requested = false;
        requested
    }

    pub fn tick_timers(&mut self, cycles: u32)
        ensures
            final(self)@ == spec_tick_timers(old(self)@, cycles),
    {
        proof {
            use_type_invariant(&*self);
        }
        self.tick_timer(0, cycles);
        self.tick_timer(1, cycles);
        self.tick_timer(2, cycles);
        self.tick_timer(3, cycles);
    }

    fn tick_timer(&mut self, i: usize, cycles: u32)
        requires
            i < 4,
        ensures
            final(self)@ == spec_tick_timer(old(self)@, i as int, cycles),
    {
        proof {
            use_type_invariant(&*self);
        }
        let counter_addr = IO_START + 0x100 + 4 * (i as u32);
        let ctrl_addr = IO_START + 0x102 + 4 * (i as u32);
        let ctrl = self.read_io16_raw(ctrl_addr);
        let enabled = (ctrl & 0x0080) != 0;
        if !enabled {
            return;
        }
        let cascade = (ctrl & 0x0004) != 0;
        if cascade {
            return;
        }
        let prescaler = timer_prescaler(ctrl & 0x3);
        let mut divider = self.timer_divider[i].wrapping_add(cycles);
        let ghost target = spec_tick_timer(old(self)@, i as int, cycles);
        while divider >= prescaler
            invariant
                i < 4,
                prescaler >= 1,
                prescaler <= MAX_TIMER_PRESCALER,
                counter_addr == timer_reload_addr(i as int),
                spec_timer_run(self@, i as int, ctrl, prescaler, divider) == target,
            decreases divider,
        {
            divider = divider - prescaler;
            let mut counter = self.read_io16_raw(counter_addr);
            counter = counter.wrapping_add(1);
            if counter == 0 {
                counter = self.timer_reload[i];
                if (ctrl & 0x0040) != 0 {
                    self.request_interrupt(timer_irq_mask_exec(i));
                }
            }
            self.write_io16_raw(counter_addr, counter);
        }
        proof {
            use_type_invariant(&*self);
        }
        self.timer_divider[i] = divider;
    }

    fn handle_side_effects_16(&mut self, addr: u32, old_value: u16, value: u16, depth: u32)
        requires
            in_io(addr),
        ensures
            final(self)@ == spec_io_side_effects(old(self)@, addr, old_value, value, depth as nat),
        decreases depth, 2nat, 0nat,
    {
        proof {
            use_type_invariant(&*self);
        }
        if addr == REG_SIOCNT {
            self.serial_control_written(old_value, value);
            return;
        }
        if let Some(idx) = timer_index_from_reload_addr(addr) {
            self.timer_reload[idx] = value;
            return;
        }
        if let Some(channel) = dma_channel_from_cnt_h_addr(addr) {
            let newly_enabled = (value & 0x8000) != 0 && (old_value & 0x8000) == 0;
            let start_timing = (value >> 12u16) & 0x3;
            if newly_enabled && start_timing == 0 && depth > 0 {
                self.run_dma(channel, depth - 1);
            }
            return;
        }
        if let Some(idx) = timer_index_from_ctrl_addr(addr) {
            let enabled = (value & 0x0080) != 0;
            let was_enabled = (old_value & 0x0080) != 0;
            if enabled && !was_enabled {
                self.timer_divider[idx] = 0;
                let counter_addr = IO_START + 0x100 + 4 * (idx as u32);
                let reload = self.timer_reload[idx];
                self.write_io16_raw(counter_addr, reload);
            }
        }
    }

    fn serial_control_written(&mut self, old_value: u16, value: u16)
        ensures
            final(self)@ == serial_side_effects(old(self)@, old_value, value),
    {
        proof {
            use_type_invariant(&*self);
        }
        // The BIOS helper uses multiplayer+IRQ mode and waits on the serial IRQ path.
        // With no link partner modeled, emulate immediate completion so it can
        // advance through its state machine instead of waiting forever.
        let mode = value & 0x3000;
        let multiplayer_mode = mode == 0x2000;
        let normal_mode = mode == 0x1000;
        if multiplayer_mode {
            // In idle/no-link conditions, status lines read high in multiplayer mode.
            let effective = value | 0x007C;
            if effective != value {
                self.write_io16_raw(REG_SIOCNT, effective);
            }
            let irq_enabled = (effective & 0x4000) != 0;
            let became_armed = (old_value & 0x4000) == 0 && irq_enabled;
            let start_requested = (value & 0x0080) != 0;
            if irq_enabled && (became_armed || start_requested) {
                self.write_io16_raw(REG_SIOMULTI0, 0xFFFF);
                self.write_io16_raw(REG_SIOMULTI1, 0xFFFF);
                self.write_io16_raw(REG_SIOMULTI2, 0xFFFF);
                self.write_io16_raw(REG_SIOMULTI3, 0xFFFF);
                self.request_interrupt(IRQ_SERIAL);
            }
        } else if normal_mode {
            // Normal/UART mode completion in no-link setup: return idle data and
            // complete immediately when transfer is requested with IRQ enabled.
            self.write_io16_raw(REG_SIODATA32_L, 0xFFFF);
            self.write_io16_raw(REG_SIODATA32_H, 0xFFFF);
            let irq_enabled = (value & 0x4000) != 0;
            let start_requested = (value & 0x0080) != 0;
            if irq_enabled && start_requested {
                self.request_interrupt(IRQ_SERIAL);
                self.write_io16_raw(REG_SIOCNT, value & !0x0080u16);
            }
        }
    }

    fn run_dma(&mut self, channel: usize, depth: u32)
        requires
            channel < 4,
        ensures
            final(self)@ == spec_run_dma(old(self)@, channel as int, depth as nat),
        decreases depth, 6nat, 0nat,
    {
        proof {
            use_type_invariant(&*self);
        }
        let sad = IO_START + 0x0B0 + 12 * (channel as u32);
        let dad = IO_START + 0x0B4 + 12 * (channel as u32);
        let cnt_l_addr = IO_START + 0x0B8 + 12 * (channel as u32);
        let cnt_h_addr = IO_START + 0x0BA + 12 * (channel as u32);

        let src0 = self.read32(sad);
        let dst0 = self.read32(dad);
        let initial_dst = dst0;
        let cnt_l = self.read_io16_raw(cnt_l_addr);
        let mut cnt_h = self.read_io16_raw(cnt_h_addr);

        let transfer32 = (cnt_h & 0x0400) != 0;
        let src_ctrl = (cnt_h >> 7u16) & 0x3;
        let dst_ctrl = (cnt_h >> 5u16) & 0x3;
        let start_timing = (cnt_h >> 12u16) & 0x3;
        let repeat = (cnt_h & 0x0200) != 0;
        let unit_size: u32 = if transfer32 {
            4
        } else {
            2
        };
        let p = DmaParams { transfer32, src_ctrl, dst_ctrl, unit_size };
        proof {
            assert(p == dma_params(cnt_h));
        }
        let mut words: u32 = cnt_l as u32;
        if words == 0 {
            words = if channel == 3 {
                0x1_0000
            } else {
                0x4000
            };
        }
        let (src, dst) = self.dma_copy(&p, src0, dst0, words, depth);

        // Update internal source/destination registers like hardware does.
        self.write_io32_raw(sad, src);
        if dst_ctrl == 3 && repeat && start_timing != 0 {
            self.write_io32_raw(dad, initial_dst);
        } else {
            self.write_io32_raw(dad, dst);
        }

        // For immediate start, DMA always finishes as one-shot even if repeat is set.
        if !repeat || start_timing == 0 {
            cnt_h = cnt_h & !0x8000u16;
            self.write_io16_raw(cnt_h_addr, cnt_h);
        }
        if (cnt_h & 0x4000) != 0 {
            self.request_interrupt(dma_irq_mask_exec(channel));
        }
    }

    fn dma_copy(&mut self, p: &DmaParams, src0: u32, dst0: u32, count: u32, depth: u32) -> (r: (u32, u32))
        ensures
            (final(self)@, r.0, r.1) == spec_dma_copy(old(self)@, *p, src0, dst0, count as nat, depth as nat),
        decreases depth, 5nat, count,
    {
        proof {
            use_type_invariant(&*self);
        }
        let mut src = src0;
        let mut dst = dst0;
        let mut i: u32 = 0;
        let ghost target = spec_dma_copy(old(self)@, *p, src0, dst0, count as nat, depth as nat);
        while i < count
            invariant
                i <= count,
                spec_dma_copy(self@, *p, src, dst, (count - i) as nat, depth as nat) == target,
            decreases count - i,
        {
            proof {
                assert((dst & !3u32) != IO_LAST && (dst & !3u32) != IO_LAST - 2 && (dst & !1u32) != IO_LAST)
                    by (bit_vector);
            }
            if p.transfer32 {
                let value = self.read32(src & !3u32);
                self.write32_nested(dst & !3u32, value, depth);
            } else {
                let value = self.read16(src & !1u32);
                self.write16_nested(dst & !1u32, value, depth);
            }
            src = update_dma_addr(src, p.src_ctrl, p.unit_size);
            dst = update_dma_addr(dst, p.dst_ctrl, p.unit_size);
            i = i + 1;
        }
        (src, dst)
    }

    /// Runs every enabled DMA channel whose start timing is `timing`.
    pub fn trigger_dma_timing(&mut self, timing: u16)
        ensures
            final(self)@ == spec_trigger_dma_from(old(self)@, timing, 0),
    {
        proof {
            use_type_invariant(&*self);
        }
        let mut channel: usize = 0;
        let ghost target = spec_trigger_dma_from(old(self)@, timing, 0);
        while channel < 4
            invariant
                channel <= 4,
                spec_trigger_dma_from(self@, timing, channel as nat) == target,
            decreases 4 - channel,
        {
            let cnt_h_addr = IO_START + 0x0BA + 12 * (channel as u32);
            let cnt_h = self.read_io16_raw(cnt_h_addr);
            let enabled = (cnt_h & 0x8000) != 0;
            let start_timing = (cnt_h >> 12u16) & 0x3;
            if enabled && start_timing == timing {
                self.run_dma(channel, DMA_NEST_LIMIT);
            }
            channel = channel + 1;
        }
    }

    fn write_io16_raw(&mut self, addr: u32, value: u16)
        requires
            io16_addr(addr),
        ensures
            final(self)@ == io_store16(old(self)@, addr, value),
    {
        proof {
            use_type_invariant(&*self);
        }
        let index = (addr - IO_START) as usize;
        self.io[index] = (value & 0x00FF) as u8;
        self.io[index + 1] = (value >> 8u16) as u8;
    }

    fn write_io32_raw(&mut self, addr: u32, value: u32)
        requires
            io16_addr(addr),
            io16_addr(addr.wrapping_add(2)),
        ensures
            final(self)@ == io_store32(old(self)@, addr, value),
    {
        proof {
            use_type_invariant(&*self);
        }
        self.write_io16_raw(addr, (value & 0xFFFF) as u16);
        self.write_io16_raw(addr.wrapping_add(2), (value >> 16u32) as u16);
    }

    fn read_io16_raw(&self, addr: u32) -> (r: u16)
        requires
            io16_addr(addr),
        ensures
            r == io16(self@, addr),
    {
        let index = (addr - IO_START) as usize;
        self.io[index] as u16 | ((self.io[index + 1] as u16) << 8u16)
    }
}

fn timer_irq_mask_exec(i: usize) -> (r: u16)
    ensures
        r == timer_irq_mask(i as int),
{
    if i == 0 {
        IRQ_TIMER0
    } else if i == 1 {
        IRQ_TIMER1
    } else if i == 2 {
        IRQ_TIMER2
    } else {
        IRQ_TIMER3
    }
}

fn dma_irq_mask_exec(ch: usize) -> (r: u16)
    ensures
        r == dma_irq_mask(ch as int),
{
    if ch == 0 {
        0x0100
    } else if ch == 1 {
        0x0200
    } else if ch == 2 {
        0x0400
    } else {
        0x0800
    }
}

impl Default for Bus {
    fn default() -> (bus: Bus)
        ensures
            bus@ == power_on_state(),
    {
        Bus::new()
    }
}

} // verus!
