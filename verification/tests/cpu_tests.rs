use gba_emu::bus::{Bus, EWRAM_START, GAMEPAK_ROM_START};
use gba_emu::cpu::{add_with_flags, rotate_right, sub_with_flags, Cpu, CpuMode};

#[test]
fn cpu_defaults_to_rom_start() {
    let cpu = Cpu::new();
    assert_eq!(cpu.pc(), GAMEPAK_ROM_START);
}

#[test]
fn branch_instruction_changes_pc() {
    let mut cpu = Cpu::new();
    cpu.set_pc(0x0800_0008);
    let b_instr = 0xEA00_0002;
    let mut bus = Bus::new();
    let cycles = cpu.exec_arm(&mut bus, b_instr);
    assert_eq!(cycles, 3);
    assert_eq!(cpu.pc(), 0x0800_0014);
}

#[test]
fn thumb_mov_add_sub_works() {
    let mut cpu = Cpu::new();
    cpu.set_thumb(true);
    let mut bus = Bus::new();

    assert_eq!(cpu.exec_thumb(&mut bus, 0x2002), 1);
    assert_eq!(cpu.read_reg(0), 2);

    assert_eq!(cpu.exec_thumb(&mut bus, 0x3003), 1);
    assert_eq!(cpu.read_reg(0), 5);

    assert_eq!(cpu.exec_thumb(&mut bus, 0x3801), 1);
    assert_eq!(cpu.read_reg(0), 4);
}

#[test]
fn arm_ldr_str_roundtrip() {
    let mut cpu = Cpu::new();
    let mut bus = Bus::new();
    cpu.write_reg(0, EWRAM_START);
    cpu.write_reg(1, 0xDEAD_BEEF);

    // STR r1, [r0, #0]
    let str_instr = 0xE580_1000;
    cpu.exec_arm(&mut bus, str_instr);

    cpu.write_reg(2, 0);
    // LDR r2, [r0, #0]
    let ldr_instr = 0xE590_2000;
    cpu.exec_arm(&mut bus, ldr_instr);

    assert_eq!(cpu.read_reg(2), 0xDEAD_BEEF);
}

#[test]
fn add_with_flags_carry_out() {
    assert_eq!(add_with_flags(0xFFFF_FFFF, 1), (0, true, false));
}

#[test]
fn add_with_flags_signed_overflow() {
    assert_eq!(add_with_flags(0x7FFF_FFFF, 1), (0x8000_0000, false, true));
}

#[test]
fn sub_with_flags_borrow_and_no_borrow() {
    assert_eq!(sub_with_flags(5, 3), (2, true, false));
    assert_eq!(sub_with_flags(3, 5), (0xFFFF_FFFE, false, false));
    assert_eq!(sub_with_flags(0x8000_0000, 1), (0x7FFF_FFFF, true, true));
}

#[test]
fn rotate_right_exact_values() {
    assert_eq!(rotate_right(0x0000_00F1, 4), 0x1000_000F);
    assert_eq!(rotate_right(0x1234_5678, 0), 0x1234_5678);
}

#[test]
fn reset_puts_stack_in_iwram_and_pc_at_rom() {
    let mut cpu = Cpu::new();
    cpu.write_reg(3, 77);
    cpu.reset();
    assert_eq!(cpu.read_reg(13), 0x0300_7F00);
    assert_eq!(cpu.read_reg(3), 0);
    assert_eq!(cpu.pc(), GAMEPAK_ROM_START);
    assert_eq!(cpu.mode(), CpuMode::System);
}

#[test]
fn force_boot_to_bios_enters_supervisor_at_zero() {
    let mut cpu = Cpu::new();
    cpu.force_boot_to_bios();
    assert_eq!(cpu.pc(), 0);
    assert_eq!(cpu.mode(), CpuMode::Supervisor);
    assert_eq!(cpu.cpsr(), 0xD3);
    assert!(!cpu.is_thumb());
}

#[test]
fn jump_to_rom_entry_enters_system_mode() {
    let mut cpu = Cpu::new();
    cpu.force_boot_to_bios();
    cpu.jump_to_rom_entry();
    assert_eq!(cpu.pc(), GAMEPAK_ROM_START);
    assert_eq!(cpu.mode(), CpuMode::System);
    assert_eq!(cpu.cpsr(), 0x1F);
}

#[test]
fn force_boot_to_rom_clears_thumb() {
    let mut cpu = Cpu::new();
    cpu.set_thumb(true);
    cpu.set_pc(0x0200_0000);
    cpu.force_boot_to_rom();
    assert!(!cpu.is_thumb());
    assert_eq!(cpu.pc(), GAMEPAK_ROM_START);
}

#[test]
fn step_executes_mov_and_counts_cycles() {
    let mut cpu = Cpu::new();
    let mut bus = Bus::new();
    // MOV r0, #5 ; B . (branch to self)
    bus.load_rom(vec![0x05, 0x00, 0xA0, 0xE3, 0xFE, 0xFF, 0xFF, 0xEA]);
    let spent = cpu.step(&mut bus);
    assert_eq!(spent, 1);
    assert_eq!(cpu.read_reg(0), 5);
    assert_eq!(cpu.pc(), GAMEPAK_ROM_START + 4);
    assert_eq!(cpu.cycles(), 1);
}

#[test]
fn traced_branch_is_recorded() {
    let mut cpu = Cpu::new();
    let mut bus = Bus::new();
    // B . at the ROM entry
    bus.load_rom(vec![0xFE, 0xFF, 0xFF, 0xEA]);
    cpu.set_trace_branches(true);
    cpu.step(&mut bus);
    let t = cpu.last_branch().expect("branch recorded");
    assert_eq!(t.from, GAMEPAK_ROM_START);
    assert_eq!(t.to, GAMEPAK_ROM_START);
    assert_eq!(t.instr, 0xEAFF_FFFE);
    assert!(!t.thumb);
}

#[test]
fn untraced_branch_is_not_recorded() {
    let mut cpu = Cpu::new();
    let mut bus = Bus::new();
    bus.load_rom(vec![0xFE, 0xFF, 0xFF, 0xEA]);
    cpu.step(&mut bus);
    assert!(cpu.last_branch().is_none());
}

#[test]
fn thumb_branch_exchange_to_arm() {
    let mut cpu = Cpu::new();
    let mut bus = Bus::new();
    cpu.set_thumb(true);
    cpu.write_reg(1, 0x0800_0100);
    // BX r1
    cpu.exec_thumb(&mut bus, 0x4708);
    assert!(!cpu.is_thumb());
    assert_eq!(cpu.pc(), 0x0800_0100);
}

#[test]
fn swi_div_without_bios() {
    let mut cpu = Cpu::new();
    let mut bus = Bus::new();
    cpu.write_reg(0, (-7i32) as u32);
    cpu.write_reg(1, 2);
    // SWI 0x06 (Div)
    cpu.exec_arm(&mut bus, 0xEF00_0006);
    assert_eq!(cpu.read_reg(0) as i32, -3);
    assert_eq!(cpu.read_reg(1) as i32, -1);
    assert_eq!(cpu.read_reg(3), 3);
}

#[test]
fn register_ram_reset_keeps_iwram_tail() {
    let mut cpu = Cpu::new();
    let mut bus = Bus::new();
    bus.write8(0x0300_0010, 0x11);
    bus.write8(0x0300_7E00, 0x22);
    bus.write8(0x0300_7FFF, 0x33);
    bus.write8(0x0200_0000, 0x44);
    // RegisterRamReset with only the IWRAM flag.
    cpu.write_reg(0, 0x02);
    cpu.exec_arm(&mut bus, 0xEF00_0001);
    assert_eq!(bus.read8(0x0300_0010), 0);
    assert_eq!(bus.read8(0x0300_7E00), 0x22);
    assert_eq!(bus.read8(0x0300_7FFF), 0x33);
    assert_eq!(bus.read8(0x0200_0000), 0x44);
}

#[test]
fn mode_switch_round_trip_restores_stack_pointer() {
    let mut cpu = Cpu::new();
    let mut bus = Bus::new();
    cpu.write_reg(13, 0x0300_1000);
    // MOV r0, #0x12 ; MSR CPSR_c, r0  (IRQ mode)
    cpu.exec_arm(&mut bus, 0xE3A0_0012);
    cpu.exec_arm(&mut bus, 0xE121_F000);
    assert_eq!(cpu.mode(), CpuMode::Irq);
    assert_eq!(cpu.read_reg(13), 0x0300_7FA0);
    cpu.write_reg(13, 0x0300_2000);
    // MOV r0, #0x1F ; MSR CPSR_c, r0  (back to System mode)
    cpu.exec_arm(&mut bus, 0xE3A0_001F);
    cpu.exec_arm(&mut bus, 0xE121_F000);
    assert_eq!(cpu.mode(), CpuMode::System);
    assert_eq!(cpu.read_reg(13), 0x0300_1000);
}

#[test]
fn condition_code_skips_instruction() {
    let mut cpu = Cpu::new();
    let mut bus = Bus::new();
    // MOVS r0, #0 sets Z; MOVNE r1, #7 is skipped; MOVEQ r2, #9 runs.
    cpu.exec_arm(&mut bus, 0xE3B0_0000);
    cpu.exec_arm(&mut bus, 0x13A0_1007);
    cpu.exec_arm(&mut bus, 0x03A0_2009);
    assert_eq!(cpu.read_reg(1), 0);
    assert_eq!(cpu.read_reg(2), 9);
}

#[test]
fn shift_by_immediate_zero_variants() {
    let mut cpu = Cpu::new();
    let mut bus = Bus::new();
    cpu.write_reg(1, 0x8000_0001);
    // MOV r0, r1, LSR #32 (encoded as LSR #0).
    cpu.exec_arm(&mut bus, 0xE1A0_0021);
    assert_eq!(cpu.read_reg(0), 0);
    // MOV r0, r1, ASR #32.
    cpu.exec_arm(&mut bus, 0xE1A0_0041);
    assert_eq!(cpu.read_reg(0), 0xFFFF_FFFF);
    // MOVS r0, r1, RRX with C clear, then MOV r2, r1, RRX with C now set.
    cpu.exec_arm(&mut bus, 0xE1B0_0061);
    assert_eq!(cpu.read_reg(0), 0x4000_0000);
    cpu.exec_arm(&mut bus, 0xE1A0_2061);
    assert_eq!(cpu.read_reg(2), 0xC000_0000);
    // MOV r3, r1 (LSL #0) keeps the value.
    cpu.exec_arm(&mut bus, 0xE1A0_3001);
    assert_eq!(cpu.read_reg(3), 0x8000_0001);
}

#[test]
fn bx_selects_state_from_bit_zero() {
    let mut cpu = Cpu::new();
    let mut bus = Bus::new();
    cpu.write_reg(0, 0x0800_0101);
    // BX r0
    cpu.exec_arm(&mut bus, 0xE12F_FF10);
    assert!(cpu.is_thumb());
    assert_eq!(cpu.pc(), 0x0800_0100);
    assert_eq!(cpu.read_reg(0), 0x0800_0101);
}

#[test]
fn unknown_instruction_is_recorded_only_when_strict() {
    let mut cpu = Cpu::new();
    let mut bus = Bus::new();
    cpu.set_pc(0x0800_0004);
    assert_eq!(cpu.exec_arm(&mut bus, 0xEC00_0000), 1);
    assert!(cpu.take_unknown_instruction().is_none());
    cpu.set_strict_unknown(true);
    assert_eq!(cpu.exec_arm(&mut bus, 0xEC00_0000), 1);
    let u = cpu.take_unknown_instruction().unwrap();
    assert!(!u.thumb);
    assert_eq!(u.instr, 0xEC00_0000);
    assert_eq!(u.addr, 0x0800_0000);
    assert!(cpu.take_unknown_instruction().is_none());
}
