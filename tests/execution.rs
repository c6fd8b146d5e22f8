use velera::alu::{add_with_carry, barrel_shift, rotated_immediate, sub_with_carry};
use velera::arm_decode::BaseInstruction;
use velera::block::{load_multiple, store_multiple};
use velera::cpu::{cycle, execute_instruction, MicroOp, CPU};
use velera::enums::{MnemonicARM, ProcessorMode, ShiftType};
use velera::instruction::DecodedInstruction;
use velera::micro_ops::{multiply_long, alu_master};
use velera::psr::PSR;
use velera::registers::ARM7TDMI;

const IWRAM: u32 = 0x0300_0000;

fn long_mul(instr: MnemonicARM, lo: u8, hi: u8, rm: u8, rs: u8) -> DecodedInstruction {
    DecodedInstruction {
        instr,
        rn: Some(lo),
        rd: Some(hi),
        rm: Some(rm),
        rs: Some(rs),
        set_cond: Some(false),
        ..DecodedInstruction::blank(0xE)
    }
}

#[test]
fn add_register_scenario() {
    let word: u32 = 0b0000_0000_1000_1100_1010_0000_0001_0101;
    let d = BaseInstruction::base_to_decoded(word);
    assert_eq!(BaseInstruction::get_instr(word), BaseInstruction::DataProcessing);
    assert_eq!(d.instr, MnemonicARM::ADD);
    assert_eq!(d.rn, Some(0b1100));
    assert_eq!(d.rd, Some(0b1010));
    assert_eq!(d.rm, Some(0b0101));
    assert_eq!(d.set_cond, Some(false));
    assert_eq!(d.imm, Some(false));

    let mut cpu = CPU::new();
    cpu.write(0b1100, 5);
    cpu.write(0b0101, 7);
    execute_instruction(&mut cpu, d);
    assert_eq!(cpu.read(0b1010), 12);
}

#[test]
fn signed_long_multiply_of_minus_ones() {
    let mut cpu = CPU::new();
    cpu.write(2, 0xFFFF_FFFF);
    cpu.write(3, 0xFFFF_FFFF);
    cpu.current = long_mul(MnemonicARM::SMULL, 0, 1, 2, 3);
    multiply_long(&mut cpu);
    assert_eq!(cpu.read(0), 0x0000_0001);
    assert_eq!(cpu.read(1), 0x0000_0000);
}

#[test]
fn unsigned_long_multiply_and_accumulate() {
    let mut cpu = CPU::new();
    cpu.write(2, 0xFFFF_FFFF);
    cpu.write(3, 0xFFFF_FFFF);
    cpu.current = long_mul(MnemonicARM::UMULL, 0, 1, 2, 3);
    multiply_long(&mut cpu);
    assert_eq!(cpu.read(0), 0x0000_0001);
    assert_eq!(cpu.read(1), 0xFFFF_FFFE);
    cpu.current = long_mul(MnemonicARM::UMLAL, 0, 1, 0, 0);
    multiply_long(&mut cpu);
    assert_eq!(cpu.read(0), 0x0000_0002);
    assert_eq!(cpu.read(1), 0xFFFF_FFFE);
}

#[test]
fn block_store_keeps_pre_update_base() {
    let mut cpu = CPU::new();
    cpu.write(0, 0x1111_1111);
    cpu.write(5, IWRAM + 0x100);
    // STMIA r5!, {r0, r5}
    cpu.current = DecodedInstruction {
        instr: MnemonicARM::STM,
        rn: Some(5),
        val1: Some(0b0101),
        offset: Some(0b0010_0001),
        ..DecodedInstruction::blank(0xE)
    };
    store_multiple(&mut cpu);
    assert_eq!(cpu.mmu.load32(IWRAM + 0x100), 0x1111_1111);
    assert_eq!(cpu.mmu.load32(IWRAM + 0x104), IWRAM + 0x100);
    assert_eq!(cpu.read(5), IWRAM + 0x108);
}

#[test]
fn block_store_empty_list_uses_literal_offsets() {
    let mut cpu = CPU::new();
    cpu.write(1, IWRAM + 0x200);
    cpu.write(15, 0x1000);
    // decrement after, with write-back: program counter at base - 0x3C
    cpu.current = DecodedInstruction {
        instr: MnemonicARM::STM,
        rn: Some(1),
        val1: Some(0b0001),
        offset: Some(0),
        ..DecodedInstruction::blank(0xE)
    };
    store_multiple(&mut cpu);
    assert_eq!(cpu.mmu.load32(IWRAM + 0x200 - 0x3C), 0x1004);
    assert_eq!(cpu.read(1), IWRAM + 0x200 - 0x40);
}

#[test]
fn block_load_round_trip() {
    let mut cpu = CPU::new();
    cpu.write(2, 0xAAAA_0002);
    cpu.write(3, 0xBBBB_0003);
    cpu.write(8, IWRAM);
    cpu.current = DecodedInstruction {
        instr: MnemonicARM::STM,
        rn: Some(8),
        val1: Some(0b0100),
        offset: Some(0b1100),
        ..DecodedInstruction::blank(0xE)
    };
    store_multiple(&mut cpu);
    cpu.write(2, 0);
    cpu.write(3, 0);
    cpu.current = DecodedInstruction { instr: MnemonicARM::LDM, ..cpu.current };
    load_multiple(&mut cpu);
    assert_eq!(cpu.read(2), 0xAAAA_0002);
    assert_eq!(cpu.read(3), 0xBBBB_0003);
    assert_eq!(cpu.mmu.load32(IWRAM), 0xAAAA_0002);
    assert_eq!(cpu.read(8), IWRAM);
}

#[test]
fn irq_stack_pointer_is_banked() {
    let mut arm = ARM7TDMI::default();
    arm.store_register(13, 0x100);
    arm.cpsr.mode = ProcessorMode::IRQ;
    arm.store_register(13, 0x200);
    arm.cpsr.mode = ProcessorMode::User;
    assert_eq!(arm.load_register(13), 0x100);
    arm.cpsr.mode = ProcessorMode::IRQ;
    assert_eq!(arm.load_register(13), 0x200);
    assert_eq!(arm.load_register(12), 0);
}

#[test]
fn fiq_banks_high_registers() {
    let mut arm = ARM7TDMI::default();
    arm.cpsr.mode = ProcessorMode::FIQ;
    arm.store_register(8, 8);
    arm.store_register(7, 7);
    arm.cpsr.mode = ProcessorMode::System;
    assert_eq!(arm.load_register(8), 0);
    assert_eq!(arm.load_register(7), 7);
}

#[test]
fn shifter_zero_amount_cases() {
    assert_eq!(barrel_shift(ShiftType::ROR, 0x0000_0002, 0, true, false), (0x8000_0001, false));
    assert_eq!(barrel_shift(ShiftType::ROR, 0x0000_0003, 0, false, false), (0x0000_0001, true));
    assert_eq!(barrel_shift(ShiftType::LSR, 0x8000_0000, 0, false, false), (0, true));
    assert_eq!(barrel_shift(ShiftType::LSR, 0x7FFF_FFFF, 0, true, false), (0, false));
    assert_eq!(barrel_shift(ShiftType::ASR, 0x8000_0000, 0, false, false), (0xFFFF_FFFF, true));
    assert_eq!(barrel_shift(ShiftType::LSR, 0x8000_0000, 0, true, true), (0x8000_0000, true));
    assert_eq!(barrel_shift(ShiftType::LSL, 0x8000_0001, 1, false, false), (0x0000_0002, true));
    assert_eq!(barrel_shift(ShiftType::ROR, 0x0000_00F1, 4, false, false), (0x1000_000F, false));
    assert_eq!(barrel_shift(ShiftType::LSL, 1, 33, true, true), (0, false));
}

#[test]
fn adder_flags() {
    assert_eq!(add_with_carry(0x7FFF_FFFF, 1, false), (0x8000_0000, false, true));
    assert_eq!(add_with_carry(0xFFFF_FFFF, 1, false), (0, true, false));
    assert_eq!(sub_with_carry(5, 7, true), (0xFFFF_FFFE, false, false));
    assert_eq!(sub_with_carry(7, 5, true), (2, true, false));
    assert_eq!(rotated_immediate(0xFF, 4), 0xFF00_0000);
}

#[test]
fn status_word_round_trip() {
    let mut p = PSR::default();
    p.pack(0xF000_00FF & 0xA000_00D3);
    assert_eq!(p.mode, ProcessorMode::Supervisor);
    assert!(p.negative && !p.zero && p.carry && !p.overflow);
    assert_eq!(p.unpack() as u32, 0xA000_00D3);
    p.pack(0x0000_0014);
    assert_eq!(p.mode, ProcessorMode::User);
}

#[test]
fn subtract_sets_flags() {
    let mut cpu = CPU::new();
    cpu.write(1, 3);
    cpu.write(2, 3);
    cpu.current = DecodedInstruction {
        instr: MnemonicARM::SUB,
        rn: Some(1),
        rd: Some(0),
        rm: Some(2),
        val1: Some(0),
        shift_type: Some(ShiftType::LSL),
        set_cond: Some(true),
        imm: Some(false),
        ..DecodedInstruction::blank(0xE)
    };
    alu_master(&mut cpu);
    assert_eq!(cpu.read(0), 0);
    assert!(cpu.arm.cpsr.zero && cpu.arm.cpsr.carry && !cpu.arm.cpsr.negative);
}

#[test]
fn undefined_word_traps() {
    let word: u32 = 0xE600_0010;
    assert_eq!(BaseInstruction::get_instr(word), BaseInstruction::Undefined);
    let mut cpu = CPU::new();
    cpu.write(15, 0x100);
    let d = BaseInstruction::base_to_decoded(word);
    assert_eq!(d.instr, MnemonicARM::Undefined);
    execute_instruction(&mut cpu, d);
    assert_eq!(cpu.arm.cpsr.mode, ProcessorMode::Undefined);
    assert_eq!(cpu.read(14), 0x104);
    assert_eq!(cpu.read(15), 0x08);
}

#[test]
fn decoder_is_total_on_samples() {
    let mut w: u32 = 0x1234_5678;
    for _ in 0..10_000 {
        let d = BaseInstruction::base_to_decoded(w);
        assert_eq!(d.cond as u32, w >> 28);
        w = w.wrapping_mul(1_664_525).wrapping_add(1_013_904_223);
    }
    assert_eq!(BaseInstruction::get_instr(0xE12F_FF13), BaseInstruction::BranchAndExchange);
    assert_eq!(BaseInstruction::get_instr(0xEF00_0000), BaseInstruction::Interrupt);
    assert_eq!(BaseInstruction::get_instr(0xEA00_0000), BaseInstruction::Branch);
    assert_eq!(BaseInstruction::get_instr(0xE10F_0000), BaseInstruction::PSR);
    assert_eq!(BaseInstruction::get_instr(0xE1B0_00B2), BaseInstruction::DataTransfer);
}

#[test]
fn cycle_fetches_decodes_and_runs() {
    let mut cpu = CPU::new();
    // MOV r1, #5
    cpu.mmu.store32(IWRAM, 0xE3A0_1005);
    cpu.write(15, IWRAM);
    cycle(&mut cpu);
    assert_eq!(cpu.current.instr, MnemonicARM::MOV);
    assert_eq!(cpu.read(1), 5);
    assert_eq!(cpu.read(15), IWRAM + 4);
    assert!(cpu.execution_queue.is_empty());
}

#[test]
fn branch_with_link_queues_two_ops() {
    let mut cpu = CPU::new();
    cpu.write(15, 0x100);
    let d = BaseInstruction::base_to_decoded(0xEB00_0002);
    cpu.install(d);
    assert_eq!(cpu.execution_queue, vec![MicroOp::StorePcToLr, MicroOp::IncreasePcByOffset]);
    execute_instruction(&mut cpu, d);
    assert_eq!(cpu.read(14), 0x100);
    assert_eq!(cpu.read(15), 0x100 + 4 + 8 + 4);
}

#[test]
fn supervisor_call_and_status_moves() {
    let mut cpu = CPU::new();
    cpu.write(15, 0x200);
    execute_instruction(&mut cpu, BaseInstruction::base_to_decoded(0xEF00_0001));
    assert_eq!(cpu.arm.cpsr.mode, ProcessorMode::Supervisor);
    assert_eq!(cpu.read(14), 0x204);
    assert_eq!(cpu.read(15), 0x08 + 4);
    // MRS r0, CPSR
    execute_instruction(&mut cpu, BaseInstruction::base_to_decoded(0xE10F_0000));
    assert_eq!(cpu.read(0) & 0x1F, 0x13);
    // MSR CPSR_f, #0xF0000000
    execute_instruction(&mut cpu, BaseInstruction::base_to_decoded(0xE328_F20F));
    assert!(cpu.arm.cpsr.negative && cpu.arm.cpsr.zero && cpu.arm.cpsr.carry && cpu.arm.cpsr.overflow);
    assert_eq!(cpu.arm.cpsr.mode, ProcessorMode::Supervisor);
}

#[test]
fn user_mode_cannot_change_control_bits() {
    let mut cpu = CPU::new();
    cpu.write(3, 0x0000_001F);
    // MSR CPSR_fc, r3
    execute_instruction(&mut cpu, BaseInstruction::base_to_decoded(0xE129_F003));
    assert_eq!(cpu.arm.cpsr.mode, ProcessorMode::User);
}

#[test]
fn single_and_half_transfers() {
    let mut cpu = CPU::new();
    cpu.write(1, IWRAM);
    cpu.write(2, 0x1234_5678);
    // STR r2, [r1, #4]!
    execute_instruction(&mut cpu, BaseInstruction::base_to_decoded(0xE5A1_2004));
    assert_eq!(cpu.read(1), IWRAM + 4);
    // LDR r3, [r1]
    execute_instruction(&mut cpu, BaseInstruction::base_to_decoded(0xE591_3000));
    assert_eq!(cpu.read(3), 0x1234_5678);
    // LDRSB r4, [r1]
    execute_instruction(&mut cpu, BaseInstruction::base_to_decoded(0xE1D1_40D0));
    assert_eq!(cpu.read(4), 0x12);
    // SWP r5, r2, [r1]
    cpu.write(2, 0x8000_0001);
    execute_instruction(&mut cpu, BaseInstruction::base_to_decoded(0xE101_5092));
    assert_eq!(cpu.read(5), 0x1234_5678);
    assert_eq!(cpu.mmu.load8(IWRAM + 4), 0x80);
}

fn empty_stm(flags: u8, lm: MnemonicARM) -> CPU {
    let mut cpu = CPU::new();
    cpu.write(1, IWRAM + 0x200);
    cpu.write(15, 0x1000);
    cpu.current = DecodedInstruction {
        instr: lm,
        rn: Some(1),
        val1: Some(flags),
        offset: Some(0),
        ..DecodedInstruction::blank(0xE)
    };
    cpu
}

#[test]
fn block_store_empty_list_offset_table() {
    // (pre, up) -> where the program counter plus 4 lands
    for (flags, addr, base_after) in [
        (0b0001u8, IWRAM + 0x200 - 0x3C, IWRAM + 0x200 - 0x40),
        (0b0101u8, IWRAM + 0x200 - 0x40, IWRAM + 0x200 + 0x40),
        (0b1001u8, IWRAM + 0x200, IWRAM + 0x200 - 0x40),
        (0b1101u8, IWRAM + 0x200 + 4, IWRAM + 0x200 + 0x40),
    ] {
        let mut cpu = empty_stm(flags, MnemonicARM::STM);
        store_multiple(&mut cpu);
        assert_eq!(cpu.mmu.load32(addr), 0x1004);
        assert_eq!(cpu.read(1), base_after);
    }
}

#[test]
fn block_load_empty_list_reads_pc_at_base() {
    let mut cpu = empty_stm(0b0101, MnemonicARM::LDM);
    cpu.mmu.store32(IWRAM + 0x200, 0x0300_0040);
    load_multiple(&mut cpu);
    assert_eq!(cpu.read(15), 0x0300_0040);
    assert_eq!(cpu.read(1), IWRAM + 0x200);
}

#[test]
fn unused_mode_field_reads_as_user() {
    for w in [0x0000_0001u32, 0x0000_000F, 0x0000_0000, 0x8000_0014, 0x0000_00FE] {
        let mut p = PSR::default();
        p.pack(w);
        assert_eq!(p.mode, ProcessorMode::User);
        assert_eq!(p.unpack() as u32 & 0x1F, 0x10);
        assert_eq!(p.negative, w >> 31 == 1);
    }
    let mut p = PSR::default();
    p.pack(0x11);
    assert_eq!(p.mode, ProcessorMode::FIQ);
}
