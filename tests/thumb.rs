use velera::enums::{MnemonicARM, ShiftType};
use velera::instruction::DecodedInstruction;
use velera::cpu::{cycle, CPU};
use velera::thumb_decode::base_to_decoded;

const IWRAM: u32 = 0x0300_0000;

fn run_thumb(program: &[u16], sp: u32) -> CPU {
    let mut cpu = CPU::new();
    for (i, h) in program.iter().enumerate() {
        cpu.mmu.store16(IWRAM + 2 * i as u32, *h);
    }
    cpu.arm.cpsr.thumb_mode = true;
    cpu.write(13, sp);
    cpu.write(15, IWRAM);
    for _ in 0..program.len() {
        cycle(&mut cpu);
    }
    cpu
}

#[test]
fn thumb_add_subtract_register_and_immediate() {
    let add = base_to_decoded(0b0001_1001_0010_0100);
    assert_eq!(add.instr, MnemonicARM::ADD);
    assert_eq!((add.rd, add.rs, add.rn, add.imm), (Some(4), Some(4), Some(4), Some(false)));
    let sub = base_to_decoded(0b0001_1111_0010_0100);
    assert_eq!(sub.instr, MnemonicARM::SUB);
    assert_eq!((sub.val1, sub.imm), (Some(4), Some(true)));
}

#[test]
fn thumb_formats() {
    assert_eq!(
        base_to_decoded(0b0000_1000_0100_1010),
        DecodedInstruction {
            instr: MnemonicARM::SHIFT,
            shift_type: Some(ShiftType::LSR),
            rs: Some(1),
            rd: Some(2),
            offset: Some(1),
            ..Default::default()
        }
    );
    assert_eq!(base_to_decoded(0b0010_0100_0000_0100).instr, MnemonicARM::MOVI);
    assert_eq!(base_to_decoded(0b0100_0011_0100_0000).instr, MnemonicARM::MUL);
    assert_eq!(base_to_decoded(0b0100_0111_0111_0000).instr, MnemonicARM::BX);
    assert_eq!(base_to_decoded(0b0100_0111_0111_0000).rs, Some(14));
    assert_eq!(base_to_decoded(0b0100_1000_0000_0001).instr, MnemonicARM::LDRPC);
    assert_eq!(base_to_decoded(0b0101_1000_0000_0000).instr, MnemonicARM::LDR);
    assert_eq!(base_to_decoded(0b0101_1110_0000_0000).instr, MnemonicARM::LDSH);
    assert_eq!(base_to_decoded(0b0111_0000_0000_0000).instr, MnemonicARM::STRB);
    assert_eq!(base_to_decoded(0b1000_1000_0000_0000).instr, MnemonicARM::LDRH);
    assert_eq!(base_to_decoded(0b1001_1000_0000_0000).instr, MnemonicARM::LDRSPREL);
    assert_eq!(base_to_decoded(0b1010_1000_0000_0000).instr, MnemonicARM::ADDSP);
    assert_eq!(base_to_decoded(0b1011_0000_1000_0001).instr, MnemonicARM::OffsetSUB);
    assert_eq!(base_to_decoded(0b1011_0101_0000_0001).instr, MnemonicARM::PUSHLR);
    assert_eq!(base_to_decoded(0b1011_1110_0000_0000).instr, MnemonicARM::BKPT);
    assert_eq!(base_to_decoded(0b1100_1001_0000_0011).instr, MnemonicARM::LDMIA);
    assert_eq!(base_to_decoded(0b1101_0001_0000_0011).val2, Some(1));
    assert_eq!(base_to_decoded(0b1101_1111_0000_0011).instr, MnemonicARM::SWI);
    assert_eq!(base_to_decoded(0b1110_0000_0000_0011).instr, MnemonicARM::B);
    assert_eq!(base_to_decoded(0b1111_1000_0000_0011).instr, MnemonicARM::BL);
    assert_eq!(base_to_decoded(0b1110_1000_0000_0000).instr, MnemonicARM::Undefined);
}

#[test]
fn thumb_programs_run_as_wide_instructions() {
    // MOV r0, #5; ADD r0, #3; LSL r1, r0, #2; NEG r2, r1
    let cpu = run_thumb(&[0x2005, 0x3003, 0x0081, 0b0100_0010_0100_1010], 0);
    assert_eq!(cpu.read(0), 8);
    assert_eq!(cpu.read(1), 32);
    assert_eq!(cpu.read(2), (-32i32) as u32);
    assert!(cpu.arm.cpsr.negative);
    assert_eq!(cpu.read(15), IWRAM + 8);
}

#[test]
fn thumb_push_pop_round_trip() {
    // MOV r0, #7; MOV r1, #9; PUSH {r0, r1}; POP {r2, r3}
    let cpu = run_thumb(&[0x2007, 0x2109, 0xB403, 0xBC0C], IWRAM + 0x100);
    assert_eq!(cpu.read(2), 7);
    assert_eq!(cpu.read(3), 9);
    assert_eq!(cpu.read(13), IWRAM + 0x100);
    assert_eq!(cpu.mmu.load32(IWRAM + 0xF8), 7);
}

#[test]
fn thumb_branches() {
    // B forward by two half-words
    let cpu = run_thumb(&[0xE002], 0);
    assert_eq!(cpu.read(15), IWRAM + 4 + 2);
    // BEQ with Z clear is not taken
    let cpu = run_thumb(&[0xD002], 0);
    assert_eq!(cpu.read(15), IWRAM + 2);
    // CMP r0, #0 sets Z, then BEQ is taken
    let cpu = run_thumb(&[0x2800, 0xD002], 0);
    assert_eq!(cpu.read(15), IWRAM + 2 + 4 + 2);
    // BL pair: LR = PC + 0, then PC = LR + 8, LR = next instruction | 1
    let cpu = run_thumb(&[0xF000, 0xF804], 0);
    assert_eq!(cpu.read(14), (IWRAM + 4) | 1);
    assert_eq!(cpu.read(15), IWRAM + 8 + 2);
}
