use rust_emulas::cpu::addressing::{resolve, Operand};
use rust_emulas::cpu::flags::{
    StatusFlags, BREAK, CARRY, INTERRUPT_DISABLE, NEGATIVE, OVERFLOW, RESERVED, ZERO,
};
use rust_emulas::cpu::instruction::{build_op_table, decode, AddressingMode, InstructionKind};
use rust_emulas::cpu::interpreter::Interpreter;
use rust_emulas::cpu::{Cpu, StepOutcome};
use rust_emulas::memory::{Bus, PRG_SIZE};

/// A 32 KiB image holding `program` at 0x8000 and the reset vector pointing there.
fn image(program: &[u8]) -> Vec<u8> {
    let mut rom = vec![0xEA; PRG_SIZE];
    rom[..program.len()].copy_from_slice(program);
    rom[0x7FFC] = 0x00;
    rom[0x7FFD] = 0x80;
    rom
}

fn run(program: &[u8], steps: usize) -> (Interpreter, Vec<StepOutcome>) {
    let mut it = Interpreter::new(&image(program));
    let mut out = Vec::new();
    for _ in 0..steps {
        out.push(it.step());
    }
    (it, out)
}

#[test]
fn register_flags_for_zero() {
    let mut f = StatusFlags::from_bits(NEGATIVE | CARRY);
    assert_eq!(f.set_register_flags(0), 0);
    assert!(f.contains(ZERO));
    assert!(!f.contains(NEGATIVE));
    assert!(f.contains(CARRY));
}

#[test]
fn register_flags_for_negative() {
    let mut f = StatusFlags::from_bits(ZERO);
    assert_eq!(f.set_register_flags(0x80), 0x80);
    assert!(f.contains(NEGATIVE));
    assert!(!f.contains(ZERO));
}

#[test]
fn register_flags_for_positive() {
    let mut f = StatusFlags::from_bits(ZERO | NEGATIVE);
    assert_eq!(f.set_register_flags(0x01), 0x01);
    assert!(!f.contains(ZERO));
    assert!(!f.contains(NEGATIVE));
    assert_eq!(f.bits(), 0);
}

#[test]
fn zero_negative_flags_only_set() {
    let mut f = StatusFlags::empty();
    f.set_zero_negative_flags(0x90);
    assert_eq!(f.bits(), NEGATIVE);
    f.set_zero_negative_flags(0x00);
    assert_eq!(f.bits(), NEGATIVE | ZERO);
    f.clear_flags(ZERO | NEGATIVE);
    assert_eq!(f.bits(), 0);
    f.insert(CARRY);
    f.set(OVERFLOW, true);
    f.set(CARRY, false);
    assert_eq!(f.bits(), OVERFLOW);
}

#[test]
fn cpu_setters_route_through_flags() {
    let mut cpu = Cpu::new();
    cpu.set_a(0);
    assert_eq!(cpu.a, 0);
    assert!(cpu.status.contains(ZERO));
    cpu.set_x(0xFF);
    assert_eq!(cpu.x, 0xFF);
    assert!(cpu.status.contains(NEGATIVE));
    assert!(!cpu.status.contains(ZERO));
    cpu.set_y(0x10);
    assert_eq!(cpu.y, 0x10);
    assert_eq!(cpu.status.bits(), 0);
}

#[test]
fn brk_pushes_pc_and_status_then_jumps() {
    let mut rom = vec![0u8; PRG_SIZE];
    rom[0x7FFE] = 0x00;
    rom[0x7FFF] = 0x80;
    let mut bus = Bus::new(&rom);
    let mut cpu = Cpu::new();
    cpu.pc = 0x1234;
    cpu.sp = 0xFF;
    cpu.status = StatusFlags::from_bits(0x00);
    cpu.handle_brk(&mut bus);
    assert_eq!(cpu.sp, 0xFC);
    assert_eq!(bus.read(0x01FF), 0x12);
    assert_eq!(bus.read(0x01FE), 0x34);
    assert_eq!(bus.read(0x01FD), 0x00);
    assert!(cpu.status.contains(INTERRUPT_DISABLE));
    assert_eq!(cpu.pc, 0x8000);
}

#[test]
fn reset_loads_the_vector() {
    let mut rom = vec![0u8; PRG_SIZE];
    rom[0x7FFC] = 0x10;
    rom[0x7FFD] = 0xC0;
    let bus = Bus::new(&rom);
    let mut cpu = Cpu::new();
    cpu.a = 9;
    cpu.status = StatusFlags::from_bits(0xFF);
    cpu.reset(&bus);
    assert_eq!(cpu.pc, 0xC010);
    assert_eq!(cpu.sp, 0xFF);
    assert_eq!((cpu.a, cpu.x, cpu.y), (0, 0, 0));
    assert_eq!(cpu.status.bits(), 0);
}

#[test]
fn opcode_table_has_every_official_opcode() {
    let table = build_op_table();
    assert_eq!(table.len(), 256);
    let official = table.iter().filter(|i| i.kind != InstructionKind::Illegal).count();
    assert_eq!(official, 151);
    for (i, ins) in table.iter().enumerate() {
        assert_eq!(ins.opcode as usize, i);
        assert!(ins.bytes >= 1 && ins.bytes <= 3);
        assert_eq!(*ins, decode(i as u8));
    }
}

#[test]
fn opcode_table_entries() {
    let lda = decode(0xA9);
    assert_eq!(lda.kind, InstructionKind::LDA);
    assert_eq!(lda.mode, AddressingMode::Immediate);
    assert_eq!((lda.bytes, lda.cycles, lda.page_penalty), (2, 2, false));
    let sta = decode(0x9D);
    assert_eq!(sta.kind, InstructionKind::STA);
    assert_eq!(sta.mode, AddressingMode::AbsoluteX);
    assert_eq!((sta.bytes, sta.cycles, sta.page_penalty), (3, 5, false));
    let lda_y = decode(0xB1);
    assert_eq!(lda_y.mode, AddressingMode::IndirectY);
    assert_eq!((lda_y.bytes, lda_y.cycles, lda_y.page_penalty), (2, 5, true));
    let jmp = decode(0x6C);
    assert_eq!(jmp.mode, AddressingMode::Indirect);
    assert_eq!((jmp.bytes, jmp.cycles), (3, 5));
    let brk = decode(0x00);
    assert_eq!(brk.kind, InstructionKind::BRK);
    assert_eq!((brk.bytes, brk.cycles), (1, 7));
    let illegal = decode(0x02);
    assert_eq!(illegal.kind, InstructionKind::Illegal);
    assert_eq!((illegal.bytes, illegal.cycles), (1, 2));
}

#[test]
fn resolve_modes() {
    let mut rom = vec![0u8; PRG_SIZE];
    rom[0] = 0xFF; // operand bytes at 0x8000
    rom[1] = 0x10;
    let mut bus = Bus::new(&rom);
    bus.write(0x00FF, 0x00);
    bus.write(0x0000, 0x03);
    let mut cpu = Cpu::new();
    cpu.pc = 0x8000;
    cpu.x = 0x01;
    cpu.y = 0x01;
    assert_eq!(resolve(AddressingMode::Immediate, &cpu, &bus).operand, Operand::Immediate(0xFF));
    assert_eq!(resolve(AddressingMode::ZeroPageX, &cpu, &bus).operand, Operand::Address(0x0000));
    let abs_x = resolve(AddressingMode::AbsoluteX, &cpu, &bus);
    assert_eq!(abs_x.operand, Operand::Address(0x1100));
    assert!(abs_x.page_crossed);
    assert_eq!(abs_x.len, 2);
    // pointer at 0xFF wraps within the zero page: low byte 0x00, high byte from 0x0000
    let ind_y = resolve(AddressingMode::IndirectY, &cpu, &bus);
    assert_eq!(ind_y.operand, Operand::Address(0x0301));
    assert!(!ind_y.page_crossed);
    let rel = resolve(AddressingMode::Relative, &cpu, &bus);
    assert_eq!(rel.operand, Operand::Address(0x8000));
    assert_eq!(resolve(AddressingMode::Implied, &cpu, &bus).len, 0);
}

#[test]
fn lda_immediate_step() {
    let (it, out) = run(&[0xA9, 0x80], 1);
    assert_eq!(out[0], StepOutcome::Executed { cycles: 2 });
    assert_eq!(it.cpu.a, 0x80);
    assert_eq!(it.cpu.pc, 0x8002);
    assert!(it.cpu.status.contains(NEGATIVE));
    assert!(!it.cpu.status.contains(ZERO));
}

#[test]
fn adc_sets_carry_and_overflow() {
    // LDA #$7F; ADC #$01; ADC #$80
    let (it, out) = run(&[0xA9, 0x7F, 0x69, 0x01, 0x69, 0x80], 2);
    assert_eq!(out[1].cycles(), 2);
    assert_eq!(it.cpu.a, 0x80);
    assert!(it.cpu.status.contains(OVERFLOW));
    assert!(!it.cpu.status.contains(CARRY));
    let (it, _) = run(&[0xA9, 0x7F, 0x69, 0x01, 0x69, 0x80], 3);
    assert_eq!(it.cpu.a, 0x00);
    assert!(it.cpu.status.contains(CARRY));
    assert!(it.cpu.status.contains(ZERO));
    assert!(it.cpu.status.contains(OVERFLOW));
}

#[test]
fn sbc_with_borrow() {
    // SEC; LDA #$05; SBC #$06
    let (it, _) = run(&[0x38, 0xA9, 0x05, 0xE9, 0x06], 3);
    assert_eq!(it.cpu.a, 0xFF);
    assert!(!it.cpu.status.contains(CARRY));
    assert!(it.cpu.status.contains(NEGATIVE));
}

#[test]
fn store_load_and_compare() {
    // LDX #$42; STX $10; LDY $10; CPY #$42; INC $10; LDA $10
    let (it, out) = run(&[0xA2, 0x42, 0x86, 0x10, 0xA4, 0x10, 0xC0, 0x42, 0xE6, 0x10, 0xA5, 0x10], 6);
    assert_eq!(it.memory.read(0x0010), 0x43);
    assert_eq!(it.cpu.y, 0x42);
    assert_eq!(it.cpu.a, 0x43);
    assert!(it.cpu.status.contains(CARRY));
    assert_eq!(out[4].cycles(), 5);
}

#[test]
fn shifts_and_rotates() {
    // LDA #$81; ASL A; ROL A; LSR A; ROR A
    let (it, _) = run(&[0xA9, 0x81, 0x0A, 0x2A, 0x4A, 0x6A], 2);
    assert_eq!(it.cpu.a, 0x02);
    assert!(it.cpu.status.contains(CARRY));
    let (it, _) = run(&[0xA9, 0x81, 0x0A, 0x2A, 0x4A, 0x6A], 3);
    assert_eq!(it.cpu.a, 0x05);
    assert!(!it.cpu.status.contains(CARRY));
    let (it, _) = run(&[0xA9, 0x81, 0x0A, 0x2A, 0x4A, 0x6A], 5);
    assert_eq!(it.cpu.a, 0x81);
}

#[test]
fn branch_cycles() {
    // LDX #$00; BEQ +2 (taken, same page); NOP; NOP; BNE -2 (not taken)
    let (it, out) = run(&[0xA2, 0x00, 0xF0, 0x02, 0xEA, 0xEA, 0xD0, 0xFE], 3);
    assert_eq!(out[1], StepOutcome::Executed { cycles: 3 });
    assert_eq!(it.cpu.pc, 0x8008);
    assert_eq!(out[2], StepOutcome::Executed { cycles: 2 });
}

#[test]
fn branch_to_other_page_costs_two_more() {
    // JMP $80FC; at $80FC: CLC; BCC +4 -> target $8103 from next $80FF
    let mut program = vec![0xEA; 0x110];
    program[0] = 0x4C;
    program[1] = 0xFC;
    program[2] = 0x80;
    program[0xFC] = 0x18;
    program[0xFD] = 0x90;
    program[0xFE] = 0x04;
    let (it, out) = run(&program, 3);
    assert_eq!(out[0].cycles(), 3);
    assert_eq!(out[2], StepOutcome::Executed { cycles: 4 });
    assert_eq!(it.cpu.pc, 0x8103);
}

#[test]
fn page_cross_penalty_only_for_reads() {
    // LDX #$FF; LDA $80FF,X ; STA $0201,X
    let (_, out) = run(&[0xA2, 0xFF, 0xBD, 0xFF, 0x80, 0x9D, 0x01, 0x02], 3);
    assert_eq!(out[1].cycles(), 5);
    assert_eq!(out[2].cycles(), 5);
}

#[test]
fn jsr_and_rts() {
    // JSR $8010; (at $8003) NOP ... at $8010: LDA #$01; RTS
    let mut program = vec![0xEA; 0x20];
    program[0] = 0x20;
    program[1] = 0x10;
    program[2] = 0x80;
    program[0x10] = 0xA9;
    program[0x11] = 0x01;
    program[0x12] = 0x60;
    let (it, out) = run(&program, 1);
    assert_eq!(out[0].cycles(), 6);
    assert_eq!(it.cpu.pc, 0x8010);
    assert_eq!(it.cpu.sp, 0xFD);
    assert_eq!(it.memory.read(0x01FF), 0x80);
    assert_eq!(it.memory.read(0x01FE), 0x02);
    let (it, _) = run(&program, 3);
    assert_eq!(it.cpu.pc, 0x8003);
    assert_eq!(it.cpu.sp, 0xFF);
    assert_eq!(it.cpu.a, 0x01);
}

#[test]
fn stack_push_and_pull() {
    // LDA #$33; PHA; LDA #$00; PLA; PHP; PLP
    let (it, _) = run(&[0xA9, 0x33, 0x48, 0xA9, 0x00, 0x68, 0x08, 0x28], 4);
    assert_eq!(it.cpu.a, 0x33);
    assert_eq!(it.cpu.sp, 0xFF);
    let (it, _) = run(&[0xA9, 0x33, 0x48, 0xA9, 0x00, 0x68, 0x08, 0x28], 5);
    assert_eq!(it.memory.read(0x01FF), BREAK | RESERVED);
    let (it, _) = run(&[0xA9, 0x33, 0x48, 0xA9, 0x00, 0x68, 0x08, 0x28], 6);
    assert_eq!(it.cpu.status.bits(), 0);
}

#[test]
fn brk_through_step_and_rti() {
    let mut rom = image(&[0x00]);
    rom[0x7FFE] = 0x00;
    rom[0x7FFF] = 0x90;
    rom[0x1000] = 0x40; // RTI at 0x9000
    let mut it = Interpreter::new(&rom);
    assert_eq!(it.step(), StepOutcome::Executed { cycles: 7 });
    assert_eq!(it.cpu.pc, 0x9000);
    assert!(it.cpu.status.contains(INTERRUPT_DISABLE));
    assert_eq!(it.step(), StepOutcome::Executed { cycles: 6 });
    assert_eq!(it.cpu.pc, 0x8001);
    assert_eq!(it.cpu.sp, 0xFF);
    assert_eq!(it.cpu.status.bits(), 0);
}

#[test]
fn jmp_indirect_wraps_within_page() {
    let mut rom = image(&[0x6C, 0xFF, 0x02]);
    rom[0] = 0x6C;
    let mut it = Interpreter::new(&rom);
    it.memory.write(0x02FF, 0x34);
    it.memory.write(0x0200, 0x12);
    it.memory.write(0x0300, 0x99);
    it.step();
    assert_eq!(it.cpu.pc, 0x1234);
}

#[test]
fn illegal_opcode_is_reported_and_skipped() {
    let (it, out) = run(&[0x02, 0xA9, 0x05], 2);
    assert_eq!(out[0], StepOutcome::UnimplementedOpcode { opcode: 0x02, cycles: 2 });
    assert_eq!(out[0].cycles(), 2);
    assert_eq!(it.cpu.a, 0x05);
    assert_eq!(it.cpu.pc, 0x8003);
}

#[test]
fn interpreter_execute_and_setters() {
    let mut it = Interpreter::new(&image(&[0x05]));
    assert_eq!(it.cpu.pc, 0x8000);
    it.set_a(0x30);
    it.set_x(0x00);
    assert!(it.cpu.status.contains(ZERO));
    it.set_y(0x90);
    assert!(it.cpu.status.contains(NEGATIVE));
    // EOR #$05 with the operand at the program counter
    assert_eq!(it.execute(0x49), StepOutcome::Executed { cycles: 2 });
    assert_eq!(it.cpu.a, 0x35);
    assert_eq!(it.cpu.pc, 0x8001);
    it.reset();
    assert_eq!(it.cpu.pc, 0x8000);
    assert_eq!(it.cpu.a, 0);
}

#[test]
fn kind_execute_resolves_and_acts() {
    let mut bus = Bus::new(&image(&[0x07]));
    let mut cpu = Cpu::new();
    cpu.pc = 0x8000;
    let (crossed, extra) = InstructionKind::LDY.execute(AddressingMode::Immediate, &mut cpu, &mut bus);
    assert!(!crossed);
    assert_eq!(extra, 0);
    assert_eq!(cpu.y, 0x07);
    assert_eq!(cpu.pc, 0x8001);
}

#[test]
fn transfers_and_flag_instructions() {
    // LDA #$80; TAX; TXS; TSX; TAY; INY; DEX; SEI; SED; CLD; CLI; CLV
    let (it, _) = run(&[0xA9, 0x80, 0xAA, 0x9A, 0xBA, 0xA8, 0xC8, 0xCA, 0x78, 0xF8, 0xD8, 0x58, 0xB8], 8);
    assert_eq!(it.cpu.sp, 0x80);
    assert_eq!(it.cpu.x, 0x7F);
    assert_eq!(it.cpu.y, 0x81);
    assert!(!it.cpu.status.contains(NEGATIVE));
    let (it, _) = run(&[0xA9, 0x80, 0xAA, 0x9A, 0xBA, 0xA8, 0xC8, 0xCA, 0x78, 0xF8], 10);
    assert!(it.cpu.status.contains(INTERRUPT_DISABLE));
    assert_eq!(it.cpu.status.bits() & 0x08, 0x08);
}

#[test]
fn bit_and_logic() {
    // LDA #$0F; STA $20; LDA #$C0; BIT $20 -> Z set, N and V from $0F (clear); AND #$80; ORA #$01
    let (it, _) = run(&[0xA9, 0x0F, 0x85, 0x20, 0xA9, 0xC0, 0x24, 0x20, 0x29, 0x80, 0x09, 0x01], 4);
    assert!(it.cpu.status.contains(ZERO));
    assert!(!it.cpu.status.contains(NEGATIVE));
    assert!(!it.cpu.status.contains(OVERFLOW));
    let (it, _) = run(&[0xA9, 0x0F, 0x85, 0x20, 0xA9, 0xC0, 0x24, 0x20, 0x29, 0x80, 0x09, 0x01], 6);
    assert_eq!(it.cpu.a, 0x81);
}

#[test]
fn stack_pointer_wraps_both_ways() {
    let mut bus = Bus::new(&[]);
    let mut cpu = Cpu::new();
    cpu.sp = 0x00;
    cpu.push(&mut bus, 0xAB);
    assert_eq!(cpu.sp, 0xFF);
    assert_eq!(bus.read(0x0100), 0xAB);
    assert_eq!(cpu.pull(&bus), 0xAB);
    assert_eq!(cpu.sp, 0x00);
}
