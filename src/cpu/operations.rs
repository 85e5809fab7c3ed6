use vstd::prelude::*;

use crate::cpu::addressing::{page_differs, resolve, resolve_spec, Operand};
use crate::cpu::flags::{
    with_zero_negative, StatusFlags, BREAK, CARRY, DECIMAL_MODE, INTERRUPT_DISABLE, NEGATIVE,
    OVERFLOW, RESERVED, ZERO,
};
use crate::cpu::instruction::{AddressingMode, InstructionKind};
use crate::cpu::{
    add16, add8, brk_spec, pull_spec, push_spec, with_a, with_x, with_y, word, Cpu,
};
use crate::memory::{Bus, BusModel};

verus! {

/// The value an operand names: the immediate byte, the byte at the address, or A.
pub open spec fn value_of(op: Operand, c: Cpu, b: BusModel) -> u8 {
    match op {
        Operand::Immediate(v) => v,
        Operand::Address(a) => b.read(a),
        Operand::Accumulator => c.a,
        Operand::Implied => 0,
    }
}

/// The address an operand names, zero where it names none.
pub open spec fn address_of(op: Operand) -> u16 {
    match op {
        Operand::Address(a) => a,
        _ => 0,
    }
}

/// Stores `v` where the operand names a place: A, or the bus at the address.
pub open spec fn put(op: Operand, c: Cpu, b: BusModel, v: u8) -> (Cpu, BusModel) {
    match op {
        Operand::Accumulator => (Cpu { a: v, ..c }, b),
        Operand::Address(a) => (c, b.write(a, v)),
        _ => (c, b),
    }
}

/// `bits` with `mask` set when `on` and cleared otherwise.
pub open spec fn flag(bits: u8, mask: u8, on: bool) -> u8 {
    if on {
        bits | mask
    } else {
        bits & !mask
    }
}

pub open spec fn with_bits(c: Cpu, bits: u8) -> Cpu {
    Cpu { status: StatusFlags { bits }, ..c }
}

/// The carry bit as a number.
pub open spec fn carry_in(c: Cpu) -> int {
    if c.status.has(CARRY) {
        1
    } else {
        0
    }
}

/// Add with carry: A + m + C, carry out above 255, overflow when the sign of the result
/// differs from the signs of both inputs.
pub open spec fn adc_spec(c: Cpu, m: u8) -> Cpu {
    let sum = c.a as int + m as int + carry_in(c);
    let r = (sum % 256) as u8;
    let overflow = (c.a ^ r) & (m ^ r) & 0x80 != 0;
    with_a(with_bits(c, flag(flag(c.status.bits, CARRY, sum > 255), OVERFLOW, overflow)), r)
}

/// Compare: carry when `reg >= m`, zero and negative from `reg - m`.
pub open spec fn compare_spec(c: Cpu, reg: u8, m: u8) -> Cpu {
    with_bits(c, with_zero_negative(flag(c.status.bits, CARRY, reg >= m), add8(reg, -(m as int))))
}

/// Bit test: zero from `A & m`, overflow and negative from bits 6 and 7 of `m`.
pub open spec fn bit_spec(c: Cpu, m: u8) -> Cpu {
    with_bits(
        c,
        flag(
            flag(flag(c.status.bits, ZERO, c.a & m == 0), OVERFLOW, m & 0x40 != 0),
            NEGATIVE,
            m & 0x80 != 0,
        ),
    )
}

/// The four shifts and rotations.
#[derive(Debug, Clone, Copy, PartialEq, Eq, Structural)]
pub enum Shift {
    Asl,
    Lsr,
    Rol,
    Ror,
}

/// The result and the carry out of shifting `v` with carry in `cin`.
pub open spec fn shift_result(s: Shift, v: u8, cin: int) -> (u8, bool) {
    match s {
        Shift::Asl => (((v as int * 2) % 256) as u8, v >= 128),
        Shift::Lsr => ((v / 2) as u8, v % 2 == 1),
        Shift::Rol => (((v as int * 2 + cin) % 256) as u8, v >= 128),
        Shift::Ror => ((v / 2 + cin * 128) as u8, v % 2 == 1),
    }
}

/// Shifts the operand in place, setting carry, zero and negative.
pub open spec fn shift_spec(s: Shift, op: Operand, c: Cpu, b: BusModel) -> (Cpu, BusModel) {
    let (r, cout) = shift_result(s, value_of(op, c, b), carry_in(c));
    put(op, with_bits(c, with_zero_negative(flag(c.status.bits, CARRY, cout), r)), b, r)
}

/// Adds `delta` to the byte at the operand's address, setting zero and negative.
pub open spec fn step_memory_spec(op: Operand, c: Cpu, b: BusModel, delta: int) -> (Cpu, BusModel) {
    let r = add8(value_of(op, c, b), delta);
    (with_bits(c, with_zero_negative(c.status.bits, r)), b.write(address_of(op), r))
}

/// A branch: when `cond` holds, jump to the target, one more cycle, and one more again when
/// the target lies on another page than the next instruction.
pub open spec fn branch_spec(op: Operand, c: Cpu, cond: bool) -> (Cpu, u8) {
    if cond {
        let target = address_of(op);
        (Cpu { pc: target, ..c }, if page_differs(c.pc, target) { 2 } else { 1 })
    } else {
        (c, 0)
    }
}

/// The status byte that PLP and RTI take from the stack: break and the unused bit dropped.
pub open spec fn pulled_status(v: u8) -> u8 {
    v & !(BREAK | RESERVED)
}

/// Jump to subroutine: the address of the last byte of the instruction is pushed (high byte
/// first), then the program counter is loaded.
pub open spec fn jsr_spec(op: Operand, c: Cpu, b: BusModel) -> (Cpu, BusModel) {
    let ret = add16(c.pc, -1);
    let (c1, b1) = push_spec(c, b, (ret / 256) as u8);
    let (c2, b2) = push_spec(c1, b1, (ret % 256) as u8);
    (Cpu { pc: address_of(op), ..c2 }, b2)
}

/// Return from subroutine: pull the low then the high byte, continue one past that address.
pub open spec fn rts_spec(c: Cpu, b: BusModel) -> Cpu {
    let (c1, lo) = pull_spec(c, b);
    let (c2, hi) = pull_spec(c1, b);
    Cpu { pc: add16(word(lo, hi), 1), ..c2 }
}

/// Return from interrupt: pull the status, then the program counter.
pub open spec fn rti_spec(c: Cpu, b: BusModel) -> Cpu {
    let (c1, p) = pull_spec(c, b);
    let (c2, lo) = pull_spec(c1, b);
    let (c3, hi) = pull_spec(c2, b);
    Cpu { pc: word(lo, hi), status: StatusFlags { bits: pulled_status(p) }, ..c3 }
}

/// The semantic action of `kind` on a resolved operand, with the program counter already past
/// the instruction: the new processor, the new bus, and the cycles it adds.
#[verifier::opaque]
pub open spec fn act_spec(kind: InstructionKind, op: Operand, c: Cpu, b: BusModel) -> (
    Cpu,
    BusModel,
    u8,
) {
    let m = value_of(op, c, b);
    let bits = c.status.bits;
    match kind {
        InstructionKind::ADC => (adc_spec(c, m), b, 0),
        InstructionKind::SBC => (adc_spec(c, (255 - m) as u8), b, 0),
        InstructionKind::AND => (with_a(c, c.a & m), b, 0),
        InstructionKind::ORA => (with_a(c, c.a | m), b, 0),
        InstructionKind::EOR => (with_a(c, c.a ^ m), b, 0),
        InstructionKind::CMP => (compare_spec(c, c.a, m), b, 0),
        InstructionKind::CPX => (compare_spec(c, c.x, m), b, 0),
        InstructionKind::CPY => (compare_spec(c, c.y, m), b, 0),
        InstructionKind::BIT => (bit_spec(c, m), b, 0),
        InstructionKind::LDA => (with_a(c, m), b, 0),
        InstructionKind::LDX => (with_x(c, m), b, 0),
        InstructionKind::LDY => (with_y(c, m), b, 0),
        InstructionKind::STA => (c, b.write(address_of(op), c.a), 0),
        InstructionKind::STX => (c, b.write(address_of(op), c.x), 0),
        InstructionKind::STY => (c, b.write(address_of(op), c.y), 0),
        InstructionKind::ASL => {
            let (c1, b1) = shift_spec(Shift::Asl, op, c, b);
            (c1, b1, 0)
        },
        InstructionKind::LSR => {
            let (c1, b1) = shift_spec(Shift::Lsr, op, c, b);
            (c1, b1, 0)
        },
        InstructionKind::ROL => {
            let (c1, b1) = shift_spec(Shift::Rol, op, c, b);
            (c1, b1, 0)
        },
        InstructionKind::ROR => {
            let (c1, b1) = shift_spec(Shift::Ror, op, c, b);
            (c1, b1, 0)
        },
        InstructionKind::INC => {
            let (c1, b1) = step_memory_spec(op, c, b, 1);
            (c1, b1, 0)
        },
        InstructionKind::DEC => {
            let (c1, b1) = step_memory_spec(op, c, b, -1);
            (c1, b1, 0)
        },
        InstructionKind::INX => (with_x(c, add8(c.x, 1)), b, 0),
        InstructionKind::INY => (with_y(c, add8(c.y, 1)), b, 0),
        InstructionKind::DEX => (with_x(c, add8(c.x, -1)), b, 0),
        InstructionKind::DEY => (with_y(c, add8(c.y, -1)), b, 0),
        InstructionKind::TAX => (with_x(c, c.a), b, 0),
        InstructionKind::TAY => (with_y(c, c.a), b, 0),
        InstructionKind::TSX => (with_x(c, c.sp), b, 0),
        InstructionKind::TXA => (with_a(c, c.x), b, 0),
        InstructionKind::TYA => (with_a(c, c.y), b, 0),
        InstructionKind::TXS => (Cpu { sp: c.x, ..c }, b, 0),
        InstructionKind::BCC => {
            let (c1, n) = branch_spec(op, c, bits & CARRY == 0);
            (c1, b, n)
        },
        InstructionKind::BCS => {
            let (c1, n) = branch_spec(op, c, bits & CARRY != 0);
            (c1, b, n)
        },
        InstructionKind::BNE => {
            let (c1, n) = branch_spec(op, c, bits & ZERO == 0);
            (c1, b, n)
        },
        InstructionKind::BEQ => {
            let (c1, n) = branch_spec(op, c, bits & ZERO != 0);
            (c1, b, n)
        },
        InstructionKind::BPL => {
            let (c1, n) = branch_spec(op, c, bits & NEGATIVE == 0);
            (c1, b, n)
        },
        InstructionKind::BMI => {
            let (c1, n) = branch_spec(op, c, bits & NEGATIVE != 0);
            (c1, b, n)
        },
        InstructionKind::BVC => {
            let (c1, n) = branch_spec(op, c, bits & OVERFLOW == 0);
            (c1, b, n)
        },
        InstructionKind::BVS => {
            let (c1, n) = branch_spec(op, c, bits & OVERFLOW != 0);
            (c1, b, n)
        },
        InstructionKind::CLC => (with_bits(c, flag(bits, CARRY, false)), b, 0),
        InstructionKind::SEC => (with_bits(c, flag(bits, CARRY, true)), b, 0),
        InstructionKind::CLI => (with_bits(c, flag(bits, INTERRUPT_DISABLE, false)), b, 0),
        InstructionKind::SEI => (with_bits(c, flag(bits, INTERRUPT_DISABLE, true)), b, 0),
        InstructionKind::CLD => (with_bits(c, flag(bits, DECIMAL_MODE, false)), b, 0),
        InstructionKind::SED => (with_bits(c, flag(bits, DECIMAL_MODE, true)), b, 0),
        InstructionKind::CLV => (with_bits(c, flag(bits, OVERFLOW, false)), b, 0),
        InstructionKind::PHA => {
            let (c1, b1) = push_spec(c, b, c.a);
            (c1, b1, 0)
        },
        InstructionKind::PHP => {
            let (c1, b1) = push_spec(c, b, bits | BREAK | RESERVED);
            (c1, b1, 0)
        },
        InstructionKind::PLA => {
            let (c1, v) = pull_spec(c, b);
            (with_a(c1, v), b, 0)
        },
        InstructionKind::PLP => {
            let (c1, v) = pull_spec(c, b);
            (with_bits(c1, pulled_status(v)), b, 0)
        },
        InstructionKind::JMP => (Cpu { pc: address_of(op), ..c }, b, 0),
        InstructionKind::JSR => {
            let (c1, b1) = jsr_spec(op, c, b);
            (c1, b1, 0)
        },
        InstructionKind::RTS => (rts_spec(c, b), b, 0),
        InstructionKind::RTI => (rti_spec(c, b), b, 0),
        InstructionKind::BRK => {
            let (c1, b1) = brk_spec(c, b);
            (c1, b1, 0)
        },
        InstructionKind::NOP => (c, b, 0),
        InstructionKind::Illegal => (c, b, 0),
    }
}

/// Resolves `mode` at the program counter, moves the program counter past the operand bytes,
/// and runs the action of `kind`: the new processor, the new bus, whether indexing crossed a
/// page, and the cycles the action adds.
pub open spec fn execute_spec(kind: InstructionKind, mode: AddressingMode, c: Cpu, b: BusModel) -> (
    Cpu,
    BusModel,
    bool,
    u8,
) {
    let res = resolve_spec(mode, c, b);
    let (c1, b1, extra) = act_spec(kind, res.operand, Cpu { pc: add16(c.pc, res.len as int), ..c }, b);
    (c1, b1, res.page_crossed, extra)
}

fn read_operand(op: Operand, cpu: &Cpu, bus: &Bus) -> (r: u8)
    ensures
        r == value_of(op, *cpu, bus@),
{
    match op {
        Operand::Immediate(v) => v,
        Operand::Address(a) => bus.read(a),
        Operand::Accumulator => cpu.a,
        Operand::Implied => 0,
    }
}

fn target_of(op: Operand) -> (r: u16)
    ensures
        r == address_of(op),
{
    match op {
        Operand::Address(a) => a,
        _ => 0,
    }
}

fn write_operand(op: Operand, cpu: &mut Cpu, bus: &mut Bus, v: u8)
    ensures
        (*final(cpu), final(bus)@) == put(op, *old(cpu), old(bus)@, v),
{
    match op {
        Operand::Accumulator => {
            cpu.a = v;
        },
        Operand::Address(a) => bus.write(a, v),
        _ => {},
    }
}

fn set_flag(cpu: &mut Cpu, mask: u8, on: bool)
    ensures
        *final(cpu) == with_bits(*old(cpu), flag(old(cpu).status.bits, mask, on)),
{
    cpu.status.set(mask, on);
}

fn carry_value(cpu: &Cpu) -> (r: u8)
    ensures
        r as int == carry_in(*cpu),
{
    if cpu.status.contains(CARRY) {
        1
    } else {
        0
    }
}

fn adc(cpu: &mut Cpu, m: u8)
    ensures
        *final(cpu) == adc_spec(*old(cpu), m),
{
    let sum: u16 = cpu.a as u16 + m as u16 + carry_value(cpu) as u16;
    let r = (sum % 256) as u8;
    let overflow = (cpu.a ^ r) & (m ^ r) & 0x80 != 0;
    cpu.status.set(CARRY, sum > 255);
    cpu.status.set(OVERFLOW, overflow);
    cpu.set_a(r);
}

fn compare(cpu: &mut Cpu, reg: u8, m: u8)
    ensures
        *final(cpu) == compare_spec(*old(cpu), reg, m),
{
    let r: u8 = if reg >= m {
        reg - m
    } else {
        (256 - m as u16 + reg as u16) as u8
    };
    cpu.status.set(CARRY, reg >= m);
    cpu.status.set_register_flags(r);
}

fn bit_test(cpu: &mut Cpu, m: u8)
    ensures
        *final(cpu) == bit_spec(*old(cpu), m),
{
    cpu.status.set(ZERO, cpu.a & m == 0);
    cpu.status.set(OVERFLOW, m & 0x40 != 0);
    cpu.status.set(NEGATIVE, m & 0x80 != 0);
}

fn shift(s: Shift, op: Operand, cpu: &mut Cpu, bus: &mut Bus)
    ensures
        (*final(cpu), final(bus)@) == shift_spec(s, op, *old(cpu), old(bus)@),
{
    let v = read_operand(op, cpu, bus);
    let cin = carry_value(cpu);
    let (r, cout): (u8, bool) = match s {
        Shift::Asl => (((v as u16 * 2) % 256) as u8, v >= 128),
        Shift::Lsr => (v / 2, v % 2 == 1),
        Shift::Rol => (((v as u16 * 2 + cin as u16) % 256) as u8, v >= 128),
        Shift::Ror => (v / 2 + cin * 128, v % 2 == 1),
    };
    cpu.status.set(CARRY, cout);
    cpu.status.set_register_flags(r);
    write_operand(op, cpu, bus, r);
}

fn step_memory(op: Operand, cpu: &mut Cpu, bus: &mut Bus, up: bool)
    ensures
        (*final(cpu), final(bus)@) == step_memory_spec(
            op,
            *old(cpu),
            old(bus)@,
            if up {
                1
            } else {
                -1
            },
        ),
{
    let v = read_operand(op, cpu, bus);
    let r: u8 = if up {
        if v == 255 {
            0
        } else {
            v + 1
        }
    } else {
        if v == 0 {
            255
        } else {
            v - 1
        }
    };
    cpu.status.set_register_flags(r);
    bus.write(target_of(op), r);
}

fn inc8(v: u8) -> (r: u8)
    ensures
        r == add8(v, 1),
{
    if v == 255 {
        0
    } else {
        v + 1
    }
}

fn dec8(v: u8) -> (r: u8)
    ensures
        r == add8(v, -1),
{
    if v == 0 {
        255
    } else {
        v - 1
    }
}

fn branch(op: Operand, cpu: &mut Cpu, cond: bool) -> (r: u8)
    ensures
        (*final(cpu), r) == branch_spec(op, *old(cpu), cond),
{
    if cond {
        let target = target_of(op);
        let cost: u8 = if cpu.pc / 256 != target / 256 {
            2
        } else {
            1
        };
        cpu.pc = target;
        cost
    } else {
        0
    }
}

fn jsr(op: Operand, cpu: &mut Cpu, bus: &mut Bus)
    ensures
        (*final(cpu), final(bus)@) == jsr_spec(op, *old(cpu), old(bus)@),
{
    let ret: u16 = if cpu.pc == 0 {
        0xFFFF
    } else {
        cpu.pc - 1
    };
    cpu.push(bus, (ret / 256) as u8);
    cpu.push(bus, (ret % 256) as u8);
    cpu.pc = target_of(op);
}

fn rts(cpu: &mut Cpu, bus: &Bus)
    ensures
        *final(cpu) == rts_spec(*old(cpu), bus@),
{
    let lo = cpu.pull(bus);
    let hi = cpu.pull(bus);
    let at: u16 = lo as u16 + 256 * (hi as u16);
    cpu.pc = if at == 0xFFFF {
        0
    } else {
        at + 1
    };
}

fn rti(cpu: &mut Cpu, bus: &Bus)
    ensures
        *final(cpu) == rti_spec(*old(cpu), bus@),
{
    let p = cpu.pull(bus);
    let lo = cpu.pull(bus);
    let hi = cpu.pull(bus);
    cpu.status = StatusFlags::from_bits(p & !(BREAK | RESERVED));
    cpu.pc = lo as u16 + 256 * (hi as u16);
}

/// Runs the action of `kind` on a resolved operand, with the program counter already past the
/// instruction; returns the cycles it adds.
pub fn act(kind: InstructionKind, op: Operand, cpu: &mut Cpu, bus: &mut Bus) -> (r: u8)
    ensures
        (*final(cpu), final(bus)@, r) == act_spec(kind, op, *old(cpu), old(bus)@),
        r <= 2,
{
    reveal(act_spec);
    let m = read_operand(op, cpu, bus);
    let bits = cpu.status.bits();
    match kind {
        InstructionKind::ADC => {
            adc(cpu, m);
            0
        },
        InstructionKind::SBC => {
            adc(cpu, 255 - m);
            0
        },
        InstructionKind::AND => {
            cpu.set_a(cpu.a & m);
            0
        },
        InstructionKind::ORA => {
            cpu.set_a(cpu.a | m);
            0
        },
        InstructionKind::EOR => {
            cpu.set_a(cpu.a ^ m);
            0
        },
        InstructionKind::CMP => {
            compare(cpu, cpu.a, m);
            0
        },
        InstructionKind::CPX => {
            compare(cpu, cpu.x, m);
            0
        },
        InstructionKind::CPY => {
            compare(cpu, cpu.y, m);
            0
        },
        InstructionKind::BIT => {
            bit_test(cpu, m);
            0
        },
        InstructionKind::LDA => {
            cpu.set_a(m);
            0
        },
        InstructionKind::LDX => {
            cpu.set_x(m);
            0
        },
        InstructionKind::LDY => {
            cpu.set_y(m);
            0
        },
        InstructionKind::STA => {
            bus.write(target_of(op), cpu.a);
            0
        },
        InstructionKind::STX => {
            bus.write(target_of(op), cpu.x);
            0
        },
        InstructionKind::STY => {
            bus.write(target_of(op), cpu.y);
            0
        },
        InstructionKind::ASL => {
            shift(Shift::Asl, op, cpu, bus);
            0
        },
        InstructionKind::LSR => {
            shift(Shift::Lsr, op, cpu, bus);
            0
        },
        InstructionKind::ROL => {
            shift(Shift::Rol, op, cpu, bus);
            0
        },
        InstructionKind::ROR => {
            shift(Shift::Ror, op, cpu, bus);
            0
        },
        InstructionKind::INC => {
            step_memory(op, cpu, bus, true);
            0
        },
        InstructionKind::DEC => {
            step_memory(op, cpu, bus, false);
            0
        },
        InstructionKind::INX => {
            cpu.set_x(inc8(cpu.x));
            0
        },
        InstructionKind::INY => {
            cpu.set_y(inc8(cpu.y));
            0
        },
        InstructionKind::DEX => {
            cpu.set_x(dec8(cpu.x));
            0
        },
        InstructionKind::DEY => {
            cpu.set_y(dec8(cpu.y));
            0
        },
        InstructionKind::TAX => {
            cpu.set_x(cpu.a);
            0
        },
        InstructionKind::TAY => {
            cpu.set_y(cpu.a);
            0
        },
        InstructionKind::TSX => {
            cpu.set_x(cpu.sp);
            0
        },
        InstructionKind::TXA => {
            cpu.set_a(cpu.x);
            0
        },
        InstructionKind::TYA => {
            cpu.set_a(cpu.y);
            0
        },
        InstructionKind::TXS => {
            cpu.sp = cpu.x;
            0
        },
        InstructionKind::BCC => branch(op, cpu, bits & CARRY == 0),
        InstructionKind::BCS => branch(op, cpu, bits & CARRY != 0),
        InstructionKind::BNE => branch(op, cpu, bits & ZERO == 0),
        InstructionKind::BEQ => branch(op, cpu, bits & ZERO != 0),
        InstructionKind::BPL => branch(op, cpu, bits & NEGATIVE == 0),
        InstructionKind::BMI => branch(op, cpu, bits & NEGATIVE != 0),
        InstructionKind::BVC => branch(op, cpu, bits & OVERFLOW == 0),
        InstructionKind::BVS => branch(op, cpu, bits & OVERFLOW != 0),
        InstructionKind::CLC => {
            set_flag(cpu, CARRY, false);
            0
        },
        InstructionKind::SEC => {
            set_flag(cpu, CARRY, true);
            0
        },
        InstructionKind::CLI => {
            set_flag(cpu, INTERRUPT_DISABLE, false);
            0
        },
        InstructionKind::SEI => {
            set_flag(cpu, INTERRUPT_DISABLE, true);
            0
        },
        InstructionKind::CLD => {
            set_flag(cpu, DECIMAL_MODE, false);
            0
        },
        InstructionKind::SED => {
            set_flag(cpu, DECIMAL_MODE, true);
            0
        },
        InstructionKind::CLV => {
            set_flag(cpu, OVERFLOW, false);
            0
        },
        InstructionKind::PHA => {
            cpu.push(bus, cpu.a);
            0
        },
        InstructionKind::PHP => {
            cpu.push(bus, bits | BREAK | RESERVED);
            0
        },
        InstructionKind::PLA => {
            let v = cpu.pull(bus);
            cpu.set_a(v);
            0
        },
        InstructionKind::PLP => {
            let v = cpu.pull(bus);
            cpu.status = StatusFlags::from_bits(v & !(BREAK | RESERVED));
            0
        },
        InstructionKind::JMP => {
            cpu.pc = target_of(op);
            0
        },
        InstructionKind::JSR => {
            jsr(op, cpu, bus);
            0
        },
        InstructionKind::RTS => {
            rts(cpu, bus);
            0
        },
        InstructionKind::RTI => {
            rti(cpu, bus);
            0
        },
        InstructionKind::BRK => {
            cpu.handle_brk(bus);
            0
        },
        InstructionKind::NOP => 0,
        InstructionKind::Illegal => 0,
    }
}

impl InstructionKind {
    /// Resolves `mode` at the program counter, moves the program counter past the operand
    /// bytes, and runs this instruction's action. Returns whether indexing crossed a page and
    /// the cycles the action adds.
    pub fn execute(&self, mode: AddressingMode, cpu: &mut Cpu, bus: &mut Bus) -> (r: (bool, u8))
        ensures
            (*final(cpu), final(bus)@, r.0, r.1) == execute_spec(*self, mode, *old(cpu), old(bus)@),
    {
        let res = resolve(mode, cpu, bus);
        cpu.pc = ((cpu.pc as u32 + res.len as u32) % 65536) as u16;
        let extra = act(*self, res.operand, cpu, bus);
        (res.page_crossed, extra)
    }
}

} // verus!

verus! {

/// Bytes without official semantics act as no-operations.
pub proof fn lemma_illegal_acts_as_nop(op: Operand, c: Cpu, b: BusModel)
    ensures
        act_spec(InstructionKind::Illegal, op, c, b) == (c, b, 0u8),
{
    reveal(act_spec);
}

} // verus!
