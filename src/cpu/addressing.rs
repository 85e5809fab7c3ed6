use vstd::prelude::*;

use crate::cpu::instruction::AddressingMode;
use crate::cpu::{add16, add8, word, Cpu};
use crate::memory::{Bus, BusModel};

verus! {

/// What an addressing mode names.
#[derive(Debug, Clone, Copy, PartialEq, Eq, Structural)]
pub enum Operand {
    /// No operand (implied).
    Implied,
    /// The accumulator.
    Accumulator,
    /// The byte that followed the opcode.
    Immediate(u8),
    /// An effective address (for branches, the branch target).
    Address(u16),
}

/// The outcome of resolving an addressing mode.
#[derive(Debug, Clone, Copy, PartialEq, Eq, Structural)]
pub struct Resolved {
    pub operand: Operand,
    /// Operand bytes consumed after the opcode.
    pub len: u8,
    /// Whether indexing moved the address onto another page.
    pub page_crossed: bool,
}

/// Whether `a` and `b` lie on different 256-byte pages.
pub open spec fn page_differs(a: u16, b: u16) -> bool {
    a / 256 != b / 256
}

/// A byte read as a two's-complement offset.
pub open spec fn signed(b: u8) -> int {
    if b < 128 {
        b as int
    } else {
        b as int - 256
    }
}

/// The zero-page word at `zp` and `zp + 1`, wrapping within the zero page.
pub open spec fn zp_word(bus: BusModel, zp: u8) -> u16 {
    word(bus.read(zp as u16), bus.read(add8(zp, 1) as u16))
}

/// The address of the high byte of an indirect jump's pointer: the next byte within the same
/// page.
pub open spec fn indirect_hi(ptr: u16) -> u16 {
    ((ptr / 256) * 256 + add8((ptr % 256) as u8, 1)) as u16
}

/// Resolves `mode` for an instruction whose operand bytes start at `c.pc`.
#[verifier::opaque]
pub open spec fn resolve_spec(mode: AddressingMode, c: Cpu, bus: BusModel) -> Resolved {
    let b1 = bus.read(c.pc);
    match mode {
        AddressingMode::Implied => Resolved { operand: Operand::Implied, len: 0, page_crossed: false },
        AddressingMode::Accumulator => Resolved {
            operand: Operand::Accumulator,
            len: 0,
            page_crossed: false,
        },
        AddressingMode::Immediate => Resolved {
            operand: Operand::Immediate(b1),
            len: 1,
            page_crossed: false,
        },
        AddressingMode::ZeroPage => Resolved {
            operand: Operand::Address(b1 as u16),
            len: 1,
            page_crossed: false,
        },
        AddressingMode::ZeroPageX => Resolved {
            operand: Operand::Address(add8(b1, c.x as int) as u16),
            len: 1,
            page_crossed: false,
        },
        AddressingMode::ZeroPageY => Resolved {
            operand: Operand::Address(add8(b1, c.y as int) as u16),
            len: 1,
            page_crossed: false,
        },
        AddressingMode::Relative => Resolved {
            operand: Operand::Address(add16(add16(c.pc, 1), signed(b1))),
            len: 1,
            page_crossed: false,
        },
        AddressingMode::Absolute => Resolved {
            operand: Operand::Address(bus.read_u16(c.pc)),
            len: 2,
            page_crossed: false,
        },
        AddressingMode::AbsoluteX => {
            let base = bus.read_u16(c.pc);
            let target = add16(base, c.x as int);
            Resolved {
                operand: Operand::Address(target),
                len: 2,
                page_crossed: page_differs(base, target),
            }
        },
        AddressingMode::AbsoluteY => {
            let base = bus.read_u16(c.pc);
            let target = add16(base, c.y as int);
            Resolved {
                operand: Operand::Address(target),
                len: 2,
                page_crossed: page_differs(base, target),
            }
        },
        AddressingMode::Indirect => {
            let ptr = bus.read_u16(c.pc);
            Resolved {
                operand: Operand::Address(word(bus.read(ptr), bus.read(indirect_hi(ptr)))),
                len: 2,
                page_crossed: false,
            }
        },
        AddressingMode::IndirectX => Resolved {
            operand: Operand::Address(zp_word(bus, add8(b1, c.x as int))),
            len: 1,
            page_crossed: false,
        },
        AddressingMode::IndirectY => {
            let base = zp_word(bus, b1);
            let target = add16(base, c.y as int);
            Resolved {
                operand: Operand::Address(target),
                len: 1,
                page_crossed: page_differs(base, target),
            }
        },
    }
}

fn wrap_add8(a: u8, b: u8) -> (r: u8)
    ensures
        r == add8(a, b as int),
{
    ((a as u16 + b as u16) % 256) as u8
}

fn wrap_add16(a: u16, b: u16) -> (r: u16)
    ensures
        r == add16(a, b as int),
{
    ((a as u32 + b as u32) % 65536) as u16
}

fn make_word(lo: u8, hi: u8) -> (r: u16)
    ensures
        r == word(lo, hi),
{
    lo as u16 + 256 * (hi as u16)
}

fn read_zp_word(bus: &Bus, zp: u8) -> (r: u16)
    ensures
        r == zp_word(bus@, zp),
{
    let lo = bus.read(zp as u16);
    let hi = bus.read(wrap_add8(zp, 1) as u16);
    make_word(lo, hi)
}

/// The target of a branch whose offset byte is `offset` and whose next instruction is at
/// `next`.
fn branch_target(next: u16, offset: u8) -> (r: u16)
    ensures
        r == add16(next, signed(offset)),
{
    if offset < 128 {
        wrap_add16(next, offset as u16)
    } else {
        let back = (256 - offset as u16) as u16;
        let r = if next >= back {
            next - back
        } else {
            (65536 - back as u32 + next as u32) as u16
        };
        assert(signed(offset) == -(back as int));
        r
    }
}

/// Resolves `mode` for an instruction whose operand bytes start at `cpu.pc`.
pub fn resolve(mode: AddressingMode, cpu: &Cpu, bus: &Bus) -> (r: Resolved)
    ensures
        r == resolve_spec(mode, *cpu, bus@),
{
    reveal(resolve_spec);
    let pc = cpu.pc;
    match mode {
        AddressingMode::Implied => Resolved { operand: Operand::Implied, len: 0, page_crossed: false },
        AddressingMode::Accumulator => Resolved {
            operand: Operand::Accumulator,
            len: 0,
            page_crossed: false,
        },
        AddressingMode::Immediate => Resolved {
            operand: Operand::Immediate(bus.read(pc)),
            len: 1,
            page_crossed: false,
        },
        AddressingMode::ZeroPage => Resolved {
            operand: Operand::Address(bus.read(pc) as u16),
            len: 1,
            page_crossed: false,
        },
        AddressingMode::ZeroPageX => Resolved {
            operand: Operand::Address(wrap_add8(bus.read(pc), cpu.x) as u16),
            len: 1,
            page_crossed: false,
        },
        AddressingMode::ZeroPageY => Resolved {
            operand: Operand::Address(wrap_add8(bus.read(pc), cpu.y) as u16),
            len: 1,
            page_crossed: false,
        },
        AddressingMode::Relative => {
            let next = wrap_add16(pc, 1);
            Resolved {
                operand: Operand::Address(branch_target(next, bus.read(pc))),
                len: 1,
                page_crossed: false,
            }
        },
        AddressingMode::Absolute => Resolved {
            operand: Operand::Address(bus.read_u16(pc)),
            len: 2,
            page_crossed: false,
        },
        AddressingMode::AbsoluteX => {
            let base = bus.read_u16(pc);
            let target = wrap_add16(base, cpu.x as u16);
            Resolved {
                operand: Operand::Address(target),
                len: 2,
                page_crossed: base / 256 != target / 256,
            }
        },
        AddressingMode::AbsoluteY => {
            let base = bus.read_u16(pc);
            let target = wrap_add16(base, cpu.y as u16);
            Resolved {
                operand: Operand::Address(target),
                len: 2,
                page_crossed: base / 256 != target / 256,
            }
        },
        AddressingMode::Indirect => {
            let ptr = bus.read_u16(pc);
            let hi_addr = (ptr / 256) * 256 + wrap_add8((ptr % 256) as u8, 1) as u16;
            let lo = bus.read(ptr);
            let hi = bus.read(hi_addr);
            Resolved { operand: Operand::Address(make_word(lo, hi)), len: 2, page_crossed: false }
        },
        AddressingMode::IndirectX => {
            let zp = wrap_add8(bus.read(pc), cpu.x);
            Resolved {
                operand: Operand::Address(read_zp_word(bus, zp)),
                len: 1,
                page_crossed: false,
            }
        },
        AddressingMode::IndirectY => {
            let base = read_zp_word(bus, bus.read(pc));
            let target = wrap_add16(base, cpu.y as u16);
            Resolved {
                operand: Operand::Address(target),
                len: 1,
                page_crossed: base / 256 != target / 256,
            }
        },
    }
}

} // verus!

verus! {

/// Implied addressing names no operand and consumes no byte.
pub proof fn lemma_implied_consumes_nothing(c: Cpu, bus: BusModel)
    ensures
        resolve_spec(AddressingMode::Implied, c, bus) == (Resolved {
            operand: Operand::Implied,
            len: 0,
            page_crossed: false,
        }),
{
    reveal(resolve_spec);
}

} // verus!
