pub mod addressing;
pub mod flags;
pub mod instruction;
pub mod interpreter;
pub mod operations;

use vstd::prelude::*;

use crate::cpu::flags::{with_zero_negative, StatusFlags, INTERRUPT_DISABLE};
use crate::cpu::addressing::{lemma_implied_consumes_nothing, Operand};
use crate::cpu::instruction::{decode, decode_spec, lemma_illegal_entry, InstructionKind};
use crate::cpu::operations::{execute_spec, lemma_illegal_acts_as_nop};
use crate::memory::{Bus, BusModel};

verus! {

/// `a + b` modulo 256.
pub open spec fn add8(a: u8, b: int) -> u8 {
    ((a as int + b) % 256) as u8
}

/// `a + b` modulo 65536.
pub open spec fn add16(a: u16, b: int) -> u16 {
    ((a as int + b) % 65536) as u16
}

/// The word whose low byte is `lo` and high byte is `hi`.
pub open spec fn word(lo: u8, hi: u8) -> u16 {
    (lo as nat + 256 * (hi as nat)) as u16
}

/// The stack page address that `sp` points at.
pub open spec fn stack_addr(sp: u8) -> u16 {
    (0x0100 + sp as nat) as u16
}

/// The register file and status flags of the processor.
#[derive(Debug, Clone, Copy, PartialEq, Eq, Structural)]
pub struct Cpu {
    /// Program counter.
    pub pc: u16,
    /// Stack pointer into page 0x0100..=0x01FF.
    pub sp: u8,
    /// Accumulator.
    pub a: u8,
    /// X index register.
    pub x: u8,
    /// Y index register.
    pub y: u8,
    /// Status register.
    pub status: StatusFlags,
}

/// The processor after `value` was loaded into A through the flag update.
pub open spec fn with_a(c: Cpu, value: u8) -> Cpu {
    Cpu { a: value, status: StatusFlags { bits: with_zero_negative(c.status.bits, value) }, ..c }
}

/// The processor after `value` was loaded into X through the flag update.
pub open spec fn with_x(c: Cpu, value: u8) -> Cpu {
    Cpu { x: value, status: StatusFlags { bits: with_zero_negative(c.status.bits, value) }, ..c }
}

/// The processor after `value` was loaded into Y through the flag update.
pub open spec fn with_y(c: Cpu, value: u8) -> Cpu {
    Cpu { y: value, status: StatusFlags { bits: with_zero_negative(c.status.bits, value) }, ..c }
}

/// Pushing `v`: it is written at the stack pointer, which then moves down by one.
pub open spec fn push_spec(c: Cpu, b: BusModel, v: u8) -> (Cpu, BusModel) {
    (Cpu { sp: add8(c.sp, -1), ..c }, b.write(stack_addr(c.sp), v))
}

/// Pulling: the stack pointer moves up by one and the byte there is read.
pub open spec fn pull_spec(c: Cpu, b: BusModel) -> (Cpu, u8) {
    (Cpu { sp: add8(c.sp, 1), ..c }, b.read(stack_addr(add8(c.sp, 1))))
}

/// The software interrupt: the program counter (high byte, then low byte) and the status byte
/// are pushed, interrupt disable is set, and the program counter is loaded from 0xFFFE/0xFFFF.
pub open spec fn brk_spec(c: Cpu, b: BusModel) -> (Cpu, BusModel) {
    let (c1, b1) = push_spec(c, b, (c.pc / 256) as u8);
    let (c2, b2) = push_spec(c1, b1, (c.pc % 256) as u8);
    let (c3, b3) = push_spec(c2, b2, c.status.bits);
    (
        Cpu {
            pc: b3.read_u16(0xFFFE),
            status: StatusFlags { bits: c.status.bits | INTERRUPT_DISABLE },
            ..c3
        },
        b3,
    )
}

/// What one executed instruction reports.
#[derive(Debug, Clone, Copy, PartialEq, Eq, Structural)]
pub enum StepOutcome {
    /// An official instruction ran and took `cycles` cycles.
    Executed { cycles: u8 },
    /// `opcode` has no defined semantics; it was passed over as a one-byte no-operation taking
    /// `cycles` cycles.
    UnimplementedOpcode { opcode: u8, cycles: u8 },
}

/// Runs the instruction whose opcode is `op`, with the program counter at its first operand
/// byte. The cycles are the base cycles of the opcode, one more where indexing crossed a page
/// and the opcode pays for that, and what the action adds (taken branches).
pub open spec fn run_spec(op: u8, c: Cpu, b: BusModel) -> (Cpu, BusModel, StepOutcome) {
    let ins = decode_spec(op);
    let (c1, b1, crossed, extra) = execute_spec(ins.kind, ins.mode, c, b);
    let cycles = (ins.cycles + (if ins.page_penalty && crossed {
        1u8
    } else {
        0u8
    }) + extra) as u8;
    (
        c1,
        b1,
        if ins.kind == InstructionKind::Illegal {
            StepOutcome::UnimplementedOpcode { opcode: op, cycles }
        } else {
            StepOutcome::Executed { cycles }
        },
    )
}

/// One fetch-decode-execute step: the opcode at the program counter is fetched, the program
/// counter moves past it, and the instruction runs.
pub open spec fn step_spec(c: Cpu, b: BusModel) -> (Cpu, BusModel, StepOutcome) {
    run_spec(b.read(c.pc), Cpu { pc: add16(c.pc, 1), ..c }, b)
}

impl StepOutcome {
    /// The cycles the step took.
    pub open spec fn cycles_spec(self) -> u8 {
        match self {
            StepOutcome::Executed { cycles } => cycles,
            StepOutcome::UnimplementedOpcode { cycles, .. } => cycles,
        }
    }

    /// The cycles the step took.
    pub fn cycles(&self) -> (r: u8)
        ensures
            r == self.cycles_spec(),
    {
        match self {
            StepOutcome::Executed { cycles } => *cycles,
            StepOutcome::UnimplementedOpcode { cycles, .. } => *cycles,
        }
    }
}

impl Cpu {
    /// Runs the instruction whose opcode is `opcode`, with the program counter at its first
    /// operand byte.
    pub fn run_opcode(&mut self, opcode: u8, bus: &mut Bus) -> (r: StepOutcome)
        ensures
            (*final(self), final(bus)@, r) == run_spec(opcode, *old(self), old(bus)@),
    {
        let ins = decode(opcode);
        let (crossed, extra) = ins.kind.execute(ins.mode, self, bus);
        let penalty: u8 = if ins.page_penalty && crossed {
            1
        } else {
            0
        };
        let cycles = (ins.cycles as u16 + penalty as u16 + extra as u16) as u8;
        match ins.kind {
            InstructionKind::Illegal => StepOutcome::UnimplementedOpcode { opcode, cycles },
            _ => StepOutcome::Executed { cycles },
        }
    }

    /// Fetches the opcode at the program counter, moves past it, and runs the instruction.
    pub fn step(&mut self, bus: &mut Bus) -> (r: StepOutcome)
        ensures
            (*final(self), final(bus)@, r) == step_spec(*old(self), old(bus)@),
    {
        let opcode = bus.read(self.pc);
        self.pc = if self.pc == 0xFFFF {
            0
        } else {
            self.pc + 1
        };
        self.run_opcode(opcode, bus)
    }

    /// The documented power-on register values: stack pointer 0xFF, A, X and Y zero, status
    /// flags clear. The program counter is zero until `reset` loads it from the bus.
    pub fn new() -> (r: Cpu)
        ensures
            r == (Cpu { pc: 0, sp: 0xFF, a: 0, x: 0, y: 0, status: StatusFlags { bits: 0 } }),
    {
        Cpu { pc: 0x0000, sp: 0xFF, a: 0x00, x: 0x00, y: 0x00, status: StatusFlags::empty() }
    }

    /// Restores the power-on register values and loads the program counter from the reset
    /// vector at 0xFFFC/0xFFFD.
    pub fn reset(&mut self, bus: &Bus)
        ensures
            *final(self) == (Cpu {
                pc: bus@.read_u16(0xFFFC),
                sp: 0xFF,
                a: 0,
                x: 0,
                y: 0,
                status: StatusFlags { bits: 0 },
            }),
    {
        self.pc = bus.read_u16(0xFFFC);
        self.sp = 0xFF;
        self.a = 0x00;
        self.x = 0x00;
        self.y = 0x00;
        self.status = StatusFlags::empty();
    }

    /// Loads the accumulator, recomputing zero and negative.
    pub fn set_a(&mut self, value: u8)
        ensures
            *final(self) == with_a(*old(self), value),
    {
        self.a = self.status.set_register_flags(value);
    }

    /// Loads X, recomputing zero and negative.
    pub fn set_x(&mut self, value: u8)
        ensures
            *final(self) == with_x(*old(self), value),
    {
        self.x = self.status.set_register_flags(value);
    }

    /// Loads Y, recomputing zero and negative.
    pub fn set_y(&mut self, value: u8)
        ensures
            *final(self) == with_y(*old(self), value),
    {
        self.y = self.status.set_register_flags(value);
    }

    /// Pushes `value` onto the stack.
    pub fn push(&mut self, bus: &mut Bus, value: u8)
        ensures
            (*final(self), final(bus)@) == push_spec(*old(self), old(bus)@, value),
    {
        bus.write(0x0100 + self.sp as u16, value);
        self.sp = if self.sp == 0 {
            0xFF
        } else {
            self.sp - 1
        };
    }

    /// Pulls a byte from the stack.
    pub fn pull(&mut self, bus: &Bus) -> (r: u8)
        ensures
            (*final(self), r) == pull_spec(*old(self), bus@),
    {
        self.sp = if self.sp == 0xFF {
            0
        } else {
            self.sp + 1
        };
        bus.read(0x0100 + self.sp as u16)
    }

    /// Runs the software interrupt on the current program counter.
    pub fn handle_brk(&mut self, bus: &mut Bus)
        ensures
            (*final(self), final(bus)@) == brk_spec(*old(self), old(bus)@),
    {
        let pc = self.pc;
        let status = self.status.bits();
        self.push(bus, (pc / 256) as u8);
        self.push(bus, (pc % 256) as u8);
        self.push(bus, status);
        self.status.insert(INTERRUPT_DISABLE);
        self.pc = bus.read_u16(0xFFFE);
    }
}

} // verus!

verus! {

/// An opcode without official semantics leaves the bus and every register but the program
/// counter as they were; the program counter moves past the opcode, the step takes two cycles,
/// and it is reported.
pub proof fn lemma_illegal_opcode_is_skipped(c: Cpu, b: BusModel)
    requires
        decode_spec(b.read(c.pc)).kind == InstructionKind::Illegal,
    ensures
        step_spec(c, b) == (
            Cpu { pc: add16(c.pc, 1), ..c },
            b,
            StepOutcome::UnimplementedOpcode { opcode: b.read(c.pc), cycles: 2 },
        ),
{
    let c1 = Cpu { pc: add16(c.pc, 1), ..c };
    lemma_illegal_entry(b.read(c.pc));
    lemma_implied_consumes_nothing(c1, b);
    lemma_illegal_acts_as_nop(Operand::Implied, c1, b);
}

} // verus!

verus! {

/// The stack gives back what was pushed: pulling right after a push returns the pushed byte
/// and restores the stack pointer, wrapping modulo 256 both ways.
pub proof fn lemma_push_pull_round_trip(c: Cpu, b: BusModel, v: u8)
    requires
        b.wf(),
    ensures
        pull_spec(push_spec(c, b, v).0, push_spec(c, b, v).1) == (c, v),
{
    let (c1, b1) = push_spec(c, b, v);
    assert(add8(add8(c.sp, -1), 1) == c.sp);
    assert((stack_addr(c.sp) as nat) % 0x0800 == stack_addr(c.sp) as nat);
}

} // verus!
