use vstd::prelude::*;

use crate::cpu::flags::StatusFlags;
use crate::cpu::{run_spec, step_spec, with_a, with_x, with_y, Cpu, StepOutcome};
use crate::memory::{Bus, BusModel, PPU_SIZE, RAM_SIZE};

verus! {

/// A processor together with the bus it owns.
pub struct Interpreter {
    pub cpu: Cpu,
    pub memory: Bus,
}

/// The processor state right after a reset on a bus: power-on registers, program counter from
/// the reset vector.
pub open spec fn reset_state(b: BusModel) -> Cpu {
    Cpu { pc: b.read_u16(0xFFFC), sp: 0xFF, a: 0, x: 0, y: 0, status: StatusFlags { bits: 0 } }
}

impl Interpreter {
    /// A fresh bus holding `prg_rom`, and a processor reset on it.
    pub fn new(prg_rom: &[u8]) -> (r: Interpreter)
        ensures
            r.memory@ == (BusModel {
                ram: Seq::new(RAM_SIZE as nat, |i: int| 0u8),
                ppu: Seq::new(PPU_SIZE as nat, |i: int| 0u8),
                prg_rom: prg_rom@,
            }),
            r.cpu == reset_state(r.memory@),
    {
        let memory = Bus::new(prg_rom);
        let mut cpu = Cpu::new();
        cpu.reset(&memory);
        Interpreter { cpu, memory }
    }

    /// Resets the processor; the bus is kept.
    pub fn reset(&mut self)
        ensures
            final(self).cpu == reset_state(old(self).memory@),
            final(self).memory@ == old(self).memory@,
    {
        self.cpu.reset(&self.memory);
    }

    pub fn set_a(&mut self, value: u8)
        ensures
            final(self).cpu == with_a(old(self).cpu, value),
            final(self).memory@ == old(self).memory@,
    {
        self.cpu.set_a(value);
    }

    pub fn set_x(&mut self, value: u8)
        ensures
            final(self).cpu == with_x(old(self).cpu, value),
            final(self).memory@ == old(self).memory@,
    {
        self.cpu.set_x(value);
    }

    pub fn set_y(&mut self, value: u8)
        ensures
            final(self).cpu == with_y(old(self).cpu, value),
            final(self).memory@ == old(self).memory@,
    {
        self.cpu.set_y(value);
    }

    /// Runs the instruction whose opcode is `opcode`, with the program counter at its first
    /// operand byte.
    pub fn execute(&mut self, opcode: u8) -> (r: StepOutcome)
        ensures
            (final(self).cpu, final(self).memory@, r) == run_spec(
                opcode,
                old(self).cpu,
                old(self).memory@,
            ),
    {
        self.cpu.run_opcode(opcode, &mut self.memory)
    }

    /// Fetches, decodes and runs the instruction at the program counter.
    pub fn step(&mut self) -> (r: StepOutcome)
        ensures
            (final(self).cpu, final(self).memory@, r) == step_spec(old(self).cpu, old(self).memory@),
    {
        self.cpu.step(&mut self.memory)
    }
}

} // verus!
