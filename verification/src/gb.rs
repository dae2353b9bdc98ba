//! The whole machine: the engine, the bus it drives, and a count of the
//! machine cycles it has run.
use vstd::prelude::*;
use crate::cpu::step;
use crate::cpu::CPU;
use crate::cpu::CPUError;
use crate::cpu::CPUStage;
use crate::cpu::Machine;
use crate::cpu::RegisterFile;
use crate::ram::blank;
use crate::ram::RAM;

verus! {

/// The registers a program can see.
#[derive(Clone, Copy, Debug, PartialEq, Eq, Structural)]
pub struct Registers {
    pub a: u8,
    pub f: u8,
    pub b: u8,
    pub c: u8,
    pub d: u8,
    pub e: u8,
    pub h: u8,
    pub l: u8,
    pub sp: u16,
    pub pc: u16,
}

impl Registers {
    /// What a program can see of a register file.
    pub open spec fn of(file: RegisterFile) -> Registers {
        Registers {
            a: file.a,
            f: file.f,
            b: file.b,
            c: file.c,
            d: file.d,
            e: file.e,
            h: file.h,
            l: file.l,
            sp: file.sp,
            pc: file.pc,
        }
    }

    /// The register file that shows these registers and has nothing
    /// latched.
    pub open spec fn file(self) -> RegisterFile {
        RegisterFile {
            a: self.a,
            f: self.f,
            b: self.b,
            c: self.c,
            d: self.d,
            e: self.e,
            h: self.h,
            l: self.l,
            sp: self.sp,
            pc: self.pc,
            w: 0,
            z: 0,
        }
    }
}

/// The engine and the bus it drives.
pub struct GameBoy {
    /// Machine cycles run so far, counted modulo 2^32.
    pub clock: u32,
    pub cpu: CPU,
    pub memory: RAM,
}

/// The count after one more cycle.
pub open spec fn counted_up(clock: u32) -> u32 {
    if clock == u32::MAX {
        0
    } else {
        (clock + 1) as u32
    }
}

/// A machine with every register and every cell zero, running, about to
/// fetch, on a bus on which neither region is emulated.
pub fn init() -> (gameboy: GameBoy)
    ensures
        gameboy.clock == 0,
        gameboy.cpu@ == Machine::initial(),
        gameboy.memory@.wf(),
        gameboy.memory@ == blank(false, false),
{
    GameBoy { clock: 0, cpu: crate::cpu::init(), memory: crate::ram::init() }
}

impl GameBoy {
    /// Steps the machine by one machine cycle. The clock counts the cycles
    /// that ran: it stands still while the engine is stopped and when the
    /// tick fails.
    pub fn tick(&mut self) -> (r: Result<(), CPUError>)
        ensures
            old(self).memory@.wf(),
            final(self).memory@.wf(),
            final(self).cpu@ == step(old(self).cpu@, old(self).memory@).machine,
            final(self).memory@ == step(old(self).cpu@, old(self).memory@).bus,
            r == step(old(self).cpu@, old(self).memory@).outcome,
            final(self).clock == if old(self).cpu.running && r is Ok {
                counted_up(old(self).clock)
            } else {
                old(self).clock
            },
    {
        let running = self.cpu.running;
        let outcome = self.cpu.tick(&mut self.memory);
        if running && outcome.is_ok() {
            self.clock = self.clock.wrapping_add(1);
        }
        outcome
    }

    /// The registers as a program sees them.
    pub fn registers(&self) -> (r: Registers)
        ensures
            r == Registers::of(self.cpu@.registers),
    {
        let file = &self.cpu.register_file;
        Registers {
            a: file.a,
            f: file.f,
            b: file.b,
            c: file.c,
            d: file.d,
            e: file.e,
            h: file.h,
            l: file.l,
            sp: file.sp,
            pc: file.pc,
        }
    }

    /// Puts the engine at the start of an instruction with the given
    /// registers: running, about to fetch, nothing pending, nothing latched.
    /// The bus, the clock and the record of the last instruction stay as
    /// they are.
    pub fn seed(&mut self, registers: Registers)
        ensures
            final(self).cpu@ == (Machine {
                registers: registers.file(),
                running: true,
                stage: CPUStage::FetchDecode,
                queue: Seq::empty(),
                ..old(self).cpu@
            }),
            final(self).memory == old(self).memory,
            final(self).clock == old(self).clock,
    {
        self.cpu.register_file = RegisterFile {
            a: registers.a,
            f: registers.f,
            b: registers.b,
            c: registers.c,
            d: registers.d,
            e: registers.e,
            h: registers.h,
            l: registers.l,
            sp: registers.sp,
            pc: registers.pc,
            w: 0,
            z: 0,
        };
        self.cpu.running = true;
        self.cpu.stage = CPUStage::FetchDecode;
        self.cpu.queue.clear();
    }
}

/// Seeding and looking again shows the registers that were seeded.
pub proof fn lemma_seeded_registers_show(registers: Registers)
    ensures
        Registers::of(registers.file()) == registers,
{
}

} // verus!
