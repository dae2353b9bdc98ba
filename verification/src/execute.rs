//! What each micro-operation does.
//!
//! A micro-operation reads and writes the register file and the bus and may
//! clear the run flag or hand the engine over to the next fetch. It never
//! touches the queue it was taken from.
//!
//! A bus access that a micro-operation makes cannot fail the tick: a refused
//! read yields zero and a refused write is dropped.
use vstd::prelude::*;
use crate::alu::accumulate;
use crate::alu::accumulated;
use crate::alu::add16;
use crate::alu::add_offset;
use crate::alu::apply;
use crate::alu::changed;
use crate::alu::compute;
use crate::alu::computed;
use crate::alu::displace;
use crate::alu::displaced;
use crate::alu::offset16;
use crate::alu::sum16;
use crate::alu::test_bit;
use crate::alu::tested;
use crate::alu::AluResult;
use crate::cpu::following;
use crate::cpu::next_address;
use crate::cpu::preceding;
use crate::cpu::previous_address;
use crate::cpu::CPU;
use crate::cpu::CPUStage;
use crate::cpu::Machine;
use crate::cpu::Register16;
use crate::cpu::RegisterFile;
use crate::ram::Bus;
use crate::ram::RAM;
use crate::schedule::Action;
use crate::schedule::MicroOp;
use crate::schedule::Operand;
use crate::schedule::Place;
use crate::schedule::Word;
use crate::util::lsb;
use crate::util::msb;

verus! {

/// First address of the top page.
pub const HIGH_PAGE: u16 = 0xFF00;

/// The byte an operand stands for.
pub open spec fn operand_value(registers: RegisterFile, source: Operand) -> u8 {
    match source {
        Operand::Register(register) => registers.value_of(register),
        Operand::Latch => registers.z,
    }
}

/// The address a place stands for.
pub open spec fn address_of(registers: RegisterFile, place: Place) -> u16 {
    match place {
        Place::ThroughHl => registers.hl_value(),
        Place::Latched => registers.wz_value(),
        Place::HighPage => (HIGH_PAGE + registers.z) as u16,
        Place::HighPageC => (HIGH_PAGE + registers.c) as u16,
    }
}

/// The word a push stores.
pub open spec fn word_value(registers: RegisterFile, word: Word) -> u16 {
    match word {
        Word::Pair(pair) => registers.pair_value(pair) as u16,
        Word::ProgramCounter => registers.pc,
    }
}

/// `word` moved one up or one down, wrapping at the ends.
pub open spec fn stepped16(word: u16, up: bool) -> u16 {
    if up {
        following(word)
    } else {
        preceding(word)
    }
}

/// The program counter at which `action` does its work: one up for the
/// actions that consume a byte, the target for the actions that jump.
pub open spec fn entered(action: Action, registers: RegisterFile) -> u16 {
    match action {
        Action::Jump => registers.wz_value(),
        Action::Restart { slot } => (8 * slot) as u16,
        Action::Stop | Action::Prefix | Action::FetchLow | Action::FetchHigh => following(
            registers.pc,
        ),
        _ => registers.pc,
    }
}

/// The accumulator and the flags replaced by a computed result.
pub open spec fn accumulator_result(registers: RegisterFile, result: AluResult) -> RegisterFile {
    RegisterFile { a: result.value, ..registers }.with_flags(result.flags)
}

/// `word` latched in W and Z.
pub open spec fn latched(registers: RegisterFile, word: u16) -> RegisterFile {
    RegisterFile { w: (word / 256) as u8, z: (word % 256) as u8, ..registers }
}

/// What `action` moves between the registers and the bus. `registers`
/// already holds the program counter at which the action works.
#[verifier::opaque]
pub open spec fn transfer(action: Action, registers: RegisterFile, bus: Bus) -> (
    RegisterFile,
    Bus,
) {
    match action {
        Action::Nothing
        | Action::Halt
        | Action::Stop
        | Action::Prefix
        | Action::Jump
        | Action::Restart { .. } => (registers, bus),
        Action::FetchLow => (RegisterFile { z: bus.peek(registers.pc), ..registers }, bus),
        Action::FetchHigh => (RegisterFile { w: bus.peek(registers.pc), ..registers }, bus),
        Action::StoreSpLow => (
            registers,
            bus.after_write((registers.sp % 256) as u8, registers.wz_value()),
        ),
        Action::StoreSpHigh => (
            registers,
            bus.after_write((registers.sp / 256) as u8, following(registers.wz_value())),
        ),
        Action::Read { from } => (
            RegisterFile { z: bus.peek(address_of(registers, from)), ..registers },
            bus,
        ),
        Action::Write { to, source } => (
            registers,
            bus.after_write(operand_value(registers, source), address_of(registers, to)),
        ),
        Action::Load { target, source } => (
            registers.with(target, operand_value(registers, source)),
            bus,
        ),
        Action::Alu { operation, source } => (
            accumulator_result(
                registers,
                computed(
                    operation,
                    registers.a,
                    operand_value(registers, source),
                    registers.flag_values(),
                ),
            ),
            bus,
        ),
        Action::Apply { target, change } => {
            let result = changed(change, registers.value_of(target), registers.flag_values());
            (registers.with(target, result.value).with_flags(result.flags), bus)
        },
        Action::Update { change } => {
            let result = changed(change, registers.z, registers.flag_values());
            (
                RegisterFile { z: result.value, ..registers }.with_flags(result.flags),
                bus.after_write(result.value, registers.hl_value()),
            )
        },
        Action::Test { bit, source } => (
            registers.with_flags(
                tested(operand_value(registers, source), bit, registers.flag_values()),
            ),
            bus,
        ),
        Action::LoadPair { pair } => (registers.with_pair(pair, registers.wz_value()), bus),
        Action::StepPair { pair, up } => (
            registers.with_pair(pair, stepped16(registers.pair_value(pair) as u16, up)),
            bus,
        ),
        Action::AddHl { pair } => {
            let result = sum16(
                registers.hl_value(),
                registers.pair_value(pair) as u16,
                registers.flag_values(),
            );
            (registers.with_pair(Register16::HL, result.value).with_flags(result.flags), bus)
        },
        Action::OffsetSp => {
            let result = offset16(registers.sp, registers.z);
            (latched(registers, result.value).with_flags(result.flags), bus)
        },
        Action::Accumulator { operation } => (
            accumulator_result(
                registers,
                accumulated(operation, registers.a, registers.flag_values()),
            ),
            bus,
        ),
        Action::PopLow => (
            RegisterFile { z: bus.peek(registers.sp), sp: following(registers.sp), ..registers },
            bus,
        ),
        Action::PopHigh => (
            RegisterFile { w: bus.peek(registers.sp), sp: following(registers.sp), ..registers },
            bus,
        ),
        Action::PushHigh { word } => (
            RegisterFile { sp: preceding(registers.sp), ..registers },
            bus.after_write((word_value(registers, word) / 256) as u8, registers.sp),
        ),
        Action::PushLow { word } => (
            registers,
            bus.after_write((word_value(registers, word) % 256) as u8, registers.sp),
        ),
        Action::Offset => (
            latched(registers, displaced(following(registers.pc), registers.z)),
            bus,
        ),
    }
}

/// `registers` with the program counter at which `action` works.
pub open spec fn entering(action: Action, registers: RegisterFile) -> RegisterFile {
    RegisterFile { pc: entered(action, registers), ..registers }
}

/// The registers after `op`.
///
/// The program counter moves first to where the action works, so that a
/// fetch reads the byte it lands on. The data then moves as [`transfer`]
/// says, which never changes the program counter. Last, the program counter
/// steps once more if the micro-operation advances.
pub open spec fn registers_after(op: MicroOp, registers: RegisterFile, bus: Bus) -> RegisterFile {
    let at = entering(op.action, registers);
    RegisterFile {
        pc: if op.advance {
            following(at.pc)
        } else {
            at.pc
        },
        ..transfer(op.action, at, bus).0
    }
}

/// The bus after `op`.
pub open spec fn bus_after(op: MicroOp, registers: RegisterFile, bus: Bus) -> Bus {
    transfer(op.action, entering(op.action, registers), bus).1
}

/// The engine and the bus after `op` has run on `m` and `bus`: the registers
/// and the bus as the action leaves them, the run flag cleared if `op` stops
/// the engine, and the stage set back to the fetch if `op` hands over.
pub open spec fn effect(op: MicroOp, m: Machine, bus: Bus) -> (Machine, Bus) {
    (
        Machine {
            registers: registers_after(op, m.registers, bus),
            running: m.running && !op.stops(),
            stage: if op.hands_over {
                CPUStage::FetchDecode
            } else {
                m.stage
            },
            ..m
        },
        bus_after(op, m.registers, bus),
    )
}

/// Reads for a micro-operation: a refused read yields zero.
pub fn peek(ram: &RAM, address: u16) -> (r: u8)
    ensures
        ram@.wf(),
        r == ram@.peek(address),
{
    match ram.read(address) {
        Ok(value) => value,
        Err(_) => 0,
    }
}

/// Writes for a micro-operation: a refused write is dropped.
pub fn poke(ram: &mut RAM, value: u8, address: u16)
    ensures
        old(ram)@.wf(),
        final(ram)@.wf(),
        final(ram)@ == old(ram)@.after_write(value, address),
{
    let _ = ram._write(value, address);
}

fn operand(registers: &RegisterFile, source: Operand) -> (r: u8)
    ensures
        r == operand_value(*registers, source),
{
    match source {
        Operand::Register(register) => registers.get(register),
        Operand::Latch => registers.z,
    }
}

fn address(registers: &RegisterFile, place: Place) -> (r: u16)
    ensures
        r == address_of(*registers, place),
{
    match place {
        Place::ThroughHl => registers.hl(),
        Place::Latched => registers.wz(),
        Place::HighPage => HIGH_PAGE + registers.z as u16,
        Place::HighPageC => HIGH_PAGE + registers.c as u16,
    }
}

fn word_to_push(registers: &RegisterFile, word: Word) -> (r: u16)
    ensures
        r == word_value(*registers, word),
{
    match word {
        Word::Pair(pair) => registers.get16(pair),
        Word::ProgramCounter => registers.pc,
    }
}

fn latch(registers: &mut RegisterFile, word: u16)
    ensures
        *final(registers) == latched(*old(registers), word),
{
    registers.w = msb(word);
    registers.z = lsb(word);
}

fn enter(action: Action, registers: &RegisterFile) -> (at: RegisterFile)
    ensures
        at == entering(action, *registers),
{
    let mut at = *registers;
    match action {
        Action::Jump => {
            at.pc = registers.wz();
        },
        Action::Restart { slot } => {
            at.pc = 8 * (slot as u16);
        },
        Action::Stop | Action::Prefix | Action::FetchLow | Action::FetchHigh => {
            at.pc = next_address(registers.pc);
        },
        _ => {},
    }
    at
}

/// Whether `action` moves a byte between the registers and the bus as it
/// is.
spec fn is_access(action: Action) -> bool {
    action is FetchLow || action is FetchHigh || action is Read || action is PopLow
        || action is PopHigh || action is PushHigh
}

fn moved_by_access(action: Action, at: RegisterFile, ram: &RAM) -> (r: RegisterFile)
    requires
        is_access(action),
    ensures
        r == transfer(action, at, ram@).0,
{
    proof {
        reveal(transfer);
    }
    let mut r = at;
    match action {
        Action::FetchLow => {
            r.z = peek(ram, at.pc);
        },
        Action::FetchHigh => {
            r.w = peek(ram, at.pc);
        },
        Action::Read { from } => {
            r.z = peek(ram, address(&at, from));
        },
        Action::PopLow => {
            r.z = peek(ram, at.sp);
            r.sp = next_address(at.sp);
        },
        Action::PopHigh => {
            r.w = peek(ram, at.sp);
            r.sp = next_address(at.sp);
        },
        Action::PushHigh { word } => {
            r.sp = previous_address(at.sp);
        },
        _ => {},
    }
    r
}

fn moved_by_computation(action: Action, at: RegisterFile) -> (r: RegisterFile)
    requires
        !is_access(action),
    ensures
        forall|bus: Bus| r == #[trigger] transfer(action, at, bus).0,
{
    proof {
        reveal(transfer);
    }
    let mut r = at;
    match action {
        Action::Load { target, source } => {
            r.set(target, operand(&at, source));
        },
        Action::Alu { operation, source } => {
            let result = compute(operation, at.a, operand(&at, source), at.flags());
            r.a = result.value;
            r.set_flags(result.flags);
        },
        Action::Apply { target, change } => {
            let result = apply(change, at.get(target), at.flags());
            r.set(target, result.value);
            r.set_flags(result.flags);
        },
        Action::Update { change } => {
            let result = apply(change, at.z, at.flags());
            r.z = result.value;
            r.set_flags(result.flags);
        },
        Action::Test { bit, source } => {
            r.set_flags(test_bit(operand(&at, source), bit, at.flags()));
        },
        Action::LoadPair { pair } => {
            r.set16(pair, at.wz());
        },
        Action::StepPair { pair, up } => {
            let word = at.get16(pair);
            let moved = if up {
                next_address(word)
            } else {
                previous_address(word)
            };
            r.set16(pair, moved);
        },
        Action::AddHl { pair } => {
            let result = add16(at.hl(), at.get16(pair), at.flags());
            r.set16(Register16::HL, result.value);
            r.set_flags(result.flags);
        },
        Action::OffsetSp => {
            let result = add_offset(at.sp, at.z);
            latch(&mut r, result.value);
            r.set_flags(result.flags);
        },
        Action::Accumulator { operation } => {
            let result = accumulate(operation, at.a, at.flags());
            r.a = result.value;
            r.set_flags(result.flags);
        },
        Action::Offset => {
            latch(&mut r, displace(next_address(at.pc), at.z));
        },
        _ => {},
    }
    r
}

/// The registers as `op` would leave them. Nothing is changed.
pub fn preview(op: MicroOp, registers: &RegisterFile, ram: &RAM) -> (r: RegisterFile)
    ensures
        ram@.wf(),
        r == registers_after(op, *registers, ram@),
{
    proof {
        use_type_invariant(ram);
    }
    let at = enter(op.action, registers);
    let mut r = match op.action {
        Action::FetchLow
        | Action::FetchHigh
        | Action::Read { .. }
        | Action::PopLow
        | Action::PopHigh
        | Action::PushHigh { .. } => moved_by_access(op.action, at, ram),
        _ => moved_by_computation(op.action, at),
    };
    r.pc = if op.advance {
        next_address(at.pc)
    } else {
        at.pc
    };
    r
}

/// Makes the writes of `op` to the bus.
fn write_back(op: MicroOp, registers: &RegisterFile, ram: &mut RAM)
    ensures
        old(ram)@.wf(),
        final(ram)@.wf(),
        final(ram)@ == bus_after(op, *registers, old(ram)@),
{
    proof {
        reveal(transfer);
    }
    let at = enter(op.action, registers);
    match op.action {
        Action::StoreSpLow => {
            poke(ram, lsb(at.sp), at.wz());
        },
        Action::StoreSpHigh => {
            poke(ram, msb(at.sp), next_address(at.wz()));
        },
        Action::Write { to, source } => {
            poke(ram, operand(&at, source), address(&at, to));
        },
        Action::Update { change } => {
            let result = apply(change, at.z, at.flags());
            poke(ram, result.value, at.hl());
        },
        Action::PushHigh { word } => {
            poke(ram, msb(word_to_push(&at, word)), at.sp);
        },
        Action::PushLow { word } => {
            poke(ram, lsb(word_to_push(&at, word)), at.sp);
        },
        _ => {
            proof {
                use_type_invariant(&*ram);
            }
        },
    }
}

/// Runs one micro-operation on the engine and the bus.
pub fn perform(op: MicroOp, cpu: &mut CPU, ram: &mut RAM)
    ensures
        old(ram)@.wf(),
        final(ram)@.wf(),
        final(cpu)@ == effect(op, old(cpu)@, old(ram)@).0,
        final(ram)@ == effect(op, old(cpu)@, old(ram)@).1,
{
    let before = cpu.register_file;
    cpu.register_file = preview(op, &before, ram);
    write_back(op, &before, ram);
    match op.action {
        Action::Halt | Action::Stop => {
            cpu.running = false;
        },
        _ => {},
    }
    if op.hands_over {
        cpu.stage = CPUStage::FetchDecode;
    }
}

} // verus!
