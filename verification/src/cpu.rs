//! The processor's visible state and the engine that steps it.
use std::collections::VecDeque;
use vstd::prelude::*;
use crate::decode::decode_prefixed;
use crate::decode::decoded;
use crate::decode::describe;
use crate::decode::prefixed_name;
use crate::decode::DecodeError;
use crate::decode::Instruction;
use crate::decode::InstructionName;
use crate::decode::Opcode;
use crate::execute::effect;
use crate::execute::perform;
use crate::execute::preview;
use crate::execute::registers_after;
use crate::ram::Bus;
use crate::ram::RAM;
use crate::schedule::scheduled_given;
use crate::schedule::MicroOp;
use crate::util::lsb;
use crate::util::msb;
use crate::util::unsigned_16;
use crate::util::word_of;

verus! {

/// The four condition flags, unpacked from the upper nibble of register F.
#[derive(Clone, Copy, Debug, PartialEq, Eq, Structural)]
pub struct Flags {
    pub carry: bool,
    pub half_carry: bool,
    pub subtraction: bool,
    pub zero: bool,
}

/// `value` if `flag` is set, else nothing.
pub open spec fn weight(flag: bool, value: int) -> int {
    if flag {
        value
    } else {
        0
    }
}

impl Flags {
    /// The flags held in the byte `f`: zero in bit 7, subtraction in bit 6,
    /// half-carry in bit 5, carry in bit 4.
    pub open spec fn unpacked(f: u8) -> Flags {
        Flags {
            zero: (f / 128) % 2 == 1,
            subtraction: (f / 64) % 2 == 1,
            half_carry: (f / 32) % 2 == 1,
            carry: (f / 16) % 2 == 1,
        }
    }

    /// The byte that holds these flags and nothing else.
    pub open spec fn packed(self) -> int {
        weight(self.zero, 128) + weight(self.subtraction, 64) + weight(self.half_carry, 32)
            + weight(self.carry, 16)
    }

    /// Unpacks the flags from the byte of register F.
    pub fn from_byte(f: u8) -> (flags: Flags)
        ensures
            flags == Flags::unpacked(f),
    {
        assert(((f & 0x80) != 0) == ((f / 128) % 2 == 1) && ((f & 0x40) != 0) == ((f / 64) % 2
            == 1) && ((f & 0x20) != 0) == ((f / 32) % 2 == 1) && ((f & 0x10) != 0) == ((f / 16) % 2
            == 1)) by (bit_vector);
        Flags {
            zero: (f & 0x80) != 0,
            subtraction: (f & 0x40) != 0,
            half_carry: (f & 0x20) != 0,
            carry: (f & 0x10) != 0,
        }
    }

    /// Packs the flags into the byte of register F.
    pub fn to_byte(&self) -> (f: u8)
        ensures
            f as int == self.packed(),
    {
        let mut f: u8 = 0;
        if self.zero {
            f = f + 0x80;
        }
        if self.subtraction {
            f = f + 0x40;
        }
        if self.half_carry {
            f = f + 0x20;
        }
        if self.carry {
            f = f + 0x10;
        }
        f
    }
}

/// Packing flags never touches the low nibble, and unpacking recovers them.
pub proof fn lemma_pack_then_unpack(flags: Flags)
    ensures
        0 <= flags.packed() < 256,
        flags.packed() % 16 == 0,
        Flags::unpacked(flags.packed() as u8) == flags,
{
}

/// Unpacking a byte and packing the flags again clears the low nibble and
/// keeps the rest.
pub proof fn lemma_unpack_then_pack(f: u8)
    ensures
        Flags::unpacked(f).packed() == f - f % 16,
{
}

/// The 8-bit registers an opcode can select directly.
#[derive(Clone, Copy, Debug, PartialEq, Eq, Structural)]
pub enum Register8 {
    B,
    C,
    D,
    E,
    H,
    L,
    A,
}

/// Selector value that stands for the byte in memory at the address in HL.
pub const THROUGH_HL: u8 = 6;

/// The register a 3-bit selector names; selector 6 names memory, not a
/// register.
pub open spec fn selected_register(selector: u8) -> Option<Register8> {
    if selector == 0 {
        Some(Register8::B)
    } else if selector == 1 {
        Some(Register8::C)
    } else if selector == 2 {
        Some(Register8::D)
    } else if selector == 3 {
        Some(Register8::E)
    } else if selector == 4 {
        Some(Register8::H)
    } else if selector == 5 {
        Some(Register8::L)
    } else if selector == 7 {
        Some(Register8::A)
    } else {
        None
    }
}

/// The register a 3-bit selector names, if it names one.
pub fn register8(selector: u8) -> (r: Option<Register8>)
    ensures
        r == selected_register(selector),
{
    match selector {
        0 => Some(Register8::B),
        1 => Some(Register8::C),
        2 => Some(Register8::D),
        3 => Some(Register8::E),
        4 => Some(Register8::H),
        5 => Some(Register8::L),
        7 => Some(Register8::A),
        _ => None,
    }
}

/// The register file.
///
/// The pairs AF, BC, DE and HL have no storage of their own: they are read
/// from and written to their two halves, high byte first. `w` and `z` latch
/// operand bytes between the cycles of one instruction and are not visible
/// to programs.
#[derive(Clone, Copy, Debug, PartialEq, Eq, Structural)]
pub struct RegisterFile {
    pub a: u8,
    pub f: u8,
    pub b: u8,
    pub c: u8,
    pub d: u8,
    pub e: u8,
    pub h: u8,
    pub l: u8,
    pub sp: u16,
    pub pc: u16,
    pub w: u8,
    pub z: u8,
}

/// The register pairs an opcode can select with bits 5-4. Selector 3 names
/// SP everywhere but on the stack, where it names AF.
#[derive(Clone, Copy, Debug, PartialEq, Eq, Structural)]
pub enum Register16 {
    BC,
    DE,
    HL,
    SP,
    AF,
}

/// The pair a 2-bit selector names in a push or a pop.
pub open spec fn selected_stack_pair(selector: u8) -> Option<Register16> {
    if selector == 3 {
        Some(Register16::AF)
    } else {
        selected_pair(selector)
    }
}

/// The pair a 2-bit selector names in a push or a pop, if it names one.
pub fn stack_register16(selector: u8) -> (r: Option<Register16>)
    ensures
        r == selected_stack_pair(selector),
{
    if selector == 3 {
        Some(Register16::AF)
    } else {
        register16(selector)
    }
}

/// The pair a 2-bit selector names.
pub open spec fn selected_pair(selector: u8) -> Option<Register16> {
    if selector == 0 {
        Some(Register16::BC)
    } else if selector == 1 {
        Some(Register16::DE)
    } else if selector == 2 {
        Some(Register16::HL)
    } else if selector == 3 {
        Some(Register16::SP)
    } else {
        None
    }
}

/// The pair a 2-bit selector names, if it names one.
pub fn register16(selector: u8) -> (r: Option<Register16>)
    ensures
        r == selected_pair(selector),
{
    match selector {
        0 => Some(Register16::BC),
        1 => Some(Register16::DE),
        2 => Some(Register16::HL),
        3 => Some(Register16::SP),
        _ => None,
    }
}

/// The address after `address`, wrapping at the top of the address space.
pub open spec fn following(address: u16) -> u16 {
    if address == 0xFFFF {
        0
    } else {
        (address + 1) as u16
    }
}

/// The address before `address`, wrapping at the bottom of the address space.
pub open spec fn preceding(address: u16) -> u16 {
    if address == 0 {
        0xFFFF
    } else {
        (address - 1) as u16
    }
}

/// Steps an address up, wrapping at the top.
pub fn next_address(address: u16) -> (r: u16)
    ensures
        r == following(address),
{
    address.wrapping_add(1)
}

/// Steps an address down, wrapping at the bottom.
pub fn previous_address(address: u16) -> (r: u16)
    ensures
        r == preceding(address),
{
    address.wrapping_sub(1)
}

impl RegisterFile {
    /// All registers zero.
    pub open spec fn zeroed() -> RegisterFile {
        RegisterFile { a: 0, f: 0, b: 0, c: 0, d: 0, e: 0, h: 0, l: 0, sp: 0, pc: 0, w: 0, z: 0 }
    }

    /// The low nibble of F holds nothing.
    pub open spec fn wf(self) -> bool {
        self.f % 16 == 0
    }

    /// The byte in `register`.
    pub open spec fn value_of(self, register: Register8) -> u8 {
        match register {
            Register8::B => self.b,
            Register8::C => self.c,
            Register8::D => self.d,
            Register8::E => self.e,
            Register8::H => self.h,
            Register8::L => self.l,
            Register8::A => self.a,
        }
    }

    /// The file with `value` in `register`.
    pub open spec fn with(self, register: Register8, value: u8) -> RegisterFile {
        match register {
            Register8::B => RegisterFile { b: value, ..self },
            Register8::C => RegisterFile { c: value, ..self },
            Register8::D => RegisterFile { d: value, ..self },
            Register8::E => RegisterFile { e: value, ..self },
            Register8::H => RegisterFile { h: value, ..self },
            Register8::L => RegisterFile { l: value, ..self },
            Register8::A => RegisterFile { a: value, ..self },
        }
    }

    /// The word in `pair`, its first half the high byte.
    pub open spec fn pair_value(self, pair: Register16) -> int {
        match pair {
            Register16::BC => word_of(self.b, self.c),
            Register16::DE => word_of(self.d, self.e),
            Register16::HL => word_of(self.h, self.l),
            Register16::SP => self.sp as int,
            Register16::AF => word_of(self.a, self.f),
        }
    }

    /// The file with `value` in `pair`: the high byte in the first half, the
    /// low byte in the second. F takes the upper nibble of its byte only.
    pub open spec fn with_pair(self, pair: Register16, value: u16) -> RegisterFile {
        match pair {
            Register16::BC => RegisterFile {
                b: (value / 256) as u8,
                c: (value % 256) as u8,
                ..self
            },
            Register16::DE => RegisterFile {
                d: (value / 256) as u8,
                e: (value % 256) as u8,
                ..self
            },
            Register16::HL => RegisterFile {
                h: (value / 256) as u8,
                l: (value % 256) as u8,
                ..self
            },
            Register16::SP => RegisterFile { sp: value, ..self },
            Register16::AF => RegisterFile {
                a: (value / 256) as u8,
                f: (value % 256 - value % 16) as u8,
                ..self
            },
        }
    }

    /// The address held in HL.
    pub open spec fn hl_value(self) -> u16 {
        word_of(self.h, self.l) as u16
    }

    /// The address latched in W and Z.
    pub open spec fn wz_value(self) -> u16 {
        word_of(self.w, self.z) as u16
    }

    /// The flags held in F.
    pub open spec fn flag_values(self) -> Flags {
        Flags::unpacked(self.f)
    }

    /// The file with F holding exactly `flags`.
    pub open spec fn with_flags(self, flags: Flags) -> RegisterFile {
        RegisterFile { f: flags.packed() as u8, ..self }
    }

    /// Reads a register.
    pub fn get(&self, register: Register8) -> (r: u8)
        ensures
            r == self.value_of(register),
    {
        match register {
            Register8::B => self.b,
            Register8::C => self.c,
            Register8::D => self.d,
            Register8::E => self.e,
            Register8::H => self.h,
            Register8::L => self.l,
            Register8::A => self.a,
        }
    }

    /// Writes a register.
    pub fn set(&mut self, register: Register8, value: u8)
        ensures
            *final(self) == old(self).with(register, value),
    {
        match register {
            Register8::B => self.b = value,
            Register8::C => self.c = value,
            Register8::D => self.d = value,
            Register8::E => self.e = value,
            Register8::H => self.h = value,
            Register8::L => self.l = value,
            Register8::A => self.a = value,
        }
    }

    /// Reads a register pair.
    pub fn get16(&self, pair: Register16) -> (r: u16)
        ensures
            r as int == self.pair_value(pair),
    {
        match pair {
            Register16::BC => unsigned_16(self.b, self.c),
            Register16::DE => unsigned_16(self.d, self.e),
            Register16::HL => unsigned_16(self.h, self.l),
            Register16::SP => self.sp,
            Register16::AF => unsigned_16(self.a, self.f),
        }
    }

    /// Writes a register pair.
    pub fn set16(&mut self, pair: Register16, value: u16)
        ensures
            *final(self) == old(self).with_pair(pair, value),
    {
        match pair {
            Register16::BC => {
                self.b = msb(value);
                self.c = lsb(value);
            },
            Register16::DE => {
                self.d = msb(value);
                self.e = lsb(value);
            },
            Register16::HL => {
                self.h = msb(value);
                self.l = lsb(value);
            },
            Register16::SP => self.sp = value,
            Register16::AF => {
                let low = lsb(value);
                assert(low & 0xF0 == low - low % 16) by (bit_vector);
                self.a = msb(value);
                self.f = low & 0xF0;
            },
        }
    }

    /// The address held in HL.
    pub fn hl(&self) -> (r: u16)
        ensures
            r == self.hl_value(),
    {
        unsigned_16(self.h, self.l)
    }

    /// The address latched in W and Z.
    pub fn wz(&self) -> (r: u16)
        ensures
            r == self.wz_value(),
    {
        unsigned_16(self.w, self.z)
    }

    /// The flags held in F.
    pub fn flags(&self) -> (r: Flags)
        ensures
            r == self.flag_values(),
    {
        Flags::from_byte(self.f)
    }

    /// Replaces the flags; the low nibble of F ends up clear.
    pub fn set_flags(&mut self, flags: Flags)
        ensures
            *final(self) == old(self).with_flags(flags),
            final(self).wf(),
    {
        self.f = flags.to_byte();
    }
}

/// A pair reads back what was written to it; AF reads it back without the
/// low nibble. Writing a pair leaves the other pairs and the program counter
/// alone, and keeps the low nibble of F clear.
pub proof fn lemma_pair_round_trip(registers: RegisterFile, pair: Register16, value: u16)
    ensures
        pair != Register16::AF ==> registers.with_pair(pair, value).pair_value(pair) == value,
        registers.with_pair(Register16::AF, value).pair_value(Register16::AF) == value - value
            % 16,
        registers.with_pair(pair, value).pc == registers.pc,
        registers.wf() || pair == Register16::AF ==> registers.with_pair(pair, value).wf(),
        forall|other: Register16|
            other != pair ==> registers.with_pair(pair, value).pair_value(other)
                == registers.pair_value(other),
{
}

/// Writing the flags keeps F well formed and reads back the same flags.
pub proof fn lemma_flags_round_trip(registers: RegisterFile, flags: Flags)
    ensures
        registers.with_flags(flags).wf(),
        registers.with_flags(flags).flag_values() == flags,
{
}

/// Where the engine stands between two ticks.
#[derive(Clone, Copy, Debug, PartialEq, Eq, Structural)]
pub enum CPUStage {
    FetchDecode,
    Execute,
}

/// Why a tick failed.
#[derive(Clone, Copy, Debug, PartialEq, Eq, Structural)]
pub enum CPUError {
    IllegalFetch,
    IllegalOpcode,
    UnimplementedOpcode,
    EmptyMicroOpQueue,
}

/// The engine: the register file, the run flag, the stage of the pipeline,
/// the instruction in flight and its pending micro-operations.
pub struct CPU {
    pub register_file: RegisterFile,
    pub running: bool,
    pub stage: CPUStage,
    pub current_instruction: Instruction,
    pub queue: VecDeque<MicroOp>,
}

/// The mathematical content of an engine.
#[verifier::ext_equal]
pub struct Machine {
    pub registers: RegisterFile,
    pub running: bool,
    pub stage: CPUStage,
    pub current_instruction: Instruction,
    pub queue: Seq<MicroOp>,
}

impl View for CPU {
    type V = Machine;

    open spec fn view(&self) -> Machine {
        Machine {
            registers: self.register_file,
            running: self.running,
            stage: self.stage,
            current_instruction: self.current_instruction,
            queue: self.queue@,
        }
    }
}

impl Machine {
    /// The engine as it is built: everything zero, running, about to fetch,
    /// nothing pending.
    pub open spec fn initial() -> Machine {
        Machine {
            registers: RegisterFile::zeroed(),
            running: true,
            stage: CPUStage::FetchDecode,
            current_instruction: describe(InstructionName::Nop, 0),
            queue: Seq::empty(),
        }
    }
}

/// A new engine.
pub fn init() -> (cpu: CPU)
    ensures
        cpu@ == Machine::initial(),
{
    let register_file = RegisterFile {
        a: 0,
        f: 0,
        b: 0,
        c: 0,
        d: 0,
        e: 0,
        h: 0,
        l: 0,
        sp: 0,
        pc: 0,
        w: 0,
        z: 0,
    };
    CPU {
        register_file,
        running: true,
        stage: CPUStage::FetchDecode,
        current_instruction: Instruction {
            name: InstructionName::Nop,
            source: 0,
            target: 0,
            pair: 0,
            condition: 0,
        },
        queue: VecDeque::new(),
    }
}

/// What a tick leaves behind: the engine, the bus, and how the tick ended.
pub struct Ticked {
    pub machine: Machine,
    pub bus: Bus,
    pub outcome: Result<(), CPUError>,
}

/// A tick that failed with `error` and changed nothing.
pub open spec fn refused(m: Machine, bus: Bus, error: CPUError) -> Ticked {
    Ticked { machine: m, bus, outcome: Err(error) }
}

/// Takes the micro-operation at the front of the queue and runs it; fails,
/// changing nothing, if the queue is empty.
pub open spec fn run_next(m: Machine, bus: Bus) -> Ticked {
    if m.queue.len() == 0 {
        refused(m, bus, CPUError::EmptyMicroOpQueue)
    } else {
        let rest = Machine { queue: m.queue.subrange(1, m.queue.len() as int), ..m };
        let after = effect(m.queue[0], rest, bus);
        Ticked { machine: after.0, bus: after.1, outcome: Ok(()) }
    }
}

/// The instruction whose encoding starts at `pc`, or the reason there is
/// none. The escape byte is decoded together with the byte behind it.
pub open spec fn fetched(bus: Bus, pc: u16) -> Result<Instruction, CPUError> {
    match bus.read(pc) {
        Err(_) => Err(CPUError::IllegalFetch),
        Ok(opcode) => match decoded(opcode) {
            Err(DecodeError::IllegalOpcode) => Err(CPUError::IllegalOpcode),
            Err(DecodeError::UnimplementedOpcode) => Err(CPUError::UnimplementedOpcode),
            Ok(instruction) => if instruction.name == InstructionName::Prefix {
                match bus.read(following(pc)) {
                    Err(_) => Err(CPUError::IllegalFetch),
                    Ok(second) => Ok(describe(prefixed_name(second), second)),
                }
            } else {
                Ok(instruction)
            },
        },
    }
}

/// The instruction at the program counter and its micro-operations, as the
/// flags in F schedule them, or the reason there is none.
#[verifier::opaque]
pub open spec fn issued(bus: Bus, registers: RegisterFile) -> Result<
    (Instruction, Seq<MicroOp>),
    CPUError,
> {
    match fetched(bus, registers.pc) {
        Err(error) => Err(error),
        Ok(instruction) => match scheduled_given(instruction, registers.flag_values()) {
            Err(_) => Err(CPUError::UnimplementedOpcode),
            Ok(ops) => Ok((instruction, ops)),
        },
    }
}

/// The engine `m` with `instruction` in flight and `ops` added behind what is
/// pending.
pub open spec fn issuing(m: Machine, instruction: Instruction, ops: Seq<MicroOp>) -> Machine {
    Machine {
        current_instruction: instruction,
        queue: m.queue + ops,
        stage: CPUStage::Execute,
        ..m
    }
}

/// The registers as the micro-operation that is pending leaves them, if one
/// is.
pub open spec fn ahead(m: Machine, bus: Bus) -> RegisterFile {
    if m.queue.len() > 0 {
        registers_after(m.queue[0], m.registers, bus)
    } else {
        m.registers
    }
}

/// One machine cycle.
///
/// A stopped engine does nothing. In the fetch stage the engine reads the
/// opcode at the program counter, decodes it, queues its micro-operations
/// behind whatever is pending, enters the execute stage and runs the
/// micro-operation at the front of the queue: the last micro-operation of
/// the instruction before, if it is still pending, else the first of the
/// instruction just fetched. Where a micro-operation is pending, the opcode
/// is read at the program counter, and the instruction scheduled for the
/// flags, that the pending micro-operation leaves. In the execute stage the
/// engine runs the micro-operation at the front of the queue. A tick that
/// fails changes nothing.
pub open spec fn step(m: Machine, bus: Bus) -> Ticked {
    if !m.running {
        Ticked { machine: m, bus, outcome: Ok(()) }
    } else if m.stage == CPUStage::Execute {
        run_next(m, bus)
    } else {
        match issued(bus, ahead(m, bus)) {
            Err(error) => refused(m, bus, error),
            Ok((instruction, ops)) => run_next(issuing(m, instruction, ops), bus),
        }
    }
}

impl CPU {
    /// Steps the engine and the bus by one machine cycle.
    pub fn tick(&mut self, ram: &mut RAM) -> (r: Result<(), CPUError>)
        ensures
            old(ram)@.wf(),
            final(ram)@.wf(),
            final(self)@ == step(old(self)@, old(ram)@).machine,
            final(ram)@ == step(old(self)@, old(ram)@).bus,
            r == step(old(self)@, old(ram)@).outcome,
    {
        proof {
            reveal(issued);
            use_type_invariant(&*ram);
        }
        if !self.running {
            return Ok(());
        }
        match self.stage {
            CPUStage::FetchDecode => {
                let ahead = if self.queue.len() > 0 {
                    preview(self.queue[0], &self.register_file, ram)
                } else {
                    self.register_file
                };
                let opcode = match ram.read(ahead.pc) {
                    Ok(byte) => byte,
                    Err(_) => {
                        return Err(CPUError::IllegalFetch);
                    },
                };
                let first = match opcode.decode_instruction() {
                    Ok(instruction) => instruction,
                    Err(DecodeError::IllegalOpcode) => {
                        return Err(CPUError::IllegalOpcode);
                    },
                    Err(DecodeError::UnimplementedOpcode) => {
                        return Err(CPUError::UnimplementedOpcode);
                    },
                };
                let instruction = match first.name {
                    InstructionName::Prefix => match ram.read(next_address(ahead.pc)) {
                        Ok(second) => decode_prefixed(second),
                        Err(_) => {
                            return Err(CPUError::IllegalFetch);
                        },
                    },
                    _ => first,
                };
                let micro_ops = match instruction.micro_ops_given(ahead.flags()) {
                    Ok(ops) => ops,
                    Err(_) => {
                        return Err(CPUError::UnimplementedOpcode);
                    },
                };
                self.current_instruction = instruction;
                let mut pushed: usize = 0;
                while pushed < micro_ops.len()
                    invariant
                        pushed <= micro_ops.len(),
                        self.queue@ == old(self).queue@ + micro_ops@.subrange(0, pushed as int),
                        self.register_file == old(self).register_file,
                        self.running == old(self).running,
                        self.current_instruction == instruction,
                    decreases micro_ops.len() - pushed,
                {
                    self.queue.push_back(micro_ops[pushed]);
                    pushed = pushed + 1;
                }
                assert(micro_ops@.subrange(0, pushed as int) == micro_ops@);
                // The micro-operation that runs next may set the stage back at once.
                self.stage = CPUStage::Execute;
                assert(self@ == issuing(old(self)@, instruction, micro_ops@));
                if let Some(value) = self.execute_micro_op(ram) {
                    return value;
                }
            },
            CPUStage::Execute => {
                if let Some(value) = self.execute_micro_op(ram) {
                    return value;
                }
            },
        }
        Ok(())
    }

    /// Takes the micro-operation at the front of the queue and runs it.
    /// Returns the failure if there is none to take, and nothing otherwise.
    pub fn execute_micro_op(&mut self, ram: &mut RAM) -> (r: Option<Result<(), CPUError>>)
        ensures
            old(ram)@.wf(),
            final(ram)@.wf(),
            final(self)@ == run_next(old(self)@, old(ram)@).machine,
            final(ram)@ == run_next(old(self)@, old(ram)@).bus,
            match r {
                Some(failure) => failure == run_next(old(self)@, old(ram)@).outcome
                    && failure is Err,
                None => run_next(old(self)@, old(ram)@).outcome is Ok,
            },
    {
        proof {
            use_type_invariant(&*ram);
        }
        let micro_op = match self.queue.pop_front() {
            Some(op) => op,
            None => {
                return Some(Err(CPUError::EmptyMicroOpQueue));
            },
        };
        perform(micro_op, self, ram);
        None
    }
}

} // verus!
