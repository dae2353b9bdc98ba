//! The micro-operation schedule.
//!
//! An instruction that takes `n` machine cycles expands to `n`
//! micro-operations, one per cycle. Exactly one of them hands the engine over
//! to the fetch of the next opcode: the last but one, so that the last runs
//! beside that fetch; or the only one, for an instruction of a single cycle.
//!
//! While an instruction is in flight the program counter rests on the last
//! byte of it that has been consumed. The first micro-operation moves it
//! off the opcode: onto the first operand byte where there is one, else
//! behind the instruction. The last micro-operation moves it off the last
//! operand byte, or to where the instruction jumps.
use vstd::prelude::*;
use crate::alu::AccumulatorOperation;
use crate::alu::AluOperation;
use crate::alu::Change;
use crate::alu::ShiftOperation;
use crate::cpu::register16;
use crate::cpu::register8;
use crate::cpu::selected_pair;
use crate::cpu::selected_register;
use crate::cpu::selected_stack_pair;
use crate::cpu::stack_register16;
use crate::cpu::Flags;
use crate::cpu::Register16;
use crate::cpu::Register8;
use crate::cpu::THROUGH_HL;
use crate::decode::decoded;
use crate::decode::describe;
use crate::decode::lemma_selector_ranges;
use crate::decode::prefixed_name;
use crate::decode::DecodeError;
use crate::decode::Instruction;
use crate::decode::InstructionName;

verus! {

/// Where a micro-operation takes its operand byte from.
#[derive(Clone, Copy, Debug, PartialEq, Eq, Structural)]
pub enum Operand {
    Register(Register8),
    /// The byte latched in Z by an earlier cycle of the same instruction.
    Latch,
}

/// The cell of the bus a micro-operation reads or writes.
#[derive(Clone, Copy, Debug, PartialEq, Eq, Structural)]
pub enum Place {
    /// The address in HL.
    ThroughHl,
    /// The address latched in W and Z.
    Latched,
    /// The top page, `0xFF00`, at the offset latched in Z.
    HighPage,
    /// The top page, `0xFF00`, at the offset in C.
    HighPageC,
}

/// The word a micro-operation pushes on the stack.
#[derive(Clone, Copy, Debug, PartialEq, Eq, Structural)]
pub enum Word {
    Pair(Register16),
    ProgramCounter,
}

/// The work of one machine cycle.
#[derive(Clone, Copy, Debug, PartialEq, Eq, Structural)]
pub enum Action {
    /// No work.
    Nothing,
    /// Clears the run flag.
    Halt,
    /// Steps the program counter onto the padding byte and clears the run
    /// flag.
    Stop,
    /// Steps the program counter from the escape byte onto the byte behind
    /// it.
    Prefix,
    /// Steps the program counter and latches the byte it then rests on in Z.
    FetchLow,
    /// Steps the program counter and latches the byte it then rests on in W.
    FetchHigh,
    /// Stores the low byte of SP at the latched address.
    StoreSpLow,
    /// Stores the high byte of SP one above the latched address.
    StoreSpHigh,
    /// Latches the byte at `from` in Z.
    Read { from: Place },
    /// Stores the operand at `to`.
    Write { to: Place, source: Operand },
    /// Copies the operand to `target`.
    Load { target: Register8, source: Operand },
    /// Combines the accumulator with the operand.
    Alu { operation: AluOperation, source: Operand },
    /// Changes `target` in place.
    Apply { target: Register8, change: Change },
    /// Changes the latched byte and stores it at the address in HL.
    Update { change: Change },
    /// Tests bit `bit` of the operand.
    Test { bit: u8, source: Operand },
    /// Copies the latched word to `pair`.
    LoadPair { pair: Register16 },
    /// Increments or decrements `pair`.
    StepPair { pair: Register16, up: bool },
    /// Adds `pair` to HL.
    AddHl { pair: Register16 },
    /// Latches SP moved by the signed offset latched in Z.
    OffsetSp,
    /// Applies a single-byte accumulator operation.
    Accumulator { operation: AccumulatorOperation },
    /// Latches the byte at SP in Z and increments SP.
    PopLow,
    /// Latches the byte at SP in W and increments SP.
    PopHigh,
    /// Stores the high byte of `word` at SP and decrements SP.
    PushHigh { word: Word },
    /// Stores the low byte of `word` at SP.
    PushLow { word: Word },
    /// Latches the address behind the operand byte the program counter rests
    /// on, moved by the signed offset latched in Z.
    Offset,
    /// Moves the program counter to the latched address.
    Jump,
    /// Moves the program counter to restart slot `slot`, at address
    /// `8 * slot`.
    Restart { slot: u8 },
}

/// One machine cycle: its work, and what the engine does once the work is
/// done.
#[derive(Clone, Copy, Debug, PartialEq, Eq, Structural)]
pub struct MicroOp {
    pub action: Action,
    /// Step the program counter once more.
    pub advance: bool,
    /// Set the stage back to the fetch of the next opcode.
    pub hands_over: bool,
}

/// A micro-operation that does its work and no more.
pub open spec fn plain(action: Action) -> MicroOp {
    MicroOp { action, advance: false, hands_over: false }
}

/// A micro-operation that also steps the program counter.
pub open spec fn advancing(action: Action) -> MicroOp {
    MicroOp { action, advance: true, hands_over: false }
}

/// A micro-operation that also hands over to the fetch.
pub open spec fn handing_over(action: Action) -> MicroOp {
    MicroOp { action, advance: false, hands_over: true }
}

/// A micro-operation that also steps the program counter and hands over to
/// the fetch.
pub open spec fn completing(action: Action) -> MicroOp {
    MicroOp { action, advance: true, hands_over: true }
}

impl MicroOp {
    /// Whether this micro-operation moves the program counter somewhere
    /// else than to the next byte.
    pub open spec fn jumps(self) -> bool {
        self.action is Jump || self.action is Restart
    }

    /// Whether this micro-operation stops the engine.
    pub open spec fn stops(self) -> bool {
        self.action is Halt || self.action is Stop
    }

    /// How many bytes this micro-operation steps the program counter, if it
    /// does not jump.
    pub open spec fn pc_steps(self) -> int {
        (if self.action is Stop || self.action is Prefix || self.action is FetchLow
            || self.action is FetchHigh {
            1int
        } else {
            0int
        }) + (if self.advance {
            1int
        } else {
            0int
        })
    }

    /// A micro-operation that does its work and no more.
    pub fn plain(action: Action) -> (op: MicroOp)
        ensures
            op == plain(action),
    {
        MicroOp { action, advance: false, hands_over: false }
    }

    /// A micro-operation that also steps the program counter.
    pub fn advancing(action: Action) -> (op: MicroOp)
        ensures
            op == advancing(action),
    {
        MicroOp { action, advance: true, hands_over: false }
    }

    /// A micro-operation that also hands over to the fetch.
    pub fn handing_over(action: Action) -> (op: MicroOp)
        ensures
            op == handing_over(action),
    {
        MicroOp { action, advance: false, hands_over: true }
    }

    /// A micro-operation that also steps the program counter and hands over
    /// to the fetch.
    pub fn completing(action: Action) -> (op: MicroOp)
        ensures
            op == completing(action),
    {
        MicroOp { action, advance: true, hands_over: true }
    }
}

/// The operation of an arithmetic or logic instruction, in either form.
pub open spec fn alu_operation_of(name: InstructionName) -> Option<AluOperation> {
    match name {
        InstructionName::AddAR8 | InstructionName::AddAU8 => Some(AluOperation::Add),
        InstructionName::AdcAR8 | InstructionName::AdcAU8 => Some(AluOperation::Adc),
        InstructionName::SubAR8 | InstructionName::SubAU8 => Some(AluOperation::Sub),
        InstructionName::SbcAR8 | InstructionName::SbcAU8 => Some(AluOperation::Sbc),
        InstructionName::AndAR8 | InstructionName::AndAU8 => Some(AluOperation::And),
        InstructionName::XorAR8 | InstructionName::XorAU8 => Some(AluOperation::Xor),
        InstructionName::OrAR8 | InstructionName::OrAU8 => Some(AluOperation::Or),
        InstructionName::CpAR8 | InstructionName::CpAU8 => Some(AluOperation::Cp),
        _ => None,
    }
}

/// Whether an arithmetic or logic instruction takes its operand from the byte
/// after the opcode.
pub open spec fn takes_immediate(name: InstructionName) -> bool {
    match name {
        InstructionName::AddAU8
        | InstructionName::AdcAU8
        | InstructionName::SubAU8
        | InstructionName::SbcAU8
        | InstructionName::AndAU8
        | InstructionName::XorAU8
        | InstructionName::OrAU8
        | InstructionName::CpAU8 => true,
        _ => false,
    }
}

/// The operation of a single-byte accumulator instruction.
pub open spec fn accumulator_operation_of(name: InstructionName) -> Option<AccumulatorOperation> {
    match name {
        InstructionName::Rlca => Some(AccumulatorOperation::Rlca),
        InstructionName::Rrca => Some(AccumulatorOperation::Rrca),
        InstructionName::Rla => Some(AccumulatorOperation::Rla),
        InstructionName::Rra => Some(AccumulatorOperation::Rra),
        InstructionName::Daa => Some(AccumulatorOperation::Daa),
        InstructionName::Cpl => Some(AccumulatorOperation::Cpl),
        InstructionName::Scf => Some(AccumulatorOperation::Scf),
        InstructionName::Ccf => Some(AccumulatorOperation::Ccf),
        _ => None,
    }
}

/// The operation of a rotate or shift instruction.
pub open spec fn shift_operation_of(name: InstructionName) -> Option<ShiftOperation> {
    match name {
        InstructionName::RlcR8 => Some(ShiftOperation::Rlc),
        InstructionName::RrcR8 => Some(ShiftOperation::Rrc),
        InstructionName::RlR8 => Some(ShiftOperation::Rl),
        InstructionName::RrR8 => Some(ShiftOperation::Rr),
        InstructionName::SlaR8 => Some(ShiftOperation::Sla),
        InstructionName::SraR8 => Some(ShiftOperation::Sra),
        InstructionName::SwapR8 => Some(ShiftOperation::Swap),
        InstructionName::SrlR8 => Some(ShiftOperation::Srl),
        _ => None,
    }
}

/// Whether `name` belongs to the encoding space behind the escape byte.
pub open spec fn is_prefixed(name: InstructionName) -> bool {
    shift_operation_of(name) is Some || name == InstructionName::BitR8 || name
        == InstructionName::ResR8 || name == InstructionName::SetR8
}

/// The answer for an instruction without a schedule.
pub open spec fn not_scheduled() -> Result<Seq<MicroOp>, DecodeError> {
    Err(DecodeError::UnimplementedOpcode)
}

/// Register-to-register load; either side may be the byte through HL, not
/// both.
pub open spec fn load_steps(target: u8, source: u8) -> Result<Seq<MicroOp>, DecodeError> {
    match (selected_register(target), selected_register(source)) {
        (Some(t), Some(s)) => Ok(
            seq![
                completing(Action::Load { target: t, source: Operand::Register(s) }),
            ],
        ),
        (Some(t), None) => if source == THROUGH_HL {
            Ok(
                seq![
                    completing(Action::Read { from: Place::ThroughHl }),
                    plain(Action::Load { target: t, source: Operand::Latch }),
                ],
            )
        } else {
            not_scheduled()
        },
        (None, Some(s)) => if target == THROUGH_HL {
            Ok(
                seq![
                    completing(Action::Write { to: Place::ThroughHl, source: Operand::Register(s) }),
                    plain(Action::Nothing),
                ],
            )
        } else {
            not_scheduled()
        },
        (None, None) => not_scheduled(),
    }
}

/// Load of the byte after the opcode.
pub open spec fn immediate_load_steps(target: u8) -> Result<Seq<MicroOp>, DecodeError> {
    match selected_register(target) {
        Some(t) => Ok(
            seq![
                handing_over(Action::FetchLow),
                advancing(Action::Load { target: t, source: Operand::Latch }),
            ],
        ),
        None => if target == THROUGH_HL {
            Ok(
                seq![
                    plain(Action::FetchLow),
                    handing_over(Action::Write { to: Place::ThroughHl, source: Operand::Latch }),
                    advancing(Action::Nothing),
                ],
            )
        } else {
            not_scheduled()
        },
    }
}

/// A change in place of a register or of the byte through HL.
pub open spec fn change_steps(selector: u8, change: Change) -> Result<Seq<MicroOp>, DecodeError> {
    match selected_register(selector) {
        Some(target) => Ok(
            seq![
                completing(Action::Apply { target, change }),
            ],
        ),
        None => if selector == THROUGH_HL {
            Ok(
                seq![
                    advancing(Action::Read { from: Place::ThroughHl }),
                    handing_over(Action::Update { change }),
                    plain(Action::Nothing),
                ],
            )
        } else {
            not_scheduled()
        },
    }
}

/// As [`change_steps`], for an instruction behind the escape byte.
pub open spec fn prefixed_change_steps(selector: u8, change: Change) -> Result<Seq<MicroOp>, DecodeError> {
    match selected_register(selector) {
        Some(target) => Ok(
            seq![
                handing_over(Action::Prefix),
                advancing(Action::Apply { target, change }),
            ],
        ),
        None => if selector == THROUGH_HL {
            Ok(
                seq![
                    plain(Action::Prefix),
                    plain(Action::Read { from: Place::ThroughHl }),
                    handing_over(Action::Update { change }),
                    advancing(Action::Nothing),
                ],
            )
        } else {
            not_scheduled()
        },
    }
}

/// Test of one bit of a register or of the byte through HL.
pub open spec fn test_steps(bit: u8, selector: u8) -> Result<Seq<MicroOp>, DecodeError> {
    match selected_register(selector) {
        Some(register) => Ok(
            seq![
                handing_over(Action::Prefix),
                advancing(Action::Test { bit, source: Operand::Register(register) }),
            ],
        ),
        None => if selector == THROUGH_HL {
            Ok(
                seq![
                    plain(Action::Prefix),
                    handing_over(Action::Read { from: Place::ThroughHl }),
                    advancing(Action::Test { bit, source: Operand::Latch }),
                ],
            )
        } else {
            not_scheduled()
        },
    }
}

/// Arithmetic or logic on the accumulator and a register or the byte through
/// HL.
pub open spec fn alu_steps(operation: AluOperation, source: u8) -> Result<Seq<MicroOp>, DecodeError> {
    match selected_register(source) {
        Some(s) => Ok(
            seq![
                completing(Action::Alu { operation, source: Operand::Register(s) }),
            ],
        ),
        None => if source == THROUGH_HL {
            Ok(
                seq![
                    completing(Action::Read { from: Place::ThroughHl }),
                    plain(Action::Alu { operation, source: Operand::Latch }),
                ],
            )
        } else {
            not_scheduled()
        },
    }
}

/// The forms that work on a register pair.
pub open spec fn pair_steps(name: InstructionName, pair: Register16) -> Result<Seq<MicroOp>, DecodeError> {
    match name {
        InstructionName::LdR16U16 => Ok(
            seq![
                plain(Action::FetchLow),
                handing_over(Action::FetchHigh),
                advancing(Action::LoadPair { pair }),
            ],
        ),
        InstructionName::IncR16 => Ok(
            seq![
                completing(Action::StepPair { pair, up: true }),
                plain(Action::Nothing),
            ],
        ),
        InstructionName::DecR16 => Ok(
            seq![
                completing(Action::StepPair { pair, up: false }),
                plain(Action::Nothing),
            ],
        ),
        InstructionName::AddHlR16 => Ok(
            seq![
                completing(Action::AddHl { pair }),
                plain(Action::Nothing),
            ],
        ),
        InstructionName::PopR16 => Ok(
            seq![
                advancing(Action::PopLow),
                handing_over(Action::PopHigh),
                plain(Action::LoadPair { pair }),
            ],
        ),
        InstructionName::PushR16 => Ok(
            seq![
                advancing(Action::StepPair { pair: Register16::SP, up: false }),
                plain(Action::PushHigh { word: Word::Pair(pair) }),
                handing_over(Action::PushLow { word: Word::Pair(pair) }),
                plain(Action::Nothing),
            ],
        ),
        _ => not_scheduled(),
    }
}

/// The forms that take no selector.
pub open spec fn fixed_steps(name: InstructionName) -> Result<Seq<MicroOp>, DecodeError> {
    match name {
        InstructionName::Nop => Ok(
            seq![
                completing(Action::Nothing),
            ],
        ),
        InstructionName::Halt => Ok(
            seq![
                completing(Action::Halt),
            ],
        ),
        InstructionName::Stop => Ok(
            seq![
                completing(Action::Stop),
            ],
        ),
        InstructionName::LdPtrU16Sp => Ok(
            seq![
                plain(Action::FetchLow),
                plain(Action::FetchHigh),
                plain(Action::StoreSpLow),
                handing_over(Action::StoreSpHigh),
                advancing(Action::Nothing),
            ],
        ),
        InstructionName::LdhPtrU8A => Ok(
            seq![
                plain(Action::FetchLow),
                handing_over(Action::Write { to: Place::HighPage, source: Operand::Register(Register8::A) }),
                advancing(Action::Nothing),
            ],
        ),
        InstructionName::LdhAPtrU8 => Ok(
            seq![
                plain(Action::FetchLow),
                handing_over(Action::Read { from: Place::HighPage }),
                advancing(Action::Load { target: Register8::A, source: Operand::Latch }),
            ],
        ),
        InstructionName::LdhPtrCA => Ok(
            seq![
                completing(Action::Write { to: Place::HighPageC, source: Operand::Register(Register8::A) }),
                plain(Action::Nothing),
            ],
        ),
        InstructionName::LdhAPtrC => Ok(
            seq![
                completing(Action::Read { from: Place::HighPageC }),
                plain(Action::Load { target: Register8::A, source: Operand::Latch }),
            ],
        ),
        InstructionName::LdPtrU16A => Ok(
            seq![
                plain(Action::FetchLow),
                plain(Action::FetchHigh),
                handing_over(Action::Write { to: Place::Latched, source: Operand::Register(Register8::A) }),
                advancing(Action::Nothing),
            ],
        ),
        InstructionName::LdAPtrU16 => Ok(
            seq![
                plain(Action::FetchLow),
                plain(Action::FetchHigh),
                handing_over(Action::Read { from: Place::Latched }),
                advancing(Action::Load { target: Register8::A, source: Operand::Latch }),
            ],
        ),
        InstructionName::JrUnconditional => Ok(
            seq![
                plain(Action::FetchLow),
                handing_over(Action::Offset),
                plain(Action::Jump),
            ],
        ),
        InstructionName::CallU16 => Ok(
            seq![
                plain(Action::FetchLow),
                plain(Action::FetchHigh),
                advancing(Action::StepPair { pair: Register16::SP, up: false }),
                plain(Action::PushHigh { word: Word::ProgramCounter }),
                handing_over(Action::PushLow { word: Word::ProgramCounter }),
                plain(Action::Jump),
            ],
        ),
        InstructionName::AddSpI8 => Ok(
            seq![
                plain(Action::FetchLow),
                plain(Action::OffsetSp),
                handing_over(Action::Nothing),
                advancing(Action::LoadPair { pair: Register16::SP }),
            ],
        ),
        InstructionName::LdHlSpI8 => Ok(
            seq![
                plain(Action::FetchLow),
                handing_over(Action::OffsetSp),
                advancing(Action::LoadPair { pair: Register16::HL }),
            ],
        ),
        _ => not_scheduled(),
    }
}

/// Restart: the address behind the instruction goes on the stack and the
/// program counter to the slot.
pub open spec fn restart_steps(slot: u8) -> Result<Seq<MicroOp>, DecodeError> {
    if slot < 8 {
        Ok(
            seq![
                advancing(Action::StepPair { pair: Register16::SP, up: false }),
                plain(Action::PushHigh { word: Word::ProgramCounter }),
                handing_over(Action::PushLow { word: Word::ProgramCounter }),
                plain(Action::Restart { slot }),
            ],
        )
    } else {
        not_scheduled()
    }
}

/// The forms that read selectors other than a register pair.
pub open spec fn selected_steps(instruction: Instruction) -> Result<Seq<MicroOp>, DecodeError> {
    let name = instruction.name;
    match name {
        InstructionName::LdR8R8 => load_steps(instruction.target, instruction.source),
        InstructionName::LdR8U8 => immediate_load_steps(instruction.target),
        InstructionName::IncR8 => change_steps(instruction.target, Change::Step { up: true }),
        InstructionName::DecR8 => change_steps(instruction.target, Change::Step { up: false }),
        InstructionName::Rst => restart_steps(instruction.target),
        InstructionName::BitR8 => if instruction.target < 8 {
            test_steps(instruction.target, instruction.source)
        } else {
            not_scheduled()
        },
        InstructionName::ResR8 | InstructionName::SetR8 => if instruction.target < 8 {
            prefixed_change_steps(
                instruction.source,
                Change::Assign { bit: instruction.target, value: name == InstructionName::SetR8 },
            )
        } else {
            not_scheduled()
        },
        _ => match shift_operation_of(name) {
            Some(operation) => prefixed_change_steps(
                instruction.source,
                Change::Shift { operation },
            ),
            None => match alu_operation_of(name) {
                Some(operation) => if takes_immediate(name) {
                    Ok(
                        seq![
                            handing_over(Action::FetchLow),
                            advancing(Action::Alu { operation, source: Operand::Latch }),
                        ],
                    )
                } else {
                    alu_steps(operation, instruction.source)
                },
                None => match accumulator_operation_of(name) {
                    Some(operation) => Ok(
                        seq![
                            completing(Action::Accumulator { operation }),
                        ],
                    ),
                    None => fixed_steps(name),
                },
            },
        },
    }
}

/// The micro-operations of `instruction`, in the order they run, or
/// `UnimplementedOpcode` for an instruction that has no schedule: the
/// conditional jumps and returns, the escape byte on its own, and any
/// descriptor whose selectors are out of range for its operation.
pub open spec fn scheduled(instruction: Instruction) -> Result<Seq<MicroOp>, DecodeError> {
    match instruction.name {
        InstructionName::LdR16U16
        | InstructionName::IncR16
        | InstructionName::DecR16
        | InstructionName::AddHlR16 => match selected_pair(instruction.pair) {
            Some(pair) => pair_steps(instruction.name, pair),
            None => not_scheduled(),
        },
        InstructionName::PopR16 | InstructionName::PushR16 => match selected_stack_pair(
            instruction.pair,
        ) {
            Some(pair) => pair_steps(instruction.name, pair),
            None => not_scheduled(),
        },
        _ => selected_steps(instruction),
    }
}

/// Whether the condition a 2-bit selector names holds: not zero, zero, no
/// carry, carry.
pub open spec fn condition_holds(condition: u8, flags: Flags) -> Option<bool> {
    if condition == 0 {
        Some(!flags.zero)
    } else if condition == 1 {
        Some(flags.zero)
    } else if condition == 2 {
        Some(!flags.carry)
    } else if condition == 3 {
        Some(flags.carry)
    } else {
        None
    }
}

/// Whether `name` is an instruction whose course depends on a condition.
pub open spec fn is_conditional(name: InstructionName) -> bool {
    name == InstructionName::JrCond || name == InstructionName::RetCond
}

/// The conditional forms, taken or not.
pub open spec fn conditional_steps(name: InstructionName, taken: bool) -> Result<Seq<MicroOp>, DecodeError> {
    match name {
        InstructionName::JrCond => if taken {
            Ok(
                seq![
                    plain(Action::FetchLow),
                    handing_over(Action::Offset),
                    plain(Action::Jump),
                ],
            )
        } else {
            Ok(
                seq![
                    handing_over(Action::FetchLow),
                    advancing(Action::Nothing),
                ],
            )
        },
        InstructionName::RetCond => if taken {
            Ok(
                seq![
                    advancing(Action::Nothing),
                    plain(Action::PopLow),
                    plain(Action::PopHigh),
                    handing_over(Action::Nothing),
                    plain(Action::Jump),
                ],
            )
        } else {
            Ok(
                seq![
                    completing(Action::Nothing),
                    plain(Action::Nothing),
                ],
            )
        },
        _ => not_scheduled(),
    }
}

/// The micro-operations of `instruction` when it is issued with `flags` in
/// F. Only the conditional jumps and returns look at the flags: they are
/// scheduled as taken or as not taken. Every other instruction is scheduled
/// as [`scheduled`] says.
pub open spec fn scheduled_given(instruction: Instruction, flags: Flags) -> Result<
    Seq<MicroOp>,
    DecodeError,
> {
    if is_conditional(instruction.name) {
        match condition_holds(instruction.condition, flags) {
            Some(taken) => conditional_steps(instruction.name, taken),
            None => not_scheduled(),
        }
    } else {
        scheduled(instruction)
    }
}

/// The machine cycles of each operation; `through_hl` and `into_hl` say
/// whether the source and the target selector name the byte through HL.
pub open spec fn cycles_of(name: InstructionName, through_hl: bool, into_hl: bool) -> nat {
    match name {
        InstructionName::CallU16 => 6,
        InstructionName::LdPtrU16Sp => 5,
        InstructionName::LdPtrU16A
        | InstructionName::LdAPtrU16
        | InstructionName::AddSpI8
        | InstructionName::PushR16
        | InstructionName::Rst => 4,
        InstructionName::LdR16U16
        | InstructionName::LdhPtrU8A
        | InstructionName::LdhAPtrU8
        | InstructionName::LdHlSpI8
        | InstructionName::PopR16
        | InstructionName::JrUnconditional => 3,
        InstructionName::IncR16
        | InstructionName::DecR16
        | InstructionName::AddHlR16
        | InstructionName::LdhPtrCA
        | InstructionName::LdhAPtrC => 2,
        InstructionName::LdR8R8 => if through_hl || into_hl {
            2
        } else {
            1
        },
        InstructionName::LdR8U8 => if into_hl {
            3
        } else {
            2
        },
        InstructionName::IncR8 | InstructionName::DecR8 => if into_hl {
            3
        } else {
            1
        },
        InstructionName::BitR8 => if through_hl {
            3
        } else {
            2
        },
        _ => if is_prefixed(name) {
            if through_hl {
                4
            } else {
                2
            }
        } else if alu_operation_of(name) is Some && (takes_immediate(name) || through_hl) {
            2
        } else {
            1
        },
    }
}

/// The machine cycles `instruction` is declared to take; `None` for an
/// instruction that has no schedule.
pub open spec fn declared_cycles(instruction: Instruction) -> Option<nat> {
    if scheduled(instruction) is Err {
        None
    } else {
        Some(
            cycles_of(
                instruction.name,
                instruction.source == THROUGH_HL,
                instruction.target == THROUGH_HL,
            ),
        )
    }
}

/// The machine cycles `instruction` is declared to take when it is issued
/// with `flags` in F: a conditional jump takes 3 cycles when taken and 2
/// when not, a conditional return 5 and 2.
pub open spec fn declared_cycles_given(instruction: Instruction, flags: Flags) -> Option<nat> {
    if scheduled_given(instruction, flags) is Err {
        None
    } else if is_conditional(instruction.name) {
        Some(
            if condition_holds(instruction.condition, flags) != Some(true) {
                2
            } else if instruction.name == InstructionName::JrCond {
                3
            } else {
                5
            },
        )
    } else {
        declared_cycles(instruction)
    }
}

/// The bytes an instruction of this name occupies, opcode and escape byte
/// included.
pub open spec fn length_of(name: InstructionName) -> int {
    match name {
        InstructionName::LdPtrU16Sp
        | InstructionName::LdR16U16
        | InstructionName::LdPtrU16A
        | InstructionName::LdAPtrU16
        | InstructionName::CallU16 => 3,
        InstructionName::LdR8U8
        | InstructionName::Stop
        | InstructionName::LdhPtrU8A
        | InstructionName::LdhAPtrU8
        | InstructionName::JrUnconditional
        | InstructionName::JrCond
        | InstructionName::AddSpI8
        | InstructionName::LdHlSpI8 => 2,
        name => if takes_immediate(name) || is_prefixed(name) {
            2
        } else {
            1
        },
    }
}

/// The bytes `instruction` occupies, opcode and escape byte included.
pub open spec fn encoded_length(instruction: Instruction) -> int {
    length_of(instruction.name)
}

/// How many bytes the first `count` of `ops` step the program counter.
pub open spec fn advance(ops: Seq<MicroOp>, count: int) -> int
    decreases count,
{
    if count <= 0 {
        0
    } else {
        advance(ops, count - 1) + ops[count - 1].pc_steps()
    }
}

/// Whether `instruction` moves the program counter somewhere else than to
/// the instruction after it.
pub open spec fn is_jump(instruction: Instruction) -> bool {
    instruction.name == InstructionName::JrUnconditional || instruction.name
        == InstructionName::CallU16 || instruction.name == InstructionName::Rst
}

/// Whether `instruction`, issued with `flags` in F, moves the program
/// counter somewhere else than to the instruction after it.
pub open spec fn is_jump_given(instruction: Instruction, flags: Flags) -> bool {
    is_jump(instruction) || (is_conditional(instruction.name) && condition_holds(
        instruction.condition,
        flags,
    ) == Some(true))
}

fn steps1(first: MicroOp) -> (v: Vec<MicroOp>)
    ensures
        v@ == seq![first],
{
    let v = vec![first];
    assert(v@ =~= seq![first]);
    v
}

fn steps2(first: MicroOp, second: MicroOp) -> (v: Vec<MicroOp>)
    ensures
        v@ == seq![first, second],
{
    let v = vec![first, second];
    assert(v@ =~= seq![first, second]);
    v
}

fn steps3(first: MicroOp, second: MicroOp, third: MicroOp) -> (v: Vec<MicroOp>)
    ensures
        v@ == seq![first, second, third],
{
    let v = vec![first, second, third];
    assert(v@ =~= seq![first, second, third]);
    v
}

fn steps4(first: MicroOp, second: MicroOp, third: MicroOp, fourth: MicroOp) -> (v: Vec<MicroOp>)
    ensures
        v@ == seq![first, second, third, fourth],
{
    let v = vec![first, second, third, fourth];
    assert(v@ =~= seq![first, second, third, fourth]);
    v
}

fn steps5(
    first: MicroOp,
    second: MicroOp,
    third: MicroOp,
    fourth: MicroOp,
    fifth: MicroOp,
) -> (v: Vec<MicroOp>)
    ensures
        v@ == seq![first, second, third, fourth, fifth],
{
    let v = vec![first, second, third, fourth, fifth];
    assert(v@ =~= seq![first, second, third, fourth, fifth]);
    v
}

fn steps6(
    first: MicroOp,
    second: MicroOp,
    third: MicroOp,
    fourth: MicroOp,
    fifth: MicroOp,
    sixth: MicroOp,
) -> (v: Vec<MicroOp>)
    ensures
        v@ == seq![first, second, third, fourth, fifth, sixth],
{
    let v = vec![first, second, third, fourth, fifth, sixth];
    assert(v@ =~= seq![first, second, third, fourth, fifth, sixth]);
    v
}

/// Whether `r` is the executable form of `expected`.
pub open spec fn same_schedule(
    r: Result<Vec<MicroOp>, DecodeError>,
    expected: Result<Seq<MicroOp>, DecodeError>,
) -> bool {
    match r {
        Ok(v) => expected == Ok::<Seq<MicroOp>, DecodeError>(v@),
        Err(e) => expected == Err::<Seq<MicroOp>, DecodeError>(e),
    }
}

fn alu_operation(name: InstructionName) -> (r: Option<(AluOperation, bool)>)
    ensures
        match r {
            Some((operation, immediate)) => alu_operation_of(name) == Some(operation)
                && immediate == takes_immediate(name),
            None => alu_operation_of(name) is None && !takes_immediate(name),
        },
{
    match name {
        InstructionName::AddAR8 => Some((AluOperation::Add, false)),
        InstructionName::AdcAR8 => Some((AluOperation::Adc, false)),
        InstructionName::SubAR8 => Some((AluOperation::Sub, false)),
        InstructionName::SbcAR8 => Some((AluOperation::Sbc, false)),
        InstructionName::AndAR8 => Some((AluOperation::And, false)),
        InstructionName::XorAR8 => Some((AluOperation::Xor, false)),
        InstructionName::OrAR8 => Some((AluOperation::Or, false)),
        InstructionName::CpAR8 => Some((AluOperation::Cp, false)),
        InstructionName::AddAU8 => Some((AluOperation::Add, true)),
        InstructionName::AdcAU8 => Some((AluOperation::Adc, true)),
        InstructionName::SubAU8 => Some((AluOperation::Sub, true)),
        InstructionName::SbcAU8 => Some((AluOperation::Sbc, true)),
        InstructionName::AndAU8 => Some((AluOperation::And, true)),
        InstructionName::XorAU8 => Some((AluOperation::Xor, true)),
        InstructionName::OrAU8 => Some((AluOperation::Or, true)),
        InstructionName::CpAU8 => Some((AluOperation::Cp, true)),
        _ => None,
    }
}

fn accumulator_operation(name: InstructionName) -> (r: Option<AccumulatorOperation>)
    ensures
        r == accumulator_operation_of(name),
{
    match name {
        InstructionName::Rlca => Some(AccumulatorOperation::Rlca),
        InstructionName::Rrca => Some(AccumulatorOperation::Rrca),
        InstructionName::Rla => Some(AccumulatorOperation::Rla),
        InstructionName::Rra => Some(AccumulatorOperation::Rra),
        InstructionName::Daa => Some(AccumulatorOperation::Daa),
        InstructionName::Cpl => Some(AccumulatorOperation::Cpl),
        InstructionName::Scf => Some(AccumulatorOperation::Scf),
        InstructionName::Ccf => Some(AccumulatorOperation::Ccf),
        _ => None,
    }
}

fn shift_operation(name: InstructionName) -> (r: Option<ShiftOperation>)
    ensures
        r == shift_operation_of(name),
{
    match name {
        InstructionName::RlcR8 => Some(ShiftOperation::Rlc),
        InstructionName::RrcR8 => Some(ShiftOperation::Rrc),
        InstructionName::RlR8 => Some(ShiftOperation::Rl),
        InstructionName::RrR8 => Some(ShiftOperation::Rr),
        InstructionName::SlaR8 => Some(ShiftOperation::Sla),
        InstructionName::SraR8 => Some(ShiftOperation::Sra),
        InstructionName::SwapR8 => Some(ShiftOperation::Swap),
        InstructionName::SrlR8 => Some(ShiftOperation::Srl),
        _ => None,
    }
}

fn load(target: u8, source: u8) -> (r: Result<Vec<MicroOp>, DecodeError>)
    ensures
        same_schedule(r, load_steps(target, source)),
{
    match (register8(target), register8(source)) {
        (Some(t), Some(s)) => Ok(
            steps1(
                MicroOp::completing(Action::Load { target: t, source: Operand::Register(s) }),
            ),
        ),
        (Some(t), None) => if source == THROUGH_HL {
            Ok(
                steps2(
                    MicroOp::completing(Action::Read { from: Place::ThroughHl }),
                    MicroOp::plain(Action::Load { target: t, source: Operand::Latch }),
                ),
            )
        } else {
            Err(DecodeError::UnimplementedOpcode)
        },
        (None, Some(s)) => if target == THROUGH_HL {
            Ok(
                steps2(
                    MicroOp::completing(Action::Write { to: Place::ThroughHl, source: Operand::Register(s) }),
                    MicroOp::plain(Action::Nothing),
                ),
            )
        } else {
            Err(DecodeError::UnimplementedOpcode)
        },
        (None, None) => Err(DecodeError::UnimplementedOpcode),
    }
}

fn immediate_load(target: u8) -> (r: Result<Vec<MicroOp>, DecodeError>)
    ensures
        same_schedule(r, immediate_load_steps(target)),
{
    match register8(target) {
        Some(t) => Ok(
            steps2(
                MicroOp::handing_over(Action::FetchLow),
                MicroOp::advancing(Action::Load { target: t, source: Operand::Latch }),
            ),
        ),
        None => if target == THROUGH_HL {
            Ok(
                steps3(
                    MicroOp::plain(Action::FetchLow),
                    MicroOp::handing_over(Action::Write { to: Place::ThroughHl, source: Operand::Latch }),
                    MicroOp::advancing(Action::Nothing),
                ),
            )
        } else {
            Err(DecodeError::UnimplementedOpcode)
        },
    }
}

fn change_in_place(selector: u8, change: Change) -> (r: Result<Vec<MicroOp>, DecodeError>)
    ensures
        same_schedule(r, change_steps(selector, change)),
{
    match register8(selector) {
        Some(target) => Ok(
            steps1(
                MicroOp::completing(Action::Apply { target, change }),
            ),
        ),
        None => if selector == THROUGH_HL {
            Ok(
                steps3(
                    MicroOp::advancing(Action::Read { from: Place::ThroughHl }),
                    MicroOp::handing_over(Action::Update { change }),
                    MicroOp::plain(Action::Nothing),
                ),
            )
        } else {
            Err(DecodeError::UnimplementedOpcode)
        },
    }
}

fn prefixed_change(selector: u8, change: Change) -> (r: Result<Vec<MicroOp>, DecodeError>)
    ensures
        same_schedule(r, prefixed_change_steps(selector, change)),
{
    match register8(selector) {
        Some(target) => Ok(
            steps2(
                MicroOp::handing_over(Action::Prefix),
                MicroOp::advancing(Action::Apply { target, change }),
            ),
        ),
        None => if selector == THROUGH_HL {
            Ok(
                steps4(
                    MicroOp::plain(Action::Prefix),
                    MicroOp::plain(Action::Read { from: Place::ThroughHl }),
                    MicroOp::handing_over(Action::Update { change }),
                    MicroOp::advancing(Action::Nothing),
                ),
            )
        } else {
            Err(DecodeError::UnimplementedOpcode)
        },
    }
}

fn test(bit: u8, selector: u8) -> (r: Result<Vec<MicroOp>, DecodeError>)
    ensures
        same_schedule(r, test_steps(bit, selector)),
{
    match register8(selector) {
        Some(register) => Ok(
            steps2(
                MicroOp::handing_over(Action::Prefix),
                MicroOp::advancing(Action::Test { bit, source: Operand::Register(register) }),
            ),
        ),
        None => if selector == THROUGH_HL {
            Ok(
                steps3(
                    MicroOp::plain(Action::Prefix),
                    MicroOp::handing_over(Action::Read { from: Place::ThroughHl }),
                    MicroOp::advancing(Action::Test { bit, source: Operand::Latch }),
                ),
            )
        } else {
            Err(DecodeError::UnimplementedOpcode)
        },
    }
}

fn alu(operation: AluOperation, source: u8) -> (r: Result<Vec<MicroOp>, DecodeError>)
    ensures
        same_schedule(r, alu_steps(operation, source)),
{
    match register8(source) {
        Some(s) => Ok(
            steps1(
                MicroOp::completing(Action::Alu { operation, source: Operand::Register(s) }),
            ),
        ),
        None => if source == THROUGH_HL {
            Ok(
                steps2(
                    MicroOp::completing(Action::Read { from: Place::ThroughHl }),
                    MicroOp::plain(Action::Alu { operation, source: Operand::Latch }),
                ),
            )
        } else {
            Err(DecodeError::UnimplementedOpcode)
        },
    }
}

fn on_pair(name: InstructionName, pair: Register16) -> (r: Result<Vec<MicroOp>, DecodeError>)
    ensures
        same_schedule(r, pair_steps(name, pair)),
{
    match name {
        InstructionName::LdR16U16 => Ok(
            steps3(
                MicroOp::plain(Action::FetchLow),
                MicroOp::handing_over(Action::FetchHigh),
                MicroOp::advancing(Action::LoadPair { pair }),
            ),
        ),
        InstructionName::IncR16 => Ok(
            steps2(
                MicroOp::completing(Action::StepPair { pair, up: true }),
                MicroOp::plain(Action::Nothing),
            ),
        ),
        InstructionName::DecR16 => Ok(
            steps2(
                MicroOp::completing(Action::StepPair { pair, up: false }),
                MicroOp::plain(Action::Nothing),
            ),
        ),
        InstructionName::AddHlR16 => Ok(
            steps2(
                MicroOp::completing(Action::AddHl { pair }),
                MicroOp::plain(Action::Nothing),
            ),
        ),
        InstructionName::PopR16 => Ok(
            steps3(
                MicroOp::advancing(Action::PopLow),
                MicroOp::handing_over(Action::PopHigh),
                MicroOp::plain(Action::LoadPair { pair }),
            ),
        ),
        InstructionName::PushR16 => Ok(
            steps4(
                MicroOp::advancing(Action::StepPair { pair: Register16::SP, up: false }),
                MicroOp::plain(Action::PushHigh { word: Word::Pair(pair) }),
                MicroOp::handing_over(Action::PushLow { word: Word::Pair(pair) }),
                MicroOp::plain(Action::Nothing),
            ),
        ),
        _ => Err(DecodeError::UnimplementedOpcode),
    }
}

fn fixed(name: InstructionName) -> (r: Result<Vec<MicroOp>, DecodeError>)
    ensures
        same_schedule(r, fixed_steps(name)),
{
    match name {
        InstructionName::Nop => Ok(
            steps1(
                MicroOp::completing(Action::Nothing),
            ),
        ),
        InstructionName::Halt => Ok(
            steps1(
                MicroOp::completing(Action::Halt),
            ),
        ),
        InstructionName::Stop => Ok(
            steps1(
                MicroOp::completing(Action::Stop),
            ),
        ),
        InstructionName::LdPtrU16Sp => Ok(
            steps5(
                MicroOp::plain(Action::FetchLow),
                MicroOp::plain(Action::FetchHigh),
                MicroOp::plain(Action::StoreSpLow),
                MicroOp::handing_over(Action::StoreSpHigh),
                MicroOp::advancing(Action::Nothing),
            ),
        ),
        InstructionName::LdhPtrU8A => Ok(
            steps3(
                MicroOp::plain(Action::FetchLow),
                MicroOp::handing_over(Action::Write { to: Place::HighPage, source: Operand::Register(Register8::A) }),
                MicroOp::advancing(Action::Nothing),
            ),
        ),
        InstructionName::LdhAPtrU8 => Ok(
            steps3(
                MicroOp::plain(Action::FetchLow),
                MicroOp::handing_over(Action::Read { from: Place::HighPage }),
                MicroOp::advancing(Action::Load { target: Register8::A, source: Operand::Latch }),
            ),
        ),
        InstructionName::LdhPtrCA => Ok(
            steps2(
                MicroOp::completing(Action::Write { to: Place::HighPageC, source: Operand::Register(Register8::A) }),
                MicroOp::plain(Action::Nothing),
            ),
        ),
        InstructionName::LdhAPtrC => Ok(
            steps2(
                MicroOp::completing(Action::Read { from: Place::HighPageC }),
                MicroOp::plain(Action::Load { target: Register8::A, source: Operand::Latch }),
            ),
        ),
        InstructionName::LdPtrU16A => Ok(
            steps4(
                MicroOp::plain(Action::FetchLow),
                MicroOp::plain(Action::FetchHigh),
                MicroOp::handing_over(Action::Write { to: Place::Latched, source: Operand::Register(Register8::A) }),
                MicroOp::advancing(Action::Nothing),
            ),
        ),
        InstructionName::LdAPtrU16 => Ok(
            steps4(
                MicroOp::plain(Action::FetchLow),
                MicroOp::plain(Action::FetchHigh),
                MicroOp::handing_over(Action::Read { from: Place::Latched }),
                MicroOp::advancing(Action::Load { target: Register8::A, source: Operand::Latch }),
            ),
        ),
        InstructionName::JrUnconditional => Ok(
            steps3(
                MicroOp::plain(Action::FetchLow),
                MicroOp::handing_over(Action::Offset),
                MicroOp::plain(Action::Jump),
            ),
        ),
        InstructionName::CallU16 => Ok(
            steps6(
                MicroOp::plain(Action::FetchLow),
                MicroOp::plain(Action::FetchHigh),
                MicroOp::advancing(Action::StepPair { pair: Register16::SP, up: false }),
                MicroOp::plain(Action::PushHigh { word: Word::ProgramCounter }),
                MicroOp::handing_over(Action::PushLow { word: Word::ProgramCounter }),
                MicroOp::plain(Action::Jump),
            ),
        ),
        InstructionName::AddSpI8 => Ok(
            steps4(
                MicroOp::plain(Action::FetchLow),
                MicroOp::plain(Action::OffsetSp),
                MicroOp::handing_over(Action::Nothing),
                MicroOp::advancing(Action::LoadPair { pair: Register16::SP }),
            ),
        ),
        InstructionName::LdHlSpI8 => Ok(
            steps3(
                MicroOp::plain(Action::FetchLow),
                MicroOp::handing_over(Action::OffsetSp),
                MicroOp::advancing(Action::LoadPair { pair: Register16::HL }),
            ),
        ),
        _ => Err(DecodeError::UnimplementedOpcode),
    }
}

fn restart(slot: u8) -> (r: Result<Vec<MicroOp>, DecodeError>)
    ensures
        same_schedule(r, restart_steps(slot)),
{
    if slot < 8 {
        Ok(
            steps4(
                MicroOp::advancing(Action::StepPair { pair: Register16::SP, up: false }),
                MicroOp::plain(Action::PushHigh { word: Word::ProgramCounter }),
                MicroOp::handing_over(Action::PushLow { word: Word::ProgramCounter }),
                MicroOp::plain(Action::Restart { slot }),
            ),
        )
    } else {
        Err(DecodeError::UnimplementedOpcode)
    }
}

fn selected(instruction: &Instruction) -> (r: Result<Vec<MicroOp>, DecodeError>)
    ensures
        same_schedule(r, selected_steps(*instruction)),
{
    let name = instruction.name;
    match name {
        InstructionName::LdR8R8 => load(instruction.target, instruction.source),
        InstructionName::LdR8U8 => immediate_load(instruction.target),
        InstructionName::IncR8 => change_in_place(instruction.target, Change::Step { up: true }),
        InstructionName::DecR8 => change_in_place(instruction.target, Change::Step { up: false }),
        InstructionName::Rst => restart(instruction.target),
        InstructionName::BitR8 => if instruction.target < 8 {
            test(instruction.target, instruction.source)
        } else {
            Err(DecodeError::UnimplementedOpcode)
        },
        InstructionName::ResR8 => if instruction.target < 8 {
            prefixed_change(
                instruction.source,
                Change::Assign { bit: instruction.target, value: false },
            )
        } else {
            Err(DecodeError::UnimplementedOpcode)
        },
        InstructionName::SetR8 => if instruction.target < 8 {
            prefixed_change(
                instruction.source,
                Change::Assign { bit: instruction.target, value: true },
            )
        } else {
            Err(DecodeError::UnimplementedOpcode)
        },
        _ => match shift_operation(name) {
            Some(operation) => prefixed_change(instruction.source, Change::Shift { operation }),
            None => match alu_operation(name) {
                Some((operation, immediate)) => if immediate {
                    Ok(
                        steps2(
                            MicroOp::handing_over(Action::FetchLow),
                            MicroOp::advancing(Action::Alu { operation, source: Operand::Latch }),
                        ),
                    )
                } else {
                    alu(operation, instruction.source)
                },
                None => match accumulator_operation(name) {
                    Some(operation) => Ok(
                        steps1(
                            MicroOp::completing(Action::Accumulator { operation }),
                        ),
                    ),
                    None => fixed(name),
                },
            },
        },
    }
}

fn cycles(name: InstructionName, through_hl: bool, into_hl: bool) -> (r: u8)
    ensures
        r as nat == cycles_of(name, through_hl, into_hl),
{
    match name {
        InstructionName::CallU16 => 6,
        InstructionName::LdPtrU16Sp => 5,
        InstructionName::LdPtrU16A
        | InstructionName::LdAPtrU16
        | InstructionName::AddSpI8
        | InstructionName::PushR16
        | InstructionName::Rst => 4,
        InstructionName::LdR16U16
        | InstructionName::LdhPtrU8A
        | InstructionName::LdhAPtrU8
        | InstructionName::LdHlSpI8
        | InstructionName::PopR16
        | InstructionName::JrUnconditional => 3,
        InstructionName::IncR16
        | InstructionName::DecR16
        | InstructionName::AddHlR16
        | InstructionName::LdhPtrCA
        | InstructionName::LdhAPtrC => 2,
        InstructionName::LdR8R8 => if through_hl || into_hl {
            2
        } else {
            1
        },
        InstructionName::LdR8U8 => if into_hl {
            3
        } else {
            2
        },
        InstructionName::IncR8 | InstructionName::DecR8 => if into_hl {
            3
        } else {
            1
        },
        InstructionName::BitR8 => if through_hl {
            3
        } else {
            2
        },
        InstructionName::ResR8 | InstructionName::SetR8 => if through_hl {
            4
        } else {
            2
        },
        _ => match shift_operation(name) {
            Some(_) => if through_hl {
                4
            } else {
                2
            },
            None => match alu_operation(name) {
                Some((_, immediate)) => if immediate || through_hl {
                    2
                } else {
                    1
                },
                None => 1,
            },
        },
    }
}

fn holds(condition: u8, flags: Flags) -> (r: Option<bool>)
    ensures
        r == condition_holds(condition, flags),
{
    match condition {
        0 => Some(!flags.zero),
        1 => Some(flags.zero),
        2 => Some(!flags.carry),
        3 => Some(flags.carry),
        _ => None,
    }
}

fn conditional(name: InstructionName, taken: bool) -> (r: Result<Vec<MicroOp>, DecodeError>)
    ensures
        same_schedule(r, conditional_steps(name, taken)),
{
    match name {
        InstructionName::JrCond => if taken {
            Ok(
                steps3(
                    MicroOp::plain(Action::FetchLow),
                    MicroOp::handing_over(Action::Offset),
                    MicroOp::plain(Action::Jump),
                ),
            )
        } else {
            Ok(
                steps2(
                    MicroOp::handing_over(Action::FetchLow),
                    MicroOp::advancing(Action::Nothing),
                ),
            )
        },
        InstructionName::RetCond => if taken {
            Ok(
                steps5(
                    MicroOp::advancing(Action::Nothing),
                    MicroOp::plain(Action::PopLow),
                    MicroOp::plain(Action::PopHigh),
                    MicroOp::handing_over(Action::Nothing),
                    MicroOp::plain(Action::Jump),
                ),
            )
        } else {
            Ok(
                steps2(
                    MicroOp::completing(Action::Nothing),
                    MicroOp::plain(Action::Nothing),
                ),
            )
        },
        _ => Err(DecodeError::UnimplementedOpcode),
    }
}

impl Instruction {
    /// Expands the instruction into its micro-operations, in the order they
    /// run, as it is issued with `flags` in F.
    pub fn micro_ops_given(&self, flags: Flags) -> (r: Result<Vec<MicroOp>, DecodeError>)
        ensures
            same_schedule(r, scheduled_given(*self, flags)),
    {
        match self.name {
            InstructionName::JrCond | InstructionName::RetCond => match holds(
                self.condition,
                flags,
            ) {
                Some(taken) => conditional(self.name, taken),
                None => Err(DecodeError::UnimplementedOpcode),
            },
            _ => self.micro_ops(),
        }
    }

    /// The machine cycles the instruction is declared to take as it is
    /// issued with `flags` in F.
    pub fn machine_cycles_given(&self, flags: Flags) -> (r: Option<u8>)
        ensures
            match r {
                Some(n) => declared_cycles_given(*self, flags) == Some(n as nat),
                None => declared_cycles_given(*self, flags) is None,
            },
    {
        match self.name {
            InstructionName::JrCond => match holds(self.condition, flags) {
                Some(true) => Some(3),
                Some(false) => Some(2),
                None => None,
            },
            InstructionName::RetCond => match holds(self.condition, flags) {
                Some(true) => Some(5),
                Some(false) => Some(2),
                None => None,
            },
            _ => self.machine_cycles(),
        }
    }

    /// Expands the instruction into its micro-operations, in the order they
    /// run. A conditional instruction has no schedule apart from the flags
    /// it is issued with.
    pub fn micro_ops(&self) -> (r: Result<Vec<MicroOp>, DecodeError>)
        ensures
            same_schedule(r, scheduled(*self)),
    {
        match self.name {
            InstructionName::LdR16U16
            | InstructionName::IncR16
            | InstructionName::DecR16
            | InstructionName::AddHlR16 => match register16(self.pair) {
                Some(pair) => on_pair(self.name, pair),
                None => Err(DecodeError::UnimplementedOpcode),
            },
            InstructionName::PopR16 | InstructionName::PushR16 => match stack_register16(
                self.pair,
            ) {
                Some(pair) => on_pair(self.name, pair),
                None => Err(DecodeError::UnimplementedOpcode),
            },
            _ => selected(self),
        }
    }

    /// The machine cycles the instruction is declared to take, for an
    /// instruction that has a schedule.
    pub fn machine_cycles(&self) -> (r: Option<u8>)
        ensures
            match r {
                Some(n) => declared_cycles(*self) == Some(n as nat),
                None => declared_cycles(*self) is None,
            },
    {
        match self.micro_ops() {
            Err(_) => None,
            Ok(_) => Some(cycles(self.name, self.source == THROUGH_HL, self.target == THROUGH_HL)),
        }
    }
}

/// The index of the micro-operation that hands over, in a schedule of
/// `cycles` micro-operations: the last but one, or the only one.
pub open spec fn hand_over_index(cycles: int) -> int {
    if cycles >= 2 {
        cycles - 2
    } else {
        0
    }
}

/// The shape of a schedule of `cycles` micro-operations for an instruction
/// of `length` bytes.
///
/// Exactly one micro-operation hands over: the last but one, so that exactly
/// the last is left in the queue once it has run, or the only one. Only the
/// last may jump, and only a schedule of a single micro-operation may stop
/// the engine. Where there is more than one micro-operation, the program
/// counter is off the opcode before the last of them runs. Unless the last
/// jumps, the micro-operations together step the program counter once for
/// each byte of the instruction.
pub open spec fn well_shaped(ops: Seq<MicroOp>, cycles: int, length: int, jumps: bool) -> bool {
    &&& 1 <= cycles <= 6
    &&& 1 <= length <= 3
    &&& ops.len() == cycles
    &&& ops[hand_over_index(cycles)].hands_over
    &&& forall|j: int| 0 <= j < cycles && j != hand_over_index(cycles) ==> !ops[j].hands_over
    &&& forall|j: int| 0 <= j < cycles && cycles >= 2 ==> !ops[j].stops()
    &&& forall|j: int| 0 <= j < cycles - 1 ==> !ops[j].jumps()
    &&& ops[cycles - 1].jumps() == jumps
    &&& cycles >= 2 ==> 1 <= advance(ops, cycles - 1) <= length
    &&& !jumps ==> advance(ops, cycles) == length
}

proof fn lemma_load_shape(target: u8, source: u8)
    requires
        load_steps(target, source) is Ok,
    ensures
        well_shaped(
            load_steps(target, source)->Ok_0,
            cycles_of(InstructionName::LdR8R8, source == THROUGH_HL, target == THROUGH_HL) as int,
            1,
            false,
        ),
{
    reveal_with_fuel(advance, 7);
}

proof fn lemma_immediate_load_shape(target: u8, through_hl: bool)
    requires
        immediate_load_steps(target) is Ok,
    ensures
        well_shaped(
            immediate_load_steps(target)->Ok_0,
            cycles_of(InstructionName::LdR8U8, through_hl, target == THROUGH_HL) as int,
            2,
            false,
        ),
{
    reveal_with_fuel(advance, 7);
}

proof fn lemma_change_shape(selector: u8, change: Change)
    ensures
        change_steps(selector, change) matches Ok(ops) ==> well_shaped(
            ops,
            if selector == THROUGH_HL {
                3
            } else {
                1
            },
            1,
            false,
        ),
        prefixed_change_steps(selector, change) matches Ok(ops) ==> well_shaped(
            ops,
            if selector == THROUGH_HL {
                4
            } else {
                2
            },
            2,
            false,
        ),
{
    reveal_with_fuel(advance, 7);
}

proof fn lemma_test_shape(bit: u8, selector: u8)
    ensures
        test_steps(bit, selector) matches Ok(ops) ==> well_shaped(
            ops,
            if selector == THROUGH_HL {
                3
            } else {
                2
            },
            2,
            false,
        ),
{
    reveal_with_fuel(advance, 7);
}

proof fn lemma_alu_shape(operation: AluOperation, source: u8)
    ensures
        alu_steps(operation, source) matches Ok(ops) ==> well_shaped(
            ops,
            if source == THROUGH_HL {
                2
            } else {
                1
            },
            1,
            false,
        ),
{
    reveal_with_fuel(advance, 7);
}

proof fn lemma_pair_shape(
    name: InstructionName,
    pair: Register16,
    through_hl: bool,
    into_hl: bool,
)
    ensures
        pair_steps(name, pair) matches Ok(ops) ==> well_shaped(
            ops,
            cycles_of(name, through_hl, into_hl) as int,
            length_of(name),
            false,
        ),
{
    reveal_with_fuel(advance, 7);
}

proof fn lemma_fixed_shape(name: InstructionName, through_hl: bool, into_hl: bool)
    ensures
        fixed_steps(name) matches Ok(ops) ==> well_shaped(
            ops,
            cycles_of(name, through_hl, into_hl) as int,
            length_of(name),
            name == InstructionName::JrUnconditional || name == InstructionName::CallU16,
        ),
{
    reveal_with_fuel(advance, 7);
}

proof fn lemma_restart_shape(slot: u8)
    ensures
        restart_steps(slot) matches Ok(ops) ==> well_shaped(ops, 4, 1, true),
{
    reveal_with_fuel(advance, 7);
}

proof fn lemma_conditional_shape(name: InstructionName, taken: bool)
    ensures
        conditional_steps(name, taken) matches Ok(ops) ==> well_shaped(
            ops,
            if !taken {
                2
            } else if name == InstructionName::JrCond {
                3
            } else {
                5
            },
            length_of(name),
            taken,
        ),
{
    reveal_with_fuel(advance, 7);
}

proof fn lemma_selected_shape(instruction: Instruction)
    requires
        selected_steps(instruction) is Ok,
    ensures
        well_shaped(
            selected_steps(instruction)->Ok_0,
            cycles_of(
                instruction.name,
                instruction.source == THROUGH_HL,
                instruction.target == THROUGH_HL,
            ) as int,
            encoded_length(instruction),
            is_jump(instruction),
        ),
{
    reveal_with_fuel(advance, 3);
    let name = instruction.name;
    let through_hl = instruction.source == THROUGH_HL;
    let into_hl = instruction.target == THROUGH_HL;
    match name {
        InstructionName::LdR8R8 => {
            lemma_load_shape(instruction.target, instruction.source);
        },
        InstructionName::LdR8U8 => {
            lemma_immediate_load_shape(instruction.target, through_hl);
        },
        InstructionName::IncR8 => {
            lemma_change_shape(instruction.target, Change::Step { up: true });
        },
        InstructionName::DecR8 => {
            lemma_change_shape(instruction.target, Change::Step { up: false });
        },
        InstructionName::Rst => {
            lemma_restart_shape(instruction.target);
        },
        InstructionName::BitR8 => {
            lemma_test_shape(instruction.target, instruction.source);
        },
        InstructionName::ResR8 | InstructionName::SetR8 => {
            lemma_change_shape(
                instruction.source,
                Change::Assign { bit: instruction.target, value: name == InstructionName::SetR8 },
            );
        },
        _ => match shift_operation_of(name) {
            Some(operation) => {
                lemma_change_shape(instruction.source, Change::Shift { operation });
            },
            None => match alu_operation_of(name) {
                Some(operation) => {
                    if !takes_immediate(name) {
                        lemma_alu_shape(operation, instruction.source);
                    }
                },
                None => match accumulator_operation_of(name) {
                    Some(operation) => {},
                    None => {
                        lemma_fixed_shape(name, through_hl, into_hl);
                    },
                },
            },
        },
    }
}

/// The shape of every schedule.
///
/// A schedule has as many micro-operations as the instruction declares
/// cycles. Exactly one of them hands over to the fetch: the last but one, or
/// the only one. Only the last may jump, and it does so exactly when the
/// instruction is a jump. The engine is stopped by the halt and the stop
/// instruction alone.
pub proof fn lemma_schedule_shape(instruction: Instruction, flags: Flags)
    requires
        scheduled_given(instruction, flags) is Ok,
    ensures
        declared_cycles_given(instruction, flags) is Some,
        well_shaped(
            scheduled_given(instruction, flags)->Ok_0,
            declared_cycles_given(instruction, flags)->Some_0 as int,
            encoded_length(instruction),
            is_jump_given(instruction, flags),
        ),
        scheduled_given(instruction, flags)->Ok_0[0].stops() <==> instruction.name
            == InstructionName::Halt || instruction.name == InstructionName::Stop,
{
    let name = instruction.name;
    let through_hl = instruction.source == THROUGH_HL;
    let into_hl = instruction.target == THROUGH_HL;
    if is_conditional(name) {
        lemma_conditional_shape(name, condition_holds(instruction.condition, flags)->Some_0);
    } else {
        match name {
            InstructionName::LdR16U16
            | InstructionName::IncR16
            | InstructionName::DecR16
            | InstructionName::AddHlR16 => {
                lemma_pair_shape(
                    name,
                    selected_pair(instruction.pair)->Some_0,
                    through_hl,
                    into_hl,
                );
            },
            InstructionName::PopR16 | InstructionName::PushR16 => {
                lemma_pair_shape(
                    name,
                    selected_stack_pair(instruction.pair)->Some_0,
                    through_hl,
                    into_hl,
                );
            },
            _ => {
                lemma_selected_shape(instruction);
            },
        }
    }
}

/// Every instruction the decoder produces has a schedule: from the first
/// encoding space whatever the flags, but for the escape byte, which stands for
/// no instruction of its own; and from the second encoding space always.
pub proof fn lemma_decoded_has_schedule(byte: u8, flags: Flags)
    ensures
        decoded(byte) matches Ok(instruction) ==> instruction.name == InstructionName::Prefix
            || scheduled_given(instruction, flags) is Ok,
        scheduled(describe(prefixed_name(byte), byte)) is Ok,
{
    lemma_selector_ranges(byte);
    let prefixed = describe(prefixed_name(byte), byte);
    assert(selected_register(prefixed.source) is Some || prefixed.source == THROUGH_HL);
    assert(scheduled(prefixed) is Ok);
    match decoded(byte) {
        Ok(instruction) => {
            assert(instruction == describe(instruction.name, byte));
            assert(selected_register(instruction.source) is Some || instruction.source
                == THROUGH_HL);
            assert(selected_register(instruction.target) is Some || instruction.target
                == THROUGH_HL);
            assert(selected_pair(instruction.pair) is Some);
            assert(condition_holds(instruction.condition, flags) is Some);
            if byte == 0x76 {
            } else if 0x40 <= byte <= 0x7F {
                assert(instruction.name == InstructionName::LdR8R8);
                assert(!(instruction.source == THROUGH_HL && instruction.target == THROUGH_HL));
            }
        },
        Err(_) => {},
    }
}

/// The flags matter to the conditional instructions alone.
pub proof fn lemma_unconditional_schedule(instruction: Instruction, flags: Flags)
    requires
        !is_conditional(instruction.name),
    ensures
        scheduled_given(instruction, flags) == scheduled(instruction),
        declared_cycles_given(instruction, flags) == declared_cycles(instruction),
        is_jump_given(instruction, flags) == is_jump(instruction),
        scheduled(instruction) is Ok <==> declared_cycles(instruction) is Some,
{
}

} // verus!
