//! The opcode decoder.
//!
//! A fetched byte is classified in three stages:
//!
//! 1. a fixed table of irregular opcodes, matched by exact value;
//! 2. dispatch on the top two bits into four blocks, each of which reads
//!    further bit fields of the byte;
//! 3. the set of bytes the architecture leaves undefined.
//!
//! Whatever falls through all three is reported as not yet covered. The escape
//! byte `0xCB` decodes to [`InstructionName::Prefix`]; the byte that follows it
//! belongs to a second encoding space, decoded by [`decode_prefixed`], in
//! which every value is defined.
//!
//! Every descriptor carries the four operand selectors of its byte, so a
//! consumer never has to look at the raw opcode again.
use vstd::prelude::*;

verus! {

/// The operation an opcode names.
#[derive(Clone, Copy, Debug, PartialEq, Eq, Structural)]
pub enum InstructionName {
    // Irregular opcodes, matched by exact value.
    Nop,
    LdPtrU16Sp,
    Stop,
    JrUnconditional,
    Halt,
    LdhPtrU8A,
    AddSpI8,
    LdhAPtrU8,
    LdHlSpI8,
    LdhPtrCA,
    LdPtrU16A,
    LdhAPtrC,
    LdAPtrU16,
    CallU16,
    // Block 00.
    LdR16U16,
    IncR16,
    DecR16,
    AddHlR16,
    IncR8,
    DecR8,
    LdR8U8,
    Rlca,
    Rrca,
    Rla,
    Rra,
    Daa,
    Cpl,
    Scf,
    Ccf,
    JrCond,
    // Block 01.
    LdR8R8,
    // Block 10, and the immediate forms of block 11.
    AddAR8,
    AdcAR8,
    SubAR8,
    SbcAR8,
    AndAR8,
    XorAR8,
    OrAR8,
    CpAR8,
    AddAU8,
    AdcAU8,
    SubAU8,
    SbcAU8,
    AndAU8,
    XorAU8,
    OrAU8,
    CpAU8,
    // Rest of block 11.
    PopR16,
    PushR16,
    RetCond,
    Rst,
    Prefix,
    // The space behind the escape byte.
    RlcR8,
    RrcR8,
    RlR8,
    RrR8,
    SlaR8,
    SraR8,
    SwapR8,
    SrlR8,
    BitR8,
    ResR8,
    SetR8,
}

/// A decoded opcode: the operation and the selector fields of the byte.
///
/// All four selectors are always filled in from the byte; which of them an
/// operation reads depends on the operation.
#[derive(Clone, Copy, Debug, PartialEq, Eq, Structural)]
pub struct Instruction {
    pub name: InstructionName,
    /// Bits 2-0: source register index.
    pub source: u8,
    /// Bits 5-3: destination register index, bit index, or restart slot.
    pub target: u8,
    /// Bits 5-4: register-pair index.
    pub pair: u8,
    /// Bits 4-3: condition-code index.
    pub condition: u8,
}

/// Why a byte names no instruction.
#[derive(Clone, Copy, Debug, PartialEq, Eq, Structural)]
pub enum DecodeError {
    /// The byte is one the architecture leaves undefined.
    IllegalOpcode,
    /// The byte is a defined opcode that this decoder does not cover.
    UnimplementedOpcode,
}

/// The byte that redirects decoding to the second encoding space.
pub const ESCAPE: u8 = 0xCB;

/// Bits 2-0 of the byte.
pub open spec fn source_bits(byte: u8) -> u8 {
    byte % 8
}

/// Bits 5-3 of the byte.
pub open spec fn target_bits(byte: u8) -> u8 {
    (byte / 8) % 8
}

/// Bits 5-4 of the byte.
pub open spec fn pair_bits(byte: u8) -> u8 {
    (byte / 16) % 4
}

/// Bits 4-3 of the byte.
pub open spec fn condition_bits(byte: u8) -> u8 {
    (byte / 8) % 4
}

/// The top two bits of the byte.
pub open spec fn block_of(byte: u8) -> u8 {
    byte / 64
}

/// The descriptor of `byte` under the operation `name`.
pub open spec fn describe(name: InstructionName, byte: u8) -> Instruction {
    Instruction {
        name,
        source: source_bits(byte),
        target: target_bits(byte),
        pair: pair_bits(byte),
        condition: condition_bits(byte),
    }
}

/// The table of irregular opcodes.
pub open spec fn irregular_name(byte: u8) -> Option<InstructionName> {
    if byte == 0x00 {
        Some(InstructionName::Nop)
    } else if byte == 0x08 {
        Some(InstructionName::LdPtrU16Sp)
    } else if byte == 0x10 {
        Some(InstructionName::Stop)
    } else if byte == 0x18 {
        Some(InstructionName::JrUnconditional)
    } else if byte == 0x76 {
        Some(InstructionName::Halt)
    } else if byte == 0xE0 {
        Some(InstructionName::LdhPtrU8A)
    } else if byte == 0xE2 {
        Some(InstructionName::LdhPtrCA)
    } else if byte == 0xE8 {
        Some(InstructionName::AddSpI8)
    } else if byte == 0xEA {
        Some(InstructionName::LdPtrU16A)
    } else if byte == 0xF0 {
        Some(InstructionName::LdhAPtrU8)
    } else if byte == 0xF2 {
        Some(InstructionName::LdhAPtrC)
    } else if byte == 0xF8 {
        Some(InstructionName::LdHlSpI8)
    } else if byte == 0xFA {
        Some(InstructionName::LdAPtrU16)
    } else if byte == 0xCD {
        Some(InstructionName::CallU16)
    } else {
        None
    }
}

/// The bytes the architecture leaves undefined.
pub open spec fn is_illegal(byte: u8) -> bool {
    byte == 0xD3 || byte == 0xDB || byte == 0xDD || byte == 0xE3 || byte == 0xE4 || byte == 0xEB
        || byte == 0xEC || byte == 0xED || byte == 0xF4 || byte == 0xFC || byte == 0xFD
}

/// The arithmetic or logic operation that `operation` (0 to 7) selects, in the
/// form that takes a register operand.
pub open spec fn alu_register_name(operation: u8) -> InstructionName {
    if operation == 0 {
        InstructionName::AddAR8
    } else if operation == 1 {
        InstructionName::AdcAR8
    } else if operation == 2 {
        InstructionName::SubAR8
    } else if operation == 3 {
        InstructionName::SbcAR8
    } else if operation == 4 {
        InstructionName::AndAR8
    } else if operation == 5 {
        InstructionName::XorAR8
    } else if operation == 6 {
        InstructionName::OrAR8
    } else {
        InstructionName::CpAR8
    }
}

/// As [`alu_register_name`], in the form that takes an immediate operand.
pub open spec fn alu_immediate_name(operation: u8) -> InstructionName {
    if operation == 0 {
        InstructionName::AddAU8
    } else if operation == 1 {
        InstructionName::AdcAU8
    } else if operation == 2 {
        InstructionName::SubAU8
    } else if operation == 3 {
        InstructionName::SbcAU8
    } else if operation == 4 {
        InstructionName::AndAU8
    } else if operation == 5 {
        InstructionName::XorAU8
    } else if operation == 6 {
        InstructionName::OrAU8
    } else {
        InstructionName::CpAU8
    }
}

/// The single-byte accumulator or flag operation that `operation` (0 to 7)
/// selects.
pub open spec fn accumulator_name(operation: u8) -> InstructionName {
    if operation == 0 {
        InstructionName::Rlca
    } else if operation == 1 {
        InstructionName::Rrca
    } else if operation == 2 {
        InstructionName::Rla
    } else if operation == 3 {
        InstructionName::Rra
    } else if operation == 4 {
        InstructionName::Daa
    } else if operation == 5 {
        InstructionName::Cpl
    } else if operation == 6 {
        InstructionName::Scf
    } else {
        InstructionName::Ccf
    }
}

/// What block 00 holds besides the irregular opcodes.
///
/// The low nibble picks the register-pair forms, the low three bits the
/// 8-bit register forms and the accumulator operations; the conditional
/// relative jumps sit at `0x20`, `0x28`, `0x30` and `0x38`.
pub open spec fn block_zero_name(byte: u8) -> Option<InstructionName> {
    if byte % 16 == 0x1 {
        Some(InstructionName::LdR16U16)
    } else if byte % 16 == 0x3 {
        Some(InstructionName::IncR16)
    } else if byte % 16 == 0x9 {
        Some(InstructionName::AddHlR16)
    } else if byte % 16 == 0xB {
        Some(InstructionName::DecR16)
    } else if byte % 8 == 4 {
        Some(InstructionName::IncR8)
    } else if byte % 8 == 5 {
        Some(InstructionName::DecR8)
    } else if byte % 8 == 6 {
        Some(InstructionName::LdR8U8)
    } else if byte % 8 == 7 {
        Some(accumulator_name(target_bits(byte)))
    } else if byte % 8 == 0 && byte >= 0x20 {
        Some(InstructionName::JrCond)
    } else {
        None
    }
}

/// What block 11 holds besides the irregular opcodes.
pub open spec fn block_three_name(byte: u8) -> Option<InstructionName> {
    if byte % 16 == 0x1 {
        Some(InstructionName::PopR16)
    } else if byte % 16 == 0x5 {
        Some(InstructionName::PushR16)
    } else if byte % 8 == 0 && byte < 0xE0 {
        Some(InstructionName::RetCond)
    } else if byte % 8 == 6 {
        Some(alu_immediate_name(target_bits(byte)))
    } else if byte % 8 == 7 {
        Some(InstructionName::Rst)
    } else if byte == ESCAPE {
        Some(InstructionName::Prefix)
    } else {
        None
    }
}

/// Dispatch on the top two bits, for a byte that is not an irregular opcode.
pub open spec fn block_name(byte: u8) -> Option<InstructionName> {
    if block_of(byte) == 0 {
        block_zero_name(byte)
    } else if block_of(byte) == 1 {
        Some(InstructionName::LdR8R8)
    } else if block_of(byte) == 2 {
        Some(alu_register_name(target_bits(byte)))
    } else {
        block_three_name(byte)
    }
}

/// The result of decoding `byte`.
pub open spec fn decoded(byte: u8) -> Result<Instruction, DecodeError> {
    match irregular_name(byte) {
        Some(name) => Ok(describe(name, byte)),
        None => match block_name(byte) {
            Some(name) => Ok(describe(name, byte)),
            None => if is_illegal(byte) {
                Err(DecodeError::IllegalOpcode)
            } else {
                Err(DecodeError::UnimplementedOpcode)
            },
        },
    }
}

/// The operation a byte behind the escape byte names.
pub open spec fn prefixed_name(byte: u8) -> InstructionName {
    if block_of(byte) == 1 {
        InstructionName::BitR8
    } else if block_of(byte) == 2 {
        InstructionName::ResR8
    } else if block_of(byte) == 3 {
        InstructionName::SetR8
    } else if target_bits(byte) == 0 {
        InstructionName::RlcR8
    } else if target_bits(byte) == 1 {
        InstructionName::RrcR8
    } else if target_bits(byte) == 2 {
        InstructionName::RlR8
    } else if target_bits(byte) == 3 {
        InstructionName::RrR8
    } else if target_bits(byte) == 4 {
        InstructionName::SlaR8
    } else if target_bits(byte) == 5 {
        InstructionName::SraR8
    } else if target_bits(byte) == 6 {
        InstructionName::SwapR8
    } else {
        InstructionName::SrlR8
    }
}

/// The selector fields, read as shifts and masks, are the quotients and
/// remainders that [`describe`] is stated in.
pub proof fn lemma_selector_bits(byte: u8)
    ensures
        byte & 7 == source_bits(byte),
        (byte >> 3u8) & 7 == target_bits(byte),
        (byte >> 4u8) & 3 == pair_bits(byte),
        (byte >> 3u8) & 3 == condition_bits(byte),
        byte >> 6u8 == block_of(byte),
        byte & 0x0F == byte % 16,
{
    assert(byte & 7 == byte % 8 && (byte >> 3u8) & 7 == (byte / 8) % 8 && (byte >> 4u8) & 3 == (byte
        / 16) % 4 && (byte >> 3u8) & 3 == (byte / 8) % 4 && byte >> 6u8 == byte / 64 && byte & 0x0F
        == byte % 16) by (bit_vector);
}

/// The bytes the decoder covers: the irregular table, the whole of blocks 01
/// and 10, and the listed forms of blocks 00 and 11.
pub open spec fn is_covered(byte: u8) -> bool {
    ||| byte == 0x00 || byte == 0x08 || byte == 0x10 || byte == 0x18 || byte == 0x76
    ||| byte == 0xE0 || byte == 0xE2 || byte == 0xE8 || byte == 0xEA || byte == 0xCD
    ||| byte == 0xF0 || byte == 0xF2 || byte == 0xF8 || byte == 0xFA
    ||| 0x40 <= byte <= 0xBF
    ||| byte < 0x40 && (byte % 16 == 0x1 || byte % 16 == 0x3 || byte % 16 == 0x9 || byte % 16
        == 0xB)
    ||| byte < 0x40 && byte % 8 >= 4
    ||| byte == 0x20 || byte == 0x28 || byte == 0x30 || byte == 0x38
    ||| byte >= 0xC0 && (byte % 16 == 0x1 || byte % 16 == 0x5)
    ||| byte >= 0xC0 && byte % 8 >= 6
    ||| byte == 0xC0 || byte == 0xC8 || byte == 0xD0 || byte == 0xD8
    ||| byte == ESCAPE
}

/// Every undefined byte is rejected as illegal, and no other byte is.
pub proof fn lemma_illegal_bytes(byte: u8)
    ensures
        is_illegal(byte) <==> decoded(byte) == Err::<Instruction, DecodeError>(
            DecodeError::IllegalOpcode,
        ),
        is_illegal(byte) ==> !is_covered(byte),
{
}

/// Every covered byte decodes, to a descriptor whose selectors are the bit
/// fields of the byte; a byte that is neither covered nor illegal is reported
/// as not implemented.
pub proof fn lemma_covered_bytes(byte: u8)
    ensures
        is_covered(byte) <==> decoded(byte) is Ok,
        !is_covered(byte) && !is_illegal(byte) <==> decoded(byte) == Err::<
            Instruction,
            DecodeError,
        >(DecodeError::UnimplementedOpcode),
        decoded(byte) matches Ok(instruction) ==> {
            &&& instruction.source == byte & 7
            &&& instruction.target == (byte >> 3u8) & 7
            &&& instruction.pair == (byte >> 4u8) & 3
            &&& instruction.condition == (byte >> 3u8) & 3
        },
{
    lemma_selector_bits(byte);
}

/// Blocks 01 and 10 are regular: but for the halt opcode, the whole of block
/// 01 is the register-to-register load, and block 10 is the arithmetic and
/// logic operation that bits 5-3 select.
pub proof fn lemma_regular_blocks(byte: u8)
    ensures
        0x40 <= byte <= 0x7F && byte != 0x76 ==> decoded(byte) == Ok::<Instruction, DecodeError>(
            describe(InstructionName::LdR8R8, byte),
        ),
        0x80 <= byte <= 0xBF ==> decoded(byte) == Ok::<Instruction, DecodeError>(
            describe(alu_register_name(target_bits(byte)), byte),
        ),
{
}

/// Selectors stay within the width of their field.
pub proof fn lemma_selector_ranges(byte: u8)
    ensures
        source_bits(byte) < 8,
        target_bits(byte) < 8,
        pair_bits(byte) < 4,
        condition_bits(byte) < 4,
        pair_bits(byte) == target_bits(byte) / 2,
        condition_bits(byte) == target_bits(byte) % 4,
{
    assert(byte % 8 < 8 && (byte / 8) % 8 < 8 && (byte / 16) % 4 < 4 && (byte / 8) % 4 < 4 && (byte
        / 16) % 4 == ((byte / 8) % 8) / 2 && (byte / 8) % 4 == ((byte / 8) % 8) % 4)
        by (bit_vector);
}


fn describe_byte(name: InstructionName, byte: u8) -> (r: Instruction)
    ensures
        r == describe(name, byte),
{
    proof {
        lemma_selector_bits(byte);
    }
    Instruction {
        name,
        source: byte & 7,
        target: (byte >> 3u8) & 7,
        pair: (byte >> 4u8) & 3,
        condition: (byte >> 3u8) & 3,
    }
}

fn irregular(byte: u8) -> (r: Option<InstructionName>)
    ensures
        r == irregular_name(byte),
{
    match byte {
        0x00 => Some(InstructionName::Nop),
        0x08 => Some(InstructionName::LdPtrU16Sp),
        0x10 => Some(InstructionName::Stop),
        0x18 => Some(InstructionName::JrUnconditional),
        0x76 => Some(InstructionName::Halt),
        0xE0 => Some(InstructionName::LdhPtrU8A),
        0xE2 => Some(InstructionName::LdhPtrCA),
        0xE8 => Some(InstructionName::AddSpI8),
        0xEA => Some(InstructionName::LdPtrU16A),
        0xF0 => Some(InstructionName::LdhAPtrU8),
        0xF2 => Some(InstructionName::LdhAPtrC),
        0xF8 => Some(InstructionName::LdHlSpI8),
        0xFA => Some(InstructionName::LdAPtrU16),
        0xCD => Some(InstructionName::CallU16),
        _ => None,
    }
}

fn illegal(byte: u8) -> (r: bool)
    ensures
        r == is_illegal(byte),
{
    match byte {
        0xD3 | 0xE3 | 0xE4 | 0xF4 | 0xDB | 0xEB | 0xEC | 0xFC | 0xDD | 0xED | 0xFD => true,
        _ => false,
    }
}

fn alu_register(operation: u8) -> (r: InstructionName)
    ensures
        r == alu_register_name(operation),
{
    match operation {
        0 => InstructionName::AddAR8,
        1 => InstructionName::AdcAR8,
        2 => InstructionName::SubAR8,
        3 => InstructionName::SbcAR8,
        4 => InstructionName::AndAR8,
        5 => InstructionName::XorAR8,
        6 => InstructionName::OrAR8,
        _ => InstructionName::CpAR8,
    }
}

fn alu_immediate(operation: u8) -> (r: InstructionName)
    ensures
        r == alu_immediate_name(operation),
{
    match operation {
        0 => InstructionName::AddAU8,
        1 => InstructionName::AdcAU8,
        2 => InstructionName::SubAU8,
        3 => InstructionName::SbcAU8,
        4 => InstructionName::AndAU8,
        5 => InstructionName::XorAU8,
        6 => InstructionName::OrAU8,
        _ => InstructionName::CpAU8,
    }
}

fn accumulator(operation: u8) -> (r: InstructionName)
    ensures
        r == accumulator_name(operation),
{
    match operation {
        0 => InstructionName::Rlca,
        1 => InstructionName::Rrca,
        2 => InstructionName::Rla,
        3 => InstructionName::Rra,
        4 => InstructionName::Daa,
        5 => InstructionName::Cpl,
        6 => InstructionName::Scf,
        _ => InstructionName::Ccf,
    }
}

fn block_zero(byte: u8) -> (r: Option<InstructionName>)
    ensures
        r == block_zero_name(byte),
{
    proof {
        lemma_selector_bits(byte);
    }
    let low_nibble: u8 = byte & 0x0F;
    let low_three: u8 = byte & 7;
    if low_nibble == 0x1 {
        Some(InstructionName::LdR16U16)
    } else if low_nibble == 0x3 {
        Some(InstructionName::IncR16)
    } else if low_nibble == 0x9 {
        Some(InstructionName::AddHlR16)
    } else if low_nibble == 0xB {
        Some(InstructionName::DecR16)
    } else if low_three == 4 {
        Some(InstructionName::IncR8)
    } else if low_three == 5 {
        Some(InstructionName::DecR8)
    } else if low_three == 6 {
        Some(InstructionName::LdR8U8)
    } else if low_three == 7 {
        Some(accumulator((byte >> 3u8) & 7))
    } else if low_three == 0 && byte >= 0x20 {
        Some(InstructionName::JrCond)
    } else {
        None
    }
}

fn block_three(byte: u8) -> (r: Option<InstructionName>)
    ensures
        r == block_three_name(byte),
{
    proof {
        lemma_selector_bits(byte);
    }
    let low_nibble: u8 = byte & 0x0F;
    let low_three: u8 = byte & 7;
    if low_nibble == 0x1 {
        Some(InstructionName::PopR16)
    } else if low_nibble == 0x5 {
        Some(InstructionName::PushR16)
    } else if low_three == 0 && byte < 0xE0 {
        Some(InstructionName::RetCond)
    } else if low_three == 6 {
        Some(alu_immediate((byte >> 3u8) & 7))
    } else if low_three == 7 {
        Some(InstructionName::Rst)
    } else if byte == ESCAPE {
        Some(InstructionName::Prefix)
    } else {
        None
    }
}

fn block(byte: u8) -> (r: Option<InstructionName>)
    ensures
        r == block_name(byte),
{
    proof {
        lemma_selector_bits(byte);
    }
    match byte >> 6u8 {
        0 => block_zero(byte),
        1 => Some(InstructionName::LdR8R8),
        2 => Some(alu_register((byte >> 3u8) & 7)),
        _ => block_three(byte),
    }
}

/// A fetched byte that can be decoded.
pub trait Opcode {
    fn decode_instruction(self) -> Result<Instruction, DecodeError>;
}

impl Opcode for u8 {
    /// Decodes one fetched byte.
    fn decode_instruction(self) -> (r: Result<Instruction, DecodeError>)
        ensures
            r == decoded(self),
    {
        match irregular(self) {
            Some(name) => Ok(describe_byte(name, self)),
            None => match block(self) {
                Some(name) => Ok(describe_byte(name, self)),
                None => if illegal(self) {
                    Err(DecodeError::IllegalOpcode)
                } else {
                    Err(DecodeError::UnimplementedOpcode)
                },
            },
        }
    }
}

/// Decodes the byte that follows the escape byte. Every value is defined.
pub fn decode_prefixed(byte: u8) -> (r: Instruction)
    ensures
        r == describe(prefixed_name(byte), byte),
{
    proof {
        lemma_selector_bits(byte);
    }
    let name = match byte >> 6u8 {
        1 => InstructionName::BitR8,
        2 => InstructionName::ResR8,
        3 => InstructionName::SetR8,
        _ => match (byte >> 3u8) & 7 {
            0 => InstructionName::RlcR8,
            1 => InstructionName::RrcR8,
            2 => InstructionName::RlR8,
            3 => InstructionName::RrR8,
            4 => InstructionName::SlaR8,
            5 => InstructionName::SraR8,
            6 => InstructionName::SwapR8,
            _ => InstructionName::SrlR8,
        },
    };
    describe_byte(name, byte)
}

} // verus!
