//! The instruction set: what each opcode stands for, how long it is and how
//! many machine cycles it takes.

use super::alu::{Binary, CpuFlag, Unary};
use super::{ByteRegister, WordRegister};
use vstd::prelude::*;

verus! {

/// One instruction of the primary opcode table. Where two registers are
/// named, the first is read and the second is written.
#[derive(Clone, Copy, PartialEq, Eq, Debug, Structural)]
pub enum Operation {
    Noop,
    LoadImmediateIntoWordReg(WordRegister),
    LoadRegIntoAddressInWordReg(ByteRegister, WordRegister),
    IncrementWordReg(WordRegister),
    IncrementReg(ByteRegister),
    DecrementReg(ByteRegister),
    LoadImmediateIntoReg(ByteRegister),
    RotateAccLeft,
    LoadSPIntoImmediateAddress,
    AddWordRegIntoWordReg(WordRegister, WordRegister),
    LoadAtAddressInWordRegIntoReg(WordRegister, ByteRegister),
    DecrementWordReg(WordRegister),
    RotateAccRight,
    Stop,
    RotateAccLeftThroughCarry,
    RelativeJumpImmediateOffset,
    RotateAccRightThroughCarry,
    ConditionalRelativeJumpImmediateOffset(CpuFlag),
    NegativeConditionalRelativeJumpImmediateOffset(CpuFlag),
    LoadRegIntoAddressInWordRegAndIncrementWordReg(ByteRegister, WordRegister),
    DecimalAdjustAcc,
    LoadAtAddressInWordRegIntoRegAndIncrementWordReg(WordRegister, ByteRegister),
    ComplementAcc,
    LoadRegIntoAddressInWordRegAndDecrementWordReg(ByteRegister, WordRegister),
    IncrementAtAddressInWordReg(WordRegister),
    DecrementAtAddressInWordReg(WordRegister),
    LoadImmediateIntoAddressInWordReg(WordRegister),
    SetCarry,
    LoadAtAddressInWordRegIntoRegAndDecrementWordReg(WordRegister, ByteRegister),
    ComplementCarry,
    LoadRegIntoReg(ByteRegister, ByteRegister),
    Halt,
    AddRegIntoReg(ByteRegister, ByteRegister),
    AddAtAddressInWordRegIntoReg(WordRegister, ByteRegister),
    AddRegIntoRegWithCarry(ByteRegister, ByteRegister),
    AddAtAddressInWordRegIntoRegWithCarry(WordRegister, ByteRegister),
    SubRegFromReg(ByteRegister, ByteRegister),
    SubAtAddressInWordRegFromReg(WordRegister, ByteRegister),
    SubRegFromRegWithCarry(ByteRegister, ByteRegister),
    SubAtAddressInWordRegFromRegWithCarry(WordRegister, ByteRegister),
    AndRegIntoReg(ByteRegister, ByteRegister),
    AndAtAddressInWordRegIntoReg(WordRegister, ByteRegister),
    XorRegIntoReg(ByteRegister, ByteRegister),
    XorAtAddressInWordRegIntoReg(WordRegister, ByteRegister),
    OrRegIntoReg(ByteRegister, ByteRegister),
    OrAtAddressInWordRegIntoReg(WordRegister, ByteRegister),
    CompareRegAndReg(ByteRegister, ByteRegister),
    CompareAtAddressInWordRegAndReg(WordRegister, ByteRegister),
    ConditionalReturn(CpuFlag),
    NegativeConditionalReturn(CpuFlag),
    PopStackIntoWordReg(WordRegister),
    ConditionalJumpImmediateAddress(CpuFlag),
    NegativeConditionalJumpImmediateAddress(CpuFlag),
    JumpImmediateAddress,
    ConditionalCallImmediateAddress(CpuFlag),
    NegativeConditionalCallImmediateAddress(CpuFlag),
    PushWordRegIntoStack(WordRegister),
    AddImmediateIntoReg(ByteRegister),
    CallFixedAddress(u16),
    Return,
    Prefixed,
    CallImmediateAddress,
    AddImmediateIntoRegWithCarry(ByteRegister),
    SubImmediateFromReg(ByteRegister),
    ReturnAndEnableInterrupts,
    SubImmediateFromRegWithCarry(ByteRegister),
    LoadRegIntoImmediateIORegister(ByteRegister),
    LoadRegIntoRegIORegister(ByteRegister, ByteRegister),
    AndImmediateIntoReg(ByteRegister),
    AddSignedImmediateIntoWordReg(WordRegister),
    JumpToAddressInWordReg(WordRegister),
    LoadRegIntoImmediateAddress(ByteRegister),
    XorImmediateIntoReg(ByteRegister),
    LoadImmediateIORegisterIntoReg(ByteRegister),
    LoadRegIORegisterIntoReg(ByteRegister, ByteRegister),
    DisableInterrupts,
    OrImmediateIntoReg(ByteRegister),
    LoadSumOfWordRegAndSignedImmediateIntoWordReg(WordRegister, WordRegister),
    LoadWordRegIntoWordReg(WordRegister, WordRegister),
    LoadAtImmediateAddressIntoReg(ByteRegister),
    EnableInterrupts,
    CompareImmediateAndReg(ByteRegister),
}

/// One instruction of the table behind the prefix 0xCB.
#[derive(Clone, Copy, PartialEq, Eq, Debug, Structural)]
pub enum PrefixedOperation {
    RotateRegLeft(ByteRegister),
    RotateAtAddressInWordRegLeft(WordRegister),
    RotateRegRight(ByteRegister),
    RotateAtAddressInWordRegRight(WordRegister),
    RotateRegLeftThroughCarry(ByteRegister),
    RotateAtAddressInWordRegLeftThroughCarry(WordRegister),
    RotateRegRightThroughCarry(ByteRegister),
    RotateAtAddressInWordRegRightThroughCarry(WordRegister),
    ShiftRegLeftArithmetically(ByteRegister),
    ShiftAtAddressInWordRegLeftArithmetically(WordRegister),
    ShiftRegRightArithmetically(ByteRegister),
    ShiftAtAddressInWordRegRightArithmetically(WordRegister),
    SwapRegNibbles(ByteRegister),
    SwapAtAddressInWordRegNibbles(WordRegister),
    ShiftRegRightLogically(ByteRegister),
    ShiftAtAddressInWordRegRightLogically(WordRegister),
    TestForBitInReg(u8, ByteRegister),
    TestForBitInAtAddressInWordReg(u8, WordRegister),
    ClearBitInReg(u8, ByteRegister),
    ClearBitInAtAddressInWordReg(u8, WordRegister),
    SetBitInReg(u8, ByteRegister),
    SetBitInAtAddressInWordReg(u8, WordRegister),
}

/// The register that the three-bit field `code` names. Code 6 names no
/// register but the byte that HL points at; it stands for A here and is
/// told apart before this is asked.
pub open spec fn register_of(code: int) -> ByteRegister {
    if code == 0 {
        ByteRegister::B
    } else if code == 1 {
        ByteRegister::C
    } else if code == 2 {
        ByteRegister::D
    } else if code == 3 {
        ByteRegister::E
    } else if code == 4 {
        ByteRegister::H
    } else if code == 5 {
        ByteRegister::L
    } else {
        ByteRegister::A
    }
}

/// The three-bit field that names `register`; F has none and gets 6.
pub open spec fn register_code(register: ByteRegister) -> int {
    match register {
        ByteRegister::B => 0,
        ByteRegister::C => 1,
        ByteRegister::D => 2,
        ByteRegister::E => 3,
        ByteRegister::H => 4,
        ByteRegister::L => 5,
        ByteRegister::F => 6,
        ByteRegister::A => 7,
    }
}

/// The register pair that the two-bit field `code` names where the
/// fourth pair is SP.
pub open spec fn pair_of(code: int) -> WordRegister {
    if code == 0 {
        WordRegister::BC
    } else if code == 1 {
        WordRegister::DE
    } else if code == 2 {
        WordRegister::HL
    } else {
        WordRegister::SP
    }
}

/// The register pair that the two-bit field `code` names where the
/// fourth pair is AF: on the stack.
pub open spec fn stack_pair_of(code: int) -> WordRegister {
    if code == 3 {
        WordRegister::AF
    } else {
        pair_of(code)
    }
}

/// The two-bit field that names `pair`; PC has none and gets 0.
pub open spec fn pair_code(pair: WordRegister) -> int {
    match pair {
        WordRegister::BC => 0,
        WordRegister::DE => 1,
        WordRegister::HL => 2,
        WordRegister::SP => 3,
        WordRegister::AF => 3,
        WordRegister::PC => 0,
    }
}

/// The flag that the two-bit condition field `code` tests: Z for 0 and 1,
/// C for 2 and 3. Even codes ask for the flag to be clear.
pub open spec fn condition_flag(code: int) -> CpuFlag {
    if code < 2 {
        CpuFlag::Zero
    } else {
        CpuFlag::Carry
    }
}

/// The two-bit field of the condition "`flag` is set", less one where the
/// condition is "`flag` is clear".
pub open spec fn condition_code(flag: CpuFlag) -> int {
    match flag {
        CpuFlag::Zero => 1,
        CpuFlag::Carry => 3,
        CpuFlag::Negative => 1,
        CpuFlag::Half => 1,
    }
}

/// The operation of the unit that the three-bit field `code` names.
pub open spec fn binary_of(code: int) -> Binary {
    if code == 0 {
        Binary::Add
    } else if code == 1 {
        Binary::AddWithCarry
    } else if code == 2 {
        Binary::Sub
    } else if code == 3 {
        Binary::SubWithCarry
    } else if code == 4 {
        Binary::And
    } else if code == 5 {
        Binary::Xor
    } else if code == 6 {
        Binary::Or
    } else {
        Binary::Compare
    }
}

pub open spec fn binary_code(operation: Binary) -> int {
    match operation {
        Binary::Add => 0,
        Binary::AddWithCarry => 1,
        Binary::Sub => 2,
        Binary::SubWithCarry => 3,
        Binary::And => 4,
        Binary::Xor => 5,
        Binary::Or => 6,
        Binary::Compare => 7,
    }
}

/// The rotation or shift that the three-bit field `code` names.
pub open spec fn unary_of(code: int) -> Unary {
    if code == 0 {
        Unary::RotateLeft
    } else if code == 1 {
        Unary::RotateRight
    } else if code == 2 {
        Unary::RotateLeftThroughCarry
    } else if code == 3 {
        Unary::RotateRightThroughCarry
    } else if code == 4 {
        Unary::ShiftLeftArithmetically
    } else if code == 5 {
        Unary::ShiftRightArithmetically
    } else if code == 6 {
        Unary::SwapNibbles
    } else {
        Unary::ShiftRightLogically
    }
}

pub open spec fn unary_code(operation: Unary) -> int {
    match operation {
        Unary::RotateLeft => 0,
        Unary::RotateRight => 1,
        Unary::RotateLeftThroughCarry => 2,
        Unary::RotateRightThroughCarry => 3,
        Unary::ShiftLeftArithmetically => 4,
        Unary::ShiftRightArithmetically => 5,
        Unary::SwapNibbles => 6,
        Unary::ShiftRightLogically => 7,
    }
}

/// The instruction that applies `operation` to register `source`.
pub open spec fn binary_on_register(operation: Binary, source: ByteRegister) -> Operation {
    match operation {
        Binary::Add => Operation::AddRegIntoReg(source, ByteRegister::A),
        Binary::AddWithCarry => Operation::AddRegIntoRegWithCarry(source, ByteRegister::A),
        Binary::Sub => Operation::SubRegFromReg(source, ByteRegister::A),
        Binary::SubWithCarry => Operation::SubRegFromRegWithCarry(source, ByteRegister::A),
        Binary::And => Operation::AndRegIntoReg(source, ByteRegister::A),
        Binary::Xor => Operation::XorRegIntoReg(source, ByteRegister::A),
        Binary::Or => Operation::OrRegIntoReg(source, ByteRegister::A),
        Binary::Compare => Operation::CompareRegAndReg(source, ByteRegister::A),
    }
}

/// The instruction that applies `operation` to the byte that HL points at.
pub open spec fn binary_on_memory(operation: Binary) -> Operation {
    match operation {
        Binary::Add => Operation::AddAtAddressInWordRegIntoReg(WordRegister::HL, ByteRegister::A),
        Binary::AddWithCarry => Operation::AddAtAddressInWordRegIntoRegWithCarry(
            WordRegister::HL,
            ByteRegister::A,
        ),
        Binary::Sub => Operation::SubAtAddressInWordRegFromReg(WordRegister::HL, ByteRegister::A),
        Binary::SubWithCarry => Operation::SubAtAddressInWordRegFromRegWithCarry(
            WordRegister::HL,
            ByteRegister::A,
        ),
        Binary::And => Operation::AndAtAddressInWordRegIntoReg(WordRegister::HL, ByteRegister::A),
        Binary::Xor => Operation::XorAtAddressInWordRegIntoReg(WordRegister::HL, ByteRegister::A),
        Binary::Or => Operation::OrAtAddressInWordRegIntoReg(WordRegister::HL, ByteRegister::A),
        Binary::Compare => Operation::CompareAtAddressInWordRegAndReg(
            WordRegister::HL,
            ByteRegister::A,
        ),
    }
}

/// The instruction that applies `operation` to the byte after the opcode.
pub open spec fn binary_on_immediate(operation: Binary) -> Operation {
    match operation {
        Binary::Add => Operation::AddImmediateIntoReg(ByteRegister::A),
        Binary::AddWithCarry => Operation::AddImmediateIntoRegWithCarry(ByteRegister::A),
        Binary::Sub => Operation::SubImmediateFromReg(ByteRegister::A),
        Binary::SubWithCarry => Operation::SubImmediateFromRegWithCarry(ByteRegister::A),
        Binary::And => Operation::AndImmediateIntoReg(ByteRegister::A),
        Binary::Xor => Operation::XorImmediateIntoReg(ByteRegister::A),
        Binary::Or => Operation::OrImmediateIntoReg(ByteRegister::A),
        Binary::Compare => Operation::CompareImmediateAndReg(ByteRegister::A),
    }
}

/// Whether `opcode` stands for an instruction. Eleven opcodes of the last
/// quarter of the table do not.
pub open spec fn is_defined(opcode: u8) -> bool {
    opcode != 0xD3 && opcode != 0xDB && opcode != 0xDD && opcode != 0xE3 && opcode != 0xE4
        && opcode != 0xEB && opcode != 0xEC && opcode != 0xED && opcode != 0xF4 && opcode != 0xFC
        && opcode != 0xFD
}

/// The instruction that `opcode` stands for, by the fields of the opcode:
/// its top two bits, the three bits `y` below them and the last three bits
/// `z`. An opcode that stands for none is taken as `Noop`.
pub open spec fn decode_spec(opcode: u8) -> Operation {
    let y = (opcode as int / 8) % 8;
    let z = opcode as int % 8;
    if opcode < 0x40 {
        decode_first_quarter(y, z)
    } else if opcode < 0x80 {
        if y == 6 && z == 6 {
            Operation::Halt
        } else if y == 6 {
            Operation::LoadRegIntoAddressInWordReg(register_of(z), WordRegister::HL)
        } else if z == 6 {
            Operation::LoadAtAddressInWordRegIntoReg(WordRegister::HL, register_of(y))
        } else {
            Operation::LoadRegIntoReg(register_of(z), register_of(y))
        }
    } else if opcode < 0xC0 {
        if z == 6 {
            binary_on_memory(binary_of(y))
        } else {
            binary_on_register(binary_of(y), register_of(z))
        }
    } else {
        decode_last_quarter(y, z)
    }
}

/// The opcodes 0x00..=0x3F.
pub open spec fn decode_first_quarter(y: int, z: int) -> Operation {
    let pair = pair_of(y / 2);
    if z == 0 {
        if y == 0 {
            Operation::Noop
        } else if y == 1 {
            Operation::LoadSPIntoImmediateAddress
        } else if y == 2 {
            Operation::Stop
        } else if y == 3 {
            Operation::RelativeJumpImmediateOffset
        } else if y % 2 == 1 {
            Operation::ConditionalRelativeJumpImmediateOffset(condition_flag(y - 4))
        } else {
            Operation::NegativeConditionalRelativeJumpImmediateOffset(condition_flag(y - 4))
        }
    } else if z == 1 {
        if y % 2 == 0 {
            Operation::LoadImmediateIntoWordReg(pair)
        } else {
            Operation::AddWordRegIntoWordReg(pair, WordRegister::HL)
        }
    } else if z == 2 {
        if y == 0 || y == 2 {
            Operation::LoadRegIntoAddressInWordReg(ByteRegister::A, pair)
        } else if y == 1 || y == 3 {
            Operation::LoadAtAddressInWordRegIntoReg(pair, ByteRegister::A)
        } else if y == 4 {
            Operation::LoadRegIntoAddressInWordRegAndIncrementWordReg(
                ByteRegister::A,
                WordRegister::HL,
            )
        } else if y == 5 {
            Operation::LoadAtAddressInWordRegIntoRegAndIncrementWordReg(
                WordRegister::HL,
                ByteRegister::A,
            )
        } else if y == 6 {
            Operation::LoadRegIntoAddressInWordRegAndDecrementWordReg(
                ByteRegister::A,
                WordRegister::HL,
            )
        } else {
            Operation::LoadAtAddressInWordRegIntoRegAndDecrementWordReg(
                WordRegister::HL,
                ByteRegister::A,
            )
        }
    } else if z == 3 {
        if y % 2 == 0 {
            Operation::IncrementWordReg(pair)
        } else {
            Operation::DecrementWordReg(pair)
        }
    } else if z == 4 {
        if y == 6 {
            Operation::IncrementAtAddressInWordReg(WordRegister::HL)
        } else {
            Operation::IncrementReg(register_of(y))
        }
    } else if z == 5 {
        if y == 6 {
            Operation::DecrementAtAddressInWordReg(WordRegister::HL)
        } else {
            Operation::DecrementReg(register_of(y))
        }
    } else if z == 6 {
        if y == 6 {
            Operation::LoadImmediateIntoAddressInWordReg(WordRegister::HL)
        } else {
            Operation::LoadImmediateIntoReg(register_of(y))
        }
    } else {
        if y == 0 {
            Operation::RotateAccLeft
        } else if y == 1 {
            Operation::RotateAccRight
        } else if y == 2 {
            Operation::RotateAccLeftThroughCarry
        } else if y == 3 {
            Operation::RotateAccRightThroughCarry
        } else if y == 4 {
            Operation::DecimalAdjustAcc
        } else if y == 5 {
            Operation::ComplementAcc
        } else if y == 6 {
            Operation::SetCarry
        } else {
            Operation::ComplementCarry
        }
    }
}

/// The opcodes 0xC0..=0xFF.
pub open spec fn decode_last_quarter(y: int, z: int) -> Operation {
    let flag = condition_flag(y);
    if z == 0 {
        if y < 4 {
            if y % 2 == 1 {
                Operation::ConditionalReturn(flag)
            } else {
                Operation::NegativeConditionalReturn(flag)
            }
        } else if y == 4 {
            Operation::LoadRegIntoImmediateIORegister(ByteRegister::A)
        } else if y == 5 {
            Operation::AddSignedImmediateIntoWordReg(WordRegister::SP)
        } else if y == 6 {
            Operation::LoadImmediateIORegisterIntoReg(ByteRegister::A)
        } else {
            Operation::LoadSumOfWordRegAndSignedImmediateIntoWordReg(
                WordRegister::SP,
                WordRegister::HL,
            )
        }
    } else if z == 1 {
        if y % 2 == 0 {
            Operation::PopStackIntoWordReg(stack_pair_of(y / 2))
        } else if y == 1 {
            Operation::Return
        } else if y == 3 {
            Operation::ReturnAndEnableInterrupts
        } else if y == 5 {
            Operation::JumpToAddressInWordReg(WordRegister::HL)
        } else {
            Operation::LoadWordRegIntoWordReg(WordRegister::HL, WordRegister::SP)
        }
    } else if z == 2 {
        if y < 4 {
            if y % 2 == 1 {
                Operation::ConditionalJumpImmediateAddress(flag)
            } else {
                Operation::NegativeConditionalJumpImmediateAddress(flag)
            }
        } else if y == 4 {
            Operation::LoadRegIntoRegIORegister(ByteRegister::A, ByteRegister::C)
        } else if y == 5 {
            Operation::LoadRegIntoImmediateAddress(ByteRegister::A)
        } else if y == 6 {
            Operation::LoadRegIORegisterIntoReg(ByteRegister::C, ByteRegister::A)
        } else {
            Operation::LoadAtImmediateAddressIntoReg(ByteRegister::A)
        }
    } else if z == 3 {
        if y == 0 {
            Operation::JumpImmediateAddress
        } else if y == 1 {
            Operation::Prefixed
        } else if y == 6 {
            Operation::DisableInterrupts
        } else if y == 7 {
            Operation::EnableInterrupts
        } else {
            Operation::Noop
        }
    } else if z == 4 {
        if y < 4 {
            if y % 2 == 1 {
                Operation::ConditionalCallImmediateAddress(flag)
            } else {
                Operation::NegativeConditionalCallImmediateAddress(flag)
            }
        } else {
            Operation::Noop
        }
    } else if z == 5 {
        if y % 2 == 0 {
            Operation::PushWordRegIntoStack(stack_pair_of(y / 2))
        } else if y == 1 {
            Operation::CallImmediateAddress
        } else {
            Operation::Noop
        }
    } else if z == 6 {
        binary_on_immediate(binary_of(y))
    } else {
        Operation::CallFixedAddress((y * 8) as u16)
    }
}

/// The instruction that the byte `opcode` behind the prefix 0xCB stands
/// for: a rotation or shift in the first quarter, then a test, a clearing
/// and a setting of bit `y`, each on the register of field `z` or, for
/// `z` = 6, on the byte that HL points at.
pub open spec fn decode_prefixed_spec(opcode: u8) -> PrefixedOperation {
    let y = (opcode / 8) % 8;
    let z = opcode as int % 8;
    let register = register_of(z);
    if opcode < 0x40 {
        if z == 6 {
            unary_on_memory(unary_of(y as int))
        } else {
            unary_on_register(unary_of(y as int), register)
        }
    } else if opcode < 0x80 {
        if z == 6 {
            PrefixedOperation::TestForBitInAtAddressInWordReg(y, WordRegister::HL)
        } else {
            PrefixedOperation::TestForBitInReg(y, register)
        }
    } else if opcode < 0xC0 {
        if z == 6 {
            PrefixedOperation::ClearBitInAtAddressInWordReg(y, WordRegister::HL)
        } else {
            PrefixedOperation::ClearBitInReg(y, register)
        }
    } else {
        if z == 6 {
            PrefixedOperation::SetBitInAtAddressInWordReg(y, WordRegister::HL)
        } else {
            PrefixedOperation::SetBitInReg(y, register)
        }
    }
}

/// The instruction that applies `operation` to `register`.
pub open spec fn unary_on_register(operation: Unary, register: ByteRegister) -> PrefixedOperation {
    match operation {
        Unary::RotateLeft => PrefixedOperation::RotateRegLeft(register),
        Unary::RotateRight => PrefixedOperation::RotateRegRight(register),
        Unary::RotateLeftThroughCarry => PrefixedOperation::RotateRegLeftThroughCarry(register),
        Unary::RotateRightThroughCarry => PrefixedOperation::RotateRegRightThroughCarry(register),
        Unary::ShiftLeftArithmetically => PrefixedOperation::ShiftRegLeftArithmetically(register),
        Unary::ShiftRightArithmetically => PrefixedOperation::ShiftRegRightArithmetically(register),
        Unary::SwapNibbles => PrefixedOperation::SwapRegNibbles(register),
        Unary::ShiftRightLogically => PrefixedOperation::ShiftRegRightLogically(register),
    }
}

/// The instruction that applies `operation` to the byte that HL points at.
pub open spec fn unary_on_memory(operation: Unary) -> PrefixedOperation {
    match operation {
        Unary::RotateLeft => PrefixedOperation::RotateAtAddressInWordRegLeft(WordRegister::HL),
        Unary::RotateRight => PrefixedOperation::RotateAtAddressInWordRegRight(WordRegister::HL),
        Unary::RotateLeftThroughCarry => PrefixedOperation::RotateAtAddressInWordRegLeftThroughCarry(
            WordRegister::HL,
        ),
        Unary::RotateRightThroughCarry =>
            PrefixedOperation::RotateAtAddressInWordRegRightThroughCarry(WordRegister::HL),
        Unary::ShiftLeftArithmetically =>
            PrefixedOperation::ShiftAtAddressInWordRegLeftArithmetically(WordRegister::HL),
        Unary::ShiftRightArithmetically =>
            PrefixedOperation::ShiftAtAddressInWordRegRightArithmetically(WordRegister::HL),
        Unary::SwapNibbles => PrefixedOperation::SwapAtAddressInWordRegNibbles(WordRegister::HL),
        Unary::ShiftRightLogically => PrefixedOperation::ShiftAtAddressInWordRegRightLogically(
            WordRegister::HL,
        ),
    }
}

/// The register that the three-bit field `code` names.
fn register_from(code: u8) -> (r: ByteRegister)
    ensures
        r == register_of(code as int),
{
    if code == 0 {
        ByteRegister::B
    } else if code == 1 {
        ByteRegister::C
    } else if code == 2 {
        ByteRegister::D
    } else if code == 3 {
        ByteRegister::E
    } else if code == 4 {
        ByteRegister::H
    } else if code == 5 {
        ByteRegister::L
    } else {
        ByteRegister::A
    }
}

/// The register pair that the two-bit field `code` names, SP being the fourth.
fn pair_from(code: u8) -> (r: WordRegister)
    ensures
        r == pair_of(code as int),
{
    if code == 0 {
        WordRegister::BC
    } else if code == 1 {
        WordRegister::DE
    } else if code == 2 {
        WordRegister::HL
    } else {
        WordRegister::SP
    }
}

/// The flag that the condition field `code` tests.
fn condition_from(code: u8) -> (r: CpuFlag)
    ensures
        r == condition_flag(code as int),
{
    if code < 2 {
        CpuFlag::Zero
    } else {
        CpuFlag::Carry
    }
}

/// The operation of the unit that the three-bit field `code` names.
fn binary_from(code: u8) -> (r: Binary)
    ensures
        r == binary_of(code as int),
{
    if code == 0 {
        Binary::Add
    } else if code == 1 {
        Binary::AddWithCarry
    } else if code == 2 {
        Binary::Sub
    } else if code == 3 {
        Binary::SubWithCarry
    } else if code == 4 {
        Binary::And
    } else if code == 5 {
        Binary::Xor
    } else if code == 6 {
        Binary::Or
    } else {
        Binary::Compare
    }
}

/// The rotation or shift that the three-bit field `code` names.
fn unary_from(code: u8) -> (r: Unary)
    ensures
        r == unary_of(code as int),
{
    if code == 0 {
        Unary::RotateLeft
    } else if code == 1 {
        Unary::RotateRight
    } else if code == 2 {
        Unary::RotateLeftThroughCarry
    } else if code == 3 {
        Unary::RotateRightThroughCarry
    } else if code == 4 {
        Unary::ShiftLeftArithmetically
    } else if code == 5 {
        Unary::ShiftRightArithmetically
    } else if code == 6 {
        Unary::SwapNibbles
    } else {
        Unary::ShiftRightLogically
    }
}

/// The instruction that applies `operation` to register `source`.
fn register_operand(operation: Binary, source: ByteRegister) -> (r: Operation)
    ensures
        r == binary_on_register(operation, source),
{
    match operation {
        Binary::Add => Operation::AddRegIntoReg(source, ByteRegister::A),
        Binary::AddWithCarry => Operation::AddRegIntoRegWithCarry(source, ByteRegister::A),
        Binary::Sub => Operation::SubRegFromReg(source, ByteRegister::A),
        Binary::SubWithCarry => Operation::SubRegFromRegWithCarry(source, ByteRegister::A),
        Binary::And => Operation::AndRegIntoReg(source, ByteRegister::A),
        Binary::Xor => Operation::XorRegIntoReg(source, ByteRegister::A),
        Binary::Or => Operation::OrRegIntoReg(source, ByteRegister::A),
        Binary::Compare => Operation::CompareRegAndReg(source, ByteRegister::A),
    }
}

/// The instruction that applies `operation` to the byte that HL points at.
fn memory_operand(operation: Binary) -> (r: Operation)
    ensures
        r == binary_on_memory(operation),
{
    match operation {
        Binary::Add => Operation::AddAtAddressInWordRegIntoReg(WordRegister::HL, ByteRegister::A),
        Binary::AddWithCarry => Operation::AddAtAddressInWordRegIntoRegWithCarry(
            WordRegister::HL,
            ByteRegister::A,
        ),
        Binary::Sub => Operation::SubAtAddressInWordRegFromReg(WordRegister::HL, ByteRegister::A),
        Binary::SubWithCarry => Operation::SubAtAddressInWordRegFromRegWithCarry(
            WordRegister::HL,
            ByteRegister::A,
        ),
        Binary::And => Operation::AndAtAddressInWordRegIntoReg(WordRegister::HL, ByteRegister::A),
        Binary::Xor => Operation::XorAtAddressInWordRegIntoReg(WordRegister::HL, ByteRegister::A),
        Binary::Or => Operation::OrAtAddressInWordRegIntoReg(WordRegister::HL, ByteRegister::A),
        Binary::Compare => Operation::CompareAtAddressInWordRegAndReg(
            WordRegister::HL,
            ByteRegister::A,
        ),
    }
}

/// The instruction that applies `operation` to the byte after the opcode.
fn immediate_operand(operation: Binary) -> (r: Operation)
    ensures
        r == binary_on_immediate(operation),
{
    match operation {
        Binary::Add => Operation::AddImmediateIntoReg(ByteRegister::A),
        Binary::AddWithCarry => Operation::AddImmediateIntoRegWithCarry(ByteRegister::A),
        Binary::Sub => Operation::SubImmediateFromReg(ByteRegister::A),
        Binary::SubWithCarry => Operation::SubImmediateFromRegWithCarry(ByteRegister::A),
        Binary::And => Operation::AndImmediateIntoReg(ByteRegister::A),
        Binary::Xor => Operation::XorImmediateIntoReg(ByteRegister::A),
        Binary::Or => Operation::OrImmediateIntoReg(ByteRegister::A),
        Binary::Compare => Operation::CompareImmediateAndReg(ByteRegister::A),
    }
}

/// The instruction that applies `operation` to `register`.
fn shift_register(operation: Unary, register: ByteRegister) -> (r: PrefixedOperation)
    ensures
        r == unary_on_register(operation, register),
{
    match operation {
        Unary::RotateLeft => PrefixedOperation::RotateRegLeft(register),
        Unary::RotateRight => PrefixedOperation::RotateRegRight(register),
        Unary::RotateLeftThroughCarry => PrefixedOperation::RotateRegLeftThroughCarry(register),
        Unary::RotateRightThroughCarry => PrefixedOperation::RotateRegRightThroughCarry(register),
        Unary::ShiftLeftArithmetically => PrefixedOperation::ShiftRegLeftArithmetically(register),
        Unary::ShiftRightArithmetically => PrefixedOperation::ShiftRegRightArithmetically(register),
        Unary::SwapNibbles => PrefixedOperation::SwapRegNibbles(register),
        Unary::ShiftRightLogically => PrefixedOperation::ShiftRegRightLogically(register),
    }
}

/// The instruction that applies `operation` to the byte that HL points at.
fn shift_memory(operation: Unary) -> (r: PrefixedOperation)
    ensures
        r == unary_on_memory(operation),
{
    match operation {
        Unary::RotateLeft => PrefixedOperation::RotateAtAddressInWordRegLeft(WordRegister::HL),
        Unary::RotateRight => PrefixedOperation::RotateAtAddressInWordRegRight(WordRegister::HL),
        Unary::RotateLeftThroughCarry => PrefixedOperation::RotateAtAddressInWordRegLeftThroughCarry(
            WordRegister::HL,
        ),
        Unary::RotateRightThroughCarry =>
            PrefixedOperation::RotateAtAddressInWordRegRightThroughCarry(WordRegister::HL),
        Unary::ShiftLeftArithmetically =>
            PrefixedOperation::ShiftAtAddressInWordRegLeftArithmetically(WordRegister::HL),
        Unary::ShiftRightArithmetically =>
            PrefixedOperation::ShiftAtAddressInWordRegRightArithmetically(WordRegister::HL),
        Unary::SwapNibbles => PrefixedOperation::SwapAtAddressInWordRegNibbles(WordRegister::HL),
        Unary::ShiftRightLogically => PrefixedOperation::ShiftAtAddressInWordRegRightLogically(
            WordRegister::HL,
        ),
    }
}

/// The register pair that the two-bit field `code` names, AF being the fourth.
fn stack_pair_from(code: u8) -> (r: WordRegister)
    ensures
        r == stack_pair_of(code as int),
{
    if code == 3 {
        WordRegister::AF
    } else {
        pair_from(code)
    }
}

/// The opcodes 0x00..=0x3F, by their fields.
#[verifier::rlimit(50)]
fn first_quarter(y: u8, z: u8) -> (r: Operation)
    requires
        y < 8,
        z < 8,
    ensures
        r == decode_first_quarter(y as int, z as int),
{
    let pair = pair_from(y / 2);
    if z == 0 {
        if y == 0 {
            Operation::Noop
        } else if y == 1 {
            Operation::LoadSPIntoImmediateAddress
        } else if y == 2 {
            Operation::Stop
        } else if y == 3 {
            Operation::RelativeJumpImmediateOffset
        } else if y % 2 == 1 {
            Operation::ConditionalRelativeJumpImmediateOffset(condition_from(y - 4))
        } else {
            Operation::NegativeConditionalRelativeJumpImmediateOffset(condition_from(y - 4))
        }
    } else if z == 1 {
        if y % 2 == 0 {
            Operation::LoadImmediateIntoWordReg(pair)
        } else {
            Operation::AddWordRegIntoWordReg(pair, WordRegister::HL)
        }
    } else if z == 2 {
        if y == 0 || y == 2 {
            Operation::LoadRegIntoAddressInWordReg(ByteRegister::A, pair)
        } else if y == 1 || y == 3 {
            Operation::LoadAtAddressInWordRegIntoReg(pair, ByteRegister::A)
        } else if y == 4 {
            Operation::LoadRegIntoAddressInWordRegAndIncrementWordReg(
                ByteRegister::A,
                WordRegister::HL,
            )
        } else if y == 5 {
            Operation::LoadAtAddressInWordRegIntoRegAndIncrementWordReg(
                WordRegister::HL,
                ByteRegister::A,
            )
        } else if y == 6 {
            Operation::LoadRegIntoAddressInWordRegAndDecrementWordReg(
                ByteRegister::A,
                WordRegister::HL,
            )
        } else {
            Operation::LoadAtAddressInWordRegIntoRegAndDecrementWordReg(
                WordRegister::HL,
                ByteRegister::A,
            )
        }
    } else if z == 3 {
        if y % 2 == 0 {
            Operation::IncrementWordReg(pair)
        } else {
            Operation::DecrementWordReg(pair)
        }
    } else if z == 4 {
        if y == 6 {
            Operation::IncrementAtAddressInWordReg(WordRegister::HL)
        } else {
            Operation::IncrementReg(register_from(y))
        }
    } else if z == 5 {
        if y == 6 {
            Operation::DecrementAtAddressInWordReg(WordRegister::HL)
        } else {
            Operation::DecrementReg(register_from(y))
        }
    } else if z == 6 {
        if y == 6 {
            Operation::LoadImmediateIntoAddressInWordReg(WordRegister::HL)
        } else {
            Operation::LoadImmediateIntoReg(register_from(y))
        }
    } else {
        if y == 0 {
            Operation::RotateAccLeft
        } else if y == 1 {
            Operation::RotateAccRight
        } else if y == 2 {
            Operation::RotateAccLeftThroughCarry
        } else if y == 3 {
            Operation::RotateAccRightThroughCarry
        } else if y == 4 {
            Operation::DecimalAdjustAcc
        } else if y == 5 {
            Operation::ComplementAcc
        } else if y == 6 {
            Operation::SetCarry
        } else {
            Operation::ComplementCarry
        }
    }
}

/// The opcodes 0xC0..=0xFF, by their fields.
#[verifier::rlimit(50)]
fn last_quarter(y: u8, z: u8) -> (r: Operation)
    requires
        y < 8,
        z < 8,
    ensures
        r == decode_last_quarter(y as int, z as int),
{
    let flag = condition_from(y);
    if z == 0 {
        if y < 4 {
            if y % 2 == 1 {
                Operation::ConditionalReturn(flag)
            } else {
                Operation::NegativeConditionalReturn(flag)
            }
        } else if y == 4 {
            Operation::LoadRegIntoImmediateIORegister(ByteRegister::A)
        } else if y == 5 {
            Operation::AddSignedImmediateIntoWordReg(WordRegister::SP)
        } else if y == 6 {
            Operation::LoadImmediateIORegisterIntoReg(ByteRegister::A)
        } else {
            Operation::LoadSumOfWordRegAndSignedImmediateIntoWordReg(
                WordRegister::SP,
                WordRegister::HL,
            )
        }
    } else if z == 1 {
        if y % 2 == 0 {
            Operation::PopStackIntoWordReg(stack_pair_from(y / 2))
        } else if y == 1 {
            Operation::Return
        } else if y == 3 {
            Operation::ReturnAndEnableInterrupts
        } else if y == 5 {
            Operation::JumpToAddressInWordReg(WordRegister::HL)
        } else {
            Operation::LoadWordRegIntoWordReg(WordRegister::HL, WordRegister::SP)
        }
    } else if z == 2 {
        if y < 4 {
            if y % 2 == 1 {
                Operation::ConditionalJumpImmediateAddress(flag)
            } else {
                Operation::NegativeConditionalJumpImmediateAddress(flag)
            }
        } else if y == 4 {
            Operation::LoadRegIntoRegIORegister(ByteRegister::A, ByteRegister::C)
        } else if y == 5 {
            Operation::LoadRegIntoImmediateAddress(ByteRegister::A)
        } else if y == 6 {
            Operation::LoadRegIORegisterIntoReg(ByteRegister::C, ByteRegister::A)
        } else {
            Operation::LoadAtImmediateAddressIntoReg(ByteRegister::A)
        }
    } else if z == 3 {
        if y == 0 {
            Operation::JumpImmediateAddress
        } else if y == 1 {
            Operation::Prefixed
        } else if y == 6 {
            Operation::DisableInterrupts
        } else if y == 7 {
            Operation::EnableInterrupts
        } else {
            Operation::Noop
        }
    } else if z == 4 {
        if y < 4 {
            if y % 2 == 1 {
                Operation::ConditionalCallImmediateAddress(flag)
            } else {
                Operation::NegativeConditionalCallImmediateAddress(flag)
            }
        } else {
            Operation::Noop
        }
    } else if z == 5 {
        if y % 2 == 0 {
            Operation::PushWordRegIntoStack(stack_pair_from(y / 2))
        } else if y == 1 {
            Operation::CallImmediateAddress
        } else {
            Operation::Noop
        }
    } else if z == 6 {
        immediate_operand(binary_from(y))
    } else {
        Operation::CallFixedAddress(y as u16 * 8)
    }
}

impl Operation {
    /// The instruction that `opcode` stands for.
    pub fn decode(opcode: u8) -> (r: Operation)
        ensures
            r == decode_spec(opcode),
    {
        let y = (opcode / 8) % 8;
        let z = opcode % 8;
        if opcode < 0x40 {
            first_quarter(y, z)
        } else if opcode < 0x80 {
            if y == 6 && z == 6 {
                Operation::Halt
            } else if y == 6 {
                Operation::LoadRegIntoAddressInWordReg(register_from(z), WordRegister::HL)
            } else if z == 6 {
                Operation::LoadAtAddressInWordRegIntoReg(WordRegister::HL, register_from(y))
            } else {
                Operation::LoadRegIntoReg(register_from(z), register_from(y))
            }
        } else if opcode < 0xC0 {
            if z == 6 {
                memory_operand(binary_from(y))
            } else {
                register_operand(binary_from(y), register_from(z))
            }
        } else {
            last_quarter(y, z)
        }
    }
}

impl PrefixedOperation {
    /// The instruction that `opcode` stands for behind the prefix 0xCB.
    pub fn decode(opcode: u8) -> (r: PrefixedOperation)
        ensures
            r == decode_prefixed_spec(opcode),
    {
        let y = (opcode / 8) % 8;
        let z = opcode % 8;
        let register = register_from(z);
        if opcode < 0x40 {
            if z == 6 {
                shift_memory(unary_from(y))
            } else {
                shift_register(unary_from(y), register)
            }
        } else if opcode < 0x80 {
            if z == 6 {
                PrefixedOperation::TestForBitInAtAddressInWordReg(y, WordRegister::HL)
            } else {
                PrefixedOperation::TestForBitInReg(y, register)
            }
        } else if opcode < 0xC0 {
            if z == 6 {
                PrefixedOperation::ClearBitInAtAddressInWordReg(y, WordRegister::HL)
            } else {
                PrefixedOperation::ClearBitInReg(y, register)
            }
        } else {
            if z == 6 {
                PrefixedOperation::SetBitInAtAddressInWordReg(y, WordRegister::HL)
            } else {
                PrefixedOperation::SetBitInReg(y, register)
            }
        }
    }
}

impl From<u8> for Operation {
    fn from(opcode: u8) -> (r: Self) {
        Operation::decode(opcode)
    }
}

impl vstd::std_specs::convert::FromSpecImpl<u8> for Operation {
    open spec fn obeys_from_spec() -> bool {
        true
    }

    open spec fn from_spec(opcode: u8) -> Self {
        decode_spec(opcode)
    }
}

impl From<u8> for PrefixedOperation {
    fn from(opcode: u8) -> (r: Self) {
        PrefixedOperation::decode(opcode)
    }
}

impl vstd::std_specs::convert::FromSpecImpl<u8> for PrefixedOperation {
    open spec fn obeys_from_spec() -> bool {
        true
    }

    open spec fn from_spec(opcode: u8) -> Self {
        decode_prefixed_spec(opcode)
    }
}

impl Operation {
    /// The opcode that stands for this instruction. An instruction that no
    /// opcode stands for, such as a load into F, gets the opcode of the
    /// nearest instruction of its kind.
    pub open spec fn opcode(self) -> int {
        match self {
            Operation::Noop => 0x00,
            Operation::LoadImmediateIntoWordReg(pair) => 0x01 + 16 * pair_code(pair),
            Operation::LoadRegIntoAddressInWordReg(source, pair) => if pair == WordRegister::HL {
                0x70 + register_code(source)
            } else {
                0x02 + 16 * pair_code(pair)
            },
            Operation::IncrementWordReg(pair) => 0x03 + 16 * pair_code(pair),
            Operation::IncrementReg(register) => 0x04 + 8 * register_code(register),
            Operation::DecrementReg(register) => 0x05 + 8 * register_code(register),
            Operation::LoadImmediateIntoReg(register) => 0x06 + 8 * register_code(register),
            Operation::RotateAccLeft => 0x07,
            Operation::LoadSPIntoImmediateAddress => 0x08,
            Operation::AddWordRegIntoWordReg(pair, _) => 0x09 + 16 * pair_code(pair),
            Operation::LoadAtAddressInWordRegIntoReg(pair, target) => if pair == WordRegister::HL {
                0x46 + 8 * register_code(target)
            } else {
                0x0A + 16 * pair_code(pair)
            },
            Operation::DecrementWordReg(pair) => 0x0B + 16 * pair_code(pair),
            Operation::RotateAccRight => 0x0F,
            Operation::Stop => 0x10,
            Operation::RotateAccLeftThroughCarry => 0x17,
            Operation::RelativeJumpImmediateOffset => 0x18,
            Operation::RotateAccRightThroughCarry => 0x1F,
            Operation::ConditionalRelativeJumpImmediateOffset(flag) => 0x20 + 8 * condition_code(
                flag,
            ),
            Operation::NegativeConditionalRelativeJumpImmediateOffset(flag) => 0x18 + 8
                * condition_code(flag),
            Operation::LoadRegIntoAddressInWordRegAndIncrementWordReg(_, _) => 0x22,
            Operation::DecimalAdjustAcc => 0x27,
            Operation::LoadAtAddressInWordRegIntoRegAndIncrementWordReg(_, _) => 0x2A,
            Operation::ComplementAcc => 0x2F,
            Operation::LoadRegIntoAddressInWordRegAndDecrementWordReg(_, _) => 0x32,
            Operation::IncrementAtAddressInWordReg(_) => 0x34,
            Operation::DecrementAtAddressInWordReg(_) => 0x35,
            Operation::LoadImmediateIntoAddressInWordReg(_) => 0x36,
            Operation::SetCarry => 0x37,
            Operation::LoadAtAddressInWordRegIntoRegAndDecrementWordReg(_, _) => 0x3A,
            Operation::ComplementCarry => 0x3F,
            Operation::LoadRegIntoReg(source, target) => 0x40 + 8 * register_code(target)
                + register_code(source),
            Operation::Halt => 0x76,
            Operation::AddRegIntoReg(source, _) => 0x80 + register_code(source),
            Operation::AddAtAddressInWordRegIntoReg(_, _) => 0x86,
            Operation::AddRegIntoRegWithCarry(source, _) => 0x88 + register_code(source),
            Operation::AddAtAddressInWordRegIntoRegWithCarry(_, _) => 0x8E,
            Operation::SubRegFromReg(source, _) => 0x90 + register_code(source),
            Operation::SubAtAddressInWordRegFromReg(_, _) => 0x96,
            Operation::SubRegFromRegWithCarry(source, _) => 0x98 + register_code(source),
            Operation::SubAtAddressInWordRegFromRegWithCarry(_, _) => 0x9E,
            Operation::AndRegIntoReg(source, _) => 0xA0 + register_code(source),
            Operation::AndAtAddressInWordRegIntoReg(_, _) => 0xA6,
            Operation::XorRegIntoReg(source, _) => 0xA8 + register_code(source),
            Operation::XorAtAddressInWordRegIntoReg(_, _) => 0xAE,
            Operation::OrRegIntoReg(source, _) => 0xB0 + register_code(source),
            Operation::OrAtAddressInWordRegIntoReg(_, _) => 0xB6,
            Operation::CompareRegAndReg(source, _) => 0xB8 + register_code(source),
            Operation::CompareAtAddressInWordRegAndReg(_, _) => 0xBE,
            Operation::ConditionalReturn(flag) => 0xC0 + 8 * condition_code(flag),
            Operation::NegativeConditionalReturn(flag) => 0xB8 + 8 * condition_code(flag),
            Operation::PopStackIntoWordReg(pair) => 0xC1 + 16 * pair_code(pair),
            Operation::ConditionalJumpImmediateAddress(flag) => 0xC2 + 8 * condition_code(flag),
            Operation::NegativeConditionalJumpImmediateAddress(flag) => 0xBA + 8 * condition_code(
                flag,
            ),
            Operation::JumpImmediateAddress => 0xC3,
            Operation::ConditionalCallImmediateAddress(flag) => 0xC4 + 8 * condition_code(flag),
            Operation::NegativeConditionalCallImmediateAddress(flag) => 0xBC + 8 * condition_code(
                flag,
            ),
            Operation::PushWordRegIntoStack(pair) => 0xC5 + 16 * pair_code(pair),
            Operation::AddImmediateIntoReg(_) => 0xC6,
            Operation::CallFixedAddress(address) => 0xC7 + (address as int % 0x40) / 8 * 8,
            Operation::Return => 0xC9,
            Operation::Prefixed => 0xCB,
            Operation::CallImmediateAddress => 0xCD,
            Operation::AddImmediateIntoRegWithCarry(_) => 0xCE,
            Operation::SubImmediateFromReg(_) => 0xD6,
            Operation::ReturnAndEnableInterrupts => 0xD9,
            Operation::SubImmediateFromRegWithCarry(_) => 0xDE,
            Operation::LoadRegIntoImmediateIORegister(_) => 0xE0,
            Operation::LoadRegIntoRegIORegister(_, _) => 0xE2,
            Operation::AndImmediateIntoReg(_) => 0xE6,
            Operation::AddSignedImmediateIntoWordReg(_) => 0xE8,
            Operation::JumpToAddressInWordReg(_) => 0xE9,
            Operation::LoadRegIntoImmediateAddress(_) => 0xEA,
            Operation::XorImmediateIntoReg(_) => 0xEE,
            Operation::LoadImmediateIORegisterIntoReg(_) => 0xF0,
            Operation::LoadRegIORegisterIntoReg(_, _) => 0xF2,
            Operation::DisableInterrupts => 0xF3,
            Operation::OrImmediateIntoReg(_) => 0xF6,
            Operation::LoadSumOfWordRegAndSignedImmediateIntoWordReg(_, _) => 0xF8,
            Operation::LoadWordRegIntoWordReg(_, _) => 0xF9,
            Operation::LoadAtImmediateAddressIntoReg(_) => 0xFA,
            Operation::EnableInterrupts => 0xFB,
            Operation::CompareImmediateAndReg(_) => 0xFE,
        }
    }

    /// Whether the instruction reads a condition, and so takes longer when
    /// the condition holds.
    pub open spec fn is_conditional(self) -> bool {
        match self {
            Operation::ConditionalRelativeJumpImmediateOffset(_)
            | Operation::NegativeConditionalRelativeJumpImmediateOffset(_)
            | Operation::ConditionalReturn(_)
            | Operation::NegativeConditionalReturn(_)
            | Operation::ConditionalJumpImmediateAddress(_)
            | Operation::NegativeConditionalJumpImmediateAddress(_)
            | Operation::ConditionalCallImmediateAddress(_)
            | Operation::NegativeConditionalCallImmediateAddress(_) => true,
            _ => false,
        }
    }

    /// Whether the condition of the instruction holds under the flag
    /// register `f`. An instruction without a condition is always taken.
    pub open spec fn taken(self, f: u8) -> bool {
        match self {
            Operation::ConditionalRelativeJumpImmediateOffset(flag)
            | Operation::ConditionalReturn(flag)
            | Operation::ConditionalJumpImmediateAddress(flag)
            | Operation::ConditionalCallImmediateAddress(flag) => super::alu::has_flag(f, flag),
            Operation::NegativeConditionalRelativeJumpImmediateOffset(flag)
            | Operation::NegativeConditionalReturn(flag)
            | Operation::NegativeConditionalJumpImmediateAddress(flag)
            | Operation::NegativeConditionalCallImmediateAddress(flag) => !super::alu::has_flag(
                f,
                flag,
            ),
            _ => true,
        }
    }

    /// Whether the instruction sets the program counter to something else
    /// than the address behind it.
    pub open spec fn is_jump(self) -> bool {
        match self {
            Operation::RelativeJumpImmediateOffset
            | Operation::JumpImmediateAddress
            | Operation::JumpToAddressInWordReg(_)
            | Operation::CallImmediateAddress
            | Operation::CallFixedAddress(_)
            | Operation::Return
            | Operation::ReturnAndEnableInterrupts => true,
            Operation::LoadImmediateIntoWordReg(pair)
            | Operation::IncrementWordReg(pair)
            | Operation::DecrementWordReg(pair)
            | Operation::PopStackIntoWordReg(pair)
            | Operation::AddSignedImmediateIntoWordReg(pair)
            | Operation::AddWordRegIntoWordReg(_, pair)
            | Operation::LoadWordRegIntoWordReg(_, pair)
            | Operation::LoadSumOfWordRegAndSignedImmediateIntoWordReg(_, pair) => pair
                == WordRegister::PC,
            Operation::LoadRegIntoAddressInWordRegAndIncrementWordReg(_, pair)
            | Operation::LoadRegIntoAddressInWordRegAndDecrementWordReg(_, pair)
            | Operation::LoadAtAddressInWordRegIntoRegAndIncrementWordReg(pair, _)
            | Operation::LoadAtAddressInWordRegIntoRegAndDecrementWordReg(pair, _) => pair
                == WordRegister::PC,
            _ => self.is_conditional(),
        }
    }

    /// The number of bytes of the instruction, its opcode included.
    pub open spec fn length(self) -> nat {
        match self {
            Operation::LoadImmediateIntoWordReg(_)
            | Operation::LoadSPIntoImmediateAddress
            | Operation::ConditionalJumpImmediateAddress(_)
            | Operation::NegativeConditionalJumpImmediateAddress(_)
            | Operation::JumpImmediateAddress
            | Operation::ConditionalCallImmediateAddress(_)
            | Operation::NegativeConditionalCallImmediateAddress(_)
            | Operation::CallImmediateAddress
            | Operation::LoadRegIntoImmediateAddress(_)
            | Operation::LoadAtImmediateAddressIntoReg(_) => 3,
            Operation::LoadImmediateIntoReg(_)
            | Operation::RelativeJumpImmediateOffset
            | Operation::ConditionalRelativeJumpImmediateOffset(_)
            | Operation::NegativeConditionalRelativeJumpImmediateOffset(_)
            | Operation::LoadImmediateIntoAddressInWordReg(_)
            | Operation::AddImmediateIntoReg(_)
            | Operation::Prefixed
            | Operation::AddImmediateIntoRegWithCarry(_)
            | Operation::SubImmediateFromReg(_)
            | Operation::SubImmediateFromRegWithCarry(_)
            | Operation::LoadRegIntoImmediateIORegister(_)
            | Operation::AndImmediateIntoReg(_)
            | Operation::AddSignedImmediateIntoWordReg(_)
            | Operation::XorImmediateIntoReg(_)
            | Operation::LoadImmediateIORegisterIntoReg(_)
            | Operation::OrImmediateIntoReg(_)
            | Operation::LoadSumOfWordRegAndSignedImmediateIntoWordReg(_, _)
            | Operation::CompareImmediateAndReg(_) => 2,
            _ => 1,
        }
    }

    /// The number of machine cycles that the instruction takes, the fetch
    /// of its opcode included, with its condition holding or not. For the
    /// prefix it counts the prefix and the byte behind it; what that byte
    /// asks for comes on top.
    pub open spec fn cycles(self, taken: bool) -> nat {
        match self {
            Operation::Noop
            | Operation::IncrementReg(_)
            | Operation::DecrementReg(_)
            | Operation::RotateAccLeft
            | Operation::RotateAccRight
            | Operation::Stop
            | Operation::RotateAccLeftThroughCarry
            | Operation::RotateAccRightThroughCarry
            | Operation::DecimalAdjustAcc
            | Operation::ComplementAcc
            | Operation::SetCarry
            | Operation::ComplementCarry
            | Operation::LoadRegIntoReg(_, _)
            | Operation::Halt
            | Operation::AddRegIntoReg(_, _)
            | Operation::AddRegIntoRegWithCarry(_, _)
            | Operation::SubRegFromReg(_, _)
            | Operation::SubRegFromRegWithCarry(_, _)
            | Operation::AndRegIntoReg(_, _)
            | Operation::XorRegIntoReg(_, _)
            | Operation::OrRegIntoReg(_, _)
            | Operation::CompareRegAndReg(_, _)
            | Operation::JumpToAddressInWordReg(_)
            | Operation::DisableInterrupts
            | Operation::EnableInterrupts => 1,
            Operation::LoadRegIntoAddressInWordReg(_, _)
            | Operation::IncrementWordReg(_)
            | Operation::LoadImmediateIntoReg(_)
            | Operation::AddWordRegIntoWordReg(_, _)
            | Operation::LoadAtAddressInWordRegIntoReg(_, _)
            | Operation::DecrementWordReg(_)
            | Operation::LoadRegIntoAddressInWordRegAndIncrementWordReg(_, _)
            | Operation::LoadAtAddressInWordRegIntoRegAndIncrementWordReg(_, _)
            | Operation::LoadRegIntoAddressInWordRegAndDecrementWordReg(_, _)
            | Operation::LoadAtAddressInWordRegIntoRegAndDecrementWordReg(_, _)
            | Operation::AddAtAddressInWordRegIntoReg(_, _)
            | Operation::AddAtAddressInWordRegIntoRegWithCarry(_, _)
            | Operation::SubAtAddressInWordRegFromReg(_, _)
            | Operation::SubAtAddressInWordRegFromRegWithCarry(_, _)
            | Operation::AndAtAddressInWordRegIntoReg(_, _)
            | Operation::XorAtAddressInWordRegIntoReg(_, _)
            | Operation::OrAtAddressInWordRegIntoReg(_, _)
            | Operation::CompareAtAddressInWordRegAndReg(_, _)
            | Operation::AddImmediateIntoReg(_)
            | Operation::Prefixed
            | Operation::AddImmediateIntoRegWithCarry(_)
            | Operation::SubImmediateFromReg(_)
            | Operation::SubImmediateFromRegWithCarry(_)
            | Operation::LoadRegIntoRegIORegister(_, _)
            | Operation::AndImmediateIntoReg(_)
            | Operation::XorImmediateIntoReg(_)
            | Operation::LoadRegIORegisterIntoReg(_, _)
            | Operation::OrImmediateIntoReg(_)
            | Operation::LoadWordRegIntoWordReg(_, _)
            | Operation::CompareImmediateAndReg(_) => 2,
            Operation::LoadImmediateIntoWordReg(_)
            | Operation::RelativeJumpImmediateOffset
            | Operation::IncrementAtAddressInWordReg(_)
            | Operation::DecrementAtAddressInWordReg(_)
            | Operation::LoadImmediateIntoAddressInWordReg(_)
            | Operation::PopStackIntoWordReg(_)
            | Operation::LoadRegIntoImmediateIORegister(_)
            | Operation::LoadImmediateIORegisterIntoReg(_)
            | Operation::LoadSumOfWordRegAndSignedImmediateIntoWordReg(_, _) => 3,
            Operation::JumpImmediateAddress
            | Operation::PushWordRegIntoStack(_)
            | Operation::CallFixedAddress(_)
            | Operation::Return
            | Operation::ReturnAndEnableInterrupts
            | Operation::AddSignedImmediateIntoWordReg(_)
            | Operation::LoadRegIntoImmediateAddress(_)
            | Operation::LoadAtImmediateAddressIntoReg(_) => 4,
            Operation::LoadSPIntoImmediateAddress => 5,
            Operation::CallImmediateAddress => 6,
            Operation::ConditionalRelativeJumpImmediateOffset(_)
            | Operation::NegativeConditionalRelativeJumpImmediateOffset(_) => if taken {
                3
            } else {
                2
            },
            Operation::ConditionalReturn(_) | Operation::NegativeConditionalReturn(_) => if taken {
                5
            } else {
                2
            },
            Operation::ConditionalJumpImmediateAddress(_)
            | Operation::NegativeConditionalJumpImmediateAddress(_) => if taken {
                4
            } else {
                3
            },
            Operation::ConditionalCallImmediateAddress(_)
            | Operation::NegativeConditionalCallImmediateAddress(_) => if taken {
                6
            } else {
                3
            },
        }
    }
}

impl PrefixedOperation {
    /// The byte behind the prefix that stands for this instruction.
    pub open spec fn opcode(self) -> int {
        match self {
            PrefixedOperation::RotateRegLeft(r) => 0x00 + register_code(r),
            PrefixedOperation::RotateAtAddressInWordRegLeft(_) => 0x06,
            PrefixedOperation::RotateRegRight(r) => 0x08 + register_code(r),
            PrefixedOperation::RotateAtAddressInWordRegRight(_) => 0x0E,
            PrefixedOperation::RotateRegLeftThroughCarry(r) => 0x10 + register_code(r),
            PrefixedOperation::RotateAtAddressInWordRegLeftThroughCarry(_) => 0x16,
            PrefixedOperation::RotateRegRightThroughCarry(r) => 0x18 + register_code(r),
            PrefixedOperation::RotateAtAddressInWordRegRightThroughCarry(_) => 0x1E,
            PrefixedOperation::ShiftRegLeftArithmetically(r) => 0x20 + register_code(r),
            PrefixedOperation::ShiftAtAddressInWordRegLeftArithmetically(_) => 0x26,
            PrefixedOperation::ShiftRegRightArithmetically(r) => 0x28 + register_code(r),
            PrefixedOperation::ShiftAtAddressInWordRegRightArithmetically(_) => 0x2E,
            PrefixedOperation::SwapRegNibbles(r) => 0x30 + register_code(r),
            PrefixedOperation::SwapAtAddressInWordRegNibbles(_) => 0x36,
            PrefixedOperation::ShiftRegRightLogically(r) => 0x38 + register_code(r),
            PrefixedOperation::ShiftAtAddressInWordRegRightLogically(_) => 0x3E,
            PrefixedOperation::TestForBitInReg(bit, r) => 0x40 + 8 * (bit as int % 8)
                + register_code(r),
            PrefixedOperation::TestForBitInAtAddressInWordReg(bit, _) => 0x46 + 8 * (bit as int
                % 8),
            PrefixedOperation::ClearBitInReg(bit, r) => 0x80 + 8 * (bit as int % 8) + register_code(
                r,
            ),
            PrefixedOperation::ClearBitInAtAddressInWordReg(bit, _) => 0x86 + 8 * (bit as int % 8),
            PrefixedOperation::SetBitInReg(bit, r) => 0xC0 + 8 * (bit as int % 8) + register_code(
                r,
            ),
            PrefixedOperation::SetBitInAtAddressInWordReg(bit, _) => 0xC6 + 8 * (bit as int % 8),
        }
    }

    /// The machine cycles that the instruction takes after the prefix and
    /// its own byte were fetched: one for each access to memory.
    pub open spec fn extra_cycles(self) -> nat {
        match self {
            PrefixedOperation::TestForBitInAtAddressInWordReg(_, _) => 1,
            PrefixedOperation::RotateAtAddressInWordRegLeft(_)
            | PrefixedOperation::RotateAtAddressInWordRegRight(_)
            | PrefixedOperation::RotateAtAddressInWordRegLeftThroughCarry(_)
            | PrefixedOperation::RotateAtAddressInWordRegRightThroughCarry(_)
            | PrefixedOperation::ShiftAtAddressInWordRegLeftArithmetically(_)
            | PrefixedOperation::ShiftAtAddressInWordRegRightArithmetically(_)
            | PrefixedOperation::SwapAtAddressInWordRegNibbles(_)
            | PrefixedOperation::ShiftAtAddressInWordRegRightLogically(_)
            | PrefixedOperation::ClearBitInAtAddressInWordReg(_, _)
            | PrefixedOperation::SetBitInAtAddressInWordReg(_, _) => 2,
            _ => 0,
        }
    }
}

/// Entry `column` of a row of sixteen numbers.
pub open spec fn entry(
    column: int,
    c0: nat,
    c1: nat,
    c2: nat,
    c3: nat,
    c4: nat,
    c5: nat,
    c6: nat,
    c7: nat,
    c8: nat,
    c9: nat,
    ca: nat,
    cb: nat,
    cc: nat,
    cd: nat,
    ce: nat,
    cf: nat,
) -> nat {
    if column == 0 {
        c0
    } else if column == 1 {
        c1
    } else if column == 2 {
        c2
    } else if column == 3 {
        c3
    } else if column == 4 {
        c4
    } else if column == 5 {
        c5
    } else if column == 6 {
        c6
    } else if column == 7 {
        c7
    } else if column == 8 {
        c8
    } else if column == 9 {
        c9
    } else if column == 10 {
        ca
    } else if column == 11 {
        cb
    } else if column == 12 {
        cc
    } else if column == 13 {
        cd
    } else if column == 14 {
        ce
    } else {
        cf
    }
}

/// The machine cycles of each opcode as the manuals of the processor
/// print them, in rows of sixteen opcodes: for an instruction with a
/// condition the count when the condition fails, for the prefix the count
/// of the shortest instruction behind it, and zero for an opcode that
/// stands for nothing.
pub open spec fn official_cycles_untaken(opcode: u8) -> nat {
    let row = opcode as int / 16;
    let column = opcode as int % 16;
    if row == 0x0 {
        entry(column, 1, 3, 2, 2, 1, 1, 2, 1, 5, 2, 2, 2, 1, 1, 2, 1)
    } else if row == 0x1 {
        entry(column, 1, 3, 2, 2, 1, 1, 2, 1, 3, 2, 2, 2, 1, 1, 2, 1)
    } else if row == 0x2 {
        entry(column, 2, 3, 2, 2, 1, 1, 2, 1, 2, 2, 2, 2, 1, 1, 2, 1)
    } else if row == 0x3 {
        entry(column, 2, 3, 2, 2, 3, 3, 3, 1, 2, 2, 2, 2, 1, 1, 2, 1)
    } else if row == 0x7 {
        entry(column, 2, 2, 2, 2, 2, 2, 1, 2, 1, 1, 1, 1, 1, 1, 2, 1)
    } else if row < 0xC {
        entry(column, 1, 1, 1, 1, 1, 1, 2, 1, 1, 1, 1, 1, 1, 1, 2, 1)
    } else if row == 0xC {
        entry(column, 2, 3, 3, 4, 3, 4, 2, 4, 2, 4, 3, 2, 3, 6, 2, 4)
    } else if row == 0xD {
        entry(column, 2, 3, 3, 0, 3, 4, 2, 4, 2, 4, 3, 0, 3, 0, 2, 4)
    } else if row == 0xE {
        entry(column, 3, 3, 2, 0, 0, 4, 2, 4, 4, 1, 4, 0, 0, 0, 2, 4)
    } else {
        entry(column, 3, 3, 2, 1, 0, 4, 2, 4, 3, 2, 4, 1, 0, 0, 2, 4)
    }
}

/// The machine cycles that the manuals add where the condition of the
/// instruction holds.
pub open spec fn official_cycles_added_when_taken(opcode: u8) -> nat {
    let row = opcode as int / 16;
    let column = opcode as int % 16;
    if row == 0x2 || row == 0x3 {
        entry(column, 1, 0, 0, 0, 0, 0, 0, 0, 1, 0, 0, 0, 0, 0, 0, 0)
    } else if row == 0xC || row == 0xD {
        entry(column, 3, 0, 1, 0, 3, 0, 0, 0, 3, 0, 1, 0, 3, 0, 0, 0)
    } else {
        0
    }
}

/// The machine cycles of `opcode` by the manuals, its condition holding
/// or not.
pub open spec fn official_cycles(opcode: u8, taken: bool) -> nat {
    official_cycles_untaken(opcode) + if taken {
        official_cycles_added_when_taken(opcode)
    } else {
        0
    }
}

/// The number of bytes of each opcode by the manuals, zero for an opcode
/// that stands for nothing. The halt of the clock is taken as one byte.
pub open spec fn official_length(opcode: u8) -> nat {
    let row = opcode as int / 16;
    let column = opcode as int % 16;
    if row == 0x0 {
        entry(column, 1, 3, 1, 1, 1, 1, 2, 1, 3, 1, 1, 1, 1, 1, 2, 1)
    } else if row == 0x1 {
        entry(column, 1, 3, 1, 1, 1, 1, 2, 1, 2, 1, 1, 1, 1, 1, 2, 1)
    } else if row == 0x2 || row == 0x3 {
        entry(column, 2, 3, 1, 1, 1, 1, 2, 1, 2, 1, 1, 1, 1, 1, 2, 1)
    } else if row < 0xC {
        1
    } else if row == 0xC {
        entry(column, 1, 1, 3, 3, 3, 1, 2, 1, 1, 1, 3, 2, 3, 3, 2, 1)
    } else if row == 0xD {
        entry(column, 1, 1, 3, 0, 3, 1, 2, 1, 1, 1, 3, 0, 3, 0, 2, 1)
    } else if row == 0xE {
        entry(column, 2, 1, 1, 0, 0, 1, 2, 1, 2, 1, 3, 0, 0, 0, 2, 1)
    } else {
        entry(column, 2, 1, 1, 1, 0, 1, 2, 1, 2, 1, 3, 1, 0, 0, 2, 1)
    }
}

/// The machine cycles, by the manuals, of the instruction that `opcode`
/// stands for behind the prefix, the prefix included: two on a register,
/// four on the byte that HL points at, three where that byte is only read.
pub open spec fn official_prefixed_cycles(opcode: u8) -> nat {
    if opcode % 8 != 6 {
        2
    } else if 0x40 <= opcode < 0x80 {
        3
    } else {
        4
    }
}

/// Every opcode that stands for an instruction is the opcode of the
/// instruction it decodes to, and that instruction has the length and takes
/// the machine cycles that the manuals give for the opcode.
#[verifier::rlimit(100)]
pub proof fn lemma_decode_agrees_with_manuals(opcode: u8, taken: bool)
    requires
        is_defined(opcode),
    ensures
        decode_spec(opcode).opcode() == opcode,
        decode_spec(opcode).length() == official_length(opcode),
        decode_spec(opcode).cycles(taken) == official_cycles(opcode, taken),
        1 <= decode_spec(opcode).cycles(taken) <= 6,
{
    if opcode < 0x40 {
        lemma_first_quarter_agrees(opcode, taken);
    } else if opcode < 0x80 {
    } else if opcode < 0xC0 {
    } else {
        lemma_last_quarter_agrees(opcode, taken);
    }
}

#[verifier::rlimit(100)]
proof fn lemma_first_quarter_agrees(opcode: u8, taken: bool)
    requires
        opcode < 0x40,
    ensures
        decode_spec(opcode).opcode() == opcode,
        decode_spec(opcode).length() == official_length(opcode),
        decode_spec(opcode).cycles(taken) == official_cycles(opcode, taken),
        1 <= decode_spec(opcode).cycles(taken) <= 6,
{
}

#[verifier::rlimit(100)]
proof fn lemma_last_quarter_agrees(opcode: u8, taken: bool)
    requires
        opcode >= 0xC0,
        is_defined(opcode),
    ensures
        decode_spec(opcode).opcode() == opcode,
        decode_spec(opcode).length() == official_length(opcode),
        decode_spec(opcode).cycles(taken) == official_cycles(opcode, taken),
        1 <= decode_spec(opcode).cycles(taken) <= 6,
{
}

/// Every byte behind the prefix is the byte of the instruction it decodes
/// to, and that instruction takes the machine cycles that the manuals give.
#[verifier::rlimit(100)]
pub proof fn lemma_decode_prefixed_agrees_with_manuals(opcode: u8)
    ensures
        decode_prefixed_spec(opcode).opcode() == opcode,
        Operation::Prefixed.cycles(true) + decode_prefixed_spec(opcode).extra_cycles()
            == official_prefixed_cycles(opcode),
{
    let y = (opcode / 8) % 8;
    let z = opcode as int % 8;
    assert(opcode == 64 * (opcode as int / 64) + 8 * y + z);
    if opcode < 0x40 {
        lemma_shift_agrees(unary_of(y as int), z);
    }
}

/// A rotation or shift has the opcode that its code and its operand make up.
#[verifier::rlimit(50)]
proof fn lemma_shift_agrees(operation: Unary, z: int)
    requires
        0 <= z < 8,
    ensures
        z == 6 ==> unary_on_memory(operation).opcode() == 8 * unary_code(operation) + 6,
        z == 6 ==> unary_on_memory(operation).extra_cycles() == 2,
        z != 6 ==> unary_on_register(operation, register_of(z)).opcode() == 8 * unary_code(
            operation,
        ) + z,
        z != 6 ==> unary_on_register(operation, register_of(z)).extra_cycles() == 0,
{
}

/// An opcode that stands for nothing decodes to the instruction that does
/// nothing.
pub proof fn lemma_undefined_opcode_is_noop(opcode: u8)
    requires
        !is_defined(opcode),
    ensures
        decode_spec(opcode) == Operation::Noop,
{
}

/// No instruction takes less than one machine cycle or more than six, and
/// none behind the prefix adds more than two to the two of the prefix.
#[verifier::rlimit(50)]
pub proof fn lemma_cycles_bounds(operation: Operation, prefixed: PrefixedOperation, taken: bool)
    ensures
        1 <= operation.cycles(taken) <= 6,
        1 <= operation.length() <= 3,
        prefixed.extra_cycles() <= 2,
        Operation::Prefixed.cycles(taken) == 2,
{
}

} // verus!
