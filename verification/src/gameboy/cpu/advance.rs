//! Where the program counter stands after each instruction that is no
//! jump: behind the last byte of the instruction.

use super::alu::{wrap16, Binary, CpuFlag, Unary};
use super::instructions::Family;
use super::operation::{decode_prefixed_spec, Operation, PrefixedOperation};
use super::{ByteRegister, CpuView, Machine, OnMachineCycle, WordRegister};
use vstd::prelude::*;

verus! {

/// Where the program counter stands after `load_immediate16`.
proof fn lemma_after_load_immediate16<T: OnMachineCycle>(machine: Machine<T>, target: WordRegister)
    requires
        target != WordRegister::PC,
    ensures
        machine.load_immediate16(target).cpu.pc() == wrap16(machine.cpu.pc(), 2),
{
    reveal(Machine::load_immediate16);
}

/// Where the program counter stands after `store_register`.
proof fn lemma_after_store_register<T: OnMachineCycle>(
    machine: Machine<T>,
    source: ByteRegister,
    pair: WordRegister,
)
    ensures
        machine.store_register(source, pair).cpu.pc() == wrap16(machine.cpu.pc(), 0),
{
    reveal(Machine::store_register);
}

/// Where the program counter stands after `step16`.
proof fn lemma_after_step16<T: OnMachineCycle>(machine: Machine<T>, pair: WordRegister, delta: i32)
    requires
        pair != WordRegister::PC,
    ensures
        machine.step16(pair, delta).cpu.pc() == wrap16(machine.cpu.pc(), 0),
{
    reveal(Machine::step16);
}

/// Where the program counter stands after `load_immediate8`.
proof fn lemma_after_load_immediate8<T: OnMachineCycle>(machine: Machine<T>, target: ByteRegister)
    ensures
        machine.load_immediate8(target).cpu.pc() == wrap16(machine.cpu.pc(), 1),
{
    reveal(Machine::load_immediate8);
}

/// Where the program counter stands after `store_stack_pointer`.
proof fn lemma_after_store_stack_pointer<T: OnMachineCycle>(machine: Machine<T>)
    ensures
        machine.store_stack_pointer().cpu.pc() == wrap16(machine.cpu.pc(), 2),
{
    reveal(Machine::store_stack_pointer);
}

/// Where the program counter stands after `add16`.
proof fn lemma_after_add16<T: OnMachineCycle>(
    machine: Machine<T>,
    source: WordRegister,
    target: WordRegister,
)
    requires
        target != WordRegister::PC,
    ensures
        machine.add16(source, target).cpu.pc() == wrap16(machine.cpu.pc(), 0),
{
    reveal(Machine::add16);
}

/// Where the program counter stands after `load_register`.
proof fn lemma_after_load_register<T: OnMachineCycle>(
    machine: Machine<T>,
    pair: WordRegister,
    target: ByteRegister,
)
    ensures
        machine.load_register(pair, target).cpu.pc() == wrap16(machine.cpu.pc(), 0),
{
    reveal(Machine::load_register);
}

/// Where the program counter stands after `relative_jump_if`.
proof fn lemma_after_relative_jump_if<T: OnMachineCycle>(
    machine: Machine<T>,
    flag: CpuFlag,
    expected: bool,
)
    requires
        machine.cpu.flag(flag) != expected,
    ensures
        machine.relative_jump_if(flag, expected).cpu.pc() == wrap16(machine.cpu.pc(), 1),
{
    reveal(Machine::relative_jump_if);
}

/// Where the program counter stands after `store_register_and_step`.
proof fn lemma_after_store_register_and_step<T: OnMachineCycle>(
    machine: Machine<T>,
    source: ByteRegister,
    pair: WordRegister,
    delta: i32,
)
    requires
        pair != WordRegister::PC,
    ensures
        machine.store_register_and_step(source, pair, delta).cpu.pc() == wrap16(
            machine.cpu.pc(),
            0,
        ),
{
    reveal(Machine::store_register_and_step);
}

/// Where the program counter stands after `load_register_and_step`.
proof fn lemma_after_load_register_and_step<T: OnMachineCycle>(
    machine: Machine<T>,
    pair: WordRegister,
    target: ByteRegister,
    delta: i32,
)
    requires
        pair != WordRegister::PC,
    ensures
        machine.load_register_and_step(pair, target, delta).cpu.pc() == wrap16(machine.cpu.pc(), 0),
{
    reveal(Machine::load_register_and_step);
}

/// Where the program counter stands after `increment_memory`.
proof fn lemma_after_increment_memory<T: OnMachineCycle>(machine: Machine<T>, pair: WordRegister)
    ensures
        machine.increment_memory(pair).cpu.pc() == wrap16(machine.cpu.pc(), 0),
{
    reveal(Machine::increment_memory);
}

/// Where the program counter stands after `decrement_memory`.
proof fn lemma_after_decrement_memory<T: OnMachineCycle>(machine: Machine<T>, pair: WordRegister)
    ensures
        machine.decrement_memory(pair).cpu.pc() == wrap16(machine.cpu.pc(), 0),
{
    reveal(Machine::decrement_memory);
}

/// Where the program counter stands after `store_immediate`.
proof fn lemma_after_store_immediate<T: OnMachineCycle>(machine: Machine<T>, pair: WordRegister)
    ensures
        machine.store_immediate(pair).cpu.pc() == wrap16(machine.cpu.pc(), 1),
{
    reveal(Machine::store_immediate);
}

/// Where the program counter stands after `halt`.
proof fn lemma_after_halt<T: OnMachineCycle>(machine: Machine<T>)
    ensures
        machine.halt().cpu.pc() == wrap16(machine.cpu.pc(), 0),
{
    reveal(Machine::halt);
}

/// Where the program counter stands after `binary_memory`.
proof fn lemma_after_binary_memory<T: OnMachineCycle>(
    machine: Machine<T>,
    operation: Binary,
    pair: WordRegister,
    target: ByteRegister,
)
    ensures
        machine.binary_memory(operation, pair, target).cpu.pc() == wrap16(machine.cpu.pc(), 0),
{
    reveal(Machine::binary_memory);
}

/// Where the program counter stands after `binary_immediate`.
proof fn lemma_after_binary_immediate<T: OnMachineCycle>(
    machine: Machine<T>,
    operation: Binary,
    target: ByteRegister,
)
    ensures
        machine.binary_immediate(operation, target).cpu.pc() == wrap16(machine.cpu.pc(), 1),
{
    reveal(Machine::binary_immediate);
}

/// Where the program counter stands after `return_if`.
proof fn lemma_after_return_if<T: OnMachineCycle>(
    machine: Machine<T>,
    flag: CpuFlag,
    expected: bool,
)
    requires
        machine.cpu.flag(flag) != expected,
    ensures
        machine.return_if(flag, expected).cpu.pc() == wrap16(machine.cpu.pc(), 0),
{
    reveal(Machine::return_if);
}

/// Where the program counter stands after `pop_register`.
proof fn lemma_after_pop_register<T: OnMachineCycle>(machine: Machine<T>, pair: WordRegister)
    requires
        pair != WordRegister::PC,
    ensures
        machine.pop_register(pair).cpu.pc() == wrap16(machine.cpu.pc(), 0),
{
    reveal(Machine::pop_register);
}

/// Where the program counter stands after `jump_if`.
proof fn lemma_after_jump_if<T: OnMachineCycle>(machine: Machine<T>, flag: CpuFlag, expected: bool)
    requires
        machine.cpu.flag(flag) != expected,
    ensures
        machine.jump_if(flag, expected).cpu.pc() == wrap16(machine.cpu.pc(), 2),
{
    reveal(Machine::jump_if);
}

/// Where the program counter stands after `call_if`.
proof fn lemma_after_call_if<T: OnMachineCycle>(machine: Machine<T>, flag: CpuFlag, expected: bool)
    requires
        machine.cpu.flag(flag) != expected,
    ensures
        machine.call_if(flag, expected).cpu.pc() == wrap16(machine.cpu.pc(), 2),
{
    reveal(Machine::call_if);
}

/// Where the program counter stands after `push_register`.
proof fn lemma_after_push_register<T: OnMachineCycle>(machine: Machine<T>, pair: WordRegister)
    ensures
        machine.push_register(pair).cpu.pc() == wrap16(machine.cpu.pc(), 0),
{
    reveal(Machine::push_register);
}

/// Where the program counter stands after `store_high_immediate`.
proof fn lemma_after_store_high_immediate<T: OnMachineCycle>(
    machine: Machine<T>,
    source: ByteRegister,
)
    ensures
        machine.store_high_immediate(source).cpu.pc() == wrap16(machine.cpu.pc(), 1),
{
    reveal(Machine::store_high_immediate);
}

/// Where the program counter stands after `store_high`.
proof fn lemma_after_store_high<T: OnMachineCycle>(
    machine: Machine<T>,
    source: ByteRegister,
    index: ByteRegister,
)
    ensures
        machine.store_high(source, index).cpu.pc() == wrap16(machine.cpu.pc(), 0),
{
    reveal(Machine::store_high);
}

/// Where the program counter stands after `add_signed_immediate`.
proof fn lemma_after_add_signed_immediate<T: OnMachineCycle>(
    machine: Machine<T>,
    pair: WordRegister,
)
    requires
        pair != WordRegister::PC,
    ensures
        machine.add_signed_immediate(pair).cpu.pc() == wrap16(machine.cpu.pc(), 1),
{
    reveal(Machine::add_signed_immediate);
}

/// Where the program counter stands after `store_at_immediate`.
proof fn lemma_after_store_at_immediate<T: OnMachineCycle>(
    machine: Machine<T>,
    source: ByteRegister,
)
    ensures
        machine.store_at_immediate(source).cpu.pc() == wrap16(machine.cpu.pc(), 2),
{
    reveal(Machine::store_at_immediate);
}

/// Where the program counter stands after `load_high_immediate`.
proof fn lemma_after_load_high_immediate<T: OnMachineCycle>(
    machine: Machine<T>,
    target: ByteRegister,
)
    ensures
        machine.load_high_immediate(target).cpu.pc() == wrap16(machine.cpu.pc(), 1),
{
    reveal(Machine::load_high_immediate);
}

/// Where the program counter stands after `load_high`.
proof fn lemma_after_load_high<T: OnMachineCycle>(
    machine: Machine<T>,
    index: ByteRegister,
    target: ByteRegister,
)
    ensures
        machine.load_high(index, target).cpu.pc() == wrap16(machine.cpu.pc(), 0),
{
    reveal(Machine::load_high);
}

/// Where the program counter stands after `load_sum`.
proof fn lemma_after_load_sum<T: OnMachineCycle>(
    machine: Machine<T>,
    source: WordRegister,
    target: WordRegister,
)
    requires
        target != WordRegister::PC,
    ensures
        machine.load_sum(source, target).cpu.pc() == wrap16(machine.cpu.pc(), 1),
{
    reveal(Machine::load_sum);
}

/// Where the program counter stands after `copy_pair`.
proof fn lemma_after_copy_pair<T: OnMachineCycle>(
    machine: Machine<T>,
    source: WordRegister,
    target: WordRegister,
)
    requires
        target != WordRegister::PC,
    ensures
        machine.copy_pair(source, target).cpu.pc() == wrap16(machine.cpu.pc(), 0),
{
    reveal(Machine::copy_pair);
}

/// Where the program counter stands after `load_at_immediate`.
proof fn lemma_after_load_at_immediate<T: OnMachineCycle>(machine: Machine<T>, target: ByteRegister)
    ensures
        machine.load_at_immediate(target).cpu.pc() == wrap16(machine.cpu.pc(), 2),
{
    reveal(Machine::load_at_immediate);
}

/// Where the program counter stands after `shift_memory`.
proof fn lemma_after_shift_memory<T: OnMachineCycle>(
    machine: Machine<T>,
    operation: Unary,
    pair: WordRegister,
)
    ensures
        machine.shift_memory(operation, pair).cpu.pc() == wrap16(machine.cpu.pc(), 0),
{
    reveal(Machine::shift_memory);
}

/// Where the program counter stands after `test_memory`.
proof fn lemma_after_test_memory<T: OnMachineCycle>(
    machine: Machine<T>,
    bit: u8,
    pair: WordRegister,
)
    ensures
        machine.test_memory(bit, pair).cpu.pc() == wrap16(machine.cpu.pc(), 0),
{
    reveal(Machine::test_memory);
}

/// Where the program counter stands after `clear_bit_memory`.
proof fn lemma_after_clear_bit_memory<T: OnMachineCycle>(
    machine: Machine<T>,
    bit: u8,
    pair: WordRegister,
)
    ensures
        machine.clear_bit_memory(bit, pair).cpu.pc() == wrap16(machine.cpu.pc(), 0),
{
    reveal(Machine::clear_bit_memory);
}

/// Where the program counter stands after `set_bit_memory`.
proof fn lemma_after_set_bit_memory<T: OnMachineCycle>(
    machine: Machine<T>,
    bit: u8,
    pair: WordRegister,
)
    ensures
        machine.set_bit_memory(bit, pair).cpu.pc() == wrap16(machine.cpu.pc(), 0),
{
    reveal(Machine::set_bit_memory);
}

/// `increment8` leaves the program counter where it stands.
proof fn lemma_after_increment8(cpu: CpuView, register: ByteRegister)
    ensures
        cpu.increment8(register).pc() == cpu.pc(),
{
    reveal(CpuView::increment8);
}

/// `decrement8` leaves the program counter where it stands.
proof fn lemma_after_decrement8(cpu: CpuView, register: ByteRegister)
    ensures
        cpu.decrement8(register).pc() == cpu.pc(),
{
    reveal(CpuView::decrement8);
}

/// `rotate_accumulator` leaves the program counter where it stands.
proof fn lemma_after_rotate_accumulator(cpu: CpuView, operation: Unary)
    ensures
        cpu.rotate_accumulator(operation).pc() == cpu.pc(),
{
    reveal(CpuView::rotate_accumulator);
}

/// `decimal_adjust` leaves the program counter where it stands.
proof fn lemma_after_decimal_adjust(cpu: CpuView)
    ensures
        cpu.decimal_adjust().pc() == cpu.pc(),
{
    reveal(CpuView::decimal_adjust);
}

/// `complement_accumulator` leaves the program counter where it stands.
proof fn lemma_after_complement_accumulator(cpu: CpuView)
    ensures
        cpu.complement_accumulator().pc() == cpu.pc(),
{
    reveal(CpuView::complement_accumulator);
}

/// `set_carry` leaves the program counter where it stands.
proof fn lemma_after_set_carry(cpu: CpuView)
    ensures
        cpu.set_carry().pc() == cpu.pc(),
{
    reveal(CpuView::set_carry);
}

/// `complement_carry` leaves the program counter where it stands.
proof fn lemma_after_complement_carry(cpu: CpuView)
    ensures
        cpu.complement_carry().pc() == cpu.pc(),
{
    reveal(CpuView::complement_carry);
}

/// `copy_register` leaves the program counter where it stands.
proof fn lemma_after_copy_register(cpu: CpuView, source: ByteRegister, target: ByteRegister)
    ensures
        cpu.copy_register(source, target).pc() == cpu.pc(),
{
    reveal(CpuView::copy_register);
}

/// `binary_register` leaves the program counter where it stands.
proof fn lemma_after_binary_register(
    cpu: CpuView,
    operation: Binary,
    source: ByteRegister,
    target: ByteRegister,
)
    ensures
        cpu.binary_register(operation, source, target).pc() == cpu.pc(),
{
    reveal(CpuView::binary_register);
}

/// `shift_register` leaves the program counter where it stands.
proof fn lemma_after_shift_register(cpu: CpuView, operation: Unary, register: ByteRegister)
    ensures
        cpu.shift_register(operation, register).pc() == cpu.pc(),
{
    reveal(CpuView::shift_register);
}

/// `test_register` leaves the program counter where it stands.
proof fn lemma_after_test_register(cpu: CpuView, bit: u8, register: ByteRegister)
    ensures
        cpu.test_register(bit, register).pc() == cpu.pc(),
{
    reveal(CpuView::test_register);
}

/// `clear_bit_register` leaves the program counter where it stands.
proof fn lemma_after_clear_bit_register(cpu: CpuView, bit: u8, register: ByteRegister)
    ensures
        cpu.clear_bit_register(bit, register).pc() == cpu.pc(),
{
    reveal(CpuView::clear_bit_register);
}

/// `set_bit_register` leaves the program counter where it stands.
proof fn lemma_after_set_bit_register(cpu: CpuView, bit: u8, register: ByteRegister)
    ensures
        cpu.set_bit_register(bit, register).pc() == cpu.pc(),
{
    reveal(CpuView::set_bit_register);
}

/// An instruction behind the prefix leaves the program counter where it
/// stands.
#[verifier::rlimit(50)]
pub proof fn lemma_execute_prefixed_keeps<T: OnMachineCycle>(
    machine: Machine<T>,
    operation: PrefixedOperation,
)
    ensures
        machine.execute_prefixed(operation).cpu.pc() == machine.cpu.pc(),
{
    match operation {
        PrefixedOperation::RotateRegLeft(register) =>
            lemma_after_shift_register(machine.cpu, Unary::RotateLeft, register),
        PrefixedOperation::RotateAtAddressInWordRegLeft(pair) =>
            lemma_after_shift_memory(machine, Unary::RotateLeft, pair),
        PrefixedOperation::RotateRegRight(register) =>
            lemma_after_shift_register(machine.cpu, Unary::RotateRight, register),
        PrefixedOperation::RotateAtAddressInWordRegRight(pair) =>
            lemma_after_shift_memory(machine, Unary::RotateRight, pair),
        PrefixedOperation::RotateRegLeftThroughCarry(register) =>
            lemma_after_shift_register(machine.cpu, Unary::RotateLeftThroughCarry, register),
        PrefixedOperation::RotateAtAddressInWordRegLeftThroughCarry(pair) =>
            lemma_after_shift_memory(machine, Unary::RotateLeftThroughCarry, pair),
        PrefixedOperation::RotateRegRightThroughCarry(register) =>
            lemma_after_shift_register(machine.cpu, Unary::RotateRightThroughCarry, register),
        PrefixedOperation::RotateAtAddressInWordRegRightThroughCarry(pair) =>
            lemma_after_shift_memory(machine, Unary::RotateRightThroughCarry, pair),
        PrefixedOperation::ShiftRegLeftArithmetically(register) =>
            lemma_after_shift_register(machine.cpu, Unary::ShiftLeftArithmetically, register),
        PrefixedOperation::ShiftAtAddressInWordRegLeftArithmetically(pair) =>
            lemma_after_shift_memory(machine, Unary::ShiftLeftArithmetically, pair),
        PrefixedOperation::ShiftRegRightArithmetically(register) =>
            lemma_after_shift_register(machine.cpu, Unary::ShiftRightArithmetically, register),
        PrefixedOperation::ShiftAtAddressInWordRegRightArithmetically(pair) =>
            lemma_after_shift_memory(machine, Unary::ShiftRightArithmetically, pair),
        PrefixedOperation::SwapRegNibbles(register) =>
            lemma_after_shift_register(machine.cpu, Unary::SwapNibbles, register),
        PrefixedOperation::SwapAtAddressInWordRegNibbles(pair) =>
            lemma_after_shift_memory(machine, Unary::SwapNibbles, pair),
        PrefixedOperation::ShiftRegRightLogically(register) =>
            lemma_after_shift_register(machine.cpu, Unary::ShiftRightLogically, register),
        PrefixedOperation::ShiftAtAddressInWordRegRightLogically(pair) =>
            lemma_after_shift_memory(machine, Unary::ShiftRightLogically, pair),
        PrefixedOperation::TestForBitInReg(bit, register) =>
            lemma_after_test_register(machine.cpu, bit, register),
        PrefixedOperation::TestForBitInAtAddressInWordReg(bit, pair) =>
            lemma_after_test_memory(machine, bit, pair),
        PrefixedOperation::ClearBitInReg(bit, register) =>
            lemma_after_clear_bit_register(machine.cpu, bit, register),
        PrefixedOperation::ClearBitInAtAddressInWordReg(bit, pair) =>
            lemma_after_clear_bit_memory(machine, bit, pair),
        PrefixedOperation::SetBitInReg(bit, register) =>
            lemma_after_set_bit_register(machine.cpu, bit, register),
        PrefixedOperation::SetBitInAtAddressInWordReg(bit, pair) =>
            lemma_after_set_bit_memory(machine, bit, pair),
    }
}

/// The prefix and the byte behind it leave the program counter one
/// further than the prefix did, whatever instruction the byte stands for.
pub proof fn lemma_prefixed_advances<T: OnMachineCycle>(machine: Machine<T>)
    ensures
        machine.prefixed().cpu.pc() == wrap16(machine.cpu.pc(), 1),
{
    reveal(Machine::prefixed);
    lemma_execute_prefixed_keeps(
        machine.skip_operand(),
        decode_prefixed_spec(machine.operand()),
    );
}

/// The instructions in which a register takes a byte leave the program counter
/// behind their last byte.
#[verifier::rlimit(50)]
proof fn lemma_load_advances<T: OnMachineCycle>(machine: Machine<T>, operation: Operation)
    requires
        operation.family_of() == Family::Load,
        !operation.is_jump() || (operation.is_conditional() && !operation.taken(machine.cpu.f())),
    ensures
        machine.execute_load(operation).cpu.pc() == wrap16(
            machine.cpu.pc(),
            operation.length() - 1,
        ),
{
    match operation {
        Operation::LoadImmediateIntoReg(target) => lemma_after_load_immediate8(machine, target),
        Operation::LoadAtAddressInWordRegIntoReg(pair, target) =>
            lemma_after_load_register(machine, pair, target),
        Operation::LoadAtAddressInWordRegIntoRegAndIncrementWordReg(pair, target) =>
            lemma_after_load_register_and_step(machine, pair, target, 1i32),
        Operation::LoadAtAddressInWordRegIntoRegAndDecrementWordReg(pair, target) =>
            lemma_after_load_register_and_step(machine, pair, target, -1i32),
        Operation::LoadRegIntoReg(source, target) =>
            lemma_after_copy_register(machine.cpu, source, target),
        Operation::LoadImmediateIORegisterIntoReg(target) =>
            lemma_after_load_high_immediate(machine, target),
        Operation::LoadRegIORegisterIntoReg(index, target) =>
            lemma_after_load_high(machine, index, target),
        Operation::LoadAtImmediateAddressIntoReg(target) =>
            lemma_after_load_at_immediate(machine, target),
        _ => {},
    }
}

/// The instructions in which memory takes a byte leave the program counter
/// behind their last byte.
#[verifier::rlimit(50)]
proof fn lemma_store_advances<T: OnMachineCycle>(machine: Machine<T>, operation: Operation)
    requires
        operation.family_of() == Family::Store,
        !operation.is_jump() || (operation.is_conditional() && !operation.taken(machine.cpu.f())),
    ensures
        machine.execute_store(operation).cpu.pc() == wrap16(
            machine.cpu.pc(),
            operation.length() - 1,
        ),
{
    match operation {
        Operation::LoadRegIntoAddressInWordReg(source, pair) =>
            lemma_after_store_register(machine, source, pair),
        Operation::LoadRegIntoAddressInWordRegAndIncrementWordReg(source, pair) =>
            lemma_after_store_register_and_step(machine, source, pair, 1i32),
        Operation::LoadRegIntoAddressInWordRegAndDecrementWordReg(source, pair) =>
            lemma_after_store_register_and_step(machine, source, pair, -1i32),
        Operation::LoadImmediateIntoAddressInWordReg(pair) =>
            lemma_after_store_immediate(machine, pair),
        Operation::LoadRegIntoImmediateIORegister(source) =>
            lemma_after_store_high_immediate(machine, source),
        Operation::LoadRegIntoRegIORegister(source, index) =>
            lemma_after_store_high(machine, source, index),
        Operation::LoadRegIntoImmediateAddress(source) =>
            lemma_after_store_at_immediate(machine, source),
        _ => {},
    }
}

/// The instructions in which a word moves between registers and memory leave the program counter
/// behind their last byte.
#[verifier::rlimit(50)]
proof fn lemma_move16_advances<T: OnMachineCycle>(machine: Machine<T>, operation: Operation)
    requires
        operation.family_of() == Family::Move16,
        !operation.is_jump() || (operation.is_conditional() && !operation.taken(machine.cpu.f())),
    ensures
        machine.execute_move16(operation).cpu.pc() == wrap16(
            machine.cpu.pc(),
            operation.length() - 1,
        ),
{
    match operation {
        Operation::LoadImmediateIntoWordReg(target) =>
            lemma_after_load_immediate16(machine, target),
        Operation::LoadSPIntoImmediateAddress => lemma_after_store_stack_pointer(machine),
        Operation::PopStackIntoWordReg(pair) => lemma_after_pop_register(machine, pair),
        Operation::PushWordRegIntoStack(pair) => lemma_after_push_register(machine, pair),
        Operation::LoadSumOfWordRegAndSignedImmediateIntoWordReg(source, target) =>
            lemma_after_load_sum(machine, source, target),
        Operation::LoadWordRegIntoWordReg(source, target) =>
            lemma_after_copy_pair(machine, source, target),
        _ => {},
    }
}

/// The instructions in which the unit works on registers alone leave the program counter
/// behind their last byte.
#[verifier::rlimit(50)]
proof fn lemma_register_advances<T: OnMachineCycle>(machine: Machine<T>, operation: Operation)
    requires
        operation.family_of() == Family::Register,
        !operation.is_jump() || (operation.is_conditional() && !operation.taken(machine.cpu.f())),
    ensures
        machine.execute_register(operation).cpu.pc() == wrap16(
            machine.cpu.pc(),
            operation.length() - 1,
        ),
{
    match operation {
        Operation::IncrementReg(register) => lemma_after_increment8(machine.cpu, register),
        Operation::DecrementReg(register) => lemma_after_decrement8(machine.cpu, register),
        Operation::RotateAccLeft => lemma_after_rotate_accumulator(machine.cpu, Unary::RotateLeft),
        Operation::RotateAccRight =>
            lemma_after_rotate_accumulator(machine.cpu, Unary::RotateRight),
        Operation::RotateAccLeftThroughCarry =>
            lemma_after_rotate_accumulator(machine.cpu, Unary::RotateLeftThroughCarry),
        Operation::RotateAccRightThroughCarry =>
            lemma_after_rotate_accumulator(machine.cpu, Unary::RotateRightThroughCarry),
        Operation::DecimalAdjustAcc => lemma_after_decimal_adjust(machine.cpu),
        Operation::ComplementAcc => lemma_after_complement_accumulator(machine.cpu),
        Operation::SetCarry => lemma_after_set_carry(machine.cpu),
        Operation::ComplementCarry => lemma_after_complement_carry(machine.cpu),
        Operation::AddRegIntoReg(source, target) =>
            lemma_after_binary_register(machine.cpu, Binary::Add, source, target),
        Operation::AddRegIntoRegWithCarry(source, target) =>
            lemma_after_binary_register(machine.cpu, Binary::AddWithCarry, source, target),
        Operation::SubRegFromReg(source, target) =>
            lemma_after_binary_register(machine.cpu, Binary::Sub, source, target),
        Operation::SubRegFromRegWithCarry(source, target) =>
            lemma_after_binary_register(machine.cpu, Binary::SubWithCarry, source, target),
        Operation::AndRegIntoReg(source, target) =>
            lemma_after_binary_register(machine.cpu, Binary::And, source, target),
        Operation::XorRegIntoReg(source, target) =>
            lemma_after_binary_register(machine.cpu, Binary::Xor, source, target),
        Operation::OrRegIntoReg(source, target) =>
            lemma_after_binary_register(machine.cpu, Binary::Or, source, target),
        Operation::CompareRegAndReg(source, target) =>
            lemma_after_binary_register(machine.cpu, Binary::Compare, source, target),
        _ => {},
    }
}

/// The instructions in which the unit takes an operand from memory leave the program counter
/// behind their last byte.
#[verifier::rlimit(50)]
proof fn lemma_memory_advances<T: OnMachineCycle>(machine: Machine<T>, operation: Operation)
    requires
        operation.family_of() == Family::Memory,
        !operation.is_jump() || (operation.is_conditional() && !operation.taken(machine.cpu.f())),
    ensures
        machine.execute_memory(operation).cpu.pc() == wrap16(
            machine.cpu.pc(),
            operation.length() - 1,
        ),
{
    match operation {
        Operation::IncrementAtAddressInWordReg(pair) => lemma_after_increment_memory(machine, pair),
        Operation::DecrementAtAddressInWordReg(pair) => lemma_after_decrement_memory(machine, pair),
        Operation::AddAtAddressInWordRegIntoReg(pair, target) =>
            lemma_after_binary_memory(machine, Binary::Add, pair, target),
        Operation::AddAtAddressInWordRegIntoRegWithCarry(pair, target) =>
            lemma_after_binary_memory(machine, Binary::AddWithCarry, pair, target),
        Operation::SubAtAddressInWordRegFromReg(pair, target) =>
            lemma_after_binary_memory(machine, Binary::Sub, pair, target),
        Operation::SubAtAddressInWordRegFromRegWithCarry(pair, target) =>
            lemma_after_binary_memory(machine, Binary::SubWithCarry, pair, target),
        Operation::AndAtAddressInWordRegIntoReg(pair, target) =>
            lemma_after_binary_memory(machine, Binary::And, pair, target),
        Operation::XorAtAddressInWordRegIntoReg(pair, target) =>
            lemma_after_binary_memory(machine, Binary::Xor, pair, target),
        Operation::OrAtAddressInWordRegIntoReg(pair, target) =>
            lemma_after_binary_memory(machine, Binary::Or, pair, target),
        Operation::CompareAtAddressInWordRegAndReg(pair, target) =>
            lemma_after_binary_memory(machine, Binary::Compare, pair, target),
        _ => {},
    }
}

/// The instructions in which the unit takes the byte behind the opcode leave the program counter
/// behind their last byte.
#[verifier::rlimit(50)]
proof fn lemma_immediate_advances<T: OnMachineCycle>(machine: Machine<T>, operation: Operation)
    requires
        operation.family_of() == Family::Immediate,
        !operation.is_jump() || (operation.is_conditional() && !operation.taken(machine.cpu.f())),
    ensures
        machine.execute_immediate(operation).cpu.pc() == wrap16(
            machine.cpu.pc(),
            operation.length() - 1,
        ),
{
    match operation {
        Operation::AddImmediateIntoReg(target) =>
            lemma_after_binary_immediate(machine, Binary::Add, target),
        Operation::AddImmediateIntoRegWithCarry(target) =>
            lemma_after_binary_immediate(machine, Binary::AddWithCarry, target),
        Operation::SubImmediateFromReg(target) =>
            lemma_after_binary_immediate(machine, Binary::Sub, target),
        Operation::SubImmediateFromRegWithCarry(target) =>
            lemma_after_binary_immediate(machine, Binary::SubWithCarry, target),
        Operation::AndImmediateIntoReg(target) =>
            lemma_after_binary_immediate(machine, Binary::And, target),
        Operation::XorImmediateIntoReg(target) =>
            lemma_after_binary_immediate(machine, Binary::Xor, target),
        Operation::OrImmediateIntoReg(target) =>
            lemma_after_binary_immediate(machine, Binary::Or, target),
        Operation::CompareImmediateAndReg(target) =>
            lemma_after_binary_immediate(machine, Binary::Compare, target),
        _ => {},
    }
}

/// The instructions in which arithmetic on a register pair leave the program counter
/// behind their last byte.
#[verifier::rlimit(50)]
proof fn lemma_wide_advances<T: OnMachineCycle>(machine: Machine<T>, operation: Operation)
    requires
        operation.family_of() == Family::Wide,
        !operation.is_jump() || (operation.is_conditional() && !operation.taken(machine.cpu.f())),
    ensures
        machine.execute_wide(operation).cpu.pc() == wrap16(
            machine.cpu.pc(),
            operation.length() - 1,
        ),
{
    match operation {
        Operation::IncrementWordReg(pair) => lemma_after_step16(machine, pair, 1i32),
        Operation::DecrementWordReg(pair) => lemma_after_step16(machine, pair, -1i32),
        Operation::AddWordRegIntoWordReg(source, target) =>
            lemma_after_add16(machine, source, target),
        Operation::AddSignedImmediateIntoWordReg(pair) =>
            lemma_after_add_signed_immediate(machine, pair),
        _ => {},
    }
}

/// The instructions in which a jump leave the program counter
/// behind their last byte.
#[verifier::rlimit(50)]
proof fn lemma_jump_advances<T: OnMachineCycle>(machine: Machine<T>, operation: Operation)
    requires
        operation.family_of() == Family::Jump,
        !operation.is_jump() || (operation.is_conditional() && !operation.taken(machine.cpu.f())),
    ensures
        machine.execute_jump(operation).cpu.pc() == wrap16(
            machine.cpu.pc(),
            operation.length() - 1,
        ),
{
    match operation {
        Operation::ConditionalRelativeJumpImmediateOffset(flag) =>
            lemma_after_relative_jump_if(machine, flag, true),
        Operation::NegativeConditionalRelativeJumpImmediateOffset(flag) =>
            lemma_after_relative_jump_if(machine, flag, false),
        Operation::ConditionalJumpImmediateAddress(flag) =>
            lemma_after_jump_if(machine, flag, true),
        Operation::NegativeConditionalJumpImmediateAddress(flag) =>
            lemma_after_jump_if(machine, flag, false),
        _ => {},
    }
}

/// The instructions in which a call or a return leave the program counter
/// behind their last byte.
#[verifier::rlimit(50)]
proof fn lemma_call_advances<T: OnMachineCycle>(machine: Machine<T>, operation: Operation)
    requires
        operation.family_of() == Family::Call,
        !operation.is_jump() || (operation.is_conditional() && !operation.taken(machine.cpu.f())),
    ensures
        machine.execute_call(operation).cpu.pc() == wrap16(
            machine.cpu.pc(),
            operation.length() - 1,
        ),
{
    match operation {
        Operation::ConditionalReturn(flag) => lemma_after_return_if(machine, flag, true),
        Operation::NegativeConditionalReturn(flag) => lemma_after_return_if(machine, flag, false),
        Operation::ConditionalCallImmediateAddress(flag) =>
            lemma_after_call_if(machine, flag, true),
        Operation::NegativeConditionalCallImmediateAddress(flag) =>
            lemma_after_call_if(machine, flag, false),
        _ => {},
    }
}

/// The instructions in which the processor itself is steered leave the program counter
/// behind their last byte.
#[verifier::rlimit(50)]
proof fn lemma_control_advances<T: OnMachineCycle>(machine: Machine<T>, operation: Operation)
    requires
        operation.family_of() == Family::Control,
        !operation.is_jump() || (operation.is_conditional() && !operation.taken(machine.cpu.f())),
    ensures
        machine.execute_control(operation).cpu.pc() == wrap16(
            machine.cpu.pc(),
            operation.length() - 1,
        ),
{
    match operation {
        Operation::Halt => lemma_after_halt(machine),
        Operation::Prefixed => lemma_prefixed_advances(machine),
        _ => {},
    }
}

/// An instruction that is no jump leaves the program counter behind its
/// last byte, and so does one with a condition that fails.
pub proof fn lemma_execute_advances<T: OnMachineCycle>(machine: Machine<T>, operation: Operation)
    requires
        !operation.is_jump() || (operation.is_conditional() && !operation.taken(machine.cpu.f())),
    ensures
        machine.execute(operation).cpu.pc() == wrap16(
            machine.cpu.pc(),
            operation.length() - 1,
        ),
{
    reveal(Machine::execute);
    match operation.family_of() {
        Family::Load => lemma_load_advances(machine, operation),
        Family::Store => lemma_store_advances(machine, operation),
        Family::Move16 => lemma_move16_advances(machine, operation),
        Family::Register => lemma_register_advances(machine, operation),
        Family::Memory => lemma_memory_advances(machine, operation),
        Family::Immediate => lemma_immediate_advances(machine, operation),
        Family::Wide => lemma_wide_advances(machine, operation),
        Family::Jump => lemma_jump_advances(machine, operation),
        Family::Call => lemma_call_advances(machine, operation),
        Family::Control => lemma_control_advances(machine, operation),
    }
}

} // verus!
