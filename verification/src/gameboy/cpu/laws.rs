//! What holds of every run of the CPU, whatever the rest of the console
//! does on its machine cycles.

use super::alu::{high_byte, low_byte, word_of, wrap16};
use super::advance::lemma_execute_advances;
use super::operation::{
    decode_prefixed_spec, decode_spec, is_defined, lemma_cycles_bounds,
    lemma_decode_agrees_with_manuals, lemma_decode_prefixed_agrees_with_manuals, official_cycles,
    official_prefixed_cycles, Operation,
};
use super::{bus_write, CycleCounter, Machine, MasterInterrupt, OnMachineCycle, WordRegister};
use crate::gameboy::memory::MemoryView;
use vstd::prelude::*;

verus! {

/// A step that runs an instruction that is no jump, or whose condition
/// fails, moves the program counter on by the length of the instruction.
#[verifier::rlimit(50)]
pub proof fn lemma_step_advances<T: OnMachineCycle>(machine: Machine<T>)
    requires
        !machine.idles(),
        !machine.takes_interrupt(),
        !decode_spec(machine.operand()).is_jump() || (decode_spec(
            machine.operand(),
        ).is_conditional() && !decode_spec(machine.operand()).taken(machine.cpu.f())),
    ensures
        machine.step().cpu.pc() == wrap16(
            machine.cpu.pc(),
            decode_spec(machine.operand()).length() as int,
        ),
{
    reveal(Machine::step);
    lemma_execute_advances(machine.fetched(), decode_spec(machine.operand()));
    lemma_cycles_bounds(
        decode_spec(machine.operand()),
        decode_prefixed_spec(machine.fetched().operand()),
        true,
    );
}

/// A step takes the machine cycles that the manuals give: one where the
/// CPU sleeps, five where it takes an interrupt, and else those of the
/// opcode that it meets, with the condition of the instruction holding or
/// not, or those of the byte behind the prefix.
#[verifier::rlimit(50)]
pub proof fn lemma_step_takes_official_cycles<T: OnMachineCycle>(machine: Machine<T>)
    requires
        is_defined(machine.operand()),
    ensures
        machine.step_cycles() == if machine.idles() {
            1
        } else if machine.takes_interrupt() {
            5
        } else if machine.operand() == 0xCB {
            official_prefixed_cycles(machine.fetched().operand())
        } else {
            official_cycles(
                machine.operand(),
                decode_spec(machine.operand()).taken(machine.cpu.f()),
            )
        },
{
    reveal(Machine::step_cycles);
    let opcode = machine.operand();
    let taken = decode_spec(opcode).taken(machine.cpu.f());
    lemma_decode_agrees_with_manuals(opcode, taken);
    lemma_decode_prefixed_agrees_with_manuals(machine.fetched().operand());
    assert(machine.fetched().cpu.f() == machine.cpu.f());
}

/// Whatever was going on, the step that meets the instruction that
/// disables interrupts leaves them off and the CPU awake: either the
/// instruction runs, or an interrupt is taken in its place.
#[verifier::rlimit(50)]
pub proof fn lemma_step_on_disable<T: OnMachineCycle>(machine: Machine<T>)
    requires
        !machine.cpu.halt,
        machine.operand() == 0xF3,
    ensures
        machine.step().cpu.master_interrupt_flag == MasterInterrupt::Off,
        !machine.step().cpu.halt,
{
    reveal(Machine::execute);
    reveal(Machine::step);
    reveal(Machine::service);
}

/// With interrupts off, the step that meets the instruction that enables
/// them leaves them turning on: no interrupt is taken yet.
#[verifier::rlimit(50)]
pub proof fn lemma_step_on_enable<T: OnMachineCycle>(machine: Machine<T>)
    requires
        !machine.cpu.halt,
        machine.cpu.master_interrupt_flag == MasterInterrupt::Off,
        machine.operand() == 0xFB,
    ensures
        machine.step().cpu.master_interrupt_flag == MasterInterrupt::TurningOn,
        !machine.step().cpu.halt,
{
    reveal(Machine::execute);
    reveal(Machine::step);
}

/// With interrupts turning on, the step that meets the instruction that
/// does nothing leaves them on, without an interrupt being taken in it.
#[verifier::rlimit(50)]
pub proof fn lemma_step_after_enable<T: OnMachineCycle>(machine: Machine<T>)
    requires
        !machine.cpu.halt,
        machine.cpu.master_interrupt_flag == MasterInterrupt::TurningOn,
        machine.operand() == 0x00,
    ensures
        machine.step().cpu.master_interrupt_flag == MasterInterrupt::On,
        machine.step().cpu.pc() == wrap16(machine.cpu.pc(), 1),
        !machine.step().cpu.halt,
{
    reveal(Machine::execute);
    reveal(Machine::step);
}

/// The delay of the instruction that enables interrupts: where the CPU
/// meets, one after the other, the instructions that disable interrupts,
/// that enable them and that does nothing, interrupts are off after the
/// first, turning on after the second and on after the third, before any
/// further instruction starts.
pub proof fn lemma_enable_delay<T: OnMachineCycle>(machine: Machine<T>)
    requires
        !machine.cpu.halt,
        machine.operand() == 0xF3,
        machine.step().operand() == 0xFB,
        machine.step().step().operand() == 0x00,
    ensures
        machine.step().cpu.master_interrupt_flag == MasterInterrupt::Off,
        machine.step().step().cpu.master_interrupt_flag == MasterInterrupt::TurningOn,
        machine.step().step().step().cpu.master_interrupt_flag == MasterInterrupt::On,
{
    lemma_step_on_disable(machine);
    lemma_step_on_enable(machine.step());
    lemma_step_after_enable(machine.step().step());
}

/// Whether `address` lies in work RAM, its echo or high RAM, where a byte
/// that the CPU writes is the byte that it reads back.
pub open spec fn in_ram(address: u16) -> bool {
    0xC000 <= address < 0xFE00 || 0xFF80 <= address
}

/// Whether a machine cycle of the rest of the console leaves the byte at
/// `address` as it is, whatever the state.
pub open spec fn cycle_keeps<T: OnMachineCycle>(address: u16) -> bool {
    forall|model: T::V, memory: MemoryView|
        memory.wf() ==> (#[trigger] T::after_cycle(model, memory)).1.wf() && T::after_cycle(
            model,
            memory,
        ).1.read(address) == memory.read(address)
}

/// A counter of machine cycles leaves every byte as it is.
pub proof fn lemma_counter_keeps(address: u16)
    ensures
        cycle_keeps::<CycleCounter>(address),
{
}

/// A register pair that is pushed and then popped holds what it held;
/// of F only the flags come back. This holds where the stack lies in RAM
/// and the rest of the console leaves its two bytes alone.
#[verifier::rlimit(100)]
#[verifier::spinoff_prover]
pub proof fn lemma_push_then_pop<T: OnMachineCycle>(machine: Machine<T>, pair: WordRegister)
    requires
        machine.memory.wf(),
        pair != WordRegister::PC,
        pair != WordRegister::SP,
        machine.cpu.sp() >= 2,
        in_ram((machine.cpu.sp() - 1) as u16),
        in_ram((machine.cpu.sp() - 2) as u16),
        cycle_keeps::<T>((machine.cpu.sp() - 1) as u16),
        cycle_keeps::<T>((machine.cpu.sp() - 2) as u16),
    ensures
        ({
            let after = machine.execute(Operation::PushWordRegIntoStack(pair)).execute(
                Operation::PopStackIntoWordReg(pair),
            );
            &&& after.cpu.sp() == machine.cpu.sp()
            &&& after.cpu.reg16(pair) == if pair == WordRegister::AF {
                word_of(
                    (machine.cpu.f() - machine.cpu.f() % 16) as u8,
                    machine.cpu.a(),
                )
            } else {
                machine.cpu.reg16(pair)
            }
        }),
{
    reveal(Machine::execute);
    reveal(Machine::push_register);
    reveal(Machine::pop_register);
    let value = machine.cpu.reg16(pair);
    let sp = machine.cpu.sp();
    let high_at = (sp - 1) as u16;
    let low_at = (sp - 2) as u16;
    let idle = machine.tick();
    let first = idle.tick();
    let high_written = first.write(high_at, high_byte(value));
    lemma_ram_write(first.memory, high_at, high_byte(value), low_at);
    assert(high_written.memory.read(high_at) == high_byte(value));
    let second = high_written.tick();
    let low_written = second.write(low_at, low_byte(value));
    lemma_ram_write(second.memory, low_at, low_byte(value), high_at);
    assert(low_written.memory.read(low_at) == low_byte(value));
    assert(low_written.memory.read(high_at) == high_byte(value));
    let pushed = machine.execute(Operation::PushWordRegIntoStack(pair));
    assert(pushed.memory == low_written.memory);
    assert(pushed.cpu.sp() == low_at);
    let third = pushed.tick();
    assert(third.memory.read(low_at) == low_byte(value));
    assert(third.memory.read(high_at) == high_byte(value));
    let fourth = third.tick();
    assert(fourth.memory.read(high_at) == high_byte(value));
    assert(pushed.popped() == word_of(low_byte(value), high_byte(value)));
    assert(word_of(low_byte(value), high_byte(value)) == value);
}

/// A byte that the CPU writes to RAM is the byte that a read returns, and
/// the write leaves the byte next to it as it was.
#[verifier::rlimit(50)]
pub proof fn lemma_ram_write(memory: MemoryView, address: u16, data: u8, other: u16)
    requires
        memory.wf(),
        in_ram(address),
        other + 1 == address || address + 1 == other,
    ensures
        bus_write(memory, address, data).wf(),
        bus_write(memory, address, data).read(address) == data,
        bus_write(memory, address, data).read(other) == memory.read(other),
{
    reveal(bus_write);
}

/// No write of the CPU changes LY: the scanline belongs to the PPU.
pub proof fn lemma_bus_write_keeps_line(memory: MemoryView, address: u16, data: u8)
    requires
        memory.wf(),
    ensures
        bus_write(memory, address, data).read(0xFF44) == memory.read(0xFF44),
        bus_write(memory, address, data).wf(),
{
    reveal(bus_write);
}

} // verus!
