pub mod advance;
pub mod alu;
pub mod instructions;
pub mod laws;
pub mod operation;

pub use self::alu::CpuFlag;
use self::alu::{
    change_flag, flag_is_set, has_flag, high_byte, high_half, low_byte, low_half, make_word,
    with_flag, word_of, wrap16, wrapping_offset, Outcome, WideOutcome,
};
use self::operation::{decode_prefixed_spec, decode_spec, lemma_cycles_bounds, Operation};
use super::memory::{registers, Memory, MemoryView};
use crate::util::{bit_is_set, clear_bit, clear_bit_spec};
use vstd::prelude::*;

verus! {

/// A 8-bit Register
#[derive(PartialEq, Eq, Clone, Copy, Debug, Structural)]
pub enum ByteRegister {
    A,
    B,
    C,
    D,
    E,
    F,
    H,
    L,
}

/// A 16-bit Register
#[derive(PartialEq, Eq, Clone, Copy, Debug, Structural)]
pub enum WordRegister {
    AF,
    BC,
    DE,
    HL,
    SP,
    PC,
}

/// The values of the registers.
pub struct RegistersView {
    pub a: u8,
    pub f: u8,
    pub b: u8,
    pub c: u8,
    pub d: u8,
    pub e: u8,
    pub h: u8,
    pub l: u8,
    pub sp: u16,
    pub pc: u16,
}

impl RegistersView {
    /// The low nibble of F is zero.
    pub open spec fn wf(self) -> bool {
        self.f % 16 == 0
    }

    pub open spec fn reg8(self, register: ByteRegister) -> u8 {
        match register {
            ByteRegister::A => self.a,
            ByteRegister::B => self.b,
            ByteRegister::C => self.c,
            ByteRegister::D => self.d,
            ByteRegister::E => self.e,
            ByteRegister::F => self.f,
            ByteRegister::H => self.h,
            ByteRegister::L => self.l,
        }
    }

    /// The registers with `value` in `register`. F takes the high nibble
    /// only.
    pub open spec fn with_reg8(self, register: ByteRegister, value: u8) -> RegistersView {
        match register {
            ByteRegister::A => RegistersView { a: value, ..self },
            ByteRegister::B => RegistersView { b: value, ..self },
            ByteRegister::C => RegistersView { c: value, ..self },
            ByteRegister::D => RegistersView { d: value, ..self },
            ByteRegister::E => RegistersView { e: value, ..self },
            ByteRegister::F => RegistersView { f: (value - value % 16) as u8, ..self },
            ByteRegister::H => RegistersView { h: value, ..self },
            ByteRegister::L => RegistersView { l: value, ..self },
        }
    }

    pub open spec fn reg16(self, register: WordRegister) -> u16 {
        match register {
            WordRegister::AF => word_of(self.f, self.a),
            WordRegister::BC => word_of(self.c, self.b),
            WordRegister::DE => word_of(self.e, self.d),
            WordRegister::HL => word_of(self.l, self.h),
            WordRegister::SP => self.sp,
            WordRegister::PC => self.pc,
        }
    }

    /// The registers with `value` in `register`. F takes the high nibble of
    /// the low byte only.
    pub open spec fn with_reg16(self, register: WordRegister, value: u16) -> RegistersView {
        match register {
            WordRegister::AF => RegistersView {
                a: high_byte(value),
                f: (low_byte(value) - low_byte(value) % 16) as u8,
                ..self
            },
            WordRegister::BC => RegistersView { b: high_byte(value), c: low_byte(value), ..self },
            WordRegister::DE => RegistersView { d: high_byte(value), e: low_byte(value), ..self },
            WordRegister::HL => RegistersView { h: high_byte(value), l: low_byte(value), ..self },
            WordRegister::SP => RegistersView { sp: value, ..self },
            WordRegister::PC => RegistersView { pc: value, ..self },
        }
    }

    pub open spec fn flag(self, flag: CpuFlag) -> bool {
        has_flag(self.f, flag)
    }

    pub open spec fn with_flag(self, flag: CpuFlag, value: bool) -> RegistersView {
        RegistersView { f: with_flag(self.f, flag, value), ..self }
    }

    /// The registers with the flag register `f`, taken whole.
    pub open spec fn with_flags(self, f: u8) -> RegistersView {
        RegistersView { f, ..self }
    }
}

/// The registers of a console that was just switched on.
pub open spec fn initial_registers() -> RegistersView {
    RegistersView { a: 0, f: 0, b: 0, c: 0, d: 0, e: 0, h: 0, l: 0, sp: 0xFFFE, pc: 0x0000 }
}

/// Collection of Gameboy registers.
#[derive(Clone, Copy, Debug)]
pub struct Registers {
    a: u8,
    f: u8,
    b: u8,
    c: u8,
    d: u8,
    e: u8,
    h: u8,
    l: u8,
    sp: u16,
    pc: u16,
}

impl View for Registers {
    type V = RegistersView;

    closed spec fn view(&self) -> RegistersView {
        RegistersView {
            a: self.a,
            f: self.f,
            b: self.b,
            c: self.c,
            d: self.d,
            e: self.e,
            h: self.h,
            l: self.l,
            sp: self.sp,
            pc: self.pc,
        }
    }
}

impl Default for Registers {
    fn default() -> (r: Self)
        ensures
            r@ == initial_registers(),
    {
        Registers::new()
    }
}

impl Registers {
    pub fn new() -> (r: Self)
        ensures
            r@ == initial_registers(),
    {
        Self { a: 0, f: 0, b: 0, c: 0, d: 0, e: 0, h: 0, l: 0, sp: 0xFFFE, pc: 0x0000 }
    }

    #[inline]
    pub fn get_reg_8(&self, register: ByteRegister) -> (value: u8)
        ensures
            value == self@.reg8(register),
    {
        match register {
            ByteRegister::A => self.a,
            ByteRegister::B => self.b,
            ByteRegister::C => self.c,
            ByteRegister::D => self.d,
            ByteRegister::E => self.e,
            ByteRegister::F => self.f,
            ByteRegister::H => self.h,
            ByteRegister::L => self.l,
        }
    }

    #[inline]
    pub fn set_reg_8(&mut self, register: ByteRegister, value: u8)
        ensures
            final(self)@ == old(self)@.with_reg8(register, value),
    {
        match register {
            ByteRegister::A => self.a = value,
            ByteRegister::B => self.b = value,
            ByteRegister::C => self.c = value,
            ByteRegister::D => self.d = value,
            ByteRegister::E => self.e = value,
            ByteRegister::F => self.f = value - value % 16,
            ByteRegister::H => self.h = value,
            ByteRegister::L => self.l = value,
        }
    }

    #[inline]
    pub fn get_reg_16(&self, register: WordRegister) -> (value: u16)
        ensures
            value == self@.reg16(register),
    {
        match register {
            WordRegister::AF => make_word(self.f, self.a),
            WordRegister::BC => make_word(self.c, self.b),
            WordRegister::DE => make_word(self.e, self.d),
            WordRegister::HL => make_word(self.l, self.h),
            WordRegister::SP => self.sp,
            WordRegister::PC => self.pc,
        }
    }

    #[inline]
    pub fn set_reg_16(&mut self, register: WordRegister, value: u16)
        ensures
            final(self)@ == old(self)@.with_reg16(register, value),
    {
        let high = high_half(value);
        let low = low_half(value);
        match register {
            WordRegister::AF => {
                self.a = high;
                self.f = low - low % 16;
            },
            WordRegister::BC => {
                self.b = high;
                self.c = low;
            },
            WordRegister::DE => {
                self.d = high;
                self.e = low;
            },
            WordRegister::HL => {
                self.h = high;
                self.l = low;
            },
            WordRegister::SP => self.sp = value,
            WordRegister::PC => self.pc = value,
        }
    }

    #[inline]
    pub fn get_flag(&self, flag: CpuFlag) -> (set: bool)
        ensures
            set == self@.flag(flag),
    {
        flag_is_set(self.f, flag)
    }

    #[inline]
    pub fn set_flag(&mut self, flag: CpuFlag, value: bool)
        ensures
            final(self)@ == old(self)@.with_flag(flag, value),
    {
        self.f = change_flag(self.f, flag, value);
    }

    /// Replaces the flag register by `f`, whose low nibble is zero.
    #[inline]
    pub fn set_flags(&mut self, f: u8)
        requires
            f % 16 == 0,
        ensures
            final(self)@ == old(self)@.with_flags(f),
    {
        self.f = f;
    }
}

/// Whether the CPU takes interrupts.
#[derive(Clone, Copy, PartialEq, Eq, Debug, Structural)]
pub enum MasterInterrupt {
    Off,
    /// Set by the instruction that enables interrupts: they are taken from
    /// the end of the next instruction on.
    TurningOn,
    On,
}

/// The state of the CPU.
pub struct CpuView {
    pub registers: RegistersView,
    pub master_interrupt_flag: MasterInterrupt,
    pub halt: bool,
}

/// The CPU of a console that was just switched on.
pub open spec fn initial_cpu() -> CpuView {
    CpuView {
        registers: initial_registers(),
        master_interrupt_flag: MasterInterrupt::Off,
        halt: false,
    }
}

impl CpuView {
    pub open spec fn pc(self) -> u16 {
        self.registers.pc
    }

    pub open spec fn sp(self) -> u16 {
        self.registers.sp
    }

    pub open spec fn f(self) -> u8 {
        self.registers.f
    }

    pub open spec fn a(self) -> u8 {
        self.registers.a
    }

    pub open spec fn reg8(self, register: ByteRegister) -> u8 {
        self.registers.reg8(register)
    }

    pub open spec fn reg16(self, register: WordRegister) -> u16 {
        self.registers.reg16(register)
    }

    pub open spec fn flag(self, flag: CpuFlag) -> bool {
        self.registers.flag(flag)
    }

    pub open spec fn set8(self, register: ByteRegister, value: u8) -> CpuView {
        CpuView { registers: self.registers.with_reg8(register, value), ..self }
    }

    pub open spec fn set16(self, register: WordRegister, value: u16) -> CpuView {
        CpuView { registers: self.registers.with_reg16(register, value), ..self }
    }

    pub open spec fn set_flags(self, f: u8) -> CpuView {
        CpuView { registers: self.registers.with_flags(f), ..self }
    }

    /// The CPU after `outcome` went to `register` and to the flags.
    pub open spec fn apply(self, register: ByteRegister, outcome: Outcome) -> CpuView {
        self.set8(register, outcome.value).set_flags(outcome.flags)
    }

    /// The CPU after `outcome` went to `register` and to the flags.
    pub open spec fn apply16(self, register: WordRegister, outcome: WideOutcome) -> CpuView {
        self.set16(register, outcome.value).set_flags(outcome.flags)
    }

    pub open spec fn with_master_interrupt(self, value: MasterInterrupt) -> CpuView {
        CpuView { master_interrupt_flag: value, ..self }
    }

    pub open spec fn with_halt(self, halt: bool) -> CpuView {
        CpuView { halt, ..self }
    }

    /// The CPU with interrupts on, where `was_turning_on` holds and no
    /// instruction has switched them off again since.
    pub open spec fn promote(self, was_turning_on: bool) -> CpuView {
        if was_turning_on && self.master_interrupt_flag == MasterInterrupt::TurningOn {
            self.with_master_interrupt(MasterInterrupt::On)
        } else {
            self
        }
    }
}

/// CPU (Central Processing Unit) component of the Gameboy.
pub struct Cpu {
    registers: Registers,
    master_interrupt_flag: MasterInterrupt,
    halt: bool,
}

impl View for Cpu {
    type V = CpuView;

    closed spec fn view(&self) -> CpuView {
        CpuView {
            registers: self.registers@,
            master_interrupt_flag: self.master_interrupt_flag,
            halt: self.halt,
        }
    }
}

/// What happens on every machine cycle of the CPU, before the access to
/// memory that the cycle makes: the rest of the console moves on.
pub trait OnMachineCycle {
    /// The state of the rest of the console.
    type V;

    spec fn model(&self) -> Self::V;

    /// What holds of the rest of the console between any two cycles.
    spec fn inv(&self) -> bool;

    /// The rest of the console and the memory after one machine cycle.
    spec fn after_cycle(model: Self::V, memory: MemoryView) -> (Self::V, MemoryView);

    /// How many machine cycles have passed.
    spec fn cycles(model: Self::V) -> nat;

    fn on_machine_cycle(&mut self, memory: &mut Memory)
        requires
            old(self).inv(),
        ensures
            final(self).inv(),
            (final(self).model(), final(memory)@) == Self::after_cycle(
                old(self).model(),
                old(memory)@,
            ),
            Self::cycles(final(self).model()) == Self::cycles(old(self).model()) + 1,
    ;
}

/// The memory after the CPU wrote `data` to `address`. A write to LY is
/// dropped, one to DIV sets the divider to zero whatever the data, and one
/// to STAT leaves the three low bits, which the PPU owns.
#[verifier::opaque]
pub open spec fn bus_write(memory: MemoryView, address: u16, data: u8) -> MemoryView {
    if address == registers::addresses::LY {
        memory
    } else if address == registers::addresses::DIV {
        memory.reset_divider()
    } else if address == registers::addresses::STAT {
        memory.write(address, ((data - data % 8) + memory.read(address) % 8) as u8)
    } else {
        memory.write(address, data)
    }
}

/// The address `0xFF00 + offset`, in the page of the I/O registers.
pub open spec fn high_page(offset: u8) -> u16 {
    (0xFF00 + offset) as u16
}

/// The whole console as the CPU drives it: the CPU, the memory, and the
/// rest, which moves on machine cycle by machine cycle.
pub struct Machine<T: OnMachineCycle> {
    pub cpu: CpuView,
    pub memory: MemoryView,
    pub ticker: T::V,
}

/// The console that these three parts make up.
pub open spec fn state<T: OnMachineCycle>(cpu: Cpu, memory: Memory, ticker: T) -> Machine<T> {
    Machine { cpu: cpu@, memory: memory@, ticker: ticker.model() }
}

impl<T: OnMachineCycle> Machine<T> {
    /// How many machine cycles have passed.
    pub open spec fn elapsed(self) -> nat {
        T::cycles(self.ticker)
    }

    pub open spec fn with_cpu(self, cpu: CpuView) -> Self {
        Machine { cpu, ..self }
    }

    pub open spec fn set8(self, register: ByteRegister, value: u8) -> Self {
        self.with_cpu(self.cpu.set8(register, value))
    }

    pub open spec fn set16(self, register: WordRegister, value: u16) -> Self {
        self.with_cpu(self.cpu.set16(register, value))
    }

    pub open spec fn set_flags(self, f: u8) -> Self {
        self.with_cpu(self.cpu.set_flags(f))
    }

    pub open spec fn apply(self, register: ByteRegister, outcome: Outcome) -> Self {
        self.with_cpu(self.cpu.apply(register, outcome))
    }

    pub open spec fn apply16(self, register: WordRegister, outcome: WideOutcome) -> Self {
        self.with_cpu(self.cpu.apply16(register, outcome))
    }

    /// The console one machine cycle later, the CPU having done nothing.
    pub open spec fn tick(self) -> Self {
        Machine {
            memory: T::after_cycle(self.ticker, self.memory).1,
            ticker: T::after_cycle(self.ticker, self.memory).0,
            ..self
        }
    }

    /// The console after the CPU wrote `data` to `address`, no cycle passing.
    pub open spec fn write(self, address: u16, data: u8) -> Self {
        Machine { memory: bus_write(self.memory, address, data), ..self }
    }

    /// The byte at the program counter, no cycle passing.
    pub open spec fn next_byte(self) -> u8 {
        self.memory.read(self.cpu.pc())
    }

    /// The console with the program counter one further.
    pub open spec fn skip_byte(self) -> Self {
        self.set16(WordRegister::PC, wrap16(self.cpu.pc(), 1))
    }

    /// The byte that a cycle spent on the program counter fetches.
    pub open spec fn operand(self) -> u8 {
        self.tick().next_byte()
    }

    /// The console after a cycle spent fetching at the program counter.
    pub open spec fn skip_operand(self) -> Self {
        self.tick().skip_byte()
    }

    /// The word that two cycles spent on the program counter fetch, its
    /// low byte first.
    pub open spec fn operand16(self) -> u16 {
        word_of(self.operand(), self.skip_operand().operand())
    }

    /// The console after two cycles spent fetching at the program counter.
    pub open spec fn skip_operand16(self) -> Self {
        self.skip_operand().skip_operand()
    }

    /// The byte that a cycle spent reading `address` returns. The console
    /// is then at `self.tick()`.
    pub open spec fn load(self, address: u16) -> u8 {
        self.tick().memory.read(address)
    }

    /// The console after a cycle spent writing `data` to `address`.
    pub open spec fn store(self, address: u16, data: u8) -> Self {
        self.tick().write(address, data)
    }

    /// The console after two cycles spent pushing `word`, its high byte
    /// first.
    pub open spec fn push(self, word: u16) -> Self {
        self.store(wrap16(self.cpu.sp(), -1), high_byte(word)).store(
            wrap16(self.cpu.sp(), -2),
            low_byte(word),
        ).set16(WordRegister::SP, wrap16(self.cpu.sp(), -2))
    }

    /// The word that two cycles spent popping return, its low byte first.
    pub open spec fn popped(self) -> u16 {
        word_of(self.load(self.cpu.sp()), self.tick().load(wrap16(self.cpu.sp(), 1)))
    }

    /// The console after two cycles spent popping a word.
    pub open spec fn pop(self) -> Self {
        self.tick().tick().set16(WordRegister::SP, wrap16(self.cpu.sp(), 2))
    }

    /// The console after the CPU took `interrupt`: two idle cycles, in
    /// which the program counter goes back to the instruction that was
    /// about to run, two cycles that push it, then the jump to the
    /// interrupt's vector, with the request cleared and interrupts off.
    #[verifier::opaque]
    pub open spec fn service(self, interrupt: registers::Interrupt) -> Self {
        let back = self.tick().tick().set16(WordRegister::PC, wrap16(self.cpu.pc(), -1));
        let pushed = back.push(back.cpu.pc());
        let cleared = pushed.write(
            registers::addresses::INTERRUPT_REQUEST,
            clear_bit_spec(interrupt.index_of(), pushed.memory.interrupt_request()),
        );
        cleared.with_cpu(
            cleared.cpu.set16(WordRegister::PC, interrupt.vector_of()).with_master_interrupt(
                MasterInterrupt::Off,
            ),
        )
    }
}

/// The most urgent interrupt that is both enabled and requested.
pub fn highest_pending(memory: &Memory) -> (interrupt: Option<registers::Interrupt>)
    ensures
        interrupt == memory@.highest_pending(),
{
    proof {
        memory.lemma_well_formed();
    }
    let enabled = memory.read(registers::addresses::INTERRUPT_ENABLE);
    let requested = memory.read(registers::addresses::INTERRUPT_REQUEST);
    if bit_is_set(enabled, 0) && bit_is_set(requested, 0) {
        Some(registers::Interrupt::VBlank)
    } else if bit_is_set(enabled, 1) && bit_is_set(requested, 1) {
        Some(registers::Interrupt::STAT)
    } else if bit_is_set(enabled, 2) && bit_is_set(requested, 2) {
        Some(registers::Interrupt::Timer)
    } else if bit_is_set(enabled, 3) && bit_is_set(requested, 3) {
        Some(registers::Interrupt::Serial)
    } else if bit_is_set(enabled, 4) && bit_is_set(requested, 4) {
        Some(registers::Interrupt::Joypad)
    } else {
        None
    }
}

impl Cpu {
    pub fn new() -> (cpu: Self)
        ensures
            cpu@ == initial_cpu(),
    {
        Self {
            registers: Registers::new(),
            master_interrupt_flag: MasterInterrupt::Off,
            halt: false,
        }
    }

    pub fn registers(&self) -> (registers: &Registers)
        ensures
            registers@ == self@.registers,
    {
        &self.registers
    }

    pub fn registers_mut(&mut self) -> (registers: &mut Registers)
        ensures
            registers@ == old(self)@.registers,
            final(self)@ == (CpuView { registers: final(registers)@, ..old(self)@ }),
    {
        &mut self.registers
    }

    pub fn master_interrupt_flag(&self) -> (flag: MasterInterrupt)
        ensures
            flag == self@.master_interrupt_flag,
    {
        self.master_interrupt_flag
    }

    /// Whether the CPU waits for an interrupt.
    pub fn halted(&self) -> (halt: bool)
        ensures
            halt == self@.halt,
    {
        self.halt
    }

    #[inline]
    pub fn mem_read(memory: &Memory, address: u16) -> (data: u8)
        ensures
            data == memory@.read(address),
    {
        memory.read(address)
    }

    #[inline]
    pub fn mem_write(memory: &mut Memory, address: u16, data: u8)
        ensures
            final(memory)@ == bus_write(old(memory)@, address, data),
    {
        reveal(bus_write);
        if address == registers::addresses::LY {
        } else if address == registers::addresses::DIV {
            memory.reset_divider();
        } else if address == registers::addresses::STAT {
            let current = memory.read(address);
            memory.write(address, (data - data % 8) + current % 8);
        } else {
            memory.write(address, data);
        }
    }

    /// Read data at PC and increment PC by one.
    #[inline]
    pub fn fetch(&mut self, memory: &Memory) -> (data: u8)
        ensures
            data == memory@.read(old(self)@.pc()),
            final(self)@ == old(self)@.set16(WordRegister::PC, wrap16(old(self)@.pc(), 1)),
    {
        let pc = self.registers.get_reg_16(WordRegister::PC);
        self.registers.set_reg_16(WordRegister::PC, wrapping_offset(pc, 1));
        Self::mem_read(memory, pc)
    }

    /// Lets one machine cycle pass.
    fn cycle<T: OnMachineCycle>(&mut self, memory: &mut Memory, ticker: &mut T)
        requires
            old(ticker).inv(),
        ensures
            final(ticker).inv(),
            state(*final(self), *final(memory), *final(ticker)) == state(
                *old(self),
                *old(memory),
                *old(ticker),
            ).tick(),
            T::cycles(final(ticker).model()) == T::cycles(old(ticker).model()) + 1,
    {
        ticker.on_machine_cycle(memory);
    }

    /// Spends a cycle on fetching the byte at the program counter.
    fn fetch_operand<T: OnMachineCycle>(&mut self, memory: &mut Memory, ticker: &mut T) -> (data:
        u8)
        requires
            old(ticker).inv(),
        ensures
            final(ticker).inv(),
            data == state(*old(self), *old(memory), *old(ticker)).operand(),
            state(*final(self), *final(memory), *final(ticker)) == state(
                *old(self),
                *old(memory),
                *old(ticker),
            ).skip_operand(),
            T::cycles(final(ticker).model()) == T::cycles(old(ticker).model()) + 1,
    {
        ticker.on_machine_cycle(memory);
        self.fetch(memory)
    }

    /// Spends two cycles on fetching the word at the program counter.
    fn fetch_operand16<T: OnMachineCycle>(&mut self, memory: &mut Memory, ticker: &mut T) -> (data:
        u16)
        requires
            old(ticker).inv(),
        ensures
            final(ticker).inv(),
            data == state(*old(self), *old(memory), *old(ticker)).operand16(),
            state(*final(self), *final(memory), *final(ticker)) == state(
                *old(self),
                *old(memory),
                *old(ticker),
            ).skip_operand16(),
            T::cycles(final(ticker).model()) == T::cycles(old(ticker).model()) + 2,
    {
        let low = self.fetch_operand(memory, ticker);
        let high = self.fetch_operand(memory, ticker);
        make_word(low, high)
    }

    /// Spends a cycle on reading `address`.
    fn load<T: OnMachineCycle>(
        &mut self,
        memory: &mut Memory,
        ticker: &mut T,
        address: u16,
    ) -> (data: u8)
        requires
            old(ticker).inv(),
        ensures
            final(ticker).inv(),
            data == state(*old(self), *old(memory), *old(ticker)).load(address),
            state(*final(self), *final(memory), *final(ticker)) == state(
                *old(self),
                *old(memory),
                *old(ticker),
            ).tick(),
            T::cycles(final(ticker).model()) == T::cycles(old(ticker).model()) + 1,
    {
        ticker.on_machine_cycle(memory);
        Self::mem_read(memory, address)
    }

    /// Spends a cycle on writing `data` to `address`.
    fn store<T: OnMachineCycle>(
        &mut self,
        memory: &mut Memory,
        ticker: &mut T,
        address: u16,
        data: u8,
    )
        requires
            old(ticker).inv(),
        ensures
            final(ticker).inv(),
            state(*final(self), *final(memory), *final(ticker)) == state(
                *old(self),
                *old(memory),
                *old(ticker),
            ).store(address, data),
            T::cycles(final(ticker).model()) == T::cycles(old(ticker).model()) + 1,
    {
        ticker.on_machine_cycle(memory);
        Self::mem_write(memory, address, data);
    }

    /// Spends two cycles on pushing `word`.
#[verifier::rlimit(50)]
    fn push<T: OnMachineCycle>(&mut self, memory: &mut Memory, ticker: &mut T, word: u16)
        requires
            old(ticker).inv(),
        ensures
            final(ticker).inv(),
            state(*final(self), *final(memory), *final(ticker)) == state(
                *old(self),
                *old(memory),
                *old(ticker),
            ).push(word),
            T::cycles(final(ticker).model()) == T::cycles(old(ticker).model()) + 2,
    {
        let sp = self.registers.get_reg_16(WordRegister::SP);
        self.store(memory, ticker, wrapping_offset(sp, -1), high_half(word));
        self.store(memory, ticker, wrapping_offset(sp, -2), low_half(word));
        self.registers.set_reg_16(WordRegister::SP, wrapping_offset(sp, -2));
    }

    /// Spends two cycles on popping a word.
#[verifier::rlimit(50)]
    fn pop<T: OnMachineCycle>(&mut self, memory: &mut Memory, ticker: &mut T) -> (word: u16)
        requires
            old(ticker).inv(),
        ensures
            final(ticker).inv(),
            word == state(*old(self), *old(memory), *old(ticker)).popped(),
            state(*final(self), *final(memory), *final(ticker)) == state(
                *old(self),
                *old(memory),
                *old(ticker),
            ).pop(),
            T::cycles(final(ticker).model()) == T::cycles(old(ticker).model()) + 2,
    {
        let sp = self.registers.get_reg_16(WordRegister::SP);
        let low = self.load(memory, ticker, sp);
        let high = self.load(memory, ticker, wrapping_offset(sp, 1));
        self.registers.set_reg_16(WordRegister::SP, wrapping_offset(sp, 2));
        make_word(low, high)
    }

    /// Takes the most urgent interrupt that is both enabled and requested,
    /// if there is one, and says whether there was.
#[verifier::rlimit(50)]
    pub fn handle_interrupts<T: OnMachineCycle>(
        &mut self,
        memory: &mut Memory,
        ticker: &mut T,
    ) -> (serviced: bool)
        requires
            old(ticker).inv(),
        ensures
            final(ticker).inv(),
            serviced == old(memory)@.highest_pending() is Some,
            state(*final(self), *final(memory), *final(ticker)) == (match old(
                memory,
            )@.highest_pending() {
                Some(interrupt) => state(*old(self), *old(memory), *old(ticker)).service(
                    interrupt,
                ),
                None => state(*old(self), *old(memory), *old(ticker)),
            }),
            T::cycles(final(ticker).model()) == T::cycles(old(ticker).model()) + if serviced {
                4nat
            } else {
                0nat
            },
    {
        reveal(Machine::service);
        reveal(bus_write);
        let interrupt = match highest_pending(memory) {
            Some(interrupt) => interrupt,
            None => {
                return false;
            },
        };
        self.cycle(memory, ticker);
        self.cycle(memory, ticker);
        let pc = wrapping_offset(self.registers.get_reg_16(WordRegister::PC), -1);
        self.registers.set_reg_16(WordRegister::PC, pc);
        self.push(memory, ticker, pc);
        proof {
            memory.lemma_well_formed();
        }
        let requested = Self::mem_read(memory, registers::addresses::INTERRUPT_REQUEST);
        Self::mem_write(
            memory,
            registers::addresses::INTERRUPT_REQUEST,
            clear_bit(interrupt.index(), requested),
        );
        self.registers.set_reg_16(WordRegister::PC, interrupt.vector());
        self.master_interrupt_flag = MasterInterrupt::Off;
        true
    }
}

impl<T: OnMachineCycle> Machine<T> {
    /// Whether the CPU sleeps through the next step: it is halted and no
    /// interrupt is pending after the cycle that opens the step.
    pub open spec fn idles(self) -> bool {
        self.cpu.halt && self.tick().memory.highest_pending() is None
    }

    /// Whether the next step takes an interrupt in place of an instruction.
    pub open spec fn takes_interrupt(self) -> bool {
        !self.idles() && self.cpu.master_interrupt_flag == MasterInterrupt::On
            && self.tick().memory.highest_pending() is Some
    }

    /// The console once the next step has fetched its opcode: a cycle has
    /// passed, the CPU is awake and the program counter one further.
    pub open spec fn fetched(self) -> Self {
        self.tick().with_cpu(self.cpu.with_halt(false)).skip_byte()
    }

    /// The console after one step of the CPU. A cycle passes. A halted CPU
    /// with no interrupt pending does nothing more. Otherwise the CPU wakes
    /// and fetches an opcode, and then either takes the most urgent pending
    /// interrupt, if interrupts are on, or runs the instruction. Interrupts
    /// that an earlier instruction asked to be switched on are on from the
    /// end of the step.
    #[verifier::opaque]
    pub open spec fn step(self) -> Self {
        let was_turning_on = self.cpu.master_interrupt_flag == MasterInterrupt::TurningOn;
        if self.idles() {
            self.tick().with_cpu(self.cpu.promote(was_turning_on))
        } else if self.takes_interrupt() {
            self.fetched().service(self.tick().memory.highest_pending().unwrap())
        } else {
            let done = self.fetched().execute(decode_spec(self.operand()));
            done.with_cpu(done.cpu.promote(was_turning_on))
        }
    }

    /// The machine cycles that the next step takes.
    #[verifier::opaque]
    pub open spec fn step_cycles(self) -> nat {
        if self.idles() {
            1
        } else if self.takes_interrupt() {
            5
        } else {
            1 + self.fetched().execute_cycles(decode_spec(self.operand()))
        }
    }
}

impl Cpu {
    /// Step the CPU emulation. This is equivalent to one "fetch, decode, execute" cycle.
#[verifier::rlimit(50)]
    pub fn step<T: OnMachineCycle>(&mut self, memory: &mut Memory, ticker: &mut T)
        requires
            old(ticker).inv(),
        ensures
            final(ticker).inv(),
            state(*final(self), *final(memory), *final(ticker)) == state(
                *old(self),
                *old(memory),
                *old(ticker),
            ).step(),
            T::cycles(final(ticker).model()) == T::cycles(old(ticker).model()) + state(
                *old(self),
                *old(memory),
                *old(ticker),
            ).step_cycles(),
            1 <= state(*old(self), *old(memory), *old(ticker)).step_cycles() <= 6,
    {
        reveal(Machine::step);
        reveal(Machine::step_cycles);
        let ghost before = state(*self, *memory, *ticker);
        ticker.on_machine_cycle(memory);
        let turn_master_interrupt_on = self.master_interrupt_flag == MasterInterrupt::TurningOn;
        if self.halt {
            if highest_pending(memory).is_none() {
                if turn_master_interrupt_on {
                    self.master_interrupt_flag = MasterInterrupt::On;
                }
                return ;
            }
            self.halt = false;
        }
        let opcode = self.fetch(memory);
        assert(state(*self, *memory, *ticker) == before.fetched());
        if self.master_interrupt_flag == MasterInterrupt::On {
            if self.handle_interrupts(memory, ticker) {
                return ;
            }
        }
        let operation = Operation::decode(opcode);
        proof {
            lemma_cycles_bounds(
                operation,
                decode_prefixed_spec(before.fetched().operand()),
                operation.taken(before.cpu.f()),
            );
        }
        self.execute(operation, memory, ticker);
        if turn_master_interrupt_on && self.master_interrupt_flag == MasterInterrupt::TurningOn {
            self.master_interrupt_flag = MasterInterrupt::On;
        }
    }
}

/// A rest of the console that does nothing but count the machine cycles:
/// for a CPU that runs alone on its memory.
pub struct CycleCounter {
    count: u64,
    total: Ghost<nat>,
}

impl CycleCounter {
    pub fn new() -> (counter: Self)
        ensures
            counter.inv(),
            counter.model() == 0,
    {
        Self { count: 0, total: Ghost(0) }
    }

    /// The machine cycles counted so far, on 64 bits.
    pub fn count(&self) -> (count: u64)
        requires
            self.inv(),
        ensures
            count == self.model() % 0x1_0000_0000_0000_0000,
    {
        self.count
    }
}

impl OnMachineCycle for CycleCounter {
    type V = nat;

    closed spec fn model(&self) -> nat {
        self.total@
    }

    closed spec fn inv(&self) -> bool {
        self.count == self.total@ % 0x1_0000_0000_0000_0000
    }

    open spec fn after_cycle(model: nat, memory: MemoryView) -> (nat, MemoryView) {
        (model + 1, memory)
    }

    open spec fn cycles(model: nat) -> nat {
        model
    }

    fn on_machine_cycle(&mut self, memory: &mut Memory) {
        self.count = if self.count == u64::MAX {
            0
        } else {
            self.count + 1
        };
        self.total = Ghost((self.total@ + 1) as nat);
    }
}

} // verus!
