//! The instructions: what each does to the console, cycle by cycle, and
//! the code that does it.

use super::alu::{
    add16, add16_spec, add_signed, add_signed_spec, as_signed, binary, binary_spec, decimal_adjust,
    decimal_adjust_spec, decrement, decrement_spec, high_byte, high_half, increment,
    increment_spec, low_byte, low_half, make_flags, pack_flags, rotate_accumulator,
    rotate_accumulator_spec, signed, test_bit, test_bit_spec, unary, unary_spec, wrap16,
    wrapping_offset, Binary, CpuFlag, Outcome, Unary, WideOutcome,
};
use super::operation::{decode_prefixed_spec, Operation, PrefixedOperation};
use super::{
    high_page, highest_pending, state, ByteRegister, Cpu, CpuView, Machine, MasterInterrupt,
    OnMachineCycle, WordRegister,
};
use crate::gameboy::memory::Memory;
use crate::util::{clear_bit, clear_bit_spec, set_bit, set_bit_spec};
use vstd::prelude::*;

verus! {

impl CpuView {
    /// Adds one to `register`.
    #[verifier::opaque]
    pub open spec fn increment8(self, register: ByteRegister) -> CpuView {
        self.apply(register, increment_spec(self.reg8(register), self.f()))
    }

    /// Takes one from `register`.
    #[verifier::opaque]
    pub open spec fn decrement8(self, register: ByteRegister) -> CpuView {
        self.apply(register, decrement_spec(self.reg8(register), self.f()))
    }

    /// Rotates the accumulator; the zero flag is cleared.
    #[verifier::opaque]
    pub open spec fn rotate_accumulator(self, operation: Unary) -> CpuView {
        self.apply(ByteRegister::A, rotate_accumulator_spec(operation, self.a(), self.f()))
    }

    /// Adjusts the accumulator to packed decimal.
    #[verifier::opaque]
    pub open spec fn decimal_adjust(self) -> CpuView {
        self.apply(ByteRegister::A, decimal_adjust_spec(self.a(), self.f()))
    }

    /// Flips every bit of the accumulator; N and H are set.
    #[verifier::opaque]
    pub open spec fn complement_accumulator(self) -> CpuView {
        self.set8(ByteRegister::A, !self.a()).set_flags(
            pack_flags(self.flag(CpuFlag::Zero), true, true, self.flag(CpuFlag::Carry)),
        )
    }

    /// Sets the carry flag; N and H are cleared.
    #[verifier::opaque]
    pub open spec fn set_carry(self) -> CpuView {
        self.set_flags(pack_flags(self.flag(CpuFlag::Zero), false, false, true))
    }

    /// Flips the carry flag; N and H are cleared.
    #[verifier::opaque]
    pub open spec fn complement_carry(self) -> CpuView {
        self.set_flags(
            pack_flags(self.flag(CpuFlag::Zero), false, false, !self.flag(CpuFlag::Carry)),
        )
    }

    /// Copies `source` into `target`.
    #[verifier::opaque]
    pub open spec fn copy_register(self, source: ByteRegister, target: ByteRegister) -> CpuView {
        self.set8(target, self.reg8(source))
    }

    /// Applies `operation` to `target` and `source`; the result goes to
    /// `target`.
    #[verifier::opaque]
    pub open spec fn binary_register(
        self,
        operation: Binary,
        source: ByteRegister,
        target: ByteRegister,
    ) -> CpuView {
        self.apply(target, binary_spec(operation, self.reg8(target), self.reg8(source), self.f()))
    }

    /// Jumps to the address in `pair`.
    #[verifier::opaque]
    pub open spec fn jump_to_register(self, pair: WordRegister) -> CpuView {
        self.set16(WordRegister::PC, self.reg16(pair))
    }

    /// Rotates or shifts `register`.
    #[verifier::opaque]
    pub open spec fn shift_register(self, operation: Unary, register: ByteRegister) -> CpuView {
        self.apply(register, unary_spec(operation, self.reg8(register), self.f()))
    }

    /// Tests bit `bit` of `register`.
    #[verifier::opaque]
    pub open spec fn test_register(self, bit: u8, register: ByteRegister) -> CpuView {
        self.set_flags(test_bit_spec(bit, self.reg8(register), self.f()))
    }

    /// Clears bit `bit` of `register`.
    #[verifier::opaque]
    pub open spec fn clear_bit_register(self, bit: u8, register: ByteRegister) -> CpuView {
        self.set8(register, clear_bit_spec(bit, self.reg8(register)))
    }

    /// Sets bit `bit` of `register`.
    #[verifier::opaque]
    pub open spec fn set_bit_register(self, bit: u8, register: ByteRegister) -> CpuView {
        self.set8(register, set_bit_spec(bit, self.reg8(register)))
    }
}

impl<T: OnMachineCycle> Machine<T> {
    /// Loads the word behind the opcode into `target`.
    #[verifier::opaque]
    pub open spec fn load_immediate16(self, target: WordRegister) -> Self {
        self.skip_operand16().set16(target, self.operand16())
    }

    /// Writes `source` to the address in `pair`.
    #[verifier::opaque]
    pub open spec fn store_register(self, source: ByteRegister, pair: WordRegister) -> Self {
        self.store(self.cpu.reg16(pair), self.cpu.reg8(source))
    }

    /// Adds `delta` to `pair` in an idle cycle; no flag changes.
    #[verifier::opaque]
    pub open spec fn step16(self, pair: WordRegister, delta: i32) -> Self {
        self.tick().set16(pair, wrap16(self.cpu.reg16(pair), delta as int))
    }

    /// Loads the byte behind the opcode into `target`.
    #[verifier::opaque]
    pub open spec fn load_immediate8(self, target: ByteRegister) -> Self {
        self.skip_operand().set8(target, self.operand())
    }

    /// Writes the stack pointer to the address behind the opcode, low byte first.
    #[verifier::opaque]
    pub open spec fn store_stack_pointer(self) -> Self {
        self.skip_operand16().store(self.operand16(), low_byte(self.cpu.sp())).store(
            wrap16(self.operand16(), 1),
            high_byte(self.cpu.sp()),
        )
    }

    /// Adds `source` to `target` in an idle cycle.
    #[verifier::opaque]
    pub open spec fn add16(self, source: WordRegister, target: WordRegister) -> Self {
        self.tick().apply16(
            target,
            add16_spec(self.cpu.reg16(target), self.cpu.reg16(source), self.cpu.f()),
        )
    }

    /// Reads the byte at the address in `pair` into `target`.
    #[verifier::opaque]
    pub open spec fn load_register(self, pair: WordRegister, target: ByteRegister) -> Self {
        self.tick().set8(target, self.load(self.cpu.reg16(pair)))
    }

    /// Jumps by the signed offset behind the opcode, counted from the next
    /// instruction.
    #[verifier::opaque]
    pub open spec fn relative_jump(self) -> Self {
        self.skip_operand().tick().set16(
            WordRegister::PC,
            wrap16(self.skip_operand().cpu.pc(), signed(self.operand())),
        )
    }

    /// Jumps by the signed offset behind the opcode where `flag` is `expected`.
    #[verifier::opaque]
    pub open spec fn relative_jump_if(self, flag: CpuFlag, expected: bool) -> Self {
        if self.cpu.flag(flag) == expected {
            self.relative_jump()
        } else {
            self.skip_operand()
        }
    }

    /// Writes `source` to the address in `pair`, then adds `delta` to `pair`.
    #[verifier::opaque]
    pub open spec fn store_register_and_step(
        self,
        source: ByteRegister,
        pair: WordRegister,
        delta: i32,
    ) -> Self {
        self.store(self.cpu.reg16(pair), self.cpu.reg8(source)).set16(
            pair,
            wrap16(self.cpu.reg16(pair), delta as int),
        )
    }

    /// Reads the byte at the address in `pair` into `target`, then adds `delta`
    /// to `pair`.
    #[verifier::opaque]
    pub open spec fn load_register_and_step(
        self,
        pair: WordRegister,
        target: ByteRegister,
        delta: i32,
    ) -> Self {
        self.tick().set8(target, self.load(self.cpu.reg16(pair))).set16(
            pair,
            wrap16(self.cpu.reg16(pair), delta as int),
        )
    }

    /// Adds one to the byte at the address in `pair`.
    #[verifier::opaque]
    pub open spec fn increment_memory(self, pair: WordRegister) -> Self {
        let address = self.cpu.reg16(pair);
        let outcome = increment_spec(self.load(address), self.cpu.f());
        self.tick().store(address, outcome.value).set_flags(outcome.flags)
    }

    /// Takes one from the byte at the address in `pair`.
    #[verifier::opaque]
    pub open spec fn decrement_memory(self, pair: WordRegister) -> Self {
        let address = self.cpu.reg16(pair);
        let outcome = decrement_spec(self.load(address), self.cpu.f());
        self.tick().store(address, outcome.value).set_flags(outcome.flags)
    }

    /// Writes the byte behind the opcode to the address in `pair`.
    #[verifier::opaque]
    pub open spec fn store_immediate(self, pair: WordRegister) -> Self {
        self.skip_operand().store(self.skip_operand().cpu.reg16(pair), self.operand())
    }

    /// Stops the CPU until an interrupt is pending. With interrupts off and
    /// one pending already, it does not stop.
    #[verifier::opaque]
    pub open spec fn halt(self) -> Self {
        if self.cpu.master_interrupt_flag == MasterInterrupt::On
            || self.memory.highest_pending() is None {
            self.with_cpu(self.cpu.with_halt(true))
        } else {
            self
        }
    }

    /// Applies `operation` to `target` and the byte at the address in `pair`.
    #[verifier::opaque]
    pub open spec fn binary_memory(
        self,
        operation: Binary,
        pair: WordRegister,
        target: ByteRegister,
    ) -> Self {
        self.tick().apply(
            target,
            binary_spec(
                operation,
                self.cpu.reg8(target),
                self.load(self.cpu.reg16(pair)),
                self.cpu.f(),
            ),
        )
    }

    /// Applies `operation` to `target` and the byte behind the opcode.
    #[verifier::opaque]
    pub open spec fn binary_immediate(self, operation: Binary, target: ByteRegister) -> Self {
        self.skip_operand().apply(
            target,
            binary_spec(operation, self.cpu.reg8(target), self.operand(), self.cpu.f()),
        )
    }

    /// Pops the program counter, then idles a cycle.
    #[verifier::opaque]
    pub open spec fn ret(self) -> Self {
        self.pop().tick().set16(WordRegister::PC, self.popped())
    }

    /// Tests `flag` in an idle cycle and returns where it is `expected`.
    #[verifier::opaque]
    pub open spec fn return_if(self, flag: CpuFlag, expected: bool) -> Self {
        if self.cpu.flag(flag) == expected {
            self.tick().ret()
        } else {
            self.tick()
        }
    }

    /// Pops a word into `pair`. Of F only the flags are kept.
    #[verifier::opaque]
    pub open spec fn pop_register(self, pair: WordRegister) -> Self {
        self.pop().set16(pair, self.popped())
    }

    /// Jumps to the address behind the opcode.
    #[verifier::opaque]
    pub open spec fn jump(self) -> Self {
        self.skip_operand16().tick().set16(WordRegister::PC, self.operand16())
    }

    /// Jumps to the address behind the opcode where `flag` is `expected`.
    #[verifier::opaque]
    pub open spec fn jump_if(self, flag: CpuFlag, expected: bool) -> Self {
        if self.cpu.flag(flag) == expected {
            self.jump()
        } else {
            self.skip_operand16()
        }
    }

    /// Pushes the address of the next instruction and jumps to the address
    /// behind the opcode.
    #[verifier::opaque]
    pub open spec fn call(self) -> Self {
        self.skip_operand16().tick().push(self.skip_operand16().cpu.pc()).set16(
            WordRegister::PC,
            self.operand16(),
        )
    }

    /// Calls the address behind the opcode where `flag` is `expected`.
    #[verifier::opaque]
    pub open spec fn call_if(self, flag: CpuFlag, expected: bool) -> Self {
        if self.cpu.flag(flag) == expected {
            self.call()
        } else {
            self.skip_operand16()
        }
    }

    /// Pushes `pair` after an idle cycle.
    #[verifier::opaque]
    pub open spec fn push_register(self, pair: WordRegister) -> Self {
        self.tick().push(self.cpu.reg16(pair))
    }

    /// Pushes the address of the next instruction and jumps to `address`.
    #[verifier::opaque]
    pub open spec fn call_fixed(self, address: u16) -> Self {
        self.tick().push(self.cpu.pc()).set16(WordRegister::PC, address)
    }

    /// Returns and switches interrupts on at once.
    #[verifier::opaque]
    pub open spec fn return_and_enable(self) -> Self {
        self.ret().with_cpu(self.ret().cpu.with_master_interrupt(MasterInterrupt::On))
    }

    /// Writes `source` to the I/O register whose offset is behind the opcode.
    #[verifier::opaque]
    pub open spec fn store_high_immediate(self, source: ByteRegister) -> Self {
        self.skip_operand().store(high_page(self.operand()), self.cpu.reg8(source))
    }

    /// Writes `source` to the I/O register whose offset is in `index`.
    #[verifier::opaque]
    pub open spec fn store_high(self, source: ByteRegister, index: ByteRegister) -> Self {
        self.store(high_page(self.cpu.reg8(index)), self.cpu.reg8(source))
    }

    /// Adds the signed byte behind the opcode to `pair`, in two idle cycles.
    #[verifier::opaque]
    pub open spec fn add_signed_immediate(self, pair: WordRegister) -> Self {
        self.skip_operand().tick().tick().apply16(
            pair,
            add_signed_spec(self.skip_operand().cpu.reg16(pair), self.operand()),
        )
    }

    /// Writes `source` to the address behind the opcode.
    #[verifier::opaque]
    pub open spec fn store_at_immediate(self, source: ByteRegister) -> Self {
        self.skip_operand16().store(self.operand16(), self.cpu.reg8(source))
    }

    /// Reads the I/O register whose offset is behind the opcode into `target`.
    #[verifier::opaque]
    pub open spec fn load_high_immediate(self, target: ByteRegister) -> Self {
        self.skip_operand().tick().set8(target, self.skip_operand().load(high_page(self.operand())))
    }

    /// Reads the I/O register whose offset is in `index` into `target`.
    #[verifier::opaque]
    pub open spec fn load_high(self, index: ByteRegister, target: ByteRegister) -> Self {
        self.tick().set8(target, self.load(high_page(self.cpu.reg8(index))))
    }

    /// Loads `source` plus the signed byte behind the opcode into `target`, in
    /// an idle cycle.
    #[verifier::opaque]
    pub open spec fn load_sum(self, source: WordRegister, target: WordRegister) -> Self {
        self.skip_operand().tick().apply16(
            target,
            add_signed_spec(self.skip_operand().cpu.reg16(source), self.operand()),
        )
    }

    /// Copies `source` into `target` in an idle cycle.
    #[verifier::opaque]
    pub open spec fn copy_pair(self, source: WordRegister, target: WordRegister) -> Self {
        self.tick().set16(target, self.cpu.reg16(source))
    }

    /// Reads the byte at the address behind the opcode into `target`.
    #[verifier::opaque]
    pub open spec fn load_at_immediate(self, target: ByteRegister) -> Self {
        self.skip_operand16().tick().set8(target, self.skip_operand16().load(self.operand16()))
    }

    /// Rotates or shifts the byte at the address in `pair`.
    #[verifier::opaque]
    pub open spec fn shift_memory(self, operation: Unary, pair: WordRegister) -> Self {
        let address = self.cpu.reg16(pair);
        let outcome = unary_spec(operation, self.load(address), self.cpu.f());
        self.tick().store(address, outcome.value).set_flags(outcome.flags)
    }

    /// Tests bit `bit` of the byte at the address in `pair`.
    #[verifier::opaque]
    pub open spec fn test_memory(self, bit: u8, pair: WordRegister) -> Self {
        self.tick().set_flags(test_bit_spec(bit, self.load(self.cpu.reg16(pair)), self.cpu.f()))
    }

    /// Clears bit `bit` of the byte at the address in `pair`.
    #[verifier::opaque]
    pub open spec fn clear_bit_memory(self, bit: u8, pair: WordRegister) -> Self {
        self.tick().store(
            self.cpu.reg16(pair),
            clear_bit_spec(bit, self.load(self.cpu.reg16(pair))),
        )
    }

    /// Sets bit `bit` of the byte at the address in `pair`.
    #[verifier::opaque]
    pub open spec fn set_bit_memory(self, bit: u8, pair: WordRegister) -> Self {
        self.tick().store(self.cpu.reg16(pair), set_bit_spec(bit, self.load(self.cpu.reg16(pair))))
    }
}

impl Cpu {
    /// Puts `outcome` into `register` and into the flags.
    fn apply(&mut self, register: ByteRegister, outcome: Outcome)
        requires
            outcome.flags % 16 == 0,
        ensures
            final(self)@ == old(self)@.apply(register, outcome),
    {
        self.registers.set_reg_8(register, outcome.value);
        self.registers.set_flags(outcome.flags);
    }

    /// Puts `outcome` into `register` and into the flags.
    fn apply16(&mut self, register: WordRegister, outcome: WideOutcome)
        requires
            outcome.flags % 16 == 0,
        ensures
            final(self)@ == old(self)@.apply16(register, outcome),
    {
        self.registers.set_reg_16(register, outcome.value);
        self.registers.set_flags(outcome.flags);
    }

    /// Adds one to `register`.
    fn increment8(&mut self, register: ByteRegister)
        ensures
            final(self)@ == old(self)@.increment8(register),
    {
        reveal(CpuView::increment8);
        let outcome = increment(
            self.registers.get_reg_8(register),
            self.registers.get_reg_8(ByteRegister::F),
        );
        self.apply(register, outcome);
    }

    /// Takes one from `register`.
    fn decrement8(&mut self, register: ByteRegister)
        ensures
            final(self)@ == old(self)@.decrement8(register),
    {
        reveal(CpuView::decrement8);
        let outcome = decrement(
            self.registers.get_reg_8(register),
            self.registers.get_reg_8(ByteRegister::F),
        );
        self.apply(register, outcome);
    }

    /// Rotates the accumulator; the zero flag is cleared.
    fn rotate_accumulator(&mut self, operation: Unary)
        ensures
            final(self)@ == old(self)@.rotate_accumulator(operation),
    {
        reveal(CpuView::rotate_accumulator);
        let outcome = rotate_accumulator(
            operation,
            self.registers.get_reg_8(ByteRegister::A),
            self.registers.get_reg_8(ByteRegister::F),
        );
        self.apply(ByteRegister::A, outcome);
    }

    /// Adjusts the accumulator to packed decimal.
    fn decimal_adjust(&mut self)
        ensures
            final(self)@ == old(self)@.decimal_adjust(),
    {
        reveal(CpuView::decimal_adjust);
        let outcome = decimal_adjust(
            self.registers.get_reg_8(ByteRegister::A),
            self.registers.get_reg_8(ByteRegister::F),
        );
        self.apply(ByteRegister::A, outcome);
    }

    /// Flips every bit of the accumulator; N and H are set.
    fn complement_accumulator(&mut self)
        ensures
            final(self)@ == old(self)@.complement_accumulator(),
    {
        reveal(CpuView::complement_accumulator);
        let a = self.registers.get_reg_8(ByteRegister::A);
        let flags = make_flags(
            self.registers.get_flag(CpuFlag::Zero),
            true,
            true,
            self.registers.get_flag(CpuFlag::Carry),
        );
        self.registers.set_reg_8(ByteRegister::A, !a);
        self.registers.set_flags(flags);
    }

    /// Sets the carry flag; N and H are cleared.
    fn set_carry(&mut self)
        ensures
            final(self)@ == old(self)@.set_carry(),
    {
        reveal(CpuView::set_carry);
        let flags = make_flags(self.registers.get_flag(CpuFlag::Zero), false, false, true);
        self.registers.set_flags(flags);
    }

    /// Flips the carry flag; N and H are cleared.
    fn complement_carry(&mut self)
        ensures
            final(self)@ == old(self)@.complement_carry(),
    {
        reveal(CpuView::complement_carry);
        let flags = make_flags(
            self.registers.get_flag(CpuFlag::Zero),
            false,
            false,
            !self.registers.get_flag(CpuFlag::Carry),
        );
        self.registers.set_flags(flags);
    }

    /// Copies `source` into `target`.
    fn copy_register(&mut self, source: ByteRegister, target: ByteRegister)
        ensures
            final(self)@ == old(self)@.copy_register(source, target),
    {
        reveal(CpuView::copy_register);
        let value = self.registers.get_reg_8(source);
        self.registers.set_reg_8(target, value);
    }

    /// Applies `operation` to `target` and `source`; the result goes to
    /// `target`.
    fn binary_register(&mut self, operation: Binary, source: ByteRegister, target: ByteRegister)
        ensures
            final(self)@ == old(self)@.binary_register(operation, source, target),
    {
        reveal(CpuView::binary_register);
        let outcome = binary(
            operation,
            self.registers.get_reg_8(target),
            self.registers.get_reg_8(source),
            self.registers.get_reg_8(ByteRegister::F),
        );
        self.apply(target, outcome);
    }

    /// Jumps to the address in `pair`.
    fn jump_to_register(&mut self, pair: WordRegister)
        ensures
            final(self)@ == old(self)@.jump_to_register(pair),
    {
        reveal(CpuView::jump_to_register);
        let address = self.registers.get_reg_16(pair);
        self.registers.set_reg_16(WordRegister::PC, address);
    }

    /// Rotates or shifts `register`.
    fn shift_register(&mut self, operation: Unary, register: ByteRegister)
        ensures
            final(self)@ == old(self)@.shift_register(operation, register),
    {
        reveal(CpuView::shift_register);
        let outcome = unary(
            operation,
            self.registers.get_reg_8(register),
            self.registers.get_reg_8(ByteRegister::F),
        );
        self.apply(register, outcome);
    }

    /// Tests bit `bit` of `register`.
    fn test_register(&mut self, bit: u8, register: ByteRegister)
        ensures
            final(self)@ == old(self)@.test_register(bit, register),
    {
        reveal(CpuView::test_register);
        let flags = test_bit(
            bit,
            self.registers.get_reg_8(register),
            self.registers.get_reg_8(ByteRegister::F),
        );
        self.registers.set_flags(flags);
    }

    /// Clears bit `bit` of `register`.
    fn clear_bit_register(&mut self, bit: u8, register: ByteRegister)
        ensures
            final(self)@ == old(self)@.clear_bit_register(bit, register),
    {
        reveal(CpuView::clear_bit_register);
        let value = clear_bit(bit, self.registers.get_reg_8(register));
        self.registers.set_reg_8(register, value);
    }

    /// Sets bit `bit` of `register`.
    fn set_bit_register(&mut self, bit: u8, register: ByteRegister)
        ensures
            final(self)@ == old(self)@.set_bit_register(bit, register),
    {
        reveal(CpuView::set_bit_register);
        let value = set_bit(bit, self.registers.get_reg_8(register));
        self.registers.set_reg_8(register, value);
    }

    /// Loads the word behind the opcode into `target`.
    fn load_immediate16<T: OnMachineCycle>(
        &mut self,
        memory: &mut Memory,
        ticker: &mut T,
        target: WordRegister,
    )
        requires
            old(ticker).inv(),
        ensures
            final(ticker).inv(),
            state(*final(self), *final(memory), *final(ticker)) == state(
                *old(self),
                *old(memory),
                *old(ticker),
            ).load_immediate16(target),
            T::cycles(final(ticker).model()) == T::cycles(old(ticker).model()) + 2,
    {
        reveal(Machine::load_immediate16);
        let value = self.fetch_operand16(memory, ticker);
        self.registers.set_reg_16(target, value);
    }

    /// Writes `source` to the address in `pair`.
    fn store_register<T: OnMachineCycle>(
        &mut self,
        memory: &mut Memory,
        ticker: &mut T,
        source: ByteRegister,
        pair: WordRegister,
    )
        requires
            old(ticker).inv(),
        ensures
            final(ticker).inv(),
            state(*final(self), *final(memory), *final(ticker)) == state(
                *old(self),
                *old(memory),
                *old(ticker),
            ).store_register(source, pair),
            T::cycles(final(ticker).model()) == T::cycles(old(ticker).model()) + 1,
    {
        reveal(Machine::store_register);
        let address = self.registers.get_reg_16(pair);
        let data = self.registers.get_reg_8(source);
        self.store(memory, ticker, address, data);
    }

    /// Adds `delta` to `pair` in an idle cycle; no flag changes.
    fn step16<T: OnMachineCycle>(
        &mut self,
        memory: &mut Memory,
        ticker: &mut T,
        pair: WordRegister,
        delta: i32,
    )
        requires
            old(ticker).inv(),
            -1 <= delta <= 1,
        ensures
            final(ticker).inv(),
            state(*final(self), *final(memory), *final(ticker)) == state(
                *old(self),
                *old(memory),
                *old(ticker),
            ).step16(pair, delta),
            T::cycles(final(ticker).model()) == T::cycles(old(ticker).model()) + 1,
    {
        reveal(Machine::step16);
        self.cycle(memory, ticker);
        let value = self.registers.get_reg_16(pair);
        self.registers.set_reg_16(pair, wrapping_offset(value, delta));
    }

    /// Loads the byte behind the opcode into `target`.
    fn load_immediate8<T: OnMachineCycle>(
        &mut self,
        memory: &mut Memory,
        ticker: &mut T,
        target: ByteRegister,
    )
        requires
            old(ticker).inv(),
        ensures
            final(ticker).inv(),
            state(*final(self), *final(memory), *final(ticker)) == state(
                *old(self),
                *old(memory),
                *old(ticker),
            ).load_immediate8(target),
            T::cycles(final(ticker).model()) == T::cycles(old(ticker).model()) + 1,
    {
        reveal(Machine::load_immediate8);
        let value = self.fetch_operand(memory, ticker);
        self.registers.set_reg_8(target, value);
    }

    /// Writes the stack pointer to the address behind the opcode, low byte first.
    fn store_stack_pointer<T: OnMachineCycle>(&mut self, memory: &mut Memory, ticker: &mut T)
        requires
            old(ticker).inv(),
        ensures
            final(ticker).inv(),
            state(*final(self), *final(memory), *final(ticker)) == state(
                *old(self),
                *old(memory),
                *old(ticker),
            ).store_stack_pointer(),
            T::cycles(final(ticker).model()) == T::cycles(old(ticker).model()) + 4,
    {
        reveal(Machine::store_stack_pointer);
        let address = self.fetch_operand16(memory, ticker);
        let sp = self.registers.get_reg_16(WordRegister::SP);
        self.store(memory, ticker, address, low_half(sp));
        self.store(memory, ticker, wrapping_offset(address, 1), high_half(sp));
    }

    /// Adds `source` to `target` in an idle cycle.
    fn add16<T: OnMachineCycle>(
        &mut self,
        memory: &mut Memory,
        ticker: &mut T,
        source: WordRegister,
        target: WordRegister,
    )
        requires
            old(ticker).inv(),
        ensures
            final(ticker).inv(),
            state(*final(self), *final(memory), *final(ticker)) == state(
                *old(self),
                *old(memory),
                *old(ticker),
            ).add16(source, target),
            T::cycles(final(ticker).model()) == T::cycles(old(ticker).model()) + 1,
    {
        reveal(Machine::add16);
        self.cycle(memory, ticker);
        let outcome = add16(
            self.registers.get_reg_16(target),
            self.registers.get_reg_16(source),
            self.registers.get_reg_8(ByteRegister::F),
        );
        self.apply16(target, outcome);
    }

    /// Reads the byte at the address in `pair` into `target`.
    fn load_register<T: OnMachineCycle>(
        &mut self,
        memory: &mut Memory,
        ticker: &mut T,
        pair: WordRegister,
        target: ByteRegister,
    )
        requires
            old(ticker).inv(),
        ensures
            final(ticker).inv(),
            state(*final(self), *final(memory), *final(ticker)) == state(
                *old(self),
                *old(memory),
                *old(ticker),
            ).load_register(pair, target),
            T::cycles(final(ticker).model()) == T::cycles(old(ticker).model()) + 1,
    {
        reveal(Machine::load_register);
        let address = self.registers.get_reg_16(pair);
        let value = self.load(memory, ticker, address);
        self.registers.set_reg_8(target, value);
    }

    /// Jumps by the signed offset behind the opcode, counted from the next
    /// instruction.
    fn relative_jump<T: OnMachineCycle>(&mut self, memory: &mut Memory, ticker: &mut T)
        requires
            old(ticker).inv(),
        ensures
            final(ticker).inv(),
            state(*final(self), *final(memory), *final(ticker)) == state(
                *old(self),
                *old(memory),
                *old(ticker),
            ).relative_jump(),
            T::cycles(final(ticker).model()) == T::cycles(old(ticker).model()) + 2,
    {
        reveal(Machine::relative_jump);
        let offset = self.fetch_operand(memory, ticker);
        self.cycle(memory, ticker);
        let pc = self.registers.get_reg_16(WordRegister::PC);
        self.registers.set_reg_16(WordRegister::PC, wrapping_offset(pc, as_signed(offset)));
    }

    /// Jumps by the signed offset behind the opcode where `flag` is `expected`.
    fn relative_jump_if<T: OnMachineCycle>(
        &mut self,
        memory: &mut Memory,
        ticker: &mut T,
        flag: CpuFlag,
        expected: bool,
    )
        requires
            old(ticker).inv(),
        ensures
            final(ticker).inv(),
            state(*final(self), *final(memory), *final(ticker)) == state(
                *old(self),
                *old(memory),
                *old(ticker),
            ).relative_jump_if(flag, expected),
            T::cycles(final(ticker).model()) == T::cycles(old(ticker).model()) + if state(
                *old(self),
                *old(memory),
                *old(ticker),
            ).cpu.flag(flag) == expected {
                2nat
            } else {
                1nat
            },
    {
        reveal(Machine::relative_jump_if);
        if self.registers.get_flag(flag) == expected {
            self.relative_jump(memory, ticker);
        } else {
            let _ = self.fetch_operand(memory, ticker);
        }
    }

    /// Writes `source` to the address in `pair`, then adds `delta` to `pair`.
    fn store_register_and_step<T: OnMachineCycle>(
        &mut self,
        memory: &mut Memory,
        ticker: &mut T,
        source: ByteRegister,
        pair: WordRegister,
        delta: i32,
    )
        requires
            old(ticker).inv(),
            -1 <= delta <= 1,
        ensures
            final(ticker).inv(),
            state(*final(self), *final(memory), *final(ticker)) == state(
                *old(self),
                *old(memory),
                *old(ticker),
            ).store_register_and_step(source, pair, delta),
            T::cycles(final(ticker).model()) == T::cycles(old(ticker).model()) + 1,
    {
        reveal(Machine::store_register_and_step);
        let address = self.registers.get_reg_16(pair);
        let data = self.registers.get_reg_8(source);
        self.store(memory, ticker, address, data);
        self.registers.set_reg_16(pair, wrapping_offset(address, delta));
    }

    /// Reads the byte at the address in `pair` into `target`, then adds `delta`
    /// to `pair`.
    fn load_register_and_step<T: OnMachineCycle>(
        &mut self,
        memory: &mut Memory,
        ticker: &mut T,
        pair: WordRegister,
        target: ByteRegister,
        delta: i32,
    )
        requires
            old(ticker).inv(),
            -1 <= delta <= 1,
        ensures
            final(ticker).inv(),
            state(*final(self), *final(memory), *final(ticker)) == state(
                *old(self),
                *old(memory),
                *old(ticker),
            ).load_register_and_step(pair, target, delta),
            T::cycles(final(ticker).model()) == T::cycles(old(ticker).model()) + 1,
    {
        reveal(Machine::load_register_and_step);
        let address = self.registers.get_reg_16(pair);
        let value = self.load(memory, ticker, address);
        self.registers.set_reg_8(target, value);
        self.registers.set_reg_16(pair, wrapping_offset(address, delta));
    }

    /// Adds one to the byte at the address in `pair`.
    fn increment_memory<T: OnMachineCycle>(
        &mut self,
        memory: &mut Memory,
        ticker: &mut T,
        pair: WordRegister,
    )
        requires
            old(ticker).inv(),
        ensures
            final(ticker).inv(),
            state(*final(self), *final(memory), *final(ticker)) == state(
                *old(self),
                *old(memory),
                *old(ticker),
            ).increment_memory(pair),
            T::cycles(final(ticker).model()) == T::cycles(old(ticker).model()) + 2,
    {
        reveal(Machine::increment_memory);
        let address = self.registers.get_reg_16(pair);
        let value = self.load(memory, ticker, address);
        let outcome = increment(value, self.registers.get_reg_8(ByteRegister::F));
        self.store(memory, ticker, address, outcome.value);
        self.registers.set_flags(outcome.flags);
    }

    /// Takes one from the byte at the address in `pair`.
    fn decrement_memory<T: OnMachineCycle>(
        &mut self,
        memory: &mut Memory,
        ticker: &mut T,
        pair: WordRegister,
    )
        requires
            old(ticker).inv(),
        ensures
            final(ticker).inv(),
            state(*final(self), *final(memory), *final(ticker)) == state(
                *old(self),
                *old(memory),
                *old(ticker),
            ).decrement_memory(pair),
            T::cycles(final(ticker).model()) == T::cycles(old(ticker).model()) + 2,
    {
        reveal(Machine::decrement_memory);
        let address = self.registers.get_reg_16(pair);
        let value = self.load(memory, ticker, address);
        let outcome = decrement(value, self.registers.get_reg_8(ByteRegister::F));
        self.store(memory, ticker, address, outcome.value);
        self.registers.set_flags(outcome.flags);
    }

    /// Writes the byte behind the opcode to the address in `pair`.
    fn store_immediate<T: OnMachineCycle>(
        &mut self,
        memory: &mut Memory,
        ticker: &mut T,
        pair: WordRegister,
    )
        requires
            old(ticker).inv(),
        ensures
            final(ticker).inv(),
            state(*final(self), *final(memory), *final(ticker)) == state(
                *old(self),
                *old(memory),
                *old(ticker),
            ).store_immediate(pair),
            T::cycles(final(ticker).model()) == T::cycles(old(ticker).model()) + 2,
    {
        reveal(Machine::store_immediate);
        let data = self.fetch_operand(memory, ticker);
        let address = self.registers.get_reg_16(pair);
        self.store(memory, ticker, address, data);
    }

    /// Stops the CPU until an interrupt is pending. With interrupts off and
    /// one pending already, it does not stop.
    fn halt<T: OnMachineCycle>(&mut self, memory: &mut Memory, ticker: &mut T)
        requires
            old(ticker).inv(),
        ensures
            final(ticker).inv(),
            state(*final(self), *final(memory), *final(ticker)) == state(
                *old(self),
                *old(memory),
                *old(ticker),
            ).halt(),
            T::cycles(final(ticker).model()) == T::cycles(old(ticker).model()) + 0,
    {
        reveal(Machine::halt);
        if self.master_interrupt_flag == MasterInterrupt::On {
            self.halt = true;
        } else if highest_pending(memory).is_none() {
            self.halt = true;
        }
    }

    /// Applies `operation` to `target` and the byte at the address in `pair`.
    fn binary_memory<T: OnMachineCycle>(
        &mut self,
        memory: &mut Memory,
        ticker: &mut T,
        operation: Binary,
        pair: WordRegister,
        target: ByteRegister,
    )
        requires
            old(ticker).inv(),
        ensures
            final(ticker).inv(),
            state(*final(self), *final(memory), *final(ticker)) == state(
                *old(self),
                *old(memory),
                *old(ticker),
            ).binary_memory(operation, pair, target),
            T::cycles(final(ticker).model()) == T::cycles(old(ticker).model()) + 1,
    {
        reveal(Machine::binary_memory);
        let address = self.registers.get_reg_16(pair);
        let right = self.load(memory, ticker, address);
        let outcome = binary(
            operation,
            self.registers.get_reg_8(target),
            right,
            self.registers.get_reg_8(ByteRegister::F),
        );
        self.apply(target, outcome);
    }

    /// Applies `operation` to `target` and the byte behind the opcode.
    fn binary_immediate<T: OnMachineCycle>(
        &mut self,
        memory: &mut Memory,
        ticker: &mut T,
        operation: Binary,
        target: ByteRegister,
    )
        requires
            old(ticker).inv(),
        ensures
            final(ticker).inv(),
            state(*final(self), *final(memory), *final(ticker)) == state(
                *old(self),
                *old(memory),
                *old(ticker),
            ).binary_immediate(operation, target),
            T::cycles(final(ticker).model()) == T::cycles(old(ticker).model()) + 1,
    {
        reveal(Machine::binary_immediate);
        let right = self.fetch_operand(memory, ticker);
        let outcome = binary(
            operation,
            self.registers.get_reg_8(target),
            right,
            self.registers.get_reg_8(ByteRegister::F),
        );
        self.apply(target, outcome);
    }

    /// Pops the program counter, then idles a cycle.
    fn ret<T: OnMachineCycle>(&mut self, memory: &mut Memory, ticker: &mut T)
        requires
            old(ticker).inv(),
        ensures
            final(ticker).inv(),
            state(*final(self), *final(memory), *final(ticker)) == state(
                *old(self),
                *old(memory),
                *old(ticker),
            ).ret(),
            T::cycles(final(ticker).model()) == T::cycles(old(ticker).model()) + 3,
    {
        reveal(Machine::ret);
        let address = self.pop(memory, ticker);
        self.cycle(memory, ticker);
        self.registers.set_reg_16(WordRegister::PC, address);
    }

    /// Tests `flag` in an idle cycle and returns where it is `expected`.
    fn return_if<T: OnMachineCycle>(
        &mut self,
        memory: &mut Memory,
        ticker: &mut T,
        flag: CpuFlag,
        expected: bool,
    )
        requires
            old(ticker).inv(),
        ensures
            final(ticker).inv(),
            state(*final(self), *final(memory), *final(ticker)) == state(
                *old(self),
                *old(memory),
                *old(ticker),
            ).return_if(flag, expected),
            T::cycles(final(ticker).model()) == T::cycles(old(ticker).model()) + if state(
                *old(self),
                *old(memory),
                *old(ticker),
            ).cpu.flag(flag) == expected {
                4nat
            } else {
                1nat
            },
    {
        reveal(Machine::return_if);
        self.cycle(memory, ticker);
        if self.registers.get_flag(flag) == expected {
            self.ret(memory, ticker);
        }
    }

    /// Pops a word into `pair`. Of F only the flags are kept.
    fn pop_register<T: OnMachineCycle>(
        &mut self,
        memory: &mut Memory,
        ticker: &mut T,
        pair: WordRegister,
    )
        requires
            old(ticker).inv(),
        ensures
            final(ticker).inv(),
            state(*final(self), *final(memory), *final(ticker)) == state(
                *old(self),
                *old(memory),
                *old(ticker),
            ).pop_register(pair),
            T::cycles(final(ticker).model()) == T::cycles(old(ticker).model()) + 2,
    {
        reveal(Machine::pop_register);
        let value = self.pop(memory, ticker);
        self.registers.set_reg_16(pair, value);
    }

    /// Jumps to the address behind the opcode.
    fn jump<T: OnMachineCycle>(&mut self, memory: &mut Memory, ticker: &mut T)
        requires
            old(ticker).inv(),
        ensures
            final(ticker).inv(),
            state(*final(self), *final(memory), *final(ticker)) == state(
                *old(self),
                *old(memory),
                *old(ticker),
            ).jump(),
            T::cycles(final(ticker).model()) == T::cycles(old(ticker).model()) + 3,
    {
        reveal(Machine::jump);
        let address = self.fetch_operand16(memory, ticker);
        self.cycle(memory, ticker);
        self.registers.set_reg_16(WordRegister::PC, address);
    }

    /// Jumps to the address behind the opcode where `flag` is `expected`.
    fn jump_if<T: OnMachineCycle>(
        &mut self,
        memory: &mut Memory,
        ticker: &mut T,
        flag: CpuFlag,
        expected: bool,
    )
        requires
            old(ticker).inv(),
        ensures
            final(ticker).inv(),
            state(*final(self), *final(memory), *final(ticker)) == state(
                *old(self),
                *old(memory),
                *old(ticker),
            ).jump_if(flag, expected),
            T::cycles(final(ticker).model()) == T::cycles(old(ticker).model()) + if state(
                *old(self),
                *old(memory),
                *old(ticker),
            ).cpu.flag(flag) == expected {
                3nat
            } else {
                2nat
            },
    {
        reveal(Machine::jump_if);
        if self.registers.get_flag(flag) == expected {
            self.jump(memory, ticker);
        } else {
            let _ = self.fetch_operand16(memory, ticker);
        }
    }

    /// Pushes the address of the next instruction and jumps to the address
    /// behind the opcode.
    fn call<T: OnMachineCycle>(&mut self, memory: &mut Memory, ticker: &mut T)
        requires
            old(ticker).inv(),
        ensures
            final(ticker).inv(),
            state(*final(self), *final(memory), *final(ticker)) == state(
                *old(self),
                *old(memory),
                *old(ticker),
            ).call(),
            T::cycles(final(ticker).model()) == T::cycles(old(ticker).model()) + 5,
    {
        reveal(Machine::call);
        let address = self.fetch_operand16(memory, ticker);
        self.cycle(memory, ticker);
        let pc = self.registers.get_reg_16(WordRegister::PC);
        self.push(memory, ticker, pc);
        self.registers.set_reg_16(WordRegister::PC, address);
    }

    /// Calls the address behind the opcode where `flag` is `expected`.
    fn call_if<T: OnMachineCycle>(
        &mut self,
        memory: &mut Memory,
        ticker: &mut T,
        flag: CpuFlag,
        expected: bool,
    )
        requires
            old(ticker).inv(),
        ensures
            final(ticker).inv(),
            state(*final(self), *final(memory), *final(ticker)) == state(
                *old(self),
                *old(memory),
                *old(ticker),
            ).call_if(flag, expected),
            T::cycles(final(ticker).model()) == T::cycles(old(ticker).model()) + if state(
                *old(self),
                *old(memory),
                *old(ticker),
            ).cpu.flag(flag) == expected {
                5nat
            } else {
                2nat
            },
    {
        reveal(Machine::call_if);
        if self.registers.get_flag(flag) == expected {
            self.call(memory, ticker);
        } else {
            let _ = self.fetch_operand16(memory, ticker);
        }
    }

    /// Pushes `pair` after an idle cycle.
    fn push_register<T: OnMachineCycle>(
        &mut self,
        memory: &mut Memory,
        ticker: &mut T,
        pair: WordRegister,
    )
        requires
            old(ticker).inv(),
        ensures
            final(ticker).inv(),
            state(*final(self), *final(memory), *final(ticker)) == state(
                *old(self),
                *old(memory),
                *old(ticker),
            ).push_register(pair),
            T::cycles(final(ticker).model()) == T::cycles(old(ticker).model()) + 3,
    {
        reveal(Machine::push_register);
        self.cycle(memory, ticker);
        let value = self.registers.get_reg_16(pair);
        self.push(memory, ticker, value);
    }

    /// Pushes the address of the next instruction and jumps to `address`.
    fn call_fixed<T: OnMachineCycle>(&mut self, memory: &mut Memory, ticker: &mut T, address: u16)
        requires
            old(ticker).inv(),
        ensures
            final(ticker).inv(),
            state(*final(self), *final(memory), *final(ticker)) == state(
                *old(self),
                *old(memory),
                *old(ticker),
            ).call_fixed(address),
            T::cycles(final(ticker).model()) == T::cycles(old(ticker).model()) + 3,
    {
        reveal(Machine::call_fixed);
        self.cycle(memory, ticker);
        let pc = self.registers.get_reg_16(WordRegister::PC);
        self.push(memory, ticker, pc);
        self.registers.set_reg_16(WordRegister::PC, address);
    }

    /// Returns and switches interrupts on at once.
    fn return_and_enable<T: OnMachineCycle>(&mut self, memory: &mut Memory, ticker: &mut T)
        requires
            old(ticker).inv(),
        ensures
            final(ticker).inv(),
            state(*final(self), *final(memory), *final(ticker)) == state(
                *old(self),
                *old(memory),
                *old(ticker),
            ).return_and_enable(),
            T::cycles(final(ticker).model()) == T::cycles(old(ticker).model()) + 3,
    {
        reveal(Machine::return_and_enable);
        self.ret(memory, ticker);
        self.master_interrupt_flag = MasterInterrupt::On;
    }

    /// Writes `source` to the I/O register whose offset is behind the opcode.
    fn store_high_immediate<T: OnMachineCycle>(
        &mut self,
        memory: &mut Memory,
        ticker: &mut T,
        source: ByteRegister,
    )
        requires
            old(ticker).inv(),
        ensures
            final(ticker).inv(),
            state(*final(self), *final(memory), *final(ticker)) == state(
                *old(self),
                *old(memory),
                *old(ticker),
            ).store_high_immediate(source),
            T::cycles(final(ticker).model()) == T::cycles(old(ticker).model()) + 2,
    {
        reveal(Machine::store_high_immediate);
        let offset = self.fetch_operand(memory, ticker);
        let data = self.registers.get_reg_8(source);
        self.store(memory, ticker, 0xFF00 + offset as u16, data);
    }

    /// Writes `source` to the I/O register whose offset is in `index`.
    fn store_high<T: OnMachineCycle>(
        &mut self,
        memory: &mut Memory,
        ticker: &mut T,
        source: ByteRegister,
        index: ByteRegister,
    )
        requires
            old(ticker).inv(),
        ensures
            final(ticker).inv(),
            state(*final(self), *final(memory), *final(ticker)) == state(
                *old(self),
                *old(memory),
                *old(ticker),
            ).store_high(source, index),
            T::cycles(final(ticker).model()) == T::cycles(old(ticker).model()) + 1,
    {
        reveal(Machine::store_high);
        let offset = self.registers.get_reg_8(index);
        let data = self.registers.get_reg_8(source);
        self.store(memory, ticker, 0xFF00 + offset as u16, data);
    }

    /// Adds the signed byte behind the opcode to `pair`, in two idle cycles.
    fn add_signed_immediate<T: OnMachineCycle>(
        &mut self,
        memory: &mut Memory,
        ticker: &mut T,
        pair: WordRegister,
    )
        requires
            old(ticker).inv(),
        ensures
            final(ticker).inv(),
            state(*final(self), *final(memory), *final(ticker)) == state(
                *old(self),
                *old(memory),
                *old(ticker),
            ).add_signed_immediate(pair),
            T::cycles(final(ticker).model()) == T::cycles(old(ticker).model()) + 3,
    {
        reveal(Machine::add_signed_immediate);
        let offset = self.fetch_operand(memory, ticker);
        self.cycle(memory, ticker);
        self.cycle(memory, ticker);
        let outcome = add_signed(self.registers.get_reg_16(pair), offset);
        self.apply16(pair, outcome);
    }

    /// Writes `source` to the address behind the opcode.
    fn store_at_immediate<T: OnMachineCycle>(
        &mut self,
        memory: &mut Memory,
        ticker: &mut T,
        source: ByteRegister,
    )
        requires
            old(ticker).inv(),
        ensures
            final(ticker).inv(),
            state(*final(self), *final(memory), *final(ticker)) == state(
                *old(self),
                *old(memory),
                *old(ticker),
            ).store_at_immediate(source),
            T::cycles(final(ticker).model()) == T::cycles(old(ticker).model()) + 3,
    {
        reveal(Machine::store_at_immediate);
        let address = self.fetch_operand16(memory, ticker);
        let data = self.registers.get_reg_8(source);
        self.store(memory, ticker, address, data);
    }

    /// Reads the I/O register whose offset is behind the opcode into `target`.
    fn load_high_immediate<T: OnMachineCycle>(
        &mut self,
        memory: &mut Memory,
        ticker: &mut T,
        target: ByteRegister,
    )
        requires
            old(ticker).inv(),
        ensures
            final(ticker).inv(),
            state(*final(self), *final(memory), *final(ticker)) == state(
                *old(self),
                *old(memory),
                *old(ticker),
            ).load_high_immediate(target),
            T::cycles(final(ticker).model()) == T::cycles(old(ticker).model()) + 2,
    {
        reveal(Machine::load_high_immediate);
        let offset = self.fetch_operand(memory, ticker);
        let value = self.load(memory, ticker, 0xFF00 + offset as u16);
        self.registers.set_reg_8(target, value);
    }

    /// Reads the I/O register whose offset is in `index` into `target`.
    fn load_high<T: OnMachineCycle>(
        &mut self,
        memory: &mut Memory,
        ticker: &mut T,
        index: ByteRegister,
        target: ByteRegister,
    )
        requires
            old(ticker).inv(),
        ensures
            final(ticker).inv(),
            state(*final(self), *final(memory), *final(ticker)) == state(
                *old(self),
                *old(memory),
                *old(ticker),
            ).load_high(index, target),
            T::cycles(final(ticker).model()) == T::cycles(old(ticker).model()) + 1,
    {
        reveal(Machine::load_high);
        let offset = self.registers.get_reg_8(index);
        let value = self.load(memory, ticker, 0xFF00 + offset as u16);
        self.registers.set_reg_8(target, value);
    }

    /// Loads `source` plus the signed byte behind the opcode into `target`, in
    /// an idle cycle.
    fn load_sum<T: OnMachineCycle>(
        &mut self,
        memory: &mut Memory,
        ticker: &mut T,
        source: WordRegister,
        target: WordRegister,
    )
        requires
            old(ticker).inv(),
        ensures
            final(ticker).inv(),
            state(*final(self), *final(memory), *final(ticker)) == state(
                *old(self),
                *old(memory),
                *old(ticker),
            ).load_sum(source, target),
            T::cycles(final(ticker).model()) == T::cycles(old(ticker).model()) + 2,
    {
        reveal(Machine::load_sum);
        let offset = self.fetch_operand(memory, ticker);
        self.cycle(memory, ticker);
        let outcome = add_signed(self.registers.get_reg_16(source), offset);
        self.apply16(target, outcome);
    }

    /// Copies `source` into `target` in an idle cycle.
    fn copy_pair<T: OnMachineCycle>(
        &mut self,
        memory: &mut Memory,
        ticker: &mut T,
        source: WordRegister,
        target: WordRegister,
    )
        requires
            old(ticker).inv(),
        ensures
            final(ticker).inv(),
            state(*final(self), *final(memory), *final(ticker)) == state(
                *old(self),
                *old(memory),
                *old(ticker),
            ).copy_pair(source, target),
            T::cycles(final(ticker).model()) == T::cycles(old(ticker).model()) + 1,
    {
        reveal(Machine::copy_pair);
        self.cycle(memory, ticker);
        let value = self.registers.get_reg_16(source);
        self.registers.set_reg_16(target, value);
    }

    /// Reads the byte at the address behind the opcode into `target`.
    fn load_at_immediate<T: OnMachineCycle>(
        &mut self,
        memory: &mut Memory,
        ticker: &mut T,
        target: ByteRegister,
    )
        requires
            old(ticker).inv(),
        ensures
            final(ticker).inv(),
            state(*final(self), *final(memory), *final(ticker)) == state(
                *old(self),
                *old(memory),
                *old(ticker),
            ).load_at_immediate(target),
            T::cycles(final(ticker).model()) == T::cycles(old(ticker).model()) + 3,
    {
        reveal(Machine::load_at_immediate);
        let address = self.fetch_operand16(memory, ticker);
        let value = self.load(memory, ticker, address);
        self.registers.set_reg_8(target, value);
    }

    /// Rotates or shifts the byte at the address in `pair`.
    fn shift_memory<T: OnMachineCycle>(
        &mut self,
        memory: &mut Memory,
        ticker: &mut T,
        operation: Unary,
        pair: WordRegister,
    )
        requires
            old(ticker).inv(),
        ensures
            final(ticker).inv(),
            state(*final(self), *final(memory), *final(ticker)) == state(
                *old(self),
                *old(memory),
                *old(ticker),
            ).shift_memory(operation, pair),
            T::cycles(final(ticker).model()) == T::cycles(old(ticker).model()) + 2,
    {
        reveal(Machine::shift_memory);
        let address = self.registers.get_reg_16(pair);
        let value = self.load(memory, ticker, address);
        let outcome = unary(operation, value, self.registers.get_reg_8(ByteRegister::F));
        self.store(memory, ticker, address, outcome.value);
        self.registers.set_flags(outcome.flags);
    }

    /// Tests bit `bit` of the byte at the address in `pair`.
    fn test_memory<T: OnMachineCycle>(
        &mut self,
        memory: &mut Memory,
        ticker: &mut T,
        bit: u8,
        pair: WordRegister,
    )
        requires
            old(ticker).inv(),
        ensures
            final(ticker).inv(),
            state(*final(self), *final(memory), *final(ticker)) == state(
                *old(self),
                *old(memory),
                *old(ticker),
            ).test_memory(bit, pair),
            T::cycles(final(ticker).model()) == T::cycles(old(ticker).model()) + 1,
    {
        reveal(Machine::test_memory);
        let address = self.registers.get_reg_16(pair);
        let value = self.load(memory, ticker, address);
        let flags = test_bit(bit, value, self.registers.get_reg_8(ByteRegister::F));
        self.registers.set_flags(flags);
    }

    /// Clears bit `bit` of the byte at the address in `pair`.
    fn clear_bit_memory<T: OnMachineCycle>(
        &mut self,
        memory: &mut Memory,
        ticker: &mut T,
        bit: u8,
        pair: WordRegister,
    )
        requires
            old(ticker).inv(),
        ensures
            final(ticker).inv(),
            state(*final(self), *final(memory), *final(ticker)) == state(
                *old(self),
                *old(memory),
                *old(ticker),
            ).clear_bit_memory(bit, pair),
            T::cycles(final(ticker).model()) == T::cycles(old(ticker).model()) + 2,
    {
        reveal(Machine::clear_bit_memory);
        let address = self.registers.get_reg_16(pair);
        let value = self.load(memory, ticker, address);
        self.store(memory, ticker, address, clear_bit(bit, value));
    }

    /// Sets bit `bit` of the byte at the address in `pair`.
    fn set_bit_memory<T: OnMachineCycle>(
        &mut self,
        memory: &mut Memory,
        ticker: &mut T,
        bit: u8,
        pair: WordRegister,
    )
        requires
            old(ticker).inv(),
        ensures
            final(ticker).inv(),
            state(*final(self), *final(memory), *final(ticker)) == state(
                *old(self),
                *old(memory),
                *old(ticker),
            ).set_bit_memory(bit, pair),
            T::cycles(final(ticker).model()) == T::cycles(old(ticker).model()) + 2,
    {
        reveal(Machine::set_bit_memory);
        let address = self.registers.get_reg_16(pair);
        let value = self.load(memory, ticker, address);
        self.store(memory, ticker, address, set_bit(bit, value));
    }
}

/// The families of instructions.
#[derive(Clone, Copy, PartialEq, Eq, Debug, Structural)]
pub enum Family {
    /// Instructions in which a register takes a byte.
    Load,
    /// Instructions in which memory takes a byte.
    Store,
    /// Instructions in which a word moves between registers and memory.
    Move16,
    /// Instructions in which the unit works on registers alone.
    Register,
    /// Instructions in which the unit takes an operand from memory.
    Memory,
    /// Instructions in which the unit takes the byte behind the opcode.
    Immediate,
    /// Instructions in which arithmetic on a register pair.
    Wide,
    /// Instructions in which a jump.
    Jump,
    /// Instructions in which a call or a return.
    Call,
    /// Instructions in which the processor itself is steered.
    Control,
}

impl Operation {
    /// The family that the instruction belongs to.
    pub open spec fn family_of(self) -> Family {
        match self {
            Operation::LoadImmediateIntoReg(_)
            | Operation::LoadAtAddressInWordRegIntoReg(_, _)
            | Operation::LoadAtAddressInWordRegIntoRegAndIncrementWordReg(_, _)
            | Operation::LoadAtAddressInWordRegIntoRegAndDecrementWordReg(_, _)
            | Operation::LoadRegIntoReg(_, _)
            | Operation::LoadImmediateIORegisterIntoReg(_)
            | Operation::LoadRegIORegisterIntoReg(_, _)
            | Operation::LoadAtImmediateAddressIntoReg(_) => Family::Load,
            Operation::LoadRegIntoAddressInWordReg(_, _)
            | Operation::LoadRegIntoAddressInWordRegAndIncrementWordReg(_, _)
            | Operation::LoadRegIntoAddressInWordRegAndDecrementWordReg(_, _)
            | Operation::LoadImmediateIntoAddressInWordReg(_)
            | Operation::LoadRegIntoImmediateIORegister(_)
            | Operation::LoadRegIntoRegIORegister(_, _)
            | Operation::LoadRegIntoImmediateAddress(_) => Family::Store,
            Operation::LoadImmediateIntoWordReg(_)
            | Operation::LoadSPIntoImmediateAddress
            | Operation::PopStackIntoWordReg(_)
            | Operation::PushWordRegIntoStack(_)
            | Operation::LoadSumOfWordRegAndSignedImmediateIntoWordReg(_, _)
            | Operation::LoadWordRegIntoWordReg(_, _) => Family::Move16,
            Operation::IncrementReg(_)
            | Operation::DecrementReg(_)
            | Operation::RotateAccLeft
            | Operation::RotateAccRight
            | Operation::RotateAccLeftThroughCarry
            | Operation::RotateAccRightThroughCarry
            | Operation::DecimalAdjustAcc
            | Operation::ComplementAcc
            | Operation::SetCarry
            | Operation::ComplementCarry
            | Operation::AddRegIntoReg(_, _)
            | Operation::AddRegIntoRegWithCarry(_, _)
            | Operation::SubRegFromReg(_, _)
            | Operation::SubRegFromRegWithCarry(_, _)
            | Operation::AndRegIntoReg(_, _)
            | Operation::XorRegIntoReg(_, _)
            | Operation::OrRegIntoReg(_, _)
            | Operation::CompareRegAndReg(_, _) => Family::Register,
            Operation::IncrementAtAddressInWordReg(_)
            | Operation::DecrementAtAddressInWordReg(_)
            | Operation::AddAtAddressInWordRegIntoReg(_, _)
            | Operation::AddAtAddressInWordRegIntoRegWithCarry(_, _)
            | Operation::SubAtAddressInWordRegFromReg(_, _)
            | Operation::SubAtAddressInWordRegFromRegWithCarry(_, _)
            | Operation::AndAtAddressInWordRegIntoReg(_, _)
            | Operation::XorAtAddressInWordRegIntoReg(_, _)
            | Operation::OrAtAddressInWordRegIntoReg(_, _)
            | Operation::CompareAtAddressInWordRegAndReg(_, _) => Family::Memory,
            Operation::AddImmediateIntoReg(_)
            | Operation::AddImmediateIntoRegWithCarry(_)
            | Operation::SubImmediateFromReg(_)
            | Operation::SubImmediateFromRegWithCarry(_)
            | Operation::AndImmediateIntoReg(_)
            | Operation::XorImmediateIntoReg(_)
            | Operation::OrImmediateIntoReg(_)
            | Operation::CompareImmediateAndReg(_) => Family::Immediate,
            Operation::IncrementWordReg(_)
            | Operation::DecrementWordReg(_)
            | Operation::AddWordRegIntoWordReg(_, _)
            | Operation::AddSignedImmediateIntoWordReg(_) => Family::Wide,
            Operation::RelativeJumpImmediateOffset
            | Operation::ConditionalRelativeJumpImmediateOffset(_)
            | Operation::NegativeConditionalRelativeJumpImmediateOffset(_)
            | Operation::ConditionalJumpImmediateAddress(_)
            | Operation::NegativeConditionalJumpImmediateAddress(_)
            | Operation::JumpImmediateAddress
            | Operation::JumpToAddressInWordReg(_) => Family::Jump,
            Operation::ConditionalReturn(_)
            | Operation::NegativeConditionalReturn(_)
            | Operation::ConditionalCallImmediateAddress(_)
            | Operation::NegativeConditionalCallImmediateAddress(_)
            | Operation::CallFixedAddress(_)
            | Operation::Return
            | Operation::CallImmediateAddress
            | Operation::ReturnAndEnableInterrupts => Family::Call,
            Operation::Noop
            | Operation::Stop
            | Operation::Halt
            | Operation::Prefixed
            | Operation::DisableInterrupts
            | Operation::EnableInterrupts => Family::Control,
        }
    }

    #[verifier::when_used_as_spec(family_of)]
    pub fn family(self) -> (family: Family)
        ensures
            family == self.family_of(),
    {
        match self {
            Operation::LoadImmediateIntoReg(_)
            | Operation::LoadAtAddressInWordRegIntoReg(_, _)
            | Operation::LoadAtAddressInWordRegIntoRegAndIncrementWordReg(_, _)
            | Operation::LoadAtAddressInWordRegIntoRegAndDecrementWordReg(_, _)
            | Operation::LoadRegIntoReg(_, _)
            | Operation::LoadImmediateIORegisterIntoReg(_)
            | Operation::LoadRegIORegisterIntoReg(_, _)
            | Operation::LoadAtImmediateAddressIntoReg(_) => Family::Load,
            Operation::LoadRegIntoAddressInWordReg(_, _)
            | Operation::LoadRegIntoAddressInWordRegAndIncrementWordReg(_, _)
            | Operation::LoadRegIntoAddressInWordRegAndDecrementWordReg(_, _)
            | Operation::LoadImmediateIntoAddressInWordReg(_)
            | Operation::LoadRegIntoImmediateIORegister(_)
            | Operation::LoadRegIntoRegIORegister(_, _)
            | Operation::LoadRegIntoImmediateAddress(_) => Family::Store,
            Operation::LoadImmediateIntoWordReg(_)
            | Operation::LoadSPIntoImmediateAddress
            | Operation::PopStackIntoWordReg(_)
            | Operation::PushWordRegIntoStack(_)
            | Operation::LoadSumOfWordRegAndSignedImmediateIntoWordReg(_, _)
            | Operation::LoadWordRegIntoWordReg(_, _) => Family::Move16,
            Operation::IncrementReg(_)
            | Operation::DecrementReg(_)
            | Operation::RotateAccLeft
            | Operation::RotateAccRight
            | Operation::RotateAccLeftThroughCarry
            | Operation::RotateAccRightThroughCarry
            | Operation::DecimalAdjustAcc
            | Operation::ComplementAcc
            | Operation::SetCarry
            | Operation::ComplementCarry
            | Operation::AddRegIntoReg(_, _)
            | Operation::AddRegIntoRegWithCarry(_, _)
            | Operation::SubRegFromReg(_, _)
            | Operation::SubRegFromRegWithCarry(_, _)
            | Operation::AndRegIntoReg(_, _)
            | Operation::XorRegIntoReg(_, _)
            | Operation::OrRegIntoReg(_, _)
            | Operation::CompareRegAndReg(_, _) => Family::Register,
            Operation::IncrementAtAddressInWordReg(_)
            | Operation::DecrementAtAddressInWordReg(_)
            | Operation::AddAtAddressInWordRegIntoReg(_, _)
            | Operation::AddAtAddressInWordRegIntoRegWithCarry(_, _)
            | Operation::SubAtAddressInWordRegFromReg(_, _)
            | Operation::SubAtAddressInWordRegFromRegWithCarry(_, _)
            | Operation::AndAtAddressInWordRegIntoReg(_, _)
            | Operation::XorAtAddressInWordRegIntoReg(_, _)
            | Operation::OrAtAddressInWordRegIntoReg(_, _)
            | Operation::CompareAtAddressInWordRegAndReg(_, _) => Family::Memory,
            Operation::AddImmediateIntoReg(_)
            | Operation::AddImmediateIntoRegWithCarry(_)
            | Operation::SubImmediateFromReg(_)
            | Operation::SubImmediateFromRegWithCarry(_)
            | Operation::AndImmediateIntoReg(_)
            | Operation::XorImmediateIntoReg(_)
            | Operation::OrImmediateIntoReg(_)
            | Operation::CompareImmediateAndReg(_) => Family::Immediate,
            Operation::IncrementWordReg(_)
            | Operation::DecrementWordReg(_)
            | Operation::AddWordRegIntoWordReg(_, _)
            | Operation::AddSignedImmediateIntoWordReg(_) => Family::Wide,
            Operation::RelativeJumpImmediateOffset
            | Operation::ConditionalRelativeJumpImmediateOffset(_)
            | Operation::NegativeConditionalRelativeJumpImmediateOffset(_)
            | Operation::ConditionalJumpImmediateAddress(_)
            | Operation::NegativeConditionalJumpImmediateAddress(_)
            | Operation::JumpImmediateAddress
            | Operation::JumpToAddressInWordReg(_) => Family::Jump,
            Operation::ConditionalReturn(_)
            | Operation::NegativeConditionalReturn(_)
            | Operation::ConditionalCallImmediateAddress(_)
            | Operation::NegativeConditionalCallImmediateAddress(_)
            | Operation::CallFixedAddress(_)
            | Operation::Return
            | Operation::CallImmediateAddress
            | Operation::ReturnAndEnableInterrupts => Family::Call,
            Operation::Noop
            | Operation::Stop
            | Operation::Halt
            | Operation::Prefixed
            | Operation::DisableInterrupts
            | Operation::EnableInterrupts => Family::Control,
        }
    }
}

impl<T: OnMachineCycle> Machine<T> {
    /// The console after the instruction `operation` behind the prefix,
    /// both of whose bytes have been fetched.
    pub open spec fn execute_prefixed(self, operation: PrefixedOperation) -> Self {
        match operation {
            PrefixedOperation::RotateRegLeft(register) =>
                self.with_cpu(self.cpu.shift_register(Unary::RotateLeft, register)),
            PrefixedOperation::RotateAtAddressInWordRegLeft(pair) =>
                self.shift_memory(Unary::RotateLeft, pair),
            PrefixedOperation::RotateRegRight(register) =>
                self.with_cpu(self.cpu.shift_register(Unary::RotateRight, register)),
            PrefixedOperation::RotateAtAddressInWordRegRight(pair) =>
                self.shift_memory(Unary::RotateRight, pair),
            PrefixedOperation::RotateRegLeftThroughCarry(register) =>
                self.with_cpu(self.cpu.shift_register(Unary::RotateLeftThroughCarry, register)),
            PrefixedOperation::RotateAtAddressInWordRegLeftThroughCarry(pair) =>
                self.shift_memory(Unary::RotateLeftThroughCarry, pair),
            PrefixedOperation::RotateRegRightThroughCarry(register) =>
                self.with_cpu(self.cpu.shift_register(Unary::RotateRightThroughCarry, register)),
            PrefixedOperation::RotateAtAddressInWordRegRightThroughCarry(pair) =>
                self.shift_memory(Unary::RotateRightThroughCarry, pair),
            PrefixedOperation::ShiftRegLeftArithmetically(register) =>
                self.with_cpu(self.cpu.shift_register(Unary::ShiftLeftArithmetically, register)),
            PrefixedOperation::ShiftAtAddressInWordRegLeftArithmetically(pair) =>
                self.shift_memory(Unary::ShiftLeftArithmetically, pair),
            PrefixedOperation::ShiftRegRightArithmetically(register) =>
                self.with_cpu(self.cpu.shift_register(Unary::ShiftRightArithmetically, register)),
            PrefixedOperation::ShiftAtAddressInWordRegRightArithmetically(pair) =>
                self.shift_memory(Unary::ShiftRightArithmetically, pair),
            PrefixedOperation::SwapRegNibbles(register) =>
                self.with_cpu(self.cpu.shift_register(Unary::SwapNibbles, register)),
            PrefixedOperation::SwapAtAddressInWordRegNibbles(pair) =>
                self.shift_memory(Unary::SwapNibbles, pair),
            PrefixedOperation::ShiftRegRightLogically(register) =>
                self.with_cpu(self.cpu.shift_register(Unary::ShiftRightLogically, register)),
            PrefixedOperation::ShiftAtAddressInWordRegRightLogically(pair) =>
                self.shift_memory(Unary::ShiftRightLogically, pair),
            PrefixedOperation::TestForBitInReg(bit, register) =>
                self.with_cpu(self.cpu.test_register(bit, register)),
            PrefixedOperation::TestForBitInAtAddressInWordReg(bit, pair) =>
                self.test_memory(bit, pair),
            PrefixedOperation::ClearBitInReg(bit, register) =>
                self.with_cpu(self.cpu.clear_bit_register(bit, register)),
            PrefixedOperation::ClearBitInAtAddressInWordReg(bit, pair) =>
                self.clear_bit_memory(bit, pair),
            PrefixedOperation::SetBitInReg(bit, register) =>
                self.with_cpu(self.cpu.set_bit_register(bit, register)),
            PrefixedOperation::SetBitInAtAddressInWordReg(bit, pair) =>
                self.set_bit_memory(bit, pair),
        }
    }

    /// The console after the prefix: a cycle fetches the byte behind it,
    /// and the instruction that this byte stands for runs.
    #[verifier::opaque]
    pub open spec fn prefixed(self) -> Self {
        self.skip_operand().execute_prefixed(decode_prefixed_spec(self.operand()))
    }

    /// The console after the instruction `operation` of the family in
    /// which a register takes a byte.
    pub open spec fn execute_load(self, operation: Operation) -> Self {
        match operation {
            Operation::LoadImmediateIntoReg(target) => self.load_immediate8(target),
            Operation::LoadAtAddressInWordRegIntoReg(pair, target) =>
                self.load_register(pair, target),
            Operation::LoadAtAddressInWordRegIntoRegAndIncrementWordReg(pair, target) =>
                self.load_register_and_step(pair, target, 1i32),
            Operation::LoadAtAddressInWordRegIntoRegAndDecrementWordReg(pair, target) =>
                self.load_register_and_step(pair, target, -1i32),
            Operation::LoadRegIntoReg(source, target) =>
                self.with_cpu(self.cpu.copy_register(source, target)),
            Operation::LoadImmediateIORegisterIntoReg(target) => self.load_high_immediate(target),
            Operation::LoadRegIORegisterIntoReg(index, target) => self.load_high(index, target),
            Operation::LoadAtImmediateAddressIntoReg(target) => self.load_at_immediate(target),
            _ => self,
        }
    }

    /// The console after the instruction `operation` of the family in
    /// which memory takes a byte.
    pub open spec fn execute_store(self, operation: Operation) -> Self {
        match operation {
            Operation::LoadRegIntoAddressInWordReg(source, pair) =>
                self.store_register(source, pair),
            Operation::LoadRegIntoAddressInWordRegAndIncrementWordReg(source, pair) =>
                self.store_register_and_step(source, pair, 1i32),
            Operation::LoadRegIntoAddressInWordRegAndDecrementWordReg(source, pair) =>
                self.store_register_and_step(source, pair, -1i32),
            Operation::LoadImmediateIntoAddressInWordReg(pair) => self.store_immediate(pair),
            Operation::LoadRegIntoImmediateIORegister(source) => self.store_high_immediate(source),
            Operation::LoadRegIntoRegIORegister(source, index) => self.store_high(source, index),
            Operation::LoadRegIntoImmediateAddress(source) => self.store_at_immediate(source),
            _ => self,
        }
    }

    /// The console after the instruction `operation` of the family in
    /// which a word moves between registers and memory.
    pub open spec fn execute_move16(self, operation: Operation) -> Self {
        match operation {
            Operation::LoadImmediateIntoWordReg(target) => self.load_immediate16(target),
            Operation::LoadSPIntoImmediateAddress => self.store_stack_pointer(),
            Operation::PopStackIntoWordReg(pair) => self.pop_register(pair),
            Operation::PushWordRegIntoStack(pair) => self.push_register(pair),
            Operation::LoadSumOfWordRegAndSignedImmediateIntoWordReg(source, target) =>
                self.load_sum(source, target),
            Operation::LoadWordRegIntoWordReg(source, target) => self.copy_pair(source, target),
            _ => self,
        }
    }

    /// The console after the instruction `operation` of the family in
    /// which the unit works on registers alone.
    pub open spec fn execute_register(self, operation: Operation) -> Self {
        match operation {
            Operation::IncrementReg(register) => self.with_cpu(self.cpu.increment8(register)),
            Operation::DecrementReg(register) => self.with_cpu(self.cpu.decrement8(register)),
            Operation::RotateAccLeft =>
                self.with_cpu(self.cpu.rotate_accumulator(Unary::RotateLeft)),
            Operation::RotateAccRight =>
                self.with_cpu(self.cpu.rotate_accumulator(Unary::RotateRight)),
            Operation::RotateAccLeftThroughCarry =>
                self.with_cpu(self.cpu.rotate_accumulator(Unary::RotateLeftThroughCarry)),
            Operation::RotateAccRightThroughCarry =>
                self.with_cpu(self.cpu.rotate_accumulator(Unary::RotateRightThroughCarry)),
            Operation::DecimalAdjustAcc => self.with_cpu(self.cpu.decimal_adjust()),
            Operation::ComplementAcc => self.with_cpu(self.cpu.complement_accumulator()),
            Operation::SetCarry => self.with_cpu(self.cpu.set_carry()),
            Operation::ComplementCarry => self.with_cpu(self.cpu.complement_carry()),
            Operation::AddRegIntoReg(source, target) =>
                self.with_cpu(self.cpu.binary_register(Binary::Add, source, target)),
            Operation::AddRegIntoRegWithCarry(source, target) =>
                self.with_cpu(self.cpu.binary_register(Binary::AddWithCarry, source, target)),
            Operation::SubRegFromReg(source, target) =>
                self.with_cpu(self.cpu.binary_register(Binary::Sub, source, target)),
            Operation::SubRegFromRegWithCarry(source, target) =>
                self.with_cpu(self.cpu.binary_register(Binary::SubWithCarry, source, target)),
            Operation::AndRegIntoReg(source, target) =>
                self.with_cpu(self.cpu.binary_register(Binary::And, source, target)),
            Operation::XorRegIntoReg(source, target) =>
                self.with_cpu(self.cpu.binary_register(Binary::Xor, source, target)),
            Operation::OrRegIntoReg(source, target) =>
                self.with_cpu(self.cpu.binary_register(Binary::Or, source, target)),
            Operation::CompareRegAndReg(source, target) =>
                self.with_cpu(self.cpu.binary_register(Binary::Compare, source, target)),
            _ => self,
        }
    }

    /// The console after the instruction `operation` of the family in
    /// which the unit takes an operand from memory.
    pub open spec fn execute_memory(self, operation: Operation) -> Self {
        match operation {
            Operation::IncrementAtAddressInWordReg(pair) => self.increment_memory(pair),
            Operation::DecrementAtAddressInWordReg(pair) => self.decrement_memory(pair),
            Operation::AddAtAddressInWordRegIntoReg(pair, target) =>
                self.binary_memory(Binary::Add, pair, target),
            Operation::AddAtAddressInWordRegIntoRegWithCarry(pair, target) =>
                self.binary_memory(Binary::AddWithCarry, pair, target),
            Operation::SubAtAddressInWordRegFromReg(pair, target) =>
                self.binary_memory(Binary::Sub, pair, target),
            Operation::SubAtAddressInWordRegFromRegWithCarry(pair, target) =>
                self.binary_memory(Binary::SubWithCarry, pair, target),
            Operation::AndAtAddressInWordRegIntoReg(pair, target) =>
                self.binary_memory(Binary::And, pair, target),
            Operation::XorAtAddressInWordRegIntoReg(pair, target) =>
                self.binary_memory(Binary::Xor, pair, target),
            Operation::OrAtAddressInWordRegIntoReg(pair, target) =>
                self.binary_memory(Binary::Or, pair, target),
            Operation::CompareAtAddressInWordRegAndReg(pair, target) =>
                self.binary_memory(Binary::Compare, pair, target),
            _ => self,
        }
    }

    /// The console after the instruction `operation` of the family in
    /// which the unit takes the byte behind the opcode.
    pub open spec fn execute_immediate(self, operation: Operation) -> Self {
        match operation {
            Operation::AddImmediateIntoReg(target) => self.binary_immediate(Binary::Add, target),
            Operation::AddImmediateIntoRegWithCarry(target) =>
                self.binary_immediate(Binary::AddWithCarry, target),
            Operation::SubImmediateFromReg(target) => self.binary_immediate(Binary::Sub, target),
            Operation::SubImmediateFromRegWithCarry(target) =>
                self.binary_immediate(Binary::SubWithCarry, target),
            Operation::AndImmediateIntoReg(target) => self.binary_immediate(Binary::And, target),
            Operation::XorImmediateIntoReg(target) => self.binary_immediate(Binary::Xor, target),
            Operation::OrImmediateIntoReg(target) => self.binary_immediate(Binary::Or, target),
            Operation::CompareImmediateAndReg(target) =>
                self.binary_immediate(Binary::Compare, target),
            _ => self,
        }
    }

    /// The console after the instruction `operation` of the family in
    /// which arithmetic on a register pair.
    pub open spec fn execute_wide(self, operation: Operation) -> Self {
        match operation {
            Operation::IncrementWordReg(pair) => self.step16(pair, 1i32),
            Operation::DecrementWordReg(pair) => self.step16(pair, -1i32),
            Operation::AddWordRegIntoWordReg(source, target) => self.add16(source, target),
            Operation::AddSignedImmediateIntoWordReg(pair) => self.add_signed_immediate(pair),
            _ => self,
        }
    }

    /// The console after the instruction `operation` of the family in
    /// which a jump.
    pub open spec fn execute_jump(self, operation: Operation) -> Self {
        match operation {
            Operation::RelativeJumpImmediateOffset => self.relative_jump(),
            Operation::ConditionalRelativeJumpImmediateOffset(flag) =>
                self.relative_jump_if(flag, true),
            Operation::NegativeConditionalRelativeJumpImmediateOffset(flag) =>
                self.relative_jump_if(flag, false),
            Operation::ConditionalJumpImmediateAddress(flag) => self.jump_if(flag, true),
            Operation::NegativeConditionalJumpImmediateAddress(flag) => self.jump_if(flag, false),
            Operation::JumpImmediateAddress => self.jump(),
            Operation::JumpToAddressInWordReg(pair) =>
                self.with_cpu(self.cpu.jump_to_register(pair)),
            _ => self,
        }
    }

    /// The console after the instruction `operation` of the family in
    /// which a call or a return.
    pub open spec fn execute_call(self, operation: Operation) -> Self {
        match operation {
            Operation::ConditionalReturn(flag) => self.return_if(flag, true),
            Operation::NegativeConditionalReturn(flag) => self.return_if(flag, false),
            Operation::ConditionalCallImmediateAddress(flag) => self.call_if(flag, true),
            Operation::NegativeConditionalCallImmediateAddress(flag) => self.call_if(flag, false),
            Operation::CallFixedAddress(address) => self.call_fixed(address),
            Operation::Return => self.ret(),
            Operation::CallImmediateAddress => self.call(),
            Operation::ReturnAndEnableInterrupts => self.return_and_enable(),
            _ => self,
        }
    }

    /// The console after the instruction `operation` of the family in
    /// which the processor itself is steered.
    pub open spec fn execute_control(self, operation: Operation) -> Self {
        match operation {
            Operation::Noop => self,
            Operation::Stop => self,
            Operation::Halt => self.halt(),
            Operation::Prefixed => self.prefixed(),
            Operation::DisableInterrupts =>
                self.with_cpu(self.cpu.with_master_interrupt(MasterInterrupt::Off)),
            Operation::EnableInterrupts =>
                self.with_cpu(self.cpu.with_master_interrupt(MasterInterrupt::TurningOn)),
            _ => self,
        }
    }

    /// The console after the instruction `operation`, whose opcode has been
    /// fetched.
    #[verifier::opaque]
    pub open spec fn execute(self, operation: Operation) -> Self {
        match operation.family_of() {
            Family::Load => self.execute_load(operation),
            Family::Store => self.execute_store(operation),
            Family::Move16 => self.execute_move16(operation),
            Family::Register => self.execute_register(operation),
            Family::Memory => self.execute_memory(operation),
            Family::Immediate => self.execute_immediate(operation),
            Family::Wide => self.execute_wide(operation),
            Family::Jump => self.execute_jump(operation),
            Family::Call => self.execute_call(operation),
            Family::Control => self.execute_control(operation),
        }
    }

    /// The machine cycles that `operation` takes once its opcode has been
    /// fetched.
    pub open spec fn execute_cycles(self, operation: Operation) -> nat {
        (operation.cycles(operation.taken(self.cpu.f())) - 1 + if operation == Operation::Prefixed {
            decode_prefixed_spec(self.operand()).extra_cycles()
        } else {
            0
        }) as nat
    }
}

impl Cpu {
    /// Runs the instruction `operation` behind the prefix, both of whose
    /// bytes have been fetched.
    #[verifier::rlimit(50)]
    pub fn execute_prefixed<T: OnMachineCycle>(
        &mut self,
        operation: PrefixedOperation,
        memory: &mut Memory,
        ticker: &mut T,
    )
        requires
            old(ticker).inv(),
        ensures
            final(ticker).inv(),
            state(*final(self), *final(memory), *final(ticker)) == state(
                *old(self),
                *old(memory),
                *old(ticker),
            ).execute_prefixed(operation),
            T::cycles(final(ticker).model()) == T::cycles(old(ticker).model())
                + operation.extra_cycles(),
    {
        match operation {
            PrefixedOperation::RotateRegLeft(register) =>
                self.shift_register(Unary::RotateLeft, register),
            PrefixedOperation::RotateAtAddressInWordRegLeft(pair) =>
                self.shift_memory(memory, ticker, Unary::RotateLeft, pair),
            PrefixedOperation::RotateRegRight(register) =>
                self.shift_register(Unary::RotateRight, register),
            PrefixedOperation::RotateAtAddressInWordRegRight(pair) =>
                self.shift_memory(memory, ticker, Unary::RotateRight, pair),
            PrefixedOperation::RotateRegLeftThroughCarry(register) =>
                self.shift_register(Unary::RotateLeftThroughCarry, register),
            PrefixedOperation::RotateAtAddressInWordRegLeftThroughCarry(pair) =>
                self.shift_memory(memory, ticker, Unary::RotateLeftThroughCarry, pair),
            PrefixedOperation::RotateRegRightThroughCarry(register) =>
                self.shift_register(Unary::RotateRightThroughCarry, register),
            PrefixedOperation::RotateAtAddressInWordRegRightThroughCarry(pair) =>
                self.shift_memory(memory, ticker, Unary::RotateRightThroughCarry, pair),
            PrefixedOperation::ShiftRegLeftArithmetically(register) =>
                self.shift_register(Unary::ShiftLeftArithmetically, register),
            PrefixedOperation::ShiftAtAddressInWordRegLeftArithmetically(pair) =>
                self.shift_memory(memory, ticker, Unary::ShiftLeftArithmetically, pair),
            PrefixedOperation::ShiftRegRightArithmetically(register) =>
                self.shift_register(Unary::ShiftRightArithmetically, register),
            PrefixedOperation::ShiftAtAddressInWordRegRightArithmetically(pair) =>
                self.shift_memory(memory, ticker, Unary::ShiftRightArithmetically, pair),
            PrefixedOperation::SwapRegNibbles(register) =>
                self.shift_register(Unary::SwapNibbles, register),
            PrefixedOperation::SwapAtAddressInWordRegNibbles(pair) =>
                self.shift_memory(memory, ticker, Unary::SwapNibbles, pair),
            PrefixedOperation::ShiftRegRightLogically(register) =>
                self.shift_register(Unary::ShiftRightLogically, register),
            PrefixedOperation::ShiftAtAddressInWordRegRightLogically(pair) =>
                self.shift_memory(memory, ticker, Unary::ShiftRightLogically, pair),
            PrefixedOperation::TestForBitInReg(bit, register) => self.test_register(bit, register),
            PrefixedOperation::TestForBitInAtAddressInWordReg(bit, pair) =>
                self.test_memory(memory, ticker, bit, pair),
            PrefixedOperation::ClearBitInReg(bit, register) =>
                self.clear_bit_register(bit, register),
            PrefixedOperation::ClearBitInAtAddressInWordReg(bit, pair) =>
                self.clear_bit_memory(memory, ticker, bit, pair),
            PrefixedOperation::SetBitInReg(bit, register) => self.set_bit_register(bit, register),
            PrefixedOperation::SetBitInAtAddressInWordReg(bit, pair) =>
                self.set_bit_memory(memory, ticker, bit, pair),
        }
    }

    /// Fetches the byte behind the prefix and runs the instruction that it
    /// stands for.
    fn prefixed<T: OnMachineCycle>(&mut self, memory: &mut Memory, ticker: &mut T)
        requires
            old(ticker).inv(),
        ensures
            final(ticker).inv(),
            state(*final(self), *final(memory), *final(ticker)) == state(
                *old(self),
                *old(memory),
                *old(ticker),
            ).prefixed(),
            T::cycles(final(ticker).model()) == T::cycles(old(ticker).model()) + 1
                + decode_prefixed_spec(
                state(*old(self), *old(memory), *old(ticker)).operand(),
            ).extra_cycles(),
    {
        reveal(Machine::prefixed);
        let opcode = self.fetch_operand(memory, ticker);
        self.execute_prefixed(PrefixedOperation::decode(opcode), memory, ticker);
    }

    /// Runs the instruction `operation` of the family in which
    /// a register takes a byte.
    #[verifier::rlimit(50)]
    fn execute_load<T: OnMachineCycle>(
        &mut self,
        operation: Operation,
        memory: &mut Memory,
        ticker: &mut T,
    )
        requires
            old(ticker).inv(),
            operation.family_of() == Family::Load,
        ensures
            final(ticker).inv(),
            state(*final(self), *final(memory), *final(ticker)) == state(
                *old(self),
                *old(memory),
                *old(ticker),
            ).execute_load(operation),
            T::cycles(final(ticker).model()) == T::cycles(old(ticker).model())
                + state(*old(self), *old(memory), *old(ticker)).execute_cycles(operation),
    {
        match operation {
            Operation::LoadImmediateIntoReg(target) => self.load_immediate8(memory, ticker, target),
            Operation::LoadAtAddressInWordRegIntoReg(pair, target) =>
                self.load_register(memory, ticker, pair, target),
            Operation::LoadAtAddressInWordRegIntoRegAndIncrementWordReg(pair, target) =>
                self.load_register_and_step(memory, ticker, pair, target, 1i32),
            Operation::LoadAtAddressInWordRegIntoRegAndDecrementWordReg(pair, target) =>
                self.load_register_and_step(memory, ticker, pair, target, -1i32),
            Operation::LoadRegIntoReg(source, target) => self.copy_register(source, target),
            Operation::LoadImmediateIORegisterIntoReg(target) =>
                self.load_high_immediate(memory, ticker, target),
            Operation::LoadRegIORegisterIntoReg(index, target) =>
                self.load_high(memory, ticker, index, target),
            Operation::LoadAtImmediateAddressIntoReg(target) =>
                self.load_at_immediate(memory, ticker, target),
            _ => {},
        }
    }

    /// Runs the instruction `operation` of the family in which
    /// memory takes a byte.
    #[verifier::rlimit(50)]
    fn execute_store<T: OnMachineCycle>(
        &mut self,
        operation: Operation,
        memory: &mut Memory,
        ticker: &mut T,
    )
        requires
            old(ticker).inv(),
            operation.family_of() == Family::Store,
        ensures
            final(ticker).inv(),
            state(*final(self), *final(memory), *final(ticker)) == state(
                *old(self),
                *old(memory),
                *old(ticker),
            ).execute_store(operation),
            T::cycles(final(ticker).model()) == T::cycles(old(ticker).model())
                + state(*old(self), *old(memory), *old(ticker)).execute_cycles(operation),
    {
        match operation {
            Operation::LoadRegIntoAddressInWordReg(source, pair) =>
                self.store_register(memory, ticker, source, pair),
            Operation::LoadRegIntoAddressInWordRegAndIncrementWordReg(source, pair) =>
                self.store_register_and_step(memory, ticker, source, pair, 1i32),
            Operation::LoadRegIntoAddressInWordRegAndDecrementWordReg(source, pair) =>
                self.store_register_and_step(memory, ticker, source, pair, -1i32),
            Operation::LoadImmediateIntoAddressInWordReg(pair) =>
                self.store_immediate(memory, ticker, pair),
            Operation::LoadRegIntoImmediateIORegister(source) =>
                self.store_high_immediate(memory, ticker, source),
            Operation::LoadRegIntoRegIORegister(source, index) =>
                self.store_high(memory, ticker, source, index),
            Operation::LoadRegIntoImmediateAddress(source) =>
                self.store_at_immediate(memory, ticker, source),
            _ => {},
        }
    }

    /// Runs the instruction `operation` of the family in which
    /// a word moves between registers and memory.
    #[verifier::rlimit(50)]
    fn execute_move16<T: OnMachineCycle>(
        &mut self,
        operation: Operation,
        memory: &mut Memory,
        ticker: &mut T,
    )
        requires
            old(ticker).inv(),
            operation.family_of() == Family::Move16,
        ensures
            final(ticker).inv(),
            state(*final(self), *final(memory), *final(ticker)) == state(
                *old(self),
                *old(memory),
                *old(ticker),
            ).execute_move16(operation),
            T::cycles(final(ticker).model()) == T::cycles(old(ticker).model())
                + state(*old(self), *old(memory), *old(ticker)).execute_cycles(operation),
    {
        match operation {
            Operation::LoadImmediateIntoWordReg(target) =>
                self.load_immediate16(memory, ticker, target),
            Operation::LoadSPIntoImmediateAddress => self.store_stack_pointer(memory, ticker),
            Operation::PopStackIntoWordReg(pair) => self.pop_register(memory, ticker, pair),
            Operation::PushWordRegIntoStack(pair) => self.push_register(memory, ticker, pair),
            Operation::LoadSumOfWordRegAndSignedImmediateIntoWordReg(source, target) =>
                self.load_sum(memory, ticker, source, target),
            Operation::LoadWordRegIntoWordReg(source, target) =>
                self.copy_pair(memory, ticker, source, target),
            _ => {},
        }
    }

    /// Runs the instruction `operation` of the family in which
    /// the unit works on registers alone.
    #[verifier::rlimit(50)]
    fn execute_register<T: OnMachineCycle>(
        &mut self,
        operation: Operation,
        memory: &mut Memory,
        ticker: &mut T,
    )
        requires
            old(ticker).inv(),
            operation.family_of() == Family::Register,
        ensures
            final(ticker).inv(),
            state(*final(self), *final(memory), *final(ticker)) == state(
                *old(self),
                *old(memory),
                *old(ticker),
            ).execute_register(operation),
            T::cycles(final(ticker).model()) == T::cycles(old(ticker).model())
                + state(*old(self), *old(memory), *old(ticker)).execute_cycles(operation),
    {
        match operation {
            Operation::IncrementReg(register) => self.increment8(register),
            Operation::DecrementReg(register) => self.decrement8(register),
            Operation::RotateAccLeft => self.rotate_accumulator(Unary::RotateLeft),
            Operation::RotateAccRight => self.rotate_accumulator(Unary::RotateRight),
            Operation::RotateAccLeftThroughCarry =>
                self.rotate_accumulator(Unary::RotateLeftThroughCarry),
            Operation::RotateAccRightThroughCarry =>
                self.rotate_accumulator(Unary::RotateRightThroughCarry),
            Operation::DecimalAdjustAcc => self.decimal_adjust(),
            Operation::ComplementAcc => self.complement_accumulator(),
            Operation::SetCarry => self.set_carry(),
            Operation::ComplementCarry => self.complement_carry(),
            Operation::AddRegIntoReg(source, target) =>
                self.binary_register(Binary::Add, source, target),
            Operation::AddRegIntoRegWithCarry(source, target) =>
                self.binary_register(Binary::AddWithCarry, source, target),
            Operation::SubRegFromReg(source, target) =>
                self.binary_register(Binary::Sub, source, target),
            Operation::SubRegFromRegWithCarry(source, target) =>
                self.binary_register(Binary::SubWithCarry, source, target),
            Operation::AndRegIntoReg(source, target) =>
                self.binary_register(Binary::And, source, target),
            Operation::XorRegIntoReg(source, target) =>
                self.binary_register(Binary::Xor, source, target),
            Operation::OrRegIntoReg(source, target) =>
                self.binary_register(Binary::Or, source, target),
            Operation::CompareRegAndReg(source, target) =>
                self.binary_register(Binary::Compare, source, target),
            _ => {},
        }
    }

    /// Runs the instruction `operation` of the family in which
    /// the unit takes an operand from memory.
    #[verifier::rlimit(50)]
    fn execute_memory<T: OnMachineCycle>(
        &mut self,
        operation: Operation,
        memory: &mut Memory,
        ticker: &mut T,
    )
        requires
            old(ticker).inv(),
            operation.family_of() == Family::Memory,
        ensures
            final(ticker).inv(),
            state(*final(self), *final(memory), *final(ticker)) == state(
                *old(self),
                *old(memory),
                *old(ticker),
            ).execute_memory(operation),
            T::cycles(final(ticker).model()) == T::cycles(old(ticker).model())
                + state(*old(self), *old(memory), *old(ticker)).execute_cycles(operation),
    {
        match operation {
            Operation::IncrementAtAddressInWordReg(pair) =>
                self.increment_memory(memory, ticker, pair),
            Operation::DecrementAtAddressInWordReg(pair) =>
                self.decrement_memory(memory, ticker, pair),
            Operation::AddAtAddressInWordRegIntoReg(pair, target) =>
                self.binary_memory(memory, ticker, Binary::Add, pair, target),
            Operation::AddAtAddressInWordRegIntoRegWithCarry(pair, target) =>
                self.binary_memory(memory, ticker, Binary::AddWithCarry, pair, target),
            Operation::SubAtAddressInWordRegFromReg(pair, target) =>
                self.binary_memory(memory, ticker, Binary::Sub, pair, target),
            Operation::SubAtAddressInWordRegFromRegWithCarry(pair, target) =>
                self.binary_memory(memory, ticker, Binary::SubWithCarry, pair, target),
            Operation::AndAtAddressInWordRegIntoReg(pair, target) =>
                self.binary_memory(memory, ticker, Binary::And, pair, target),
            Operation::XorAtAddressInWordRegIntoReg(pair, target) =>
                self.binary_memory(memory, ticker, Binary::Xor, pair, target),
            Operation::OrAtAddressInWordRegIntoReg(pair, target) =>
                self.binary_memory(memory, ticker, Binary::Or, pair, target),
            Operation::CompareAtAddressInWordRegAndReg(pair, target) =>
                self.binary_memory(memory, ticker, Binary::Compare, pair, target),
            _ => {},
        }
    }

    /// Runs the instruction `operation` of the family in which
    /// the unit takes the byte behind the opcode.
    #[verifier::rlimit(50)]
    fn execute_immediate<T: OnMachineCycle>(
        &mut self,
        operation: Operation,
        memory: &mut Memory,
        ticker: &mut T,
    )
        requires
            old(ticker).inv(),
            operation.family_of() == Family::Immediate,
        ensures
            final(ticker).inv(),
            state(*final(self), *final(memory), *final(ticker)) == state(
                *old(self),
                *old(memory),
                *old(ticker),
            ).execute_immediate(operation),
            T::cycles(final(ticker).model()) == T::cycles(old(ticker).model())
                + state(*old(self), *old(memory), *old(ticker)).execute_cycles(operation),
    {
        match operation {
            Operation::AddImmediateIntoReg(target) =>
                self.binary_immediate(memory, ticker, Binary::Add, target),
            Operation::AddImmediateIntoRegWithCarry(target) =>
                self.binary_immediate(memory, ticker, Binary::AddWithCarry, target),
            Operation::SubImmediateFromReg(target) =>
                self.binary_immediate(memory, ticker, Binary::Sub, target),
            Operation::SubImmediateFromRegWithCarry(target) =>
                self.binary_immediate(memory, ticker, Binary::SubWithCarry, target),
            Operation::AndImmediateIntoReg(target) =>
                self.binary_immediate(memory, ticker, Binary::And, target),
            Operation::XorImmediateIntoReg(target) =>
                self.binary_immediate(memory, ticker, Binary::Xor, target),
            Operation::OrImmediateIntoReg(target) =>
                self.binary_immediate(memory, ticker, Binary::Or, target),
            Operation::CompareImmediateAndReg(target) =>
                self.binary_immediate(memory, ticker, Binary::Compare, target),
            _ => {},
        }
    }

    /// Runs the instruction `operation` of the family in which
    /// arithmetic on a register pair.
    #[verifier::rlimit(50)]
    fn execute_wide<T: OnMachineCycle>(
        &mut self,
        operation: Operation,
        memory: &mut Memory,
        ticker: &mut T,
    )
        requires
            old(ticker).inv(),
            operation.family_of() == Family::Wide,
        ensures
            final(ticker).inv(),
            state(*final(self), *final(memory), *final(ticker)) == state(
                *old(self),
                *old(memory),
                *old(ticker),
            ).execute_wide(operation),
            T::cycles(final(ticker).model()) == T::cycles(old(ticker).model())
                + state(*old(self), *old(memory), *old(ticker)).execute_cycles(operation),
    {
        match operation {
            Operation::IncrementWordReg(pair) => self.step16(memory, ticker, pair, 1i32),
            Operation::DecrementWordReg(pair) => self.step16(memory, ticker, pair, -1i32),
            Operation::AddWordRegIntoWordReg(source, target) =>
                self.add16(memory, ticker, source, target),
            Operation::AddSignedImmediateIntoWordReg(pair) =>
                self.add_signed_immediate(memory, ticker, pair),
            _ => {},
        }
    }

    /// Runs the instruction `operation` of the family in which
    /// a jump.
    #[verifier::rlimit(50)]
    fn execute_jump<T: OnMachineCycle>(
        &mut self,
        operation: Operation,
        memory: &mut Memory,
        ticker: &mut T,
    )
        requires
            old(ticker).inv(),
            operation.family_of() == Family::Jump,
        ensures
            final(ticker).inv(),
            state(*final(self), *final(memory), *final(ticker)) == state(
                *old(self),
                *old(memory),
                *old(ticker),
            ).execute_jump(operation),
            T::cycles(final(ticker).model()) == T::cycles(old(ticker).model())
                + state(*old(self), *old(memory), *old(ticker)).execute_cycles(operation),
    {
        match operation {
            Operation::RelativeJumpImmediateOffset => self.relative_jump(memory, ticker),
            Operation::ConditionalRelativeJumpImmediateOffset(flag) =>
                self.relative_jump_if(memory, ticker, flag, true),
            Operation::NegativeConditionalRelativeJumpImmediateOffset(flag) =>
                self.relative_jump_if(memory, ticker, flag, false),
            Operation::ConditionalJumpImmediateAddress(flag) =>
                self.jump_if(memory, ticker, flag, true),
            Operation::NegativeConditionalJumpImmediateAddress(flag) =>
                self.jump_if(memory, ticker, flag, false),
            Operation::JumpImmediateAddress => self.jump(memory, ticker),
            Operation::JumpToAddressInWordReg(pair) => self.jump_to_register(pair),
            _ => {},
        }
    }

    /// Runs the instruction `operation` of the family in which
    /// a call or a return.
    #[verifier::rlimit(50)]
    fn execute_call<T: OnMachineCycle>(
        &mut self,
        operation: Operation,
        memory: &mut Memory,
        ticker: &mut T,
    )
        requires
            old(ticker).inv(),
            operation.family_of() == Family::Call,
        ensures
            final(ticker).inv(),
            state(*final(self), *final(memory), *final(ticker)) == state(
                *old(self),
                *old(memory),
                *old(ticker),
            ).execute_call(operation),
            T::cycles(final(ticker).model()) == T::cycles(old(ticker).model())
                + state(*old(self), *old(memory), *old(ticker)).execute_cycles(operation),
    {
        match operation {
            Operation::ConditionalReturn(flag) => self.return_if(memory, ticker, flag, true),
            Operation::NegativeConditionalReturn(flag) =>
                self.return_if(memory, ticker, flag, false),
            Operation::ConditionalCallImmediateAddress(flag) =>
                self.call_if(memory, ticker, flag, true),
            Operation::NegativeConditionalCallImmediateAddress(flag) =>
                self.call_if(memory, ticker, flag, false),
            Operation::CallFixedAddress(address) => self.call_fixed(memory, ticker, address),
            Operation::Return => self.ret(memory, ticker),
            Operation::CallImmediateAddress => self.call(memory, ticker),
            Operation::ReturnAndEnableInterrupts => self.return_and_enable(memory, ticker),
            _ => {},
        }
    }

    /// Runs the instruction `operation` of the family in which
    /// the processor itself is steered.
    #[verifier::rlimit(50)]
    fn execute_control<T: OnMachineCycle>(
        &mut self,
        operation: Operation,
        memory: &mut Memory,
        ticker: &mut T,
    )
        requires
            old(ticker).inv(),
            operation.family_of() == Family::Control,
        ensures
            final(ticker).inv(),
            state(*final(self), *final(memory), *final(ticker)) == state(
                *old(self),
                *old(memory),
                *old(ticker),
            ).execute_control(operation),
            T::cycles(final(ticker).model()) == T::cycles(old(ticker).model())
                + state(*old(self), *old(memory), *old(ticker)).execute_cycles(operation),
    {
        match operation {
            Operation::Noop => {},
            Operation::Stop => {},
            Operation::Halt => self.halt(memory, ticker),
            Operation::Prefixed => self.prefixed(memory, ticker),
            Operation::DisableInterrupts => {
                self.master_interrupt_flag = MasterInterrupt::Off;
            },
            Operation::EnableInterrupts => {
                self.master_interrupt_flag = MasterInterrupt::TurningOn;
            },
            _ => {},
        }
    }

    /// Runs the instruction `operation`, whose opcode has been fetched: one
    /// machine cycle passes before each access to memory and for each step
    /// that the processor takes without one.
    pub fn execute<T: OnMachineCycle>(
        &mut self,
        operation: Operation,
        memory: &mut Memory,
        ticker: &mut T,
    )
        requires
            old(ticker).inv(),
        ensures
            final(ticker).inv(),
            state(*final(self), *final(memory), *final(ticker)) == state(
                *old(self),
                *old(memory),
                *old(ticker),
            ).execute(operation),
            T::cycles(final(ticker).model()) == T::cycles(old(ticker).model())
                + state(*old(self), *old(memory), *old(ticker)).execute_cycles(operation),
    {
        reveal(Machine::execute);
        match operation.family() {
            Family::Load => self.execute_load(operation, memory, ticker),
            Family::Store => self.execute_store(operation, memory, ticker),
            Family::Move16 => self.execute_move16(operation, memory, ticker),
            Family::Register => self.execute_register(operation, memory, ticker),
            Family::Memory => self.execute_memory(operation, memory, ticker),
            Family::Immediate => self.execute_immediate(operation, memory, ticker),
            Family::Wide => self.execute_wide(operation, memory, ticker),
            Family::Jump => self.execute_jump(operation, memory, ticker),
            Family::Call => self.execute_call(operation, memory, ticker),
            Family::Control => self.execute_control(operation, memory, ticker),
        }
    }
}

} // verus!
