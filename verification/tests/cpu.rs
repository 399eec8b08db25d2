use abduction::gameboy::cpu::operation::{Operation, PrefixedOperation};
use abduction::gameboy::cpu::{
    ByteRegister, Cpu, CpuFlag, CycleCounter, MasterInterrupt, WordRegister,
};
use abduction::gameboy::memory::Memory;
use abduction::gameboy::rom::Rom;

struct Bench {
    cpu: Cpu,
    memory: Memory,
    counter: CycleCounter,
}

const START: u16 = 0xC000;
const STACK: u16 = 0xDFF0;

impl Bench {
    fn new(program: &[u8]) -> Bench {
        let mut rom = vec![0u8; 0x8000];
        for i in 0..0x8000usize {
            rom[i] = (i % 251) as u8;
        }
        rom[0x147] = 0;
        rom[0x148] = 0;
        rom[0x149] = 0;
        let mut memory = Memory::new(Rom::try_from_bytes(rom).unwrap(), vec![0u8; 256]);
        memory.write(0xFF50, 1);
        memory.write(0xFF0F, 0);
        memory.write(0xFFFF, 0);
        for (i, byte) in program.iter().enumerate() {
            memory.write(START + i as u16, *byte);
        }
        let mut cpu = Cpu::new();
        cpu.registers_mut().set_reg_16(WordRegister::PC, START);
        cpu.registers_mut().set_reg_16(WordRegister::SP, STACK);
        Bench { cpu, memory, counter: CycleCounter::new() }
    }

    fn step(&mut self) -> u64 {
        let before = self.counter.count();
        self.cpu.step(&mut self.memory, &mut self.counter);
        self.counter.count() - before
    }

    fn run(&mut self, steps: usize) -> u64 {
        let mut cycles = 0;
        for _ in 0..steps {
            cycles += self.step();
        }
        cycles
    }

    fn r8(&self, register: ByteRegister) -> u8 {
        self.cpu.registers().get_reg_8(register)
    }

    fn r16(&self, register: WordRegister) -> u16 {
        self.cpu.registers().get_reg_16(register)
    }

    fn set8(&mut self, register: ByteRegister, value: u8) {
        self.cpu.registers_mut().set_reg_8(register, value);
    }

    fn set16(&mut self, register: WordRegister, value: u16) {
        self.cpu.registers_mut().set_reg_16(register, value);
    }

    fn pc(&self) -> u16 {
        self.r16(WordRegister::PC)
    }

    fn f(&self) -> u8 {
        self.r8(ByteRegister::F)
    }
}

const UNTAKEN: [u8; 256] = [
    1, 3, 2, 2, 1, 1, 2, 1, 5, 2, 2, 2, 1, 1, 2, 1, //
    1, 3, 2, 2, 1, 1, 2, 1, 3, 2, 2, 2, 1, 1, 2, 1, //
    2, 3, 2, 2, 1, 1, 2, 1, 2, 2, 2, 2, 1, 1, 2, 1, //
    2, 3, 2, 2, 3, 3, 3, 1, 2, 2, 2, 2, 1, 1, 2, 1, //
    1, 1, 1, 1, 1, 1, 2, 1, 1, 1, 1, 1, 1, 1, 2, 1, //
    1, 1, 1, 1, 1, 1, 2, 1, 1, 1, 1, 1, 1, 1, 2, 1, //
    1, 1, 1, 1, 1, 1, 2, 1, 1, 1, 1, 1, 1, 1, 2, 1, //
    2, 2, 2, 2, 2, 2, 1, 2, 1, 1, 1, 1, 1, 1, 2, 1, //
    1, 1, 1, 1, 1, 1, 2, 1, 1, 1, 1, 1, 1, 1, 2, 1, //
    1, 1, 1, 1, 1, 1, 2, 1, 1, 1, 1, 1, 1, 1, 2, 1, //
    1, 1, 1, 1, 1, 1, 2, 1, 1, 1, 1, 1, 1, 1, 2, 1, //
    1, 1, 1, 1, 1, 1, 2, 1, 1, 1, 1, 1, 1, 1, 2, 1, //
    2, 3, 3, 4, 3, 4, 2, 4, 2, 4, 3, 2, 3, 6, 2, 4, //
    2, 3, 3, 0, 3, 4, 2, 4, 2, 4, 3, 0, 3, 0, 2, 4, //
    3, 3, 2, 0, 0, 4, 2, 4, 4, 1, 4, 0, 0, 0, 2, 4, //
    3, 3, 2, 1, 0, 4, 2, 4, 3, 2, 4, 1, 0, 0, 2, 4,
];

const LENGTH: [u8; 256] = [
    1, 3, 1, 1, 1, 1, 2, 1, 3, 1, 1, 1, 1, 1, 2, 1, //
    1, 3, 1, 1, 1, 1, 2, 1, 2, 1, 1, 1, 1, 1, 2, 1, //
    2, 3, 1, 1, 1, 1, 2, 1, 2, 1, 1, 1, 1, 1, 2, 1, //
    2, 3, 1, 1, 1, 1, 2, 1, 2, 1, 1, 1, 1, 1, 2, 1, //
    1, 1, 1, 1, 1, 1, 1, 1, 1, 1, 1, 1, 1, 1, 1, 1, //
    1, 1, 1, 1, 1, 1, 1, 1, 1, 1, 1, 1, 1, 1, 1, 1, //
    1, 1, 1, 1, 1, 1, 1, 1, 1, 1, 1, 1, 1, 1, 1, 1, //
    1, 1, 1, 1, 1, 1, 1, 1, 1, 1, 1, 1, 1, 1, 1, 1, //
    1, 1, 1, 1, 1, 1, 1, 1, 1, 1, 1, 1, 1, 1, 1, 1, //
    1, 1, 1, 1, 1, 1, 1, 1, 1, 1, 1, 1, 1, 1, 1, 1, //
    1, 1, 1, 1, 1, 1, 1, 1, 1, 1, 1, 1, 1, 1, 1, 1, //
    1, 1, 1, 1, 1, 1, 1, 1, 1, 1, 1, 1, 1, 1, 1, 1, //
    1, 1, 3, 3, 3, 1, 2, 1, 1, 1, 3, 2, 3, 3, 2, 1, //
    1, 1, 3, 0, 3, 1, 2, 1, 1, 1, 3, 0, 3, 0, 2, 1, //
    2, 1, 1, 0, 0, 1, 2, 1, 2, 1, 3, 0, 0, 0, 2, 1, //
    2, 1, 1, 1, 0, 1, 2, 1, 2, 1, 3, 1, 0, 0, 2, 1,
];

fn extra_when_taken(opcode: u8) -> u8 {
    match opcode {
        0x20 | 0x28 | 0x30 | 0x38 => 1,
        0xC0 | 0xC8 | 0xD0 | 0xD8 => 3,
        0xC2 | 0xCA | 0xD2 | 0xDA => 1,
        0xC4 | 0xCC | 0xD4 | 0xDC => 3,
        _ => 0,
    }
}

fn is_jump(opcode: u8) -> bool {
    matches!(opcode, 0x18 | 0xC3 | 0xE9 | 0xCD | 0xC9 | 0xD9)
        || opcode & 0xC7 == 0xC7
        || extra_when_taken(opcode) != 0
}

fn flags_for(opcode: u8, taken: bool) -> u8 {
    let condition = (opcode >> 3) & 3;
    let flag = if condition < 2 { 0x80 } else { 0x10 };
    let wants_set = condition & 1 == 1;
    if taken == wants_set {
        flag
    } else {
        0
    }
}

#[test]
fn every_opcode_takes_its_official_cycles_and_length() {
    for opcode in 0..=255u8 {
        if UNTAKEN[opcode as usize] == 0 {
            continue;
        }
        for taken in [false, true] {
            let mut bench = Bench::new(&[opcode, 0x00, 0xD0]);
            bench.set8(ByteRegister::F, flags_for(opcode, taken));
            bench.memory.write(STACK, 0x34);
            bench.memory.write(STACK + 1, 0x12);
            let cycles = bench.step();
            let conditional = extra_when_taken(opcode) != 0;
            let expected = UNTAKEN[opcode as usize]
                + if taken || !conditional { extra_when_taken(opcode) } else { 0 };
            let expected = if conditional && !taken { UNTAKEN[opcode as usize] } else { expected };
            assert_eq!(cycles, expected as u64, "opcode {:#04x} taken {}", opcode, taken);
            if !is_jump(opcode) || (conditional && !taken) {
                assert_eq!(
                    bench.pc(),
                    START + LENGTH[opcode as usize] as u16,
                    "opcode {:#04x}",
                    opcode
                );
            }
        }
    }
}

#[test]
fn every_prefixed_opcode_takes_its_official_cycles() {
    for opcode in 0..=255u8 {
        let mut bench = Bench::new(&[0xCB, opcode]);
        bench.set16(WordRegister::HL, 0xD000);
        let cycles = bench.step();
        let expected = if opcode & 7 != 6 {
            2
        } else if (0x40..0x80).contains(&opcode) {
            3
        } else {
            4
        };
        assert_eq!(cycles, expected, "prefixed opcode {:#04x}", opcode);
        assert_eq!(bench.pc(), START + 2);
    }
}

#[test]
fn undefined_opcodes_do_nothing() {
    for opcode in [0xD3u8, 0xDB, 0xDD, 0xE3, 0xE4, 0xEB, 0xEC, 0xED, 0xF4, 0xFC, 0xFD] {
        assert_eq!(Operation::decode(opcode), Operation::Noop);
        let mut bench = Bench::new(&[opcode]);
        assert_eq!(bench.step(), 1);
        assert_eq!(bench.pc(), START + 1);
        assert_eq!(bench.r16(WordRegister::SP), STACK);
    }
}

#[test]
fn decoding_gives_the_known_instructions() {
    assert_eq!(Operation::decode(0x00), Operation::Noop);
    assert_eq!(Operation::from(0x01), Operation::LoadImmediateIntoWordReg(WordRegister::BC));
    assert_eq!(
        Operation::decode(0x02),
        Operation::LoadRegIntoAddressInWordReg(ByteRegister::A, WordRegister::BC)
    );
    assert_eq!(Operation::decode(0x08), Operation::LoadSPIntoImmediateAddress);
    assert_eq!(
        Operation::decode(0x09),
        Operation::AddWordRegIntoWordReg(WordRegister::BC, WordRegister::HL)
    );
    assert_eq!(
        Operation::decode(0x1A),
        Operation::LoadAtAddressInWordRegIntoReg(WordRegister::DE, ByteRegister::A)
    );
    assert_eq!(
        Operation::decode(0x20),
        Operation::NegativeConditionalRelativeJumpImmediateOffset(CpuFlag::Zero)
    );
    assert_eq!(
        Operation::decode(0x38),
        Operation::ConditionalRelativeJumpImmediateOffset(CpuFlag::Carry)
    );
    assert_eq!(
        Operation::decode(0x22),
        Operation::LoadRegIntoAddressInWordRegAndIncrementWordReg(
            ByteRegister::A,
            WordRegister::HL
        )
    );
    assert_eq!(
        Operation::decode(0x3A),
        Operation::LoadAtAddressInWordRegIntoRegAndDecrementWordReg(
            WordRegister::HL,
            ByteRegister::A
        )
    );
    assert_eq!(Operation::decode(0x27), Operation::DecimalAdjustAcc);
    assert_eq!(Operation::decode(0x36), Operation::LoadImmediateIntoAddressInWordReg(WordRegister::HL));
    assert_eq!(Operation::decode(0x41), Operation::LoadRegIntoReg(ByteRegister::C, ByteRegister::B));
    assert_eq!(
        Operation::decode(0x46),
        Operation::LoadAtAddressInWordRegIntoReg(WordRegister::HL, ByteRegister::B)
    );
    assert_eq!(
        Operation::decode(0x70),
        Operation::LoadRegIntoAddressInWordReg(ByteRegister::B, WordRegister::HL)
    );
    assert_eq!(Operation::decode(0x76), Operation::Halt);
    assert_eq!(Operation::decode(0x7F), Operation::LoadRegIntoReg(ByteRegister::A, ByteRegister::A));
    assert_eq!(Operation::decode(0x80), Operation::AddRegIntoReg(ByteRegister::B, ByteRegister::A));
    assert_eq!(
        Operation::decode(0x8E),
        Operation::AddAtAddressInWordRegIntoRegWithCarry(WordRegister::HL, ByteRegister::A)
    );
    assert_eq!(Operation::decode(0x95), Operation::SubRegFromReg(ByteRegister::L, ByteRegister::A));
    assert_eq!(Operation::decode(0xAF), Operation::XorRegIntoReg(ByteRegister::A, ByteRegister::A));
    assert_eq!(Operation::decode(0xBE), Operation::CompareAtAddressInWordRegAndReg(WordRegister::HL, ByteRegister::A));
    assert_eq!(Operation::decode(0xC0), Operation::NegativeConditionalReturn(CpuFlag::Zero));
    assert_eq!(Operation::decode(0xC1), Operation::PopStackIntoWordReg(WordRegister::BC));
    assert_eq!(Operation::decode(0xF1), Operation::PopStackIntoWordReg(WordRegister::AF));
    assert_eq!(Operation::decode(0xF5), Operation::PushWordRegIntoStack(WordRegister::AF));
    assert_eq!(Operation::decode(0xC3), Operation::JumpImmediateAddress);
    assert_eq!(Operation::decode(0xCB), Operation::Prefixed);
    assert_eq!(Operation::decode(0xCD), Operation::CallImmediateAddress);
    assert_eq!(Operation::decode(0xD9), Operation::ReturnAndEnableInterrupts);
    assert_eq!(Operation::decode(0xDC), Operation::ConditionalCallImmediateAddress(CpuFlag::Carry));
    assert_eq!(Operation::decode(0xE0), Operation::LoadRegIntoImmediateIORegister(ByteRegister::A));
    assert_eq!(Operation::decode(0xE2), Operation::LoadRegIntoRegIORegister(ByteRegister::A, ByteRegister::C));
    assert_eq!(Operation::decode(0xE8), Operation::AddSignedImmediateIntoWordReg(WordRegister::SP));
    assert_eq!(Operation::decode(0xE9), Operation::JumpToAddressInWordReg(WordRegister::HL));
    assert_eq!(Operation::decode(0xEF), Operation::CallFixedAddress(0x28));
    assert_eq!(Operation::decode(0xF3), Operation::DisableInterrupts);
    assert_eq!(
        Operation::decode(0xF8),
        Operation::LoadSumOfWordRegAndSignedImmediateIntoWordReg(WordRegister::SP, WordRegister::HL)
    );
    assert_eq!(Operation::decode(0xF9), Operation::LoadWordRegIntoWordReg(WordRegister::HL, WordRegister::SP));
    assert_eq!(Operation::decode(0xFB), Operation::EnableInterrupts);
    assert_eq!(Operation::decode(0xFE), Operation::CompareImmediateAndReg(ByteRegister::A));
    assert_eq!(PrefixedOperation::decode(0x00), PrefixedOperation::RotateRegLeft(ByteRegister::B));
    assert_eq!(PrefixedOperation::from(0x37), PrefixedOperation::SwapRegNibbles(ByteRegister::A));
    assert_eq!(
        PrefixedOperation::decode(0x3E),
        PrefixedOperation::ShiftAtAddressInWordRegRightLogically(WordRegister::HL)
    );
    assert_eq!(PrefixedOperation::decode(0x7C), PrefixedOperation::TestForBitInReg(7, ByteRegister::H));
    assert_eq!(
        PrefixedOperation::decode(0x86),
        PrefixedOperation::ClearBitInAtAddressInWordReg(0, WordRegister::HL)
    );
    assert_eq!(PrefixedOperation::decode(0xFF), PrefixedOperation::SetBitInReg(7, ByteRegister::A));
}

#[test]
fn cpu_starts_with_interrupts_off() {
    let cpu = Cpu::new();
    assert!(cpu.master_interrupt_flag() == MasterInterrupt::Off);
    assert!(!cpu.halted());
    assert_eq!(cpu.registers().get_reg_16(WordRegister::SP), 0xFFFE);
    assert_eq!(cpu.registers().get_reg_16(WordRegister::PC), 0x0000);
}

#[test]
fn fetch_reads_at_pc_and_wraps() {
    let mut bench = Bench::new(&[0x12, 0x34]);
    assert_eq!(bench.cpu.fetch(&bench.memory), 0x12);
    assert_eq!(bench.cpu.fetch(&bench.memory), 0x34);
    assert_eq!(bench.pc(), START + 2);
    bench.set16(WordRegister::PC, 0xFFFF);
    bench.memory.write(0xFFFF, 0x56);
    assert_eq!(bench.cpu.fetch(&bench.memory), 0x56);
    assert_eq!(bench.pc(), 0x0000);
}

#[test]
fn loads_move_bytes_and_words() {
    // LD BC,0x1234; LD A,0x56; LD (BC),A -> rom, ignored; LD HL,0xD000; LD (HL),A; LD B,(HL); LD (HL+),A; LD A,(HL-)
    let mut bench = Bench::new(&[
        0x01, 0x34, 0x12, 0x3E, 0x56, 0x21, 0x00, 0xD0, 0x77, 0x46, 0x22, 0x3A,
    ]);
    bench.run(2);
    assert_eq!(bench.r16(WordRegister::BC), 0x1234);
    assert_eq!(bench.r8(ByteRegister::A), 0x56);
    bench.run(2);
    assert_eq!(bench.memory.read(0xD000), 0x56);
    bench.step();
    assert_eq!(bench.r8(ByteRegister::B), 0x56);
    bench.memory.write(0xD001, 0x99);
    bench.step();
    assert_eq!(bench.r16(WordRegister::HL), 0xD001);
    bench.step();
    assert_eq!(bench.r8(ByteRegister::A), 0x99);
    assert_eq!(bench.r16(WordRegister::HL), 0xD000);
}

#[test]
fn add_hl_uses_carry_from_bit_eleven() {
    let mut bench = Bench::new(&[0x09]);
    bench.set16(WordRegister::HL, 0x0FFF);
    bench.set16(WordRegister::BC, 0x0001);
    bench.set8(ByteRegister::F, 0x80);
    bench.step();
    assert_eq!(bench.r16(WordRegister::HL), 0x1000);
    assert_eq!(bench.f(), 0xA0);
    let mut bench = Bench::new(&[0x29]);
    bench.set16(WordRegister::HL, 0x8FFF);
    bench.step();
    assert_eq!(bench.r16(WordRegister::HL), 0x1FFE);
    assert_eq!(bench.f(), 0x30);
}

#[test]
fn arithmetic_on_memory_and_immediates() {
    // ADD A,(HL); SUB 0x10; CP 0x32; INC (HL); DEC (HL)
    let mut bench = Bench::new(&[0x86, 0xD6, 0x10, 0xFE, 0x32, 0x34, 0x35]);
    bench.set16(WordRegister::HL, 0xD000);
    bench.memory.write(0xD000, 0x3F);
    bench.set8(ByteRegister::A, 0x03);
    bench.step();
    assert_eq!(bench.r8(ByteRegister::A), 0x42);
    assert_eq!(bench.f(), 0x20);
    bench.step();
    assert_eq!(bench.r8(ByteRegister::A), 0x32);
    assert_eq!(bench.f(), 0x40);
    bench.step();
    assert_eq!(bench.r8(ByteRegister::A), 0x32);
    assert_eq!(bench.f(), 0xC0);
    bench.step();
    assert_eq!(bench.memory.read(0xD000), 0x40);
    assert_eq!(bench.f(), 0x20);
    bench.step();
    assert_eq!(bench.memory.read(0xD000), 0x3F);
    assert_eq!(bench.f(), 0x60);
}

#[test]
fn relative_jumps_go_both_ways() {
    let mut bench = Bench::new(&[0x18, 0x05]);
    assert_eq!(bench.step(), 3);
    assert_eq!(bench.pc(), START + 7);
    let mut bench = Bench::new(&[0x18, 0xFE]);
    bench.step();
    assert_eq!(bench.pc(), START);
    let mut bench = Bench::new(&[0x20, 0x80]);
    bench.set8(ByteRegister::F, 0x00);
    assert_eq!(bench.step(), 3);
    assert_eq!(bench.pc(), START + 2 - 128);
    let mut bench = Bench::new(&[0x20, 0x80]);
    bench.set8(ByteRegister::F, 0x80);
    assert_eq!(bench.step(), 2);
    assert_eq!(bench.pc(), START + 2);
}

#[test]
fn call_and_return_use_the_stack() {
    // CALL 0xC010 ... at 0xC010: RET
    let mut program = vec![0u8; 0x20];
    program[0] = 0xCD;
    program[1] = 0x10;
    program[2] = 0xC0;
    program[0x10] = 0xC9;
    let mut bench = Bench::new(&program);
    assert_eq!(bench.step(), 6);
    assert_eq!(bench.pc(), 0xC010);
    assert_eq!(bench.r16(WordRegister::SP), STACK - 2);
    assert_eq!(bench.memory.read(STACK - 1), 0xC0);
    assert_eq!(bench.memory.read(STACK - 2), 0x03);
    assert_eq!(bench.step(), 4);
    assert_eq!(bench.pc(), 0xC003);
    assert_eq!(bench.r16(WordRegister::SP), STACK);
}

#[test]
fn restart_calls_its_fixed_address() {
    for (opcode, target) in [(0xC7u8, 0x00u16), (0xCF, 0x08), (0xD7, 0x10), (0xFF, 0x38)] {
        let mut bench = Bench::new(&[opcode]);
        assert_eq!(bench.step(), 4);
        assert_eq!(bench.pc(), target);
        assert_eq!(bench.memory.read(STACK - 1), 0xC0);
        assert_eq!(bench.memory.read(STACK - 2), 0x01);
    }
}

#[test]
fn jump_to_hl_and_absolute_jumps() {
    let mut bench = Bench::new(&[0xE9]);
    bench.set16(WordRegister::HL, 0x1234);
    assert_eq!(bench.step(), 1);
    assert_eq!(bench.pc(), 0x1234);
    let mut bench = Bench::new(&[0xC3, 0x78, 0x56]);
    assert_eq!(bench.step(), 4);
    assert_eq!(bench.pc(), 0x5678);
    let mut bench = Bench::new(&[0xDA, 0x78, 0x56]);
    bench.set8(ByteRegister::F, 0x10);
    assert_eq!(bench.step(), 4);
    assert_eq!(bench.pc(), 0x5678);
    let mut bench = Bench::new(&[0xDA, 0x78, 0x56]);
    assert_eq!(bench.step(), 3);
    assert_eq!(bench.pc(), START + 3);
}

#[test]
fn push_then_pop_gives_the_register_back() {
    let pairs = [
        (0xC5u8, 0xC1u8, WordRegister::BC),
        (0xD5, 0xD1, WordRegister::DE),
        (0xE5, 0xE1, WordRegister::HL),
        (0xF5, 0xF1, WordRegister::AF),
    ];
    for (push, pop, pair) in pairs {
        for value in [0x0000u16, 0x1234, 0xFFFF, 0xA5F0, 0x80FF] {
            let mut bench = Bench::new(&[push, pop]);
            bench.set16(pair, value);
            let before = bench.r16(pair);
            assert_eq!(bench.step(), 4);
            assert_eq!(bench.r16(WordRegister::SP), STACK - 2);
            bench.set16(pair, 0x5A5A);
            assert_eq!(bench.step(), 3);
            assert_eq!(bench.r16(pair), before);
            assert_eq!(bench.r16(WordRegister::SP), STACK);
            if pair == WordRegister::AF {
                assert_eq!(before, value & 0xFFF0);
            } else {
                assert_eq!(before, value);
            }
        }
    }
}

#[test]
fn pop_af_keeps_only_the_flags_of_f() {
    let mut bench = Bench::new(&[0xF1]);
    bench.memory.write(STACK, 0xFF);
    bench.memory.write(STACK + 1, 0x12);
    bench.step();
    assert_eq!(bench.r16(WordRegister::AF), 0x12F0);
}

#[test]
fn stack_pointer_arithmetic() {
    let mut bench = Bench::new(&[0xE8, 0xFE, 0xF8, 0x02, 0xF9, 0x08, 0x00, 0xD0]);
    bench.set16(WordRegister::SP, 0xD001);
    bench.set8(ByteRegister::F, 0xF0);
    assert_eq!(bench.step(), 4);
    assert_eq!(bench.r16(WordRegister::SP), 0xCFFF);
    assert_eq!(bench.f(), 0x00);
    assert_eq!(bench.step(), 3);
    assert_eq!(bench.r16(WordRegister::HL), 0xD001);
    assert_eq!(bench.f(), 0x30);
    bench.set16(WordRegister::HL, 0xD123);
    assert_eq!(bench.step(), 2);
    assert_eq!(bench.r16(WordRegister::SP), 0xD123);
    assert_eq!(bench.step(), 5);
    assert_eq!(bench.memory.read(0xD000), 0x23);
    assert_eq!(bench.memory.read(0xD001), 0xD1);
}

#[test]
fn prefixed_operations_on_registers_and_memory() {
    // SWAP A; BIT 7,H; RES 0,(HL); SET 7,(HL); RL C; SRA (HL)
    let mut bench = Bench::new(&[
        0xCB, 0x37, 0xCB, 0x7C, 0xCB, 0x86, 0xCB, 0xFE, 0xCB, 0x11, 0xCB, 0x2E,
    ]);
    bench.set8(ByteRegister::A, 0x1F);
    bench.set16(WordRegister::HL, 0xD000);
    bench.memory.write(0xD000, 0x03);
    bench.step();
    assert_eq!(bench.r8(ByteRegister::A), 0xF1);
    assert_eq!(bench.f(), 0x00);
    bench.set8(ByteRegister::F, 0x10);
    bench.step();
    assert_eq!(bench.f(), 0x30);
    bench.step();
    assert_eq!(bench.memory.read(0xD000), 0x02);
    bench.step();
    assert_eq!(bench.memory.read(0xD000), 0x82);
    bench.set8(ByteRegister::C, 0x80);
    bench.step();
    assert_eq!(bench.r8(ByteRegister::C), 0x01);
    assert_eq!(bench.f(), 0x10);
    bench.step();
    assert_eq!(bench.memory.read(0xD000), 0xC1);
    assert_eq!(bench.f(), 0x00);
}

#[test]
fn accumulator_rotations_clear_zero() {
    let mut bench = Bench::new(&[0x07, 0x17, 0x0F, 0x1F]);
    bench.set8(ByteRegister::A, 0x80);
    bench.set8(ByteRegister::F, 0x80);
    bench.step();
    assert_eq!((bench.r8(ByteRegister::A), bench.f()), (0x01, 0x10));
    bench.step();
    assert_eq!((bench.r8(ByteRegister::A), bench.f()), (0x03, 0x00));
    bench.step();
    assert_eq!((bench.r8(ByteRegister::A), bench.f()), (0x81, 0x10));
    bench.step();
    assert_eq!((bench.r8(ByteRegister::A), bench.f()), (0xC0, 0x10));
    let mut bench = Bench::new(&[0x17]);
    bench.set8(ByteRegister::A, 0x00);
    bench.step();
    assert_eq!((bench.r8(ByteRegister::A), bench.f()), (0x00, 0x00));
}

#[test]
fn flag_instructions() {
    let mut bench = Bench::new(&[0x37, 0x3F, 0x3F, 0x2F]);
    bench.set8(ByteRegister::F, 0xE0);
    bench.step();
    assert_eq!(bench.f(), 0x90);
    bench.step();
    assert_eq!(bench.f(), 0x80);
    bench.step();
    assert_eq!(bench.f(), 0x90);
    bench.set8(ByteRegister::A, 0x35);
    bench.step();
    assert_eq!(bench.r8(ByteRegister::A), 0xCA);
    assert_eq!(bench.f(), 0xF0);
}

#[test]
fn high_page_loads_and_stores() {
    // LDH (0x80),A; LD (C),A; LDH A,(0x81); LD A,(C)
    let mut bench = Bench::new(&[0xE0, 0x80, 0xE2, 0xF0, 0x81, 0xF2]);
    bench.set8(ByteRegister::A, 0x42);
    bench.set8(ByteRegister::C, 0x81);
    bench.step();
    assert_eq!(bench.memory.read(0xFF80), 0x42);
    bench.set8(ByteRegister::A, 0x43);
    bench.step();
    assert_eq!(bench.memory.read(0xFF81), 0x43);
    bench.set8(ByteRegister::A, 0x00);
    bench.step();
    assert_eq!(bench.r8(ByteRegister::A), 0x43);
    bench.memory.write(0xFF81, 0x44);
    bench.step();
    assert_eq!(bench.r8(ByteRegister::A), 0x44);
}

#[test]
fn cpu_writes_to_ppu_and_timer_registers_are_filtered() {
    let mut memory = Bench::new(&[]).memory;
    memory.write(0xFF44, 0x55);
    Cpu::mem_write(&mut memory, 0xFF44, 0x12);
    assert_eq!(memory.read(0xFF44), 0x55);
    memory.write(0xFF04, 0x77);
    Cpu::mem_write(&mut memory, 0xFF04, 0x12);
    assert_eq!(memory.read(0xFF04), 0x00);
    assert!(memory.take_divider_reset());
    memory.write(0xFF41, 0b1000_0101);
    Cpu::mem_write(&mut memory, 0xFF41, 0b0111_1010);
    assert_eq!(memory.read(0xFF41), 0b0111_1101);
    Cpu::mem_write(&mut memory, 0xC000, 0x99);
    assert_eq!(Cpu::mem_read(&memory, 0xC000), 0x99);
}

#[test]
fn enabling_interrupts_takes_effect_after_the_next_instruction() {
    // DI; EI; NOP; NOP
    let mut bench = Bench::new(&[0xF3, 0xFB, 0x00, 0x00]);
    bench.step();
    assert!(bench.cpu.master_interrupt_flag() == MasterInterrupt::Off);
    bench.step();
    assert!(bench.cpu.master_interrupt_flag() == MasterInterrupt::TurningOn);
    bench.step();
    assert!(bench.cpu.master_interrupt_flag() == MasterInterrupt::On);
    bench.step();
    assert!(bench.cpu.master_interrupt_flag() == MasterInterrupt::On);
    assert_eq!(bench.pc(), START + 4);
}

#[test]
fn disabling_right_after_enabling_keeps_interrupts_off() {
    let mut bench = Bench::new(&[0xFB, 0xF3, 0x00]);
    bench.run(3);
    assert!(bench.cpu.master_interrupt_flag() == MasterInterrupt::Off);
}

#[test]
fn pending_interrupt_is_not_taken_in_the_delay_of_ei() {
    let mut bench = Bench::new(&[0xFB, 0x3C, 0x3C]);
    bench.memory.write(0xFFFF, 0x01);
    bench.memory.write(0xFF0F, 0x01);
    bench.step();
    bench.step();
    assert_eq!(bench.r8(ByteRegister::A), 1);
    assert_eq!(bench.pc(), START + 2);
    assert_eq!(bench.step(), 5);
    assert_eq!(bench.pc(), 0x0040);
    assert_eq!(bench.r8(ByteRegister::A), 1);
}

#[test]
fn return_from_interrupt_enables_at_once() {
    let mut bench = Bench::new(&[0xD9]);
    bench.memory.write(STACK, 0x00);
    bench.memory.write(STACK + 1, 0xC1);
    assert_eq!(bench.step(), 4);
    assert!(bench.cpu.master_interrupt_flag() == MasterInterrupt::On);
    assert_eq!(bench.pc(), 0xC100);
    assert_eq!(bench.r16(WordRegister::SP), STACK + 2);
}

fn with_interrupts_on(program: &[u8]) -> Bench {
    let mut full = vec![0xFB, 0x00];
    full.extend_from_slice(program);
    let mut bench = Bench::new(&full);
    bench.run(2);
    assert!(bench.cpu.master_interrupt_flag() == MasterInterrupt::On);
    bench
}

#[test]
fn interrupt_service_pushes_pc_and_jumps_to_the_vector() {
    let mut bench = with_interrupts_on(&[0x3C]);
    bench.memory.write(0xFFFF, 0x04);
    bench.memory.write(0xFF0F, 0xE4);
    assert_eq!(bench.step(), 5);
    assert_eq!(bench.pc(), 0x0050);
    assert_eq!(bench.r16(WordRegister::SP), STACK - 2);
    assert_eq!(bench.memory.read(STACK - 1), 0xC0);
    assert_eq!(bench.memory.read(STACK - 2), 0x02);
    assert_eq!(bench.memory.read(0xFF0F), 0xE0);
    assert!(bench.cpu.master_interrupt_flag() == MasterInterrupt::Off);
    assert_eq!(bench.r8(ByteRegister::A), 0);
}

#[test]
fn interrupts_are_taken_in_order_of_priority() {
    let vectors = [0x40u16, 0x48, 0x50, 0x58, 0x60];
    for lowest in 0..5usize {
        let mut bench = with_interrupts_on(&[0x00]);
        let pending = (0x1Fu8 << lowest) & 0x1F;
        bench.memory.write(0xFFFF, 0x1F);
        bench.memory.write(0xFF0F, pending);
        bench.step();
        assert_eq!(bench.pc(), vectors[lowest]);
        assert_eq!(bench.memory.read(0xFF0F), pending & !(1 << lowest));
    }
}

#[test]
fn interrupts_need_both_enable_and_request() {
    let mut bench = with_interrupts_on(&[0x3C, 0x3C]);
    bench.memory.write(0xFFFF, 0x01);
    bench.memory.write(0xFF0F, 0x1E);
    assert_eq!(bench.step(), 1);
    assert_eq!(bench.r8(ByteRegister::A), 1);
    let mut memory = Bench::new(&[]).memory;
    let mut cpu = Cpu::new();
    let mut counter = CycleCounter::new();
    memory.write(0xFFFF, 0x00);
    memory.write(0xFF0F, 0x1F);
    assert!(!cpu.handle_interrupts(&mut memory, &mut counter));
    assert_eq!(counter.count(), 0);
    memory.write(0xFFFF, 0x10);
    assert!(cpu.handle_interrupts(&mut memory, &mut counter));
    assert_eq!(counter.count(), 4);
    assert_eq!(cpu.registers().get_reg_16(WordRegister::PC), 0x0060);
}

#[test]
fn halt_waits_for_an_interrupt() {
    let mut bench = with_interrupts_on(&[0x76, 0x3C]);
    assert_eq!(bench.step(), 1);
    assert!(bench.cpu.halted());
    for _ in 0..5 {
        assert_eq!(bench.step(), 1);
        assert_eq!(bench.pc(), START + 3);
    }
    bench.memory.write(0xFFFF, 0x02);
    bench.memory.write(0xFF0F, 0x02);
    assert_eq!(bench.step(), 5);
    assert!(!bench.cpu.halted());
    assert_eq!(bench.pc(), 0x0048);
    assert_eq!(bench.memory.read(STACK - 2), 0x03);
}

#[test]
fn halt_with_interrupts_off_wakes_without_service() {
    let mut bench = Bench::new(&[0x76, 0x3C]);
    bench.step();
    assert!(bench.cpu.halted());
    bench.step();
    assert_eq!(bench.r8(ByteRegister::A), 0);
    bench.memory.write(0xFFFF, 0x01);
    bench.memory.write(0xFF0F, 0x01);
    assert_eq!(bench.step(), 1);
    assert!(!bench.cpu.halted());
    assert_eq!(bench.r8(ByteRegister::A), 1);
    assert_eq!(bench.pc(), START + 2);
}

#[test]
fn halt_with_interrupts_off_and_one_pending_does_not_stop() {
    let mut bench = Bench::new(&[0x76, 0x3C]);
    bench.memory.write(0xFFFF, 0x01);
    bench.memory.write(0xFF0F, 0x01);
    bench.step();
    assert!(!bench.cpu.halted());
    bench.step();
    assert_eq!(bench.r8(ByteRegister::A), 1);
}

#[test]
fn executing_an_operation_directly() {
    let mut bench = Bench::new(&[0x05]);
    bench.set8(ByteRegister::D, 0x10);
    bench.cpu.execute(
        Operation::LoadRegIntoReg(ByteRegister::D, ByteRegister::E),
        &mut bench.memory,
        &mut bench.counter,
    );
    assert_eq!(bench.r8(ByteRegister::E), 0x10);
    assert_eq!(bench.counter.count(), 0);
    bench.cpu.execute(
        Operation::LoadImmediateIntoReg(ByteRegister::H),
        &mut bench.memory,
        &mut bench.counter,
    );
    assert_eq!(bench.r8(ByteRegister::H), 0x05);
    assert_eq!(bench.counter.count(), 1);
    bench.cpu.execute_prefixed(
        PrefixedOperation::SetBitInReg(3, ByteRegister::B),
        &mut bench.memory,
        &mut bench.counter,
    );
    assert_eq!(bench.r8(ByteRegister::B), 0x08);
}

#[test]
fn serial_output_of_a_program_reads_passed() {
    // For each letter: LD A,letter; LDH (0x01),A; LD A,0x81; LDH (0x02),A
    let text = b"Passed";
    let mut program = Vec::new();
    for letter in text {
        program.extend_from_slice(&[0x3E, *letter, 0xE0, 0x01, 0x3E, 0x81, 0xE0, 0x02]);
    }
    program.extend_from_slice(&[0x18, 0xFE]);
    let mut bench = Bench::new(&program);
    let mut output = String::new();
    for _ in 0..(text.len() * 4 + 4) {
        bench.step();
        if bench.memory.read(0xFF02) == 0x81 {
            output.push(bench.memory.read(0xFF01) as char);
            bench.memory.write(0xFF02, 0x01);
        }
    }
    assert!(output.ends_with("Passed"), "{}", output);
    assert_eq!(output, "Passed");
}
