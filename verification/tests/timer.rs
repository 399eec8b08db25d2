use abduction::gameboy::apu::Apu;
use abduction::gameboy::cpu::Cpu;
use abduction::gameboy::memory::registers::InvalidBits;
use abduction::gameboy::memory::Memory;
use abduction::gameboy::rom::Rom;
use abduction::gameboy::timer::{Tac, Timer};

fn memory() -> Memory {
    let mut rom = vec![0u8; 0x8000];
    rom[0x147] = 0;
    let mut memory = Memory::new(Rom::try_from_bytes(rom).unwrap(), vec![0u8; 256]);
    memory.write(0xFF0F, 0x00);
    memory.write(0xFF04, 0x00);
    memory.write(0xFF05, 0x00);
    memory.write(0xFF06, 0x00);
    memory.write(0xFF07, 0x00);
    memory
}

#[test]
fn timer_overflow_reloads_from_tma_and_requests_interrupt() {
    let mut memory = memory();
    let mut timer = Timer::new();
    memory.write(0xFF07, 0x05);
    memory.write(0xFF06, 0xAB);
    memory.write(0xFF05, 0xFF);
    for _ in 0..15 {
        timer.cycle(&mut memory);
        assert_eq!(memory.read(0xFF05), 0xFF);
        assert_eq!(memory.read(0xFF0F) & 0x04, 0);
    }
    timer.cycle(&mut memory);
    assert_eq!(memory.read(0xFF05), 0xAB);
    assert_eq!(memory.read(0xFF0F) & 0x04, 0x04);
}

#[test]
fn tima_counts_at_the_selected_rate() {
    for (select, period) in [(0u8, 1024u32), (1, 16), (2, 64), (3, 256)] {
        let mut memory = memory();
        let mut timer = Timer::new();
        memory.write(0xFF07, 0x04 | select);
        for dot in 1..=(period * 3) {
            timer.cycle(&mut memory);
            assert_eq!(memory.read(0xFF05) as u32, dot / period, "select {} dot {}", select, dot);
        }
        assert_eq!(memory.read(0xFF0F), 0x00);
    }
}

#[test]
fn tima_stands_still_when_disabled() {
    let mut memory = memory();
    let mut timer = Timer::new();
    memory.write(0xFF07, 0x01);
    for _ in 0..4096 {
        timer.cycle(&mut memory);
    }
    assert_eq!(memory.read(0xFF05), 0x00);
    assert_eq!(memory.read(0xFF04), 16);
}

#[test]
fn tac_reads_only_its_low_three_bits() {
    let mut memory = memory();
    let mut timer = Timer::new();
    memory.write(0xFF07, 0xFD);
    for _ in 0..16 {
        timer.cycle(&mut memory);
    }
    assert_eq!(memory.read(0xFF05), 0x01);
}

#[test]
fn div_counts_every_256_dots_and_wraps() {
    let mut memory = memory();
    let mut timer = Timer::new();
    for _ in 0..255 {
        timer.cycle(&mut memory);
    }
    assert_eq!(memory.read(0xFF04), 0);
    timer.cycle(&mut memory);
    assert_eq!(memory.read(0xFF04), 1);
    memory.write(0xFF04, 0xFF);
    for _ in 0..256 {
        timer.cycle(&mut memory);
    }
    assert_eq!(memory.read(0xFF04), 0x00);
}

#[test]
fn cpu_write_to_div_restarts_the_divider() {
    let mut memory = memory();
    let mut timer = Timer::new();
    for _ in 0..300 {
        timer.cycle(&mut memory);
    }
    assert_eq!(memory.read(0xFF04), 1);
    Cpu::mem_write(&mut memory, 0xFF04, 0x99);
    assert_eq!(memory.read(0xFF04), 0);
    for _ in 0..255 {
        timer.cycle(&mut memory);
        assert_eq!(memory.read(0xFF04), 0);
    }
    timer.cycle(&mut memory);
    assert_eq!(memory.read(0xFF04), 1);
}

#[test]
fn timer_parts_run_separately() {
    let mut memory = memory();
    let mut timer = Timer::new();
    memory.write(0xFF07, 0x05);
    for _ in 0..16 {
        timer.update_tima(&mut memory);
    }
    assert_eq!(memory.read(0xFF05), 1);
    assert_eq!(memory.read(0xFF04), 0);
    for _ in 0..256 {
        timer.update_div(&mut memory);
    }
    assert_eq!(memory.read(0xFF04), 1);
    assert_eq!(memory.read(0xFF05), 1);
}

#[test]
fn tac_decodes_enable_and_divider() {
    assert!(matches!(Tac::new(0x08), Err(InvalidBits)));
    assert!(matches!(Tac::new(0xFF), Err(InvalidBits)));
    let tac = Tac::new(0x00).unwrap();
    assert!(!tac.timer_enabled());
    assert_eq!(tac.tima_divider(), 1024);
    let tac = Tac::new(0x05).unwrap();
    assert!(tac.timer_enabled());
    assert_eq!(tac.tima_divider(), 16);
    assert_eq!(Tac::new(0x06).unwrap().tima_divider(), 64);
    assert_eq!(Tac::new(0x07).unwrap().tima_divider(), 256);
    assert!(!Tac::new(0x03).unwrap().timer_enabled());
}

#[test]
fn audio_unit_leaves_memory_alone() {
    let mut memory = memory();
    let mut apu = Apu::new();
    memory.write(0xFF10, 0x80);
    memory.write(0xFF26, 0x8F);
    for _ in 0..10 {
        apu.cycle(&mut memory);
    }
    assert_eq!(memory.read(0xFF10), 0x80);
    assert_eq!(memory.read(0xFF26), 0x8F);
}
