use abduction::gameboy::cpu::{MasterInterrupt, OnMachineCycle, WordRegister};
use abduction::gameboy::memory::Memory;
use abduction::gameboy::rom::{Rom, RomError};
use abduction::gameboy::{Gameboy, Joypad, JoypadButton, Peripherals};

fn rom() -> Vec<u8> {
    let mut rom = vec![0u8; 0x8000];
    rom[0x100] = 0x18;
    rom[0x101] = 0xFE;
    rom[0x147] = 0x00;
    rom
}

fn boot(program: &[u8]) -> Vec<u8> {
    let mut boot = vec![0u8; 256];
    boot[..program.len()].copy_from_slice(program);
    boot
}

#[test]
fn construction_fails_with_the_error_of_the_rom() {
    assert!(matches!(Gameboy::new(vec![0u8; 16], boot(&[])), Err(RomError::TooSmall)));
    let mut unsupported = rom();
    unsupported[0x147] = 0x19;
    assert!(matches!(Gameboy::new(unsupported, boot(&[])), Err(RomError::UnsupportedMbc)));
    let mut mismatched = rom();
    mismatched[0x148] = 0x02;
    assert!(matches!(
        Gameboy::new(mismatched, boot(&[])),
        Err(RomError::SizeMismatch { expected: 0x20000, got: 0x8000 })
    ));
    assert!(Gameboy::new(rom(), boot(&[])).is_ok());
}

#[test]
fn new_console_starts_at_zero_in_the_boot_rom() {
    let gameboy = Gameboy::new(rom(), boot(&[0x31, 0xFE, 0xFF])).unwrap();
    assert_eq!(gameboy.cpu().registers().get_reg_16(WordRegister::PC), 0x0000);
    assert_eq!(gameboy.cpu().registers().get_reg_16(WordRegister::SP), 0xFFFE);
    assert!(gameboy.cpu().master_interrupt_flag() == MasterInterrupt::Off);
    assert!(gameboy.memory().boot_mode());
    assert_eq!(gameboy.memory().read(0x0000), 0x31);
    assert_eq!(gameboy.memory().read(0xFF41), 0x02);
    assert_eq!(gameboy.memory().read(0xFF44), 0x00);
    assert_eq!(gameboy.memory().rom_header().rom_size, 0x8000);
    assert!(gameboy.screen().iter().all(|p| *p == 0));
    assert_eq!(gameboy.screen().len(), 160 * 144);
}

#[test]
fn step_returns_the_machine_cycles_of_the_instruction() {
    // NOP; LD SP,0xDFF0; CALL 0x0010; ... 0x0010: RET
    let mut program = vec![0u8; 0x20];
    program[0] = 0x00;
    program[1] = 0x31;
    program[2] = 0xF0;
    program[3] = 0xDF;
    program[4] = 0xCD;
    program[5] = 0x10;
    program[6] = 0x00;
    program[7] = 0x18;
    program[8] = 0xFE;
    program[0x10] = 0xC9;
    let mut gameboy = Gameboy::new(rom(), boot(&program)).unwrap();
    assert_eq!(gameboy.step(), 1);
    assert_eq!(gameboy.step(), 3);
    assert_eq!(gameboy.step(), 6);
    assert_eq!(gameboy.step(), 4);
    assert_eq!(gameboy.step(), 3);
    assert_eq!(gameboy.step(), 3);
    assert_eq!(gameboy.cpu().registers().get_reg_16(WordRegister::PC), 0x0007);
}

#[test]
fn every_machine_cycle_moves_the_ppu_four_dots() {
    let mut gameboy = Gameboy::new(rom(), boot(&[0x18, 0xFE])).unwrap();
    let mut cycles = 0u32;
    while cycles < 114 {
        cycles += gameboy.step() as u32;
    }
    assert_eq!(cycles, 114);
    assert_eq!(gameboy.memory().read(0xFF44), 1);
    while cycles < 114 * 144 + 3 {
        cycles += gameboy.step() as u32;
    }
    assert_eq!(gameboy.memory().read(0xFF44), 144);
    assert_eq!(gameboy.memory().read(0xFF41) & 0x03, 1);
}

#[test]
fn boot_rom_hands_over_to_the_cartridge() {
    // LD A,1; LDH (0x50),A at the end of the boot page, then the cartridge runs
    let mut program = vec![0u8; 256];
    program[0] = 0xC3;
    program[1] = 0xFC;
    program[2] = 0x00;
    program[0xFC] = 0x3E;
    program[0xFD] = 0x01;
    program[0xFE] = 0xE0;
    program[0xFF] = 0x50;
    let mut gameboy = Gameboy::new(rom(), program).unwrap();
    gameboy.step();
    gameboy.step();
    assert!(gameboy.memory().boot_mode());
    gameboy.step();
    assert!(!gameboy.memory().boot_mode());
    assert_eq!(gameboy.cpu().registers().get_reg_16(WordRegister::PC), 0x0100);
    assert_eq!(gameboy.memory().read(0x0000), 0x00);
    gameboy.step();
    assert_eq!(gameboy.cpu().registers().get_reg_16(WordRegister::PC), 0x0100);
}

#[test]
fn timer_runs_with_the_cpu() {
    // XOR A; LDH (0x0F),A; LD A,0xAB; LDH (6),A; LD A,0xFF; LDH (5),A; LD A,5; LDH (7),A; loop
    let program = [
        0xAF, 0xE0, 0x0F, 0x3E, 0xAB, 0xE0, 0x06, 0x3E, 0xFF, 0xE0, 0x05, 0x3E, 0x05, 0xE0, 0x07,
        0x18, 0xFE,
    ];
    let mut gameboy = Gameboy::new(rom(), boot(&program)).unwrap();
    for _ in 0..8 {
        gameboy.step();
    }
    let mut cycles = 0;
    while gameboy.memory().read(0xFF05) != 0xAB {
        cycles += gameboy.step() as u32;
        assert!(cycles < 16);
    }
    assert_eq!(gameboy.memory().read(0xFF0F) & 0x04, 0x04);
}

#[test]
fn joypad_starts_with_three_action_buttons_down() {
    let joypad = Joypad::new();
    assert_eq!(joypad.action_buttons(), 0x0E);
    assert_eq!(joypad.directional_buttons(), 0x00);
}

#[test]
fn joypad_keeps_each_button_in_its_bit() {
    let buttons = [
        (JoypadButton::Right, 0x01u8, false),
        (JoypadButton::Left, 0x02, false),
        (JoypadButton::Up, 0x04, false),
        (JoypadButton::Down, 0x08, false),
        (JoypadButton::A, 0x01, true),
        (JoypadButton::B, 0x02, true),
        (JoypadButton::Select, 0x04, true),
        (JoypadButton::Start, 0x08, true),
    ];
    for (button, bit, action) in buttons {
        let mut joypad = Joypad::new();
        joypad.set_button(JoypadButton::B, false);
        joypad.set_button(JoypadButton::Select, false);
        joypad.set_button(JoypadButton::Start, false);
        joypad.set_button(button, true);
        if action {
            assert_eq!(joypad.action_buttons(), bit);
            assert_eq!(joypad.directional_buttons(), 0);
        } else {
            assert_eq!(joypad.action_buttons(), 0);
            assert_eq!(joypad.directional_buttons(), bit);
        }
        joypad.set_button(button, true);
        joypad.set_button(button, false);
        assert_eq!(joypad.action_buttons(), 0);
        assert_eq!(joypad.directional_buttons(), 0);
    }
}

fn released(gameboy: &mut Gameboy) {
    for button in [JoypadButton::B, JoypadButton::Select, JoypadButton::Start] {
        gameboy.set_button(button, false);
    }
}

#[test]
fn joypad_register_shows_the_selected_buttons() {
    // LD A,0x20; LDH (0),A; XOR A; LDH (0x0F),A; loop
    let program = [0x3E, 0x20, 0xE0, 0x00, 0xAF, 0xE0, 0x0F, 0x18, 0xFE];
    let mut gameboy = Gameboy::new(rom(), boot(&program)).unwrap();
    released(&mut gameboy);
    for _ in 0..6 {
        gameboy.step();
    }
    assert_eq!(gameboy.memory().read(0xFF00), 0x2F);
    assert_eq!(gameboy.memory().read(0xFF0F) & 0x10, 0x00);
    gameboy.set_button(JoypadButton::Right, true);
    gameboy.step();
    assert_eq!(gameboy.memory().read(0xFF00), 0x2F);
    gameboy.set_button(JoypadButton::A, true);
    gameboy.step();
    assert_eq!(gameboy.memory().read(0xFF00), 0x2E);
    assert_eq!(gameboy.memory().read(0xFF0F) & 0x10, 0x10);
    gameboy.joypad_mut().set_button(JoypadButton::Start, true);
    gameboy.step();
    assert_eq!(gameboy.memory().read(0xFF00), 0x26);
    gameboy.set_button(JoypadButton::A, false);
    gameboy.step();
    assert_eq!(gameboy.memory().read(0xFF00), 0x27);
}

#[test]
fn joypad_register_shows_directions_when_bit_five_is_clear() {
    let program = [0x3E, 0x10, 0xE0, 0x00, 0xAF, 0xE0, 0x0F, 0x18, 0xFE];
    let mut gameboy = Gameboy::new(rom(), boot(&program)).unwrap();
    released(&mut gameboy);
    gameboy.set_button(JoypadButton::A, true);
    gameboy.set_button(JoypadButton::Down, true);
    for _ in 0..6 {
        gameboy.step();
    }
    assert_eq!(gameboy.memory().read(0xFF00), 0x17);
    assert_eq!(gameboy.memory().read(0xFF0F) & 0x10, 0x00);
    gameboy.set_button(JoypadButton::Left, true);
    gameboy.step();
    assert_eq!(gameboy.memory().read(0xFF00), 0x15);
    assert_eq!(gameboy.memory().read(0xFF0F) & 0x10, 0x10);
}

#[test]
fn joypad_register_shows_nothing_or_both_groups() {
    let program = [0x3E, 0x30, 0xE0, 0x00, 0x18, 0xFE];
    let mut gameboy = Gameboy::new(rom(), boot(&program)).unwrap();
    gameboy.set_button(JoypadButton::Up, true);
    for _ in 0..4 {
        gameboy.step();
    }
    assert_eq!(gameboy.memory().read(0xFF00), 0x3F);
    let program = [0x3E, 0x00, 0xE0, 0x00, 0x18, 0xFE];
    let mut gameboy = Gameboy::new(rom(), boot(&program)).unwrap();
    released(&mut gameboy);
    gameboy.set_button(JoypadButton::Up, true);
    gameboy.set_button(JoypadButton::B, true);
    for _ in 0..4 {
        gameboy.step();
    }
    assert_eq!(gameboy.memory().read(0xFF00), 0x09);
}

#[test]
fn peripherals_count_machine_cycles() {
    let mut memory = Memory::new(Rom::try_from_bytes(rom()).unwrap(), boot(&[]));
    let mut peripherals = Peripherals::new(&mut memory);
    assert_eq!(peripherals.count(), 0);
    for _ in 0..114 {
        peripherals.on_machine_cycle(&mut memory);
    }
    assert_eq!(peripherals.count(), 114);
    assert_eq!(memory.read(0xFF44), 1);
    assert_eq!(memory.read(0xFF04), 0x00);
    for _ in 0..64 {
        peripherals.on_machine_cycle(&mut memory);
    }
    assert_eq!(memory.read(0xFF04), 0x01);
    assert!(peripherals.ppu().screen().pixels().iter().all(|p| *p <= 3));
}

#[test]
fn screen_shows_the_frame_after_vblank() {
    // Fill tile 0x00..0x0F at 0x8000 with 0xFF, then turn on the display with identity palette.
    // LD HL,0x8000; LD B,16; LD A,0xFF; loop: LD (HL+),A; DEC B; JR NZ,loop;
    // LD A,0xE4; LDH (0x47),A; LD A,0x91; LDH (0x40),A; JR -2
    let program = [
        0x21, 0x00, 0x80, 0x06, 0x10, 0x3E, 0xFF, 0x22, 0x05, 0x20, 0xFC, 0x3E, 0xE4, 0xE0, 0x47,
        0x3E, 0x91, 0xE0, 0x40, 0x18, 0xFE,
    ];
    let mut gameboy = Gameboy::new(rom(), boot(&program)).unwrap();
    let mut cycles = 0u32;
    while cycles < 2 * 17556 {
        cycles += gameboy.step() as u32;
    }
    let screen = gameboy.screen();
    assert!(screen.iter().all(|p| *p == 3));
    assert_eq!(gameboy.ppu().screen().get_pixel(0, 0), Ok(3));
}
