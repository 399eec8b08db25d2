use abduction::gameboy::memory::registers::{addresses, Interrupt, StatFlag, LCDC};
use abduction::gameboy::memory::{
    DMGVram, GameboyMemory, Hram, IORegisters, Memory, Oam, Vram,
};
use abduction::gameboy::ppu::Tilemap;
use abduction::gameboy::rom::Rom;

fn flat_rom() -> Vec<u8> {
    let mut rom = vec![0u8; 0x8000];
    for i in 0..0x8000usize {
        rom[i] = (i as u8) ^ 0x5A;
    }
    rom[0x147] = 0x00;
    rom[0x148] = 0x00;
    rom[0x149] = 0x02;
    rom
}

fn memory_with_boot(boot: Vec<u8>) -> Memory {
    Memory::new(Rom::try_from_bytes(flat_rom()).unwrap(), boot)
}

fn memory() -> Memory {
    let mut memory = memory_with_boot(vec![0u8; 256]);
    memory.write(0xFF50, 1);
    memory
}

#[test]
fn memory_starts_filled_with_ff() {
    let memory = memory_with_boot(vec![0u8; 256]);
    for address in [0x8000u16, 0x9FFF, 0xC000, 0xDFFF, 0xFE00, 0xFE9F, 0xFF00, 0xFF7F, 0xFF80, 0xFFFF]
    {
        assert_eq!(memory.read(address), 0xFF, "{:#06x}", address);
    }
    assert!(memory.boot_mode());
}

#[test]
fn ram_regions_read_back_what_was_written() {
    let mut memory = memory();
    let mut value = 1u8;
    let mut address = 0x8000u32;
    while address <= 0xFFFF {
        let a = address as u16;
        let writable = (0x8000..0xA000).contains(&a)
            || (0xC000..0xFEA0).contains(&a)
            || a >= 0xFF80;
        if writable {
            memory.write(a, value);
            assert_eq!(memory.read(a), value, "{:#06x}", a);
            value = value.wrapping_mul(7).wrapping_add(3);
        }
        address += 37;
    }
}

#[test]
fn unused_range_reads_ff_and_drops_writes() {
    let mut memory = memory();
    for address in 0xFEA0u16..=0xFEFF {
        memory.write(address, 0x12);
        assert_eq!(memory.read(address), 0xFF);
    }
}

#[test]
fn echo_ram_mirrors_work_ram() {
    let mut memory = memory();
    memory.write(0xC123, 0x77);
    assert_eq!(memory.read(0xE123), 0x77);
    memory.write(0xFDFF, 0x66);
    assert_eq!(memory.read(0xDDFF), 0x66);
}

#[test]
fn rom_range_reads_the_cartridge_after_boot() {
    let memory = memory();
    let rom = flat_rom();
    for address in [0x0000u16, 0x00FF, 0x0100, 0x3FFF, 0x4000, 0x7FFF] {
        assert_eq!(memory.read(address), rom[address as usize]);
    }
}

#[test]
fn external_ram_goes_through_the_cartridge() {
    let mut memory = memory();
    memory.write(0xA010, 0x99);
    assert_eq!(memory.read(0xA010), 0x99);
}

#[test]
fn boot_rom_covers_first_page_until_ff50_is_written() {
    let mut boot = vec![0u8; 256];
    for i in 0..256usize {
        boot[i] = 0xA0 ^ i as u8;
    }
    let rom = flat_rom();
    let mut memory = memory_with_boot(boot.clone());
    assert!(memory.boot_mode());
    for address in 0..=0xFFu16 {
        assert_eq!(memory.read(address), boot[address as usize]);
    }
    assert_eq!(memory.read(0x0100), rom[0x100]);
    memory.write(0xFF50, 0x00);
    assert!(!memory.boot_mode());
    for address in 0..=0xFFu16 {
        assert_eq!(memory.read(address), rom[address as usize]);
    }
    memory.write(0xFF50, 0x01);
    memory.write(0xFF50, 0xFF);
    assert!(!memory.boot_mode());
    assert_eq!(memory.read(0x0000), rom[0]);
    assert_eq!(memory.read(0xFF50), 0xFF);
}

#[test]
fn short_boot_rom_reads_open_bus_beyond_its_end() {
    let memory = memory_with_boot(vec![0x11u8; 16]);
    assert_eq!(memory.read(0x000F), 0x11);
    assert_eq!(memory.read(0x0010), 0xFF);
    assert_eq!(memory.read(0x00FF), 0xFF);
}

#[test]
fn dma_copies_a_page_into_oam() {
    let mut memory = memory();
    for i in 0..160u16 {
        memory.write(0xC000 + i, i as u8);
    }
    memory.write(0xFF46, 0xC0);
    for i in 0..160u16 {
        assert_eq!(memory.read(0xFE00 + i), i as u8);
        assert_eq!(memory.oam().as_slice()[i as usize], i as u8);
    }
    assert_eq!(memory.read(0xFF46), 0xC0);
}

#[test]
fn dma_from_rom_and_from_oam_itself() {
    let mut memory = memory();
    let rom = flat_rom();
    memory.write(0xFF46, 0x12);
    for i in 0..160usize {
        assert_eq!(memory.read(0xFE00 + i as u16), rom[0x1200 + i]);
    }
    memory.write(0xFF46, 0xFE);
    for i in 0..160usize {
        assert_eq!(memory.read(0xFE00 + i as u16), rom[0x1200 + i]);
    }
}

#[test]
fn requesting_an_interrupt_sets_its_bit() {
    let mut memory = memory();
    memory.write(addresses::INTERRUPT_REQUEST, 0x00);
    memory.request_interrupt(Interrupt::Timer);
    assert_eq!(memory.read(addresses::INTERRUPT_REQUEST), 0x04);
    memory.request_interrupt(Interrupt::VBlank);
    memory.request_interrupt(Interrupt::Joypad);
    assert_eq!(memory.read(addresses::INTERRUPT_REQUEST), 0x15);
    memory.request_interrupt(Interrupt::Timer);
    assert_eq!(memory.read(addresses::INTERRUPT_REQUEST), 0x15);
    memory.request_interrupt(Interrupt::STAT);
    memory.request_interrupt(Interrupt::Serial);
    assert_eq!(memory.read(addresses::INTERRUPT_REQUEST), 0x1F);
}

#[test]
fn interrupts_have_masks_ranks_and_vectors() {
    let all = [
        (Interrupt::VBlank, 0x01, 0, 0x40),
        (Interrupt::STAT, 0x02, 1, 0x48),
        (Interrupt::Timer, 0x04, 2, 0x50),
        (Interrupt::Serial, 0x08, 3, 0x58),
        (Interrupt::Joypad, 0x10, 4, 0x60),
    ];
    for (interrupt, mask, index, vector) in all {
        assert_eq!(interrupt.mask(), mask);
        assert_eq!(interrupt.index(), index);
        assert_eq!(interrupt.vector(), vector);
    }
}

#[test]
fn divider_reset_is_noted_once() {
    let mut memory = memory();
    memory.write(addresses::DIV, 0x55);
    assert!(!memory.take_divider_reset());
    memory.reset_divider();
    assert_eq!(memory.read(addresses::DIV), 0x00);
    assert!(memory.take_divider_reset());
    assert!(!memory.take_divider_reset());
}

#[test]
fn header_is_kept_by_the_memory() {
    let memory = memory();
    assert_eq!(memory.rom_header().rom_size, 0x8000);
    assert_eq!(memory.rom_header().ram_size, 0x2000);
}

#[test]
fn cgb_cartridge_gets_larger_memories() {
    let mut rom = flat_rom();
    rom[0x143] = 0x80;
    let memory = Memory::new(Rom::try_from_bytes(rom).unwrap(), vec![0u8; 256]);
    assert_eq!(memory.vram().as_slice().len(), 16 * 1024);
    let dmg = self::memory();
    assert_eq!(dmg.vram().as_slice().len(), 8 * 1024);
}

#[test]
fn memory_components_read_and_write() {
    let mut vram = DMGVram::default();
    assert_eq!(vram.read(0), 0xFF);
    vram.write(0x1FFF, 0x12);
    assert_eq!(vram.read(0x1FFF), 0x12);
    assert_eq!(vram.as_slice()[0x1FFF], 0x12);
    let mut oam = Oam::default();
    oam.write(159, 3);
    assert_eq!(oam.read(159), 3);
    assert_eq!(oam.as_slice().len(), 160);
    let mut io = IORegisters::default();
    io.write(0x7F, 4);
    assert_eq!(io.read(0x7F), 4);
    let mut hram = Hram::default();
    hram.write(0, 5);
    assert_eq!(hram.read(0), 5);
    assert_eq!(hram.read(1), 0xFF);
}

#[test]
fn lcdc_bits_have_their_meanings() {
    let none = LCDC::from(0x00);
    assert!(!none.background_window_priority());
    assert!(!none.objects_enabled());
    assert!(!none.double_height_objects());
    assert_eq!(none.background_tilemap(), Tilemap::Tilemap0);
    assert!(none.alternative_addressing_mode());
    assert!(!none.window_enabled());
    assert_eq!(none.window_tilemap(), Tilemap::Tilemap0);
    assert!(!none.screen_enabled());
    let all = LCDC::new(0xFF);
    assert!(all.background_window_priority());
    assert!(all.objects_enabled());
    assert!(all.double_height_objects());
    assert_eq!(all.background_tilemap(), Tilemap::Tilemap1);
    assert!(!all.alternative_addressing_mode());
    assert!(all.window_enabled());
    assert_eq!(all.window_tilemap(), Tilemap::Tilemap1);
    assert!(all.screen_enabled());
    assert!(LCDC::new(0x91).screen_enabled());
    assert!(!LCDC::new(0x91).objects_enabled());
}

#[test]
fn stat_fields_have_their_bits() {
    assert_eq!(StatFlag::LYCEqualsLY.mask(), 0x04);
    assert_eq!(StatFlag::HBlankInterruptEnabled.mask(), 0x08);
    assert_eq!(StatFlag::VBlankInterruptEnabled.mask(), 0x10);
    assert_eq!(StatFlag::OAMInterruptEnabled.mask(), 0x20);
    assert_eq!(StatFlag::LYCEqualsLYInterruptEnabled.mask(), 0x40);
    assert_eq!(StatFlag::ModeBits.mask(), 0x03);
    assert_eq!(StatFlag::HBlankMode.mask(), 0x00);
    assert_eq!(StatFlag::VBlankMode.mask(), 0x01);
    assert_eq!(StatFlag::OAMSearchMode.mask(), 0x02);
    assert_eq!(StatFlag::RenderingMode.mask(), 0x03);
}
