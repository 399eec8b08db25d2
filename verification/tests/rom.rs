use abduction::gameboy::rom::{
    MemoryBankController, Rom, RomCgbStatus, RomError, RomHeader, RomMBCType, RomSgbStatus, MBC1,
    NoMBC,
};

fn header_bytes() -> Vec<u8> {
    let mut bytes = vec![0u8; 29];
    let title = b"ABDUCTION";
    for (i, c) in title.iter().enumerate() {
        bytes[i] = *c;
    }
    bytes[12] = 0x78;
    bytes[13] = 0x56;
    bytes[14] = 0x34;
    bytes[15] = 0x12;
    bytes[16] = 0x80;
    bytes[17] = 0x31;
    bytes[18] = 0x30;
    bytes[19] = 0x03;
    bytes[20] = 0x01;
    bytes[21] = 0x02;
    bytes[22] = 0x03;
    bytes[23] = 0x00;
    bytes[24] = 0x33;
    bytes[25] = 0x07;
    bytes[26] = 0xA5;
    bytes[27] = 0xCD;
    bytes[28] = 0xAB;
    bytes
}

fn image(kind: u8, size_code: u8, ram_code: u8, len: usize) -> Vec<u8> {
    let mut rom = vec![0u8; len];
    if len > 0x149 {
        rom[0x147] = kind;
        rom[0x148] = size_code;
        rom[0x149] = ram_code;
    }
    rom
}

#[test]
fn header_fields_are_decoded() {
    let header = RomHeader::try_from_bytes(&header_bytes()).unwrap();
    assert_eq!(header.title, "ABDUCTION");
    assert_eq!(header.manufacturer, 0x12345678);
    assert_eq!(header.cgb, RomCgbStatus::CGBSupport);
    assert_eq!(header.license, 0x3031);
    assert_eq!(header.sgb, RomSgbStatus::SGBSupport);
    assert_eq!(header.rom_type, RomMBCType::MBC1);
    assert_eq!(header.rom_size, 128 * 1024);
    assert_eq!(header.ram_size, 32 * 1024);
    assert!(header.japanese);
    assert_eq!(header.old_license, 0x33);
    assert_eq!(header.rom_version, 0x07);
    assert_eq!(header.checksum, 0xA5);
    assert_eq!(header.rom_checksum, 0xABCD);
}

#[test]
fn header_title_stops_at_first_unprintable_byte() {
    let mut bytes = header_bytes();
    bytes[3] = 0x1F;
    let header = RomHeader::try_from_bytes(&bytes).unwrap();
    assert_eq!(header.title, "ABD");
    bytes[0] = 0x7F;
    assert_eq!(RomHeader::try_from_bytes(&bytes).unwrap().title, "");
    bytes[0] = 0x80;
    assert_eq!(RomHeader::try_from_bytes(&bytes).unwrap().title, "");
}

#[test]
fn header_title_may_fill_all_sixteen_bytes() {
    let mut bytes = header_bytes();
    for i in 0..16 {
        bytes[i] = b'A' + i as u8;
    }
    let header = RomHeader::try_from_bytes(&bytes).unwrap();
    assert_eq!(header.title, "ABCDEFGHIJKLMNOP");
    assert_eq!(header.manufacturer, u32::from_le_bytes([b'M', b'N', b'O', b'P']));
}

#[test]
fn header_codes_map_to_their_meanings() {
    let mut bytes = header_bytes();
    bytes[16] = 0xC0;
    assert_eq!(RomHeader::try_from_bytes(&bytes).unwrap().cgb, RomCgbStatus::CGBOnly);
    bytes[16] = 0x00;
    assert_eq!(RomHeader::try_from_bytes(&bytes).unwrap().cgb, RomCgbStatus::NoCGB);
    bytes[19] = 0x00;
    assert_eq!(RomHeader::try_from_bytes(&bytes).unwrap().sgb, RomSgbStatus::NoSGB);
    let kinds = [
        (0x00, RomMBCType::NoMBC),
        (0x01, RomMBCType::MBC1),
        (0x02, RomMBCType::MBC1Ram),
        (0x03, RomMBCType::MBC1RamBattery),
        (0x04, RomMBCType::Unknown),
        (0xFF, RomMBCType::Unknown),
    ];
    for (code, kind) in kinds {
        bytes[20] = code;
        assert_eq!(RomHeader::try_from_bytes(&bytes).unwrap().rom_type, kind);
    }
    let rams = [(0x00, 0), (0x02, 8), (0x03, 32), (0x04, 128), (0x05, 64), (0x01, 128)];
    for (code, kib) in rams {
        bytes[22] = code;
        assert_eq!(RomHeader::try_from_bytes(&bytes).unwrap().ram_size, kib * 1024);
    }
    for code in 0..=8u8 {
        bytes[21] = code;
        assert_eq!(RomHeader::try_from_bytes(&bytes).unwrap().rom_size, (32 * 1024) << code);
    }
    bytes[23] = 0x01;
    assert!(!RomHeader::try_from_bytes(&bytes).unwrap().japanese);
}

#[test]
fn header_of_wrong_length_is_refused() {
    let bytes = header_bytes();
    assert_eq!(
        RomHeader::try_from_bytes(&bytes[..28]).unwrap_err(),
        RomError::WrongHeaderLength { got: 28 }
    );
    let mut longer = bytes.clone();
    longer.push(0);
    assert_eq!(
        RomHeader::try_from_bytes(&longer).unwrap_err(),
        RomError::WrongHeaderLength { got: 30 }
    );
    assert_eq!(
        RomHeader::try_from_bytes(&[]).unwrap_err(),
        RomError::WrongHeaderLength { got: 0 }
    );
}

#[test]
fn header_with_unrepresentable_rom_size_is_refused() {
    let mut bytes = header_bytes();
    bytes[21] = 17;
    assert_eq!(
        RomHeader::try_from_bytes(&bytes).unwrap_err(),
        RomError::RomSizeOutOfRange { code: 17 }
    );
    bytes[21] = 16;
    assert_eq!(RomHeader::try_from_bytes(&bytes).unwrap().rom_size, 0x8000_0000);
}

#[test]
fn rom_errors_have_messages() {
    assert_eq!(RomError::TooSmall.message(), "Rom too small to even contain a rom header");
    assert_eq!(
        RomError::SizeMismatch { expected: 1, got: 2 }.message(),
        "Rom size doesn't match with size specified in it's header"
    );
    assert_eq!(RomError::UnsupportedMbc.message(), "MBC not supported");
    assert_eq!(
        RomError::WrongHeaderLength { got: 3 }.message(),
        "Wrong input length for a rom header"
    );
    assert_eq!(
        RomError::RomSizeOutOfRange { code: 20 }.message(),
        "Rom size in header is out of range"
    );
    assert_eq!(RomError::TruncatedField.message(), "Rom header field is cut short");
}

#[test]
fn rom_too_small_is_refused() {
    assert!(matches!(Rom::try_from_bytes(vec![0u8; 0x14F]), Err(RomError::TooSmall)));
    assert!(matches!(Rom::try_from_bytes(Vec::new()), Err(RomError::TooSmall)));
}

#[test]
fn rom_whose_length_differs_from_header_is_refused() {
    let rom = image(0x00, 0x01, 0x00, 0x8000);
    assert!(matches!(
        Rom::try_from_bytes(rom),
        Err(RomError::SizeMismatch { expected: 0x10000, got: 0x8000 })
    ));
    let short = image(0x00, 0x00, 0x00, 0x150);
    assert!(matches!(
        Rom::try_from_bytes(short),
        Err(RomError::SizeMismatch { expected: 0x8000, got: 0x150 })
    ));
}

#[test]
fn rom_with_unsupported_controller_is_refused() {
    let rom = image(0x05, 0x00, 0x00, 0x8000);
    assert!(matches!(Rom::try_from_bytes(rom), Err(RomError::UnsupportedMbc)));
}

#[test]
fn rom_with_bad_size_code_is_refused() {
    let rom = image(0x00, 0x40, 0x00, 0x8000);
    assert!(matches!(Rom::try_from_bytes(rom), Err(RomError::RomSizeOutOfRange { code: 0x40 })));
}

#[test]
fn all_three_mbc1_kinds_load() {
    for kind in [0x01u8, 0x02, 0x03] {
        let rom = image(kind, 0x01, 0x02, 0x10000);
        let rom = Rom::try_from_bytes(rom).unwrap();
        assert_eq!(rom.header().rom_size, 0x10000);
        assert_eq!(rom.header().ram_size, 0x2000);
    }
}

#[test]
fn flat_rom_reads_its_bytes_and_ignores_writes() {
    let mut bytes = image(0x00, 0x00, 0x00, 0x8000);
    bytes[0x0000] = 0x11;
    bytes[0x3FFF] = 0x22;
    bytes[0x4000] = 0x33;
    bytes[0x7FFF] = 0x44;
    let mut rom = Rom::try_from_bytes(bytes).unwrap();
    assert_eq!(rom.read(0x0000), 0x11);
    assert_eq!(rom.read(0x3FFF), 0x22);
    assert_eq!(rom.read(0x4000), 0x33);
    assert_eq!(rom.read(0x7FFF), 0x44);
    rom.write(0x2000, 0x05);
    rom.write(0x0000, 0x99);
    assert_eq!(rom.read(0x0000), 0x11);
    assert_eq!(rom.read(0x4000), 0x33);
}

#[test]
fn flat_rom_without_ram_reads_open_bus() {
    let mut rom = Rom::try_from_bytes(image(0x00, 0x00, 0x00, 0x8000)).unwrap();
    assert_eq!(rom.external_read(0xA000), 0xFF);
    rom.external_write(0xA000, 0x12);
    assert_eq!(rom.external_read(0xA000), 0xFF);
    assert_eq!(rom.external_read(0xBFFF), 0xFF);
}

#[test]
fn flat_rom_with_ram_keeps_what_is_written() {
    let mut rom = Rom::try_from_bytes(image(0x00, 0x00, 0x02, 0x8000)).unwrap();
    assert_eq!(rom.external_read(0xA000), 0xFF);
    rom.external_write(0xA000, 0x12);
    rom.external_write(0xBFFF, 0x34);
    assert_eq!(rom.external_read(0xA000), 0x12);
    assert_eq!(rom.external_read(0xBFFF), 0x34);
}

#[test]
fn no_mbc_built_by_hand_is_total() {
    let mut mbc = NoMBC::new(vec![7u8; 16], Vec::new());
    assert_eq!(mbc.read(0x000F), 7);
    assert_eq!(mbc.read(0x0010), 0xFF);
    mbc.external_write(0xA000, 1);
    assert_eq!(mbc.external_read(0xA000), 0xFF);
}

fn banked_image() -> Vec<u8> {
    let mut rom = vec![0u8; 0x20_0000];
    for bank in 0..128usize {
        for offset in 0..0x4000usize {
            rom[bank * 0x4000 + offset] = (bank as u8) ^ (offset as u8).wrapping_mul(3);
        }
    }
    rom[0x147] = 0x03;
    rom[0x148] = 0x06;
    rom[0x149] = 0x03;
    rom
}

#[test]
fn mbc1_windows_show_the_selected_banks() {
    let image = banked_image();
    let mut rom = Rom::try_from_bytes(image.clone()).unwrap();
    for mode in 0..2u8 {
        for bank2 in 0..4u8 {
            for bank1 in 1..32u8 {
                rom.write(0x2000, bank1);
                rom.write(0x4000, bank2);
                rom.write(0x6000, mode);
                let high = (bank2 as usize) * 32 + bank1 as usize;
                let low = if mode == 1 { (bank2 as usize) * 32 } else { 0 };
                for offset in [0usize, 1, 0x0150, 0x1FFF, 0x3FFF] {
                    assert_eq!(
                        rom.read(0x4000 + offset as u16),
                        image[high * 0x4000 + offset],
                        "bank1={} bank2={} mode={} offset={:#x}",
                        bank1,
                        bank2,
                        mode,
                        offset
                    );
                    assert_eq!(rom.read(offset as u16), image[low * 0x4000 + offset]);
                }
            }
        }
    }
}

#[test]
fn mbc1_bank_zero_is_read_as_bank_one() {
    let image = banked_image();
    let mut rom = Rom::try_from_bytes(image.clone()).unwrap();
    rom.write(0x2000, 0x00);
    assert_eq!(rom.read(0x4000), image[0x4000]);
    assert_eq!(rom.read(0x7FFF), image[0x7FFF]);
    rom.write(0x2000, 0x20);
    assert_eq!(rom.read(0x4000), image[0x4000]);
    rom.write(0x2000, 0xE5);
    assert_eq!(rom.read(0x4001), image[5 * 0x4000 + 1]);
}

#[test]
fn mbc1_small_rom_masks_the_bank_number() {
    let mut image = vec![0u8; 0x10000];
    for bank in 0..4usize {
        for offset in 0..0x4000usize {
            image[bank * 0x4000 + offset] = bank as u8 + 1;
        }
    }
    image[0x147] = 0x01;
    image[0x148] = 0x01;
    image[0x149] = 0x00;
    let mut rom = Rom::try_from_bytes(image).unwrap();
    rom.write(0x2000, 0x07);
    assert_eq!(rom.read(0x4000), 4);
    rom.write(0x2000, 0x04);
    assert_eq!(rom.read(0x4000), 1);
    rom.write(0x2000, 0x06);
    assert_eq!(rom.read(0x4000), 3);
}

#[test]
fn mbc1_ram_answers_only_when_enabled() {
    let mut rom = Rom::try_from_bytes(banked_image()).unwrap();
    assert_eq!(rom.external_read(0xA000), 0xFF);
    rom.external_write(0xA000, 0x42);
    rom.write(0x0000, 0x0A);
    assert_eq!(rom.external_read(0xA000), 0xFF);
    rom.external_write(0xA000, 0x42);
    assert_eq!(rom.external_read(0xA000), 0x42);
    rom.write(0x0000, 0x00);
    assert_eq!(rom.external_read(0xA000), 0xFF);
    rom.write(0x1FFF, 0x3A);
    assert_eq!(rom.external_read(0xA000), 0x42);
}

#[test]
fn mbc1_ram_banks_follow_bank2_in_advanced_mode() {
    let mut rom = Rom::try_from_bytes(banked_image()).unwrap();
    rom.write(0x0000, 0x0A);
    rom.write(0x6000, 0x01);
    for bank in 0..4u8 {
        rom.write(0x4000, bank);
        rom.external_write(0xA123, 0x10 + bank);
    }
    for bank in 0..4u8 {
        rom.write(0x4000, bank);
        assert_eq!(rom.external_read(0xA123), 0x10 + bank);
    }
    rom.write(0x6000, 0x00);
    rom.write(0x4000, 0x03);
    assert_eq!(rom.external_read(0xA123), 0x10);
}

#[test]
fn mbc1_counts_its_banks() {
    let mbc = MBC1::new(vec![0u8; 0x10000], vec![0u8; 0x8000]);
    assert_eq!(mbc.rom_bank_count(), 4);
    assert_eq!(mbc.external_bank_count(), 4);
    let empty = MBC1::new(Vec::new(), Vec::new());
    assert_eq!(empty.rom_bank_count(), 0);
    assert_eq!(empty.read(0x0000), 0xFF);
    assert_eq!(empty.read(0x4000), 0xFF);
}
