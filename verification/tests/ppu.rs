use abduction::gameboy::memory::registers::{InvalidBits, StatFlag};
use abduction::gameboy::memory::{Memory, Vram};
use abduction::gameboy::ppu::pixel::{
    color_of_object, compose_pixel, covers, get_bg_pixel, get_obj_pixel, get_window_pixel,
    LineRegisters,
};
use abduction::gameboy::ppu::priority::first_visible;
use abduction::gameboy::ppu::{
    pixel_of_tile, ObjectAttributes, PPUMode, Palette, PixelOutOfRange, Ppu, ScreenBuffer,
    ScreenDoubleBuffer, Tile,
};
use abduction::gameboy::rom::Rom;

const FRAME: u32 = 70224;

fn memory() -> Memory {
    let mut rom = vec![0u8; 0x8000];
    rom[0x147] = 0;
    let mut memory = Memory::new(Rom::try_from_bytes(rom).unwrap(), vec![0u8; 256]);
    for address in 0x8000u16..0xA000 {
        memory.write(address, 0x00);
    }
    for address in 0xFE00u16..0xFEA0 {
        memory.write(address, 0x00);
    }
    memory.write(0xFF0F, 0x00);
    memory.write(0xFF40, 0x91);
    memory.write(0xFF42, 0x00);
    memory.write(0xFF43, 0x00);
    memory.write(0xFF45, 0xFF);
    memory.write(0xFF47, 0xE4);
    memory.write(0xFF48, 0xE4);
    memory.write(0xFF49, 0x1B);
    memory.write(0xFF4A, 0x00);
    memory.write(0xFF4B, 0x07);
    memory
}

fn fill_tile(memory: &mut Memory, tile: u16, low: u8, high: u8) {
    for row in 0..8u16 {
        memory.write(0x8000 + tile * 16 + row * 2, low);
        memory.write(0x8000 + tile * 16 + row * 2 + 1, high);
    }
}

fn set_object(memory: &mut Memory, index: u16, y: u8, x: u8, tile: u8, flags: u8) {
    memory.write(0xFE00 + index * 4, y);
    memory.write(0xFE00 + index * 4 + 1, x);
    memory.write(0xFE00 + index * 4 + 2, tile);
    memory.write(0xFE00 + index * 4 + 3, flags);
}

fn run(ppu: &mut Ppu, memory: &mut Memory, dots: u32) {
    for _ in 0..dots {
        ppu.cycle(memory);
    }
}

fn registers(lcdc: u8, ly: u8) -> LineRegisters {
    LineRegisters {
        lcdc,
        scx: 0,
        scy: 0,
        wx: 7,
        wy: 0,
        bgp: 0xE4,
        obp0: 0xE4,
        obp1: 0x1B,
        ly,
        window_line: 0,
    }
}

#[test]
fn ppu_start_sets_its_registers() {
    let mut memory = memory();
    memory.write(0xFF41, 0xFF);
    memory.write(0xFF44, 0x55);
    memory.write(0xFF42, 0x11);
    memory.write(0xFF43, 0x22);
    let ppu = Ppu::new(&mut memory);
    assert_eq!(memory.read(0xFF41), 0x02);
    assert_eq!(memory.read(0xFF44), 0x00);
    assert_eq!(memory.read(0xFF42), 0x00);
    assert_eq!(memory.read(0xFF43), 0x00);
    assert!(ppu.screen().pixels().iter().all(|p| *p == 0));
    assert_eq!(Ppu::get_stat(&memory), 0x02);
    assert!(Ppu::get_lcdc(&memory).screen_enabled());
}

#[test]
fn modes_follow_each_other_within_a_line() {
    let mut memory = memory();
    let mut ppu = Ppu::new(&mut memory);
    for dot in 1..=456u32 {
        ppu.cycle(&mut memory);
        let mode = memory.read(0xFF41) & 0x03;
        let expected = if dot < 80 {
            2
        } else if dot < 248 {
            3
        } else if dot < 456 {
            0
        } else {
            2
        };
        assert_eq!(mode, expected, "dot {}", dot);
        assert_eq!(memory.read(0xFF44), if dot < 456 { 0 } else { 1 });
    }
}

#[test]
fn one_frame_requests_one_vblank_and_sweeps_ly_once() {
    let mut memory = memory();
    let mut ppu = Ppu::new(&mut memory);
    let mut requests = 0;
    let mut lines = vec![0u32; 154];
    for dot in 1..=FRAME {
        ppu.cycle(&mut memory);
        if memory.read(0xFF0F) & 0x01 != 0 {
            requests += 1;
            assert_eq!(dot, 144 * 456);
            memory.write(0xFF0F, 0x00);
        }
        let ly = memory.read(0xFF44);
        assert_eq!(ly as u32, (dot % FRAME) / 456);
        lines[ly as usize] += 1;
    }
    assert_eq!(requests, 1);
    assert!(lines.iter().all(|count| *count == 456));
    assert_eq!(memory.read(0xFF44), 0);
    assert_eq!(memory.read(0xFF41) & 0x03, 2);
    for _ in 0..FRAME {
        ppu.cycle(&mut memory);
        if memory.read(0xFF0F) & 0x01 != 0 {
            requests += 1;
            memory.write(0xFF0F, 0x00);
        }
    }
    assert_eq!(requests, 2);
}

#[test]
fn front_buffer_changes_only_on_vblank_entry() {
    let mut memory = memory();
    fill_tile(&mut memory, 0, 0xFF, 0xFF);
    let mut ppu = Ppu::new(&mut memory);
    for _ in 1..(144 * 456) {
        ppu.cycle(&mut memory);
        assert!(ppu.screen().pixels().iter().all(|p| *p == 0));
    }
    ppu.cycle(&mut memory);
    assert!(ppu.screen().pixels().iter().all(|p| *p == 3));
    memory.write(0xFF47, 0x00);
    for _ in 0..FRAME - 1 {
        ppu.cycle(&mut memory);
    }
    assert!(ppu.screen().pixels().iter().all(|p| *p == 3));
    ppu.cycle(&mut memory);
    assert!(ppu.screen().pixels().iter().all(|p| *p == 0));
}

#[test]
fn background_tile_shows_after_one_frame() {
    let mut memory = memory();
    fill_tile(&mut memory, 0, 0xFF, 0xFF);
    for entry in 1..1024u16 {
        memory.write(0x9800 + entry, 0x01);
    }
    memory.write(0x9800, 0x00);
    let mut ppu = Ppu::new(&mut memory);
    run(&mut ppu, &mut memory, FRAME);
    let screen = ppu.screen();
    for x in 0..8 {
        assert_eq!(screen.get_pixel(x, 0).unwrap(), 3);
        assert_eq!(screen.get_pixel(x, 7).unwrap(), 3);
        assert_eq!(screen.get_pixel(x, 8).unwrap(), 0);
    }
    assert_eq!(screen.get_pixel(8, 0).unwrap(), 0);
    assert_eq!(screen.get_pixel(159, 143).unwrap(), 0);
}

#[test]
fn background_scrolls_and_wraps() {
    let mut memory = memory();
    fill_tile(&mut memory, 1, 0xFF, 0x00);
    memory.write(0x9800 + 31 * 32 + 31, 0x01);
    let vram = memory.vram().as_slice().to_vec();
    let mut line = registers(0x91, 0);
    line.scx = 248;
    line.scy = 248;
    for x in 0..8u8 {
        assert_eq!(get_bg_pixel(&vram, &line, x).color_index, 1);
    }
    assert_eq!(get_bg_pixel(&vram, &line, 8).color_index, 0);
    line.ly = 8;
    assert_eq!(get_bg_pixel(&vram, &line, 0).color_index, 0);
}

#[test]
fn tile_addressing_modes() {
    let mut memory = memory();
    fill_tile(&mut memory, 5, 0xFF, 0x00);
    fill_tile(&mut memory, 256 + 5, 0x00, 0xFF);
    fill_tile(&mut memory, 200, 0xFF, 0xFF);
    memory.write(0x9800, 5);
    memory.write(0x9801, 200);
    memory.write(0x9C00, 200);
    let vram = memory.vram().as_slice().to_vec();
    assert_eq!(get_bg_pixel(&vram, &registers(0x91, 0), 0).color_index, 1);
    assert_eq!(get_bg_pixel(&vram, &registers(0x81, 0), 0).color_index, 2);
    assert_eq!(get_bg_pixel(&vram, &registers(0x91, 0), 8).color_index, 3);
    assert_eq!(get_bg_pixel(&vram, &registers(0x81, 0), 8).color_index, 3);
    assert_eq!(get_bg_pixel(&vram, &registers(0x99, 0), 0).color_index, 3);
}

#[test]
fn window_covers_from_wx_and_wy() {
    let mut memory = memory();
    fill_tile(&mut memory, 2, 0x00, 0xFF);
    for entry in 0..1024u16 {
        memory.write(0x9C00 + entry, 0x02);
    }
    let vram = memory.vram().as_slice().to_vec();
    let mut line = registers(0xF1, 10);
    line.wx = 27;
    line.wy = 10;
    assert!(get_window_pixel(&vram, &line, 19).is_none());
    assert_eq!(get_window_pixel(&vram, &line, 20).unwrap().color_index, 2);
    assert_eq!(compose_pixel(&vram, &Vec::new(), &line, 19), 0);
    assert_eq!(compose_pixel(&vram, &Vec::new(), &line, 20), 2);
    assert_eq!(compose_pixel(&vram, &Vec::new(), &line, 159), 2);
    line.ly = 9;
    assert!(get_window_pixel(&vram, &line, 20).is_none());
    line.ly = 10;
    line.lcdc = 0xD1;
    assert_eq!(compose_pixel(&vram, &Vec::new(), &line, 20), 0);
}

#[test]
fn window_line_counter_advances_only_on_window_lines() {
    let mut memory = memory();
    fill_tile(&mut memory, 1, 0xFF, 0x00);
    fill_tile(&mut memory, 2, 0x00, 0xFF);
    for column in 0..32u16 {
        memory.write(0x9C00 + column, 0x01);
        memory.write(0x9C00 + 32 + column, 0x02);
    }
    memory.write(0xFF40, 0xF1);
    memory.write(0xFF4A, 100);
    memory.write(0xFF4B, 7);
    let mut ppu = Ppu::new(&mut memory);
    run(&mut ppu, &mut memory, FRAME);
    let screen = ppu.screen();
    assert_eq!(screen.get_pixel(0, 99).unwrap(), 0);
    assert_eq!(screen.get_pixel(0, 100).unwrap(), 1);
    assert_eq!(screen.get_pixel(0, 107).unwrap(), 1);
    assert_eq!(screen.get_pixel(0, 108).unwrap(), 2);
    assert_eq!(screen.get_pixel(0, 115).unwrap(), 2);
    assert_eq!(screen.get_pixel(0, 116).unwrap(), 0);
}

#[test]
fn background_off_shows_color_zero_through_bgp() {
    let mut memory = memory();
    fill_tile(&mut memory, 0, 0xFF, 0xFF);
    let vram = memory.vram().as_slice().to_vec();
    let mut line = registers(0x90, 0);
    line.bgp = 0x1B;
    assert_eq!(compose_pixel(&vram, &Vec::new(), &line, 0), 3);
    line.lcdc = 0x91;
    assert_eq!(compose_pixel(&vram, &Vec::new(), &line, 0), 0);
}

#[test]
fn display_off_blanks_the_picture() {
    let mut memory = memory();
    fill_tile(&mut memory, 0, 0xFF, 0xFF);
    let mut ppu = Ppu::new(&mut memory);
    run(&mut ppu, &mut memory, FRAME);
    assert!(ppu.screen().pixels().iter().all(|p| *p == 3));
    memory.write(0xFF40, 0x11);
    run(&mut ppu, &mut memory, FRAME);
    assert!(ppu.screen().pixels().iter().all(|p| *p == 0));
}

fn two_objects() -> (Vec<u8>, Vec<ObjectAttributes>) {
    let mut memory = memory();
    fill_tile(&mut memory, 2, 0xFF, 0x00);
    fill_tile(&mut memory, 3, 0x00, 0xFF);
    let vram = memory.vram().as_slice().to_vec();
    let objects = vec![
        ObjectAttributes { x: 8, y: 16, tile_index: 2, flags: 0x00 },
        ObjectAttributes { x: 8, y: 16, tile_index: 3, flags: 0x10 },
    ];
    (vram, objects)
}

#[test]
fn of_two_objects_at_the_same_x_the_earlier_wins() {
    let (vram, objects) = two_objects();
    let line = registers(0x93, 4);
    for x in 0..8u8 {
        assert_eq!(first_visible(&vram, &objects, &line, x), Some(0));
        let pixel = get_obj_pixel(&vram, &objects, &line, x).unwrap();
        assert_eq!(pixel.color_index, 1);
        assert_eq!(pixel.palette, 0);
        assert!(!pixel.under_bg_window);
        assert_eq!(compose_pixel(&vram, &objects, &line, x), 1);
    }
    assert_eq!(first_visible(&vram, &objects, &line, 8), None);
    let swapped = vec![objects[1], objects[0]];
    assert_eq!(first_visible(&vram, &swapped, &line, 0), Some(0));
    assert_eq!(compose_pixel(&vram, &swapped, &line, 0), 1);
    assert_eq!(get_obj_pixel(&vram, &swapped, &line, 0).unwrap().palette, 1);
}

#[test]
fn of_two_objects_the_one_further_left_wins() {
    let (vram, mut objects) = two_objects();
    objects[1].x = 5;
    let line = registers(0x93, 4);
    for x in 0..5u8 {
        assert_eq!(first_visible(&vram, &objects, &line, x), Some(1));
        assert_eq!(compose_pixel(&vram, &objects, &line, x), 1);
    }
    for x in 5..8u8 {
        assert_eq!(first_visible(&vram, &objects, &line, x), Some(0));
    }
}

#[test]
fn transparent_object_pixels_let_the_next_object_show() {
    let (mut vram, objects) = two_objects();
    for row in 0..8usize {
        vram[2 * 16 + row * 2] = 0x0F;
    }
    let line = registers(0x93, 4);
    assert_eq!(first_visible(&vram, &objects, &line, 0), Some(1));
    assert_eq!(first_visible(&vram, &objects, &line, 4), Some(0));
    assert_eq!(compose_pixel(&vram, &objects, &line, 0), 1);
    assert_eq!(compose_pixel(&vram, &objects, &line, 4), 1);
}

#[test]
fn object_behind_background_shows_only_over_color_zero() {
    let mut memory = memory();
    fill_tile(&mut memory, 2, 0xFF, 0xFF);
    fill_tile(&mut memory, 4, 0xF0, 0x00);
    memory.write(0x9800, 0x04);
    let vram = memory.vram().as_slice().to_vec();
    let objects = vec![ObjectAttributes { x: 8, y: 16, tile_index: 2, flags: 0x80 }];
    let line = registers(0x93, 4);
    assert_eq!(compose_pixel(&vram, &objects, &line, 0), 1);
    assert_eq!(compose_pixel(&vram, &objects, &line, 4), 3);
    let front = vec![ObjectAttributes { x: 8, y: 16, tile_index: 2, flags: 0x00 }];
    assert_eq!(compose_pixel(&vram, &front, &line, 0), 3);
    let off = registers(0x91, 4);
    assert_eq!(compose_pixel(&vram, &front, &off, 0), 1);
}

#[test]
fn object_flips_and_tall_objects() {
    let mut memory = memory();
    memory.write(0x8000 + 6 * 16, 0x80);
    memory.write(0x8000 + 7 * 16 + 14, 0x01);
    memory.write(0x8000 + 7 * 16 + 15, 0x01);
    let vram = memory.vram().as_slice().to_vec();
    let plain = ObjectAttributes { x: 8, y: 16, tile_index: 6, flags: 0x00 };
    assert!(covers(&plain, 0x93, 0, 0));
    assert!(covers(&plain, 0x93, 7, 7));
    assert!(!covers(&plain, 0x93, 8, 0));
    assert!(!covers(&plain, 0x93, 0, 8));
    assert!(covers(&plain, 0x97, 0, 15));
    assert_eq!(color_of_object(&vram, &plain, 0x93, 0, 0), 1);
    assert_eq!(color_of_object(&vram, &plain, 0x93, 1, 0), 0);
    let flipped_x = ObjectAttributes { flags: 0x20, ..plain };
    assert_eq!(color_of_object(&vram, &flipped_x, 0x93, 7, 0), 1);
    let flipped_y = ObjectAttributes { flags: 0x40, ..plain };
    assert_eq!(color_of_object(&vram, &flipped_y, 0x93, 0, 7), 1);
    assert_eq!(color_of_object(&vram, &plain, 0x97, 7, 15), 3);
    assert_eq!(color_of_object(&vram, &flipped_y, 0x97, 7, 0), 3);
    assert_eq!(color_of_object(&vram, &flipped_y, 0x97, 0, 15), 1);
}

#[test]
fn objects_show_on_screen_through_their_palettes() {
    let mut memory = memory();
    fill_tile(&mut memory, 2, 0xFF, 0x00);
    set_object(&mut memory, 0, 16 + 20, 8 + 30, 2, 0x10);
    memory.write(0xFF40, 0x93);
    let mut ppu = Ppu::new(&mut memory);
    run(&mut ppu, &mut memory, FRAME);
    let screen = ppu.screen();
    assert_eq!(screen.get_pixel(30, 20).unwrap(), 0);
    for y in 21..28 {
        for x in 30..38 {
            assert_eq!(screen.get_pixel(x, y).unwrap(), 2);
        }
    }
    assert_eq!(screen.get_pixel(29, 24).unwrap(), 0);
    assert_eq!(screen.get_pixel(38, 24).unwrap(), 0);
    assert_eq!(screen.get_pixel(30, 28).unwrap(), 0);
}

#[test]
fn at_most_ten_objects_show_on_a_line() {
    let mut memory = memory();
    fill_tile(&mut memory, 2, 0xFF, 0xFF);
    for index in 0..12u16 {
        set_object(&mut memory, index, 16 + 50, 8 + 8 * index as u8, 2, 0x00);
    }
    memory.write(0xFF40, 0x93);
    let mut ppu = Ppu::new(&mut memory);
    run(&mut ppu, &mut memory, FRAME);
    let screen = ppu.screen();
    for index in 0..10 {
        assert_eq!(screen.get_pixel(8 * index, 54).unwrap(), 3);
    }
    assert_eq!(screen.get_pixel(80, 54).unwrap(), 0);
    assert_eq!(screen.get_pixel(88, 54).unwrap(), 0);
}

#[test]
fn tall_objects_ignore_the_lowest_tile_bit() {
    let mut memory = memory();
    fill_tile(&mut memory, 4, 0xFF, 0x00);
    fill_tile(&mut memory, 5, 0x00, 0xFF);
    set_object(&mut memory, 0, 16 + 10, 8, 5, 0x00);
    memory.write(0xFF40, 0x97);
    let mut ppu = Ppu::new(&mut memory);
    run(&mut ppu, &mut memory, FRAME);
    let screen = ppu.screen();
    assert_eq!(screen.get_pixel(0, 11).unwrap(), 1);
    assert_eq!(screen.get_pixel(0, 17).unwrap(), 1);
    assert_eq!(screen.get_pixel(0, 18).unwrap(), 2);
    assert_eq!(screen.get_pixel(0, 25).unwrap(), 2);
    assert_eq!(screen.get_pixel(0, 26).unwrap(), 0);
}

#[test]
fn stat_interrupt_fires_on_rising_edge_only() {
    let mut memory = memory();
    let mut ppu = Ppu::new(&mut memory);
    memory.write(0xFF41, 0x42);
    memory.write(0xFF45, 2);
    let mut requests = Vec::new();
    for dot in 1..=(5 * 456u32) {
        ppu.cycle(&mut memory);
        if memory.read(0xFF0F) & 0x02 != 0 {
            requests.push(dot);
            memory.write(0xFF0F, 0x00);
        }
    }
    assert_eq!(requests, vec![2 * 456 + 1]);
}

#[test]
fn stat_interrupt_follows_the_enabled_modes() {
    let mut memory = memory();
    let mut ppu = Ppu::new(&mut memory);
    memory.write(0xFF41, 0x0A);
    let mut requests = Vec::new();
    for dot in 1..=(2 * 456u32) {
        ppu.cycle(&mut memory);
        if memory.read(0xFF0F) & 0x02 != 0 {
            requests.push(dot);
            memory.write(0xFF0F, 0x00);
        }
    }
    assert_eq!(requests, vec![249, 456 + 249]);
    let mut memory = self::memory();
    let mut ppu = Ppu::new(&mut memory);
    memory.write(0xFF41, 0x12);
    let mut requests = 0;
    for _ in 0..FRAME {
        ppu.cycle(&mut memory);
        if memory.read(0xFF0F) & 0x02 != 0 {
            requests += 1;
            memory.write(0xFF0F, 0x00);
        }
    }
    assert_eq!(requests, 1);
}

#[test]
fn modes_have_their_stat_values() {
    assert_eq!(PPUMode::HBlank.into_stat_flag(), StatFlag::HBlankMode);
    assert_eq!(PPUMode::VBlank.into_stat_flag(), StatFlag::VBlankMode);
    assert_eq!(PPUMode::OAMSearch.into_stat_flag(), StatFlag::OAMSearchMode);
    assert_eq!(PPUMode::Rendering.into_stat_flag(), StatFlag::RenderingMode);
}

#[test]
fn tile_pixels_combine_two_bit_planes() {
    let mut bytes = [0u8; 16];
    bytes[0] = 0b1010_0000;
    bytes[1] = 0b1100_0000;
    bytes[14] = 0x01;
    let tile = Tile::new(bytes);
    assert_eq!(tile.get_pixel_color_index(0, 0), Ok(3));
    assert_eq!(tile.get_pixel_color_index(1, 0), Ok(2));
    assert_eq!(tile.get_pixel_color_index(2, 0), Ok(1));
    assert_eq!(tile.get_pixel_color_index(3, 0), Ok(0));
    assert_eq!(tile.get_pixel_color_index(7, 7), Ok(1));
    assert_eq!(tile.get_pixel_color_index(8, 0), Err(PixelOutOfRange { x: 8, y: 0 }));
    assert_eq!(tile.get_pixel_color_index(0, 8), Err(PixelOutOfRange { x: 0, y: 8 }));
    assert_eq!(Tile::default().get_pixel_color_index(3, 3), Ok(0));
    assert_eq!(pixel_of_tile(&bytes, 0, 0, 0), 3);
}

#[test]
fn object_attributes_decode_their_bytes() {
    let object = ObjectAttributes::new([20, 12, 0x42, 0b1011_0101]).unwrap();
    assert_eq!(object.y, 20);
    assert_eq!(object.x, 12);
    assert_eq!(object.tile_index, 0x42);
    assert_eq!(object.x_top_left(), 4);
    assert_eq!(object.y_top_left(), 4);
    assert!(object.under_bg_window());
    assert!(!object.flip_y());
    assert!(object.flip_x());
    assert_eq!(object.dmg_palette(), 1);
    assert_eq!(object.vram_bank(), 0);
    assert_eq!(object.cgb_palette(), 5);
    let other = ObjectAttributes::new([0, 0, 0, 0b0100_1000]).unwrap();
    assert_eq!(other.x_top_left(), -8);
    assert_eq!(other.y_top_left(), -16);
    assert!(other.flip_y());
    assert_eq!(other.vram_bank(), 1);
    assert_eq!(other.dmg_palette(), 0);
    let result: Result<ObjectAttributes, InvalidBits> = ObjectAttributes::new([0xFF; 4]);
    assert!(result.is_ok());
}

#[test]
fn palettes_map_indices_to_shades() {
    let palette = Palette::new(0b1110_0100);
    assert_eq!(palette.color_0(), 0);
    assert_eq!(palette.color_1(), 1);
    assert_eq!(palette.color_2(), 2);
    assert_eq!(palette.color_3(), 3);
    let palette = Palette::from(0b0001_1011);
    assert_eq!(palette.color_0(), 3);
    assert_eq!(palette.color_1(), 2);
    assert_eq!(palette.color_2(), 1);
    assert_eq!(palette.color_3(), 0);
    assert_eq!(palette.color(2), 1);
    assert_eq!(palette.color(9), 0);
}

#[test]
fn screen_buffer_keeps_pixels_by_position() {
    let mut buffer = ScreenBuffer::new();
    assert_eq!(buffer.get_pixel(0, 0), Ok(0));
    assert_eq!(buffer.set_pixel(159, 143, 3), Ok(()));
    assert_eq!(buffer.set_pixel(5, 2, 1), Ok(()));
    assert_eq!(buffer.get_pixel(159, 143), Ok(3));
    assert_eq!(buffer.get_pixel(5, 2), Ok(1));
    assert_eq!(buffer.pixels()[2 * 160 + 5], 1);
    assert_eq!(buffer.get_pixel(160, 0), Err(PixelOutOfRange { x: 160, y: 0 }));
    assert_eq!(buffer.get_pixel(0, 144), Err(PixelOutOfRange { x: 0, y: 144 }));
    assert_eq!(buffer.set_pixel(160, 143, 1), Err(PixelOutOfRange { x: 160, y: 143 }));
    buffer.clear();
    assert!(buffer.pixels().iter().all(|p| *p == 0));
}

#[test]
fn double_buffer_switches_front_and_back() {
    let mut buffers = ScreenDoubleBuffer::new();
    buffers.back_mut().set_pixel(1, 1, 2).unwrap();
    assert_eq!(buffers.back().get_pixel(1, 1), Ok(2));
    assert_eq!(buffers.front().get_pixel(1, 1), Ok(0));
    buffers.switch();
    assert_eq!(buffers.front().get_pixel(1, 1), Ok(2));
    assert_eq!(buffers.back().get_pixel(1, 1), Ok(0));
    buffers.back_mut().set_pixel(1, 1, 3).unwrap();
    buffers.switch();
    assert_eq!(buffers.front().get_pixel(1, 1), Ok(3));
    assert_eq!(buffers.back().get_pixel(1, 1), Ok(2));
}
