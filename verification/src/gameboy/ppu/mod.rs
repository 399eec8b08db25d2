pub mod frame;
pub mod pixel;
pub mod priority;

use self::pixel::{compose_pixel, object_height, pixel_color, LineRegisters};
use super::memory::registers::{
    addresses, lcdc_background_window_priority, lcdc_double_height_objects, lcdc_screen_enabled,
    lcdc_window_enabled, Interrupt, InvalidBits, StatFlag, LCDC,
};
use super::memory::{Memory, MemoryView, Vram};
use crate::util::{bit_is_set, bit_of};
use vstd::prelude::*;

verus! {

/// Width of the screen in pixels.
pub const SCREEN_WIDTH: usize = 160;

/// Height of the screen in pixels.
pub const SCREEN_HEIGHT: usize = 144;

/// Number of pixels of the screen.
pub const SCREEN_PIXELS: usize = 23040;

/// Most objects that one scanline shows.
pub const OBJECTS_PER_LINE: usize = 10;

/// The four modes of the PPU.
#[derive(Debug, Clone, Copy, PartialEq, Eq, Structural)]
pub enum PPUMode {
    HBlank,
    VBlank,
    OAMSearch,
    Rendering,
}

impl PPUMode {
    /// The field of STAT that stands for the mode.
    pub open spec fn stat_flag_of(self) -> StatFlag {
        match self {
            PPUMode::HBlank => StatFlag::HBlankMode,
            PPUMode::VBlank => StatFlag::VBlankMode,
            PPUMode::OAMSearch => StatFlag::OAMSearchMode,
            PPUMode::Rendering => StatFlag::RenderingMode,
        }
    }

    #[inline]
    pub fn into_stat_flag(self) -> (flag: StatFlag)
        ensures
            flag == self.stat_flag_of(),
    {
        match self {
            PPUMode::HBlank => StatFlag::HBlankMode,
            PPUMode::VBlank => StatFlag::VBlankMode,
            PPUMode::OAMSearch => StatFlag::OAMSearchMode,
            PPUMode::Rendering => StatFlag::RenderingMode,
        }
    }
}

/// A pixel position that lies outside the tile or the screen.
#[derive(Debug, Clone, Copy, PartialEq, Eq, Structural)]
pub struct PixelOutOfRange {
    pub x: usize,
    pub y: usize,
}

/// The color index, 0 to 3, of the pixel in column `x` and row `y` of the
/// tile whose 16 bytes start at `start` in `bytes`. Each row takes two
/// bytes, the first with the low bits of its eight pixels and the second
/// with the high bits; column 0 is bit 7.
pub open spec fn tile_pixel(bytes: Seq<u8>, start: int, x: int, y: int) -> u8 {
    let low: u8 = if bit_of(bytes[start + 2 * y], (7 - x) as u8) {
        1
    } else {
        0
    };
    let high: u8 = if bit_of(bytes[start + 2 * y + 1], (7 - x) as u8) {
        2
    } else {
        0
    };
    (high + low) as u8
}

/// The pixel in column `x` and row `y` of the tile that starts at `start`.
pub fn pixel_of_tile(bytes: &[u8], start: usize, x: u8, y: u8) -> (color: u8)
    requires
        x < 8,
        y < 8,
        start + 16 <= bytes@.len(),
    ensures
        color == tile_pixel(bytes@, start as int, x as int, y as int),
        color <= 3,
{
    let length = bytes.len();
    let low: u8 = if bit_is_set(bytes[start + 2 * y as usize], 7 - x) {
        1
    } else {
        0
    };
    let high: u8 = if bit_is_set(bytes[start + 2 * y as usize + 1], 7 - x) {
        2
    } else {
        0
    };
    high + low
}

/// A tile: 8 by 8 pixels in 16 bytes.
#[derive(Debug, Clone, Copy)]
pub struct Tile {
    bytes: [u8; 16],
}

impl View for Tile {
    type V = Seq<u8>;

    closed spec fn view(&self) -> Seq<u8> {
        self.bytes@
    }
}

impl Default for Tile {
    fn default() -> (tile: Self)
        ensures
            tile@ == Seq::new(16, |i: int| 0u8),
    {
        let tile = Self { bytes: [0u8;16] };
        assert(tile.bytes@ =~= Seq::new(16, |i: int| 0u8));
        tile
    }
}

impl Tile {
    pub fn new(bytes: [u8; 16]) -> (tile: Self)
        ensures
            tile@ == bytes@,
    {
        Self { bytes }
    }

    /// The color index of the pixel in column `x` and row `y`.
    pub fn get_pixel_color_index(&self, x: u8, y: u8) -> (r: Result<u8, PixelOutOfRange>)
        ensures
            r is Ok <==> x < 8 && y < 8,
            r matches Ok(color) ==> color == tile_pixel(self@, 0, x as int, y as int) && color <= 3,
            r matches Err(e) ==> e == (PixelOutOfRange { x: x as usize, y: y as usize }),
    {
        if !(x < 8 && y < 8) {
            return Err(PixelOutOfRange { x: x as usize, y: y as usize });
        }
        Ok(pixel_of_tile(self.bytes.as_slice(), 0, x, y))
    }
}

/// One of the two 32x32 tile maps held in video RAM.
#[derive(Clone, Copy, PartialEq, Eq, Debug, Structural)]
pub enum Tilemap {
    /// Resides at 0x9800..=0x9BFF
    Tilemap0,
    /// Resides at 0x9C00..=0x9FFF
    Tilemap1,
}

impl Tilemap {
    /// Where the map starts in video RAM.
    pub open spec fn start_of(self) -> int {
        match self {
            Tilemap::Tilemap0 => 0x1800,
            Tilemap::Tilemap1 => 0x1C00,
        }
    }

    pub fn start(self) -> (start: usize)
        ensures
            start == self.start_of(),
    {
        match self {
            Tilemap::Tilemap0 => 0x1800,
            Tilemap::Tilemap1 => 0x1C00,
        }
    }
}

/// One of the three blocks of 128 tiles held in video RAM.
#[derive(Clone, Copy, PartialEq, Eq, Debug, Structural)]
pub enum Tileset {
    /// Resides at 0x8000..=0x87FF
    Tileset0,
    /// Resides at 0x8800..=0x8FFF
    Tileset1,
    /// Resides at 0x9000..=0x97FF
    Tileset2,
}

/// One entry of object attribute memory.
#[derive(Debug, Clone, Copy, PartialEq, Eq, Structural)]
pub struct ObjectAttributes {
    pub x: u8,
    pub y: u8,
    pub tile_index: u8,
    pub flags: u8,
}

impl ObjectAttributes {
    /// The screen column of the object's left edge.
    pub open spec fn left(self) -> int {
        self.x - 8
    }

    /// The screen row of the object's top edge.
    pub open spec fn top(self) -> int {
        self.y - 16
    }

    pub open spec fn flipped_x(self) -> bool {
        bit_of(self.flags, 5)
    }

    pub open spec fn flipped_y(self) -> bool {
        bit_of(self.flags, 6)
    }

    pub open spec fn behind_background(self) -> bool {
        bit_of(self.flags, 7)
    }

    /// Which of the two object palettes colors the object.
    pub open spec fn palette_number(self) -> u8 {
        if bit_of(self.flags, 4) {
            1
        } else {
            0
        }
    }

    pub fn new(bytes: [u8; 4]) -> (r: Result<Self, InvalidBits>)
        ensures
            r == Ok::<Self, InvalidBits>(
                ObjectAttributes {
                    x: bytes@[1],
                    y: bytes@[0],
                    tile_index: bytes@[2],
                    flags: bytes@[3],
                },
            ),
    {
        Ok(Self { x: bytes[1], y: bytes[0], tile_index: bytes[2], flags: bytes[3] })
    }

    pub fn x_top_left(&self) -> (left: i16)
        ensures
            left == self.left(),
    {
        self.x as i16 - 8
    }

    pub fn y_top_left(&self) -> (top: i16)
        ensures
            top == self.top(),
    {
        self.y as i16 - 16
    }

    pub fn flip_x(&self) -> (flipped: bool)
        ensures
            flipped == self.flipped_x(),
    {
        bit_is_set(self.flags, 5)
    }

    pub fn flip_y(&self) -> (flipped: bool)
        ensures
            flipped == self.flipped_y(),
    {
        bit_is_set(self.flags, 6)
    }

    pub fn vram_bank(&self) -> (bank: u8)
        ensures
            bank == if bit_of(self.flags, 3) { 1u8 } else { 0u8 },
    {
        if bit_is_set(self.flags, 3) {
            1
        } else {
            0
        }
    }

    pub fn dmg_palette(&self) -> (palette: u8)
        ensures
            palette == self.palette_number(),
    {
        if bit_is_set(self.flags, 4) {
            1
        } else {
            0
        }
    }

    pub fn cgb_palette(&self) -> (palette: u8)
        ensures
            palette == self.flags % 8,
    {
        self.flags % 8
    }

    pub fn under_bg_window(&self) -> (under: bool)
        ensures
            under == self.behind_background(),
    {
        bit_is_set(self.flags, 7)
    }
}

/// The shade, 0 to 3, that the palette register `palette` gives to the
/// color index `index`: bits `2 * index` and `2 * index + 1`.
pub open spec fn shade(palette: u8, index: u8) -> u8 {
    if index == 0 {
        palette % 4
    } else if index == 1 {
        (palette / 4) % 4
    } else if index == 2 {
        (palette / 16) % 4
    } else {
        palette / 64
    }
}

/// A palette register: four shades, two bits each.
#[derive(Clone, Copy, Debug)]
pub struct Palette {
    data: u8,
}

impl View for Palette {
    type V = u8;

    closed spec fn view(&self) -> u8 {
        self.data
    }
}

impl Palette {
    pub fn new(data: u8) -> (palette: Self)
        ensures
            palette@ == data,
    {
        Self { data }
    }

    pub fn color_0(&self) -> (color: u8)
        ensures
            color == shade(self@, 0),
    {
        self.data % 4
    }

    pub fn color_1(&self) -> (color: u8)
        ensures
            color == shade(self@, 1),
    {
        (self.data / 4) % 4
    }

    pub fn color_2(&self) -> (color: u8)
        ensures
            color == shade(self@, 2),
    {
        (self.data / 16) % 4
    }

    pub fn color_3(&self) -> (color: u8)
        ensures
            color == shade(self@, 3),
    {
        self.data / 64
    }

    /// The shade of the color index `index`; an index above 3 counts as 3.
    pub fn color(&self, index: u8) -> (color: u8)
        ensures
            color == shade(self@, index),
            color <= 3,
    {
        if index == 0 {
            self.color_0()
        } else if index == 1 {
            self.color_1()
        } else if index == 2 {
            self.color_2()
        } else {
            self.color_3()
        }
    }
}

impl From<u8> for Palette {
    fn from(data: u8) -> (r: Self) {
        Self { data }
    }
}

impl vstd::std_specs::convert::FromSpecImpl<u8> for Palette {
    open spec fn obeys_from_spec() -> bool {
        true
    }

    closed spec fn from_spec(data: u8) -> Self {
        Self { data }
    }
}

/// The palette made from a byte holds that byte.
pub proof fn lemma_palette_from(data: u8)
    ensures
        <Palette as vstd::std_specs::convert::FromSpec<u8>>::from_spec(data)@ == data,
{
}

/// A pixel of the background or of the window.
pub struct BackgroundPixel {
    pub color_index: u8,
}

/// A pixel of an object.
pub struct ObjectPixel {
    pub color_index: u8,
    pub palette: u8,
    pub under_bg_window: bool,
}

/// The pixels of one picture, row after row, each a shade from 0 to 3.
#[derive(Clone)]
pub struct ScreenBuffer {
    pixels: [u8; 23040],
}

impl View for ScreenBuffer {
    type V = Seq<u8>;

    closed spec fn view(&self) -> Seq<u8> {
        self.pixels@
    }
}

/// A picture in which every pixel has shade 0.
pub open spec fn blank_screen() -> Seq<u8> {
    Seq::new(SCREEN_PIXELS as nat, |i: int| 0u8)
}

impl ScreenBuffer {
    pub fn new() -> (buffer: Self)
        ensures
            buffer@ == blank_screen(),
    {
        let buffer = Self { pixels: [0u8;23040] };
        assert(buffer.pixels@ =~= blank_screen());
        buffer
    }

    /// Every picture has as many pixels as the screen.
    pub proof fn lemma_len(&self)
        ensures
            self@.len() == SCREEN_PIXELS,
    {
    }

    /// The shade of the pixel in column `x` and row `y`.
    pub fn get_pixel(&self, x: usize, y: usize) -> (r: Result<u8, PixelOutOfRange>)
        ensures
            r is Ok <==> x < SCREEN_WIDTH && y < SCREEN_HEIGHT,
            r matches Ok(value) ==> value == self@[y * SCREEN_WIDTH + x],
            r matches Err(e) ==> e == (PixelOutOfRange { x, y }),
    {
        if !(x < SCREEN_WIDTH && y < SCREEN_HEIGHT) {
            return Err(PixelOutOfRange { x, y });
        }
        let index = y * SCREEN_WIDTH + x;
        Ok(self.pixels[index])
    }

    /// Gives the pixel in column `x` and row `y` the shade `value`.
    pub fn set_pixel(&mut self, x: usize, y: usize, value: u8) -> (r: Result<(), PixelOutOfRange>)
        ensures
            r is Ok <==> x < SCREEN_WIDTH && y < SCREEN_HEIGHT,
            r is Ok ==> final(self)@ == old(self)@.update(y * SCREEN_WIDTH + x, value),
            r is Err ==> final(self)@ == old(self)@,
            r matches Err(e) ==> e == (PixelOutOfRange { x, y }),
    {
        if !(x < SCREEN_WIDTH && y < SCREEN_HEIGHT) {
            return Err(PixelOutOfRange { x, y });
        }
        let index = y * SCREEN_WIDTH + x;
        self.pixels[index] = value;
        Ok(())
    }

    /// Gives every pixel the shade 0.
    pub fn clear(&mut self)
        ensures
            final(self)@ == blank_screen(),
    {
        let mut i: usize = 0;
        while i < SCREEN_PIXELS
            invariant
                i <= SCREEN_PIXELS,
                self@.len() == SCREEN_PIXELS,
                forall|k: int| 0 <= k < i ==> self@[k] == 0,
            decreases SCREEN_PIXELS - i,
        {
            self.pixels[i] = 0;
            i = i + 1;
        }
        assert(self@ =~= blank_screen());
    }

    /// The pixels, row after row.
    pub fn pixels(&self) -> (pixels: &[u8; 23040])
        ensures
            pixels@ == self@,
    {
        &self.pixels
    }
}

/// Two pictures: the front one is shown while the back one is drawn.
pub struct ScreenDoubleBuffer {
    first: Box<ScreenBuffer>,
    second: Box<ScreenBuffer>,
    back_is_first: bool,
}

impl ScreenDoubleBuffer {
    /// The picture that is shown.
    pub closed spec fn front_view(&self) -> Seq<u8> {
        if self.back_is_first {
            self.second@
        } else {
            self.first@
        }
    }

    /// The picture that is drawn.
    pub closed spec fn back_view(&self) -> Seq<u8> {
        if self.back_is_first {
            self.first@
        } else {
            self.second@
        }
    }

    pub fn new() -> (buffers: Self)
        ensures
            buffers.front_view() == blank_screen(),
            buffers.back_view() == blank_screen(),
    {
        ScreenDoubleBuffer {
            first: Box::new(ScreenBuffer::new()),
            second: Box::new(ScreenBuffer::new()),
            back_is_first: true,
        }
    }

    /// The picture that is shown.
    pub fn front(&self) -> (front: &ScreenBuffer)
        ensures
            front@ == self.front_view(),
    {
        if self.back_is_first {
            &self.second
        } else {
            &self.first
        }
    }

    /// The picture that is drawn.
    pub fn back(&self) -> (back: &ScreenBuffer)
        ensures
            back@ == self.back_view(),
    {
        if self.back_is_first {
            &self.first
        } else {
            &self.second
        }
    }

    /// The picture that is drawn, to draw into.
    pub fn back_mut(&mut self) -> (back: &mut ScreenBuffer)
        ensures
            back@ == old(self).back_view(),
            final(self).back_view() == final(back)@,
            final(self).front_view() == old(self).front_view(),
    {
        if self.back_is_first {
            &mut self.first
        } else {
            &mut self.second
        }
    }

    /// Makes the two pictures change places.
    pub fn switch(&mut self)
        ensures
            final(self).front_view() == old(self).back_view(),
            final(self).back_view() == old(self).front_view(),
    {
        self.back_is_first = !self.back_is_first;
    }
}

/// Dots that the search for the objects of a scanline takes.
pub const OAM_SEARCH_DOTS: u16 = 80;

/// Dots that the drawing of a scanline takes.
pub const RENDERING_DOTS: u16 = 168;

/// Dots of rest after a scanline.
pub const HBLANK_DOTS: u16 = 208;

/// Dots of one scanline, drawn or not.
pub const LINE_DOTS: u16 = 456;

/// Scanlines of one frame: 144 that are drawn and 10 of rest.
pub const FRAME_LINES: u8 = 154;

/// The scanline on whose end the rest between two frames begins.
pub const LAST_DRAWN_LINE: u8 = 143;

/// The last scanline of a frame.
pub const LAST_LINE: u8 = 153;

/// Whether `pixels` is a picture: as many shades from 0 to 3 as the screen
/// has pixels.
pub open spec fn is_picture(pixels: Seq<u8>) -> bool {
    &&& pixels.len() == SCREEN_PIXELS
    &&& forall|i: int| 0 <= i < pixels.len() ==> #[trigger] pixels[i] <= 3
}

/// The state of the PPU.
pub struct PpuView {
    /// Dots left of the current mode, the coming dot included.
    pub cycles: u16,
    pub mode: PPUMode,
    /// Whether a source of the STAT interrupt was active on the last dot.
    pub interrupt_ongoing: bool,
    /// The picture that is shown.
    pub front: Seq<u8>,
    /// The picture that is drawn.
    pub back: Seq<u8>,
    /// The objects of the current scanline, in the order of the table.
    pub scanline_objects: Seq<ObjectAttributes>,
    /// The row of the window that the next scanline with the window shows.
    pub window_line_counter: u8,
}

impl PpuView {
    /// Both pictures have the size of the screen and hold shades from 0 to
    /// 3 only, and no more than ten objects stand on the scanline.
    pub open spec fn wf(self) -> bool {
        &&& is_picture(self.front)
        &&& is_picture(self.back)
        &&& self.scanline_objects.len() <= OBJECTS_PER_LINE
    }
}

/// The PPU of a console that was just switched on.
pub open spec fn initial_ppu() -> PpuView {
    PpuView {
        cycles: OAM_SEARCH_DOTS,
        mode: PPUMode::OAMSearch,
        interrupt_ongoing: false,
        front: blank_screen(),
        back: blank_screen(),
        scanline_objects: Seq::empty(),
        window_line_counter: 0,
    }
}

/// Whether a source of the STAT interrupt is active: one of the three
/// modes, or the match of LY with LYC, with its enable bit set in STAT.
pub open spec fn stat_line(mode: PPUMode, stat: u8, ly: u8, lyc: u8) -> bool {
    ||| bit_of(stat, 3) && mode == PPUMode::HBlank
    ||| bit_of(stat, 4) && mode == PPUMode::VBlank
    ||| bit_of(stat, 5) && mode == PPUMode::OAMSearch
    ||| bit_of(stat, 6) && ly == lyc
}

/// The PPU and the memory after the sources of the STAT interrupt were
/// looked at: the interrupt is requested when one becomes active and none
/// was before.
pub open spec fn after_stat_check(ppu: PpuView, memory: MemoryView) -> (PpuView, MemoryView) {
    let active = stat_line(
        ppu.mode,
        memory.read(addresses::STAT),
        memory.read(addresses::LY),
        memory.read(addresses::LYC),
    );
    (
        PpuView { interrupt_ongoing: active, ..ppu },
        if active && !ppu.interrupt_ongoing {
            memory.request_interrupt(Interrupt::STAT)
        } else {
            memory
        },
    )
}

/// The memory with `mode` in the two low bits of STAT.
pub open spec fn with_mode(memory: MemoryView, mode: PPUMode) -> MemoryView {
    memory.write(
        addresses::STAT,
        (memory.read(addresses::STAT) - memory.read(addresses::STAT) % 4
            + mode.stat_flag_of().mask_of()) as u8,
    )
}

/// The scanline after `ly`: the first follows the last.
pub open spec fn next_line(ly: u8) -> u8 {
    ((ly + 1) % (FRAME_LINES as int)) as u8
}

/// The memory with LY one scanline further.
pub open spec fn with_next_line(memory: MemoryView) -> MemoryView {
    memory.write(addresses::LY, next_line(memory.read(addresses::LY)))
}

/// Entry `index` of the table of objects `oam`. Where objects are tall,
/// the lowest bit of the tile number counts as zero.
pub open spec fn oam_object(oam: Seq<u8>, index: int, lcdc: u8) -> ObjectAttributes {
    ObjectAttributes {
        y: oam[4 * index],
        x: oam[4 * index + 1],
        tile_index: if lcdc_double_height_objects(lcdc) {
            (oam[4 * index + 2] - oam[4 * index + 2] % 2) as u8
        } else {
            oam[4 * index + 2]
        },
        flags: oam[4 * index + 3],
    }
}

/// Whether the search takes `object` for scanline `ly`.
pub open spec fn on_line(object: ObjectAttributes, lcdc: u8, ly: u8) -> bool {
    object.top() < ly <= object.top() + object_height(lcdc) - 1
}

/// The objects that the search finds for scanline `ly` among the first
/// `count` entries of the table: those on the line, in the order of the
/// table, and no more than ten.
pub open spec fn found_objects(oam: Seq<u8>, lcdc: u8, ly: u8, count: nat) -> Seq<
    ObjectAttributes,
>
    decreases count,
{
    if count == 0 {
        Seq::empty()
    } else {
        let earlier = found_objects(oam, lcdc, ly, (count - 1) as nat);
        if earlier.len() < OBJECTS_PER_LINE && on_line(oam_object(oam, count - 1, lcdc), lcdc, ly) {
            earlier.push(oam_object(oam, count - 1, lcdc))
        } else {
            earlier
        }
    }
}

/// The PPU after the search for the objects of the scanline in LY.
pub open spec fn searched(ppu: PpuView, memory: MemoryView) -> PpuView {
    PpuView {
        scanline_objects: found_objects(
            memory.oam,
            memory.read(addresses::LCDC),
            memory.read(addresses::LY),
            40,
        ),
        ..ppu
    }
}

/// The registers that shape the scanline in LY.
pub open spec fn line_registers(ppu: PpuView, memory: MemoryView) -> LineRegisters {
    LineRegisters {
        lcdc: memory.read(addresses::LCDC),
        scx: memory.read(addresses::SCX),
        scy: memory.read(addresses::SCY),
        wx: memory.read(addresses::WX),
        wy: memory.read(addresses::WY),
        bgp: memory.read(addresses::BGP),
        obp0: memory.read(addresses::OBP0),
        obp1: memory.read(addresses::OBP1),
        ly: memory.read(addresses::LY),
        window_line: ppu.window_line_counter,
    }
}

/// Whether the scanline shows a part of the window.
pub open spec fn window_shown(registers: LineRegisters) -> bool {
    &&& lcdc_window_enabled(registers.lcdc)
    &&& lcdc_background_window_priority(registers.lcdc)
    &&& registers.ly >= registers.wy
    &&& registers.wx <= 166
}

/// The picture `back` with scanline `ly` drawn up to column `columns`.
pub open spec fn drawn(
    back: Seq<u8>,
    vram: Seq<u8>,
    objects: Seq<ObjectAttributes>,
    registers: LineRegisters,
    columns: int,
) -> Seq<u8> {
    Seq::new(
        SCREEN_PIXELS as nat,
        |i: int|
            if i / 160 == registers.ly && i % 160 < columns {
                pixel_color(vram, objects, registers, i % 160)
            } else {
                back[i]
            },
    )
}

/// The PPU after it drew the scanline in LY into the back picture. With
/// the display off it blanks the back picture instead, and in the rest
/// between two frames it draws nothing. The window moves on by a row after
/// a scanline that shows it.
pub open spec fn rendered(ppu: PpuView, memory: MemoryView) -> PpuView {
    let registers = line_registers(ppu, memory);
    if !lcdc_screen_enabled(registers.lcdc) {
        PpuView { back: blank_screen(), ..ppu }
    } else if registers.ly >= SCREEN_HEIGHT {
        ppu
    } else {
        PpuView {
            back: drawn(ppu.back, memory.vram, ppu.scanline_objects, registers, 160),
            window_line_counter: if window_shown(registers) && ppu.window_line_counter < 0xFF {
                (ppu.window_line_counter + 1) as u8
            } else {
                ppu.window_line_counter
            },
            ..ppu
        }
    }
}

/// The PPU and the memory after the current mode ended. The search is
/// followed by the drawing, the drawing by the rest after the line, and
/// that by the search for the next line or, after the last drawn line, by
/// the rest between two frames, on whose entry the two pictures change
/// places and the V-Blank interrupt is requested. The rest between two
/// frames lasts ten lines; the first line of the next frame follows it.
pub open spec fn after_mode(ppu: PpuView, memory: MemoryView) -> (PpuView, MemoryView) {
    let ly = memory.read(addresses::LY);
    match ppu.mode {
        PPUMode::OAMSearch => (
            rendered(
                PpuView { mode: PPUMode::Rendering, cycles: RENDERING_DOTS, ..ppu },
                with_mode(memory, PPUMode::Rendering),
            ),
            with_mode(memory, PPUMode::Rendering),
        ),
        PPUMode::Rendering => (
            PpuView { mode: PPUMode::HBlank, cycles: HBLANK_DOTS, ..ppu },
            with_mode(memory, PPUMode::HBlank),
        ),
        PPUMode::HBlank => if ly >= LAST_DRAWN_LINE {
            (
                PpuView {
                    mode: PPUMode::VBlank,
                    cycles: LINE_DOTS,
                    front: ppu.back,
                    back: ppu.front,
                    ..ppu
                },
                with_next_line(with_mode(memory, PPUMode::VBlank)).request_interrupt(
                    Interrupt::VBlank,
                ),
            )
        } else {
            (
                searched(
                    PpuView { mode: PPUMode::OAMSearch, cycles: OAM_SEARCH_DOTS, ..ppu },
                    with_next_line(with_mode(memory, PPUMode::OAMSearch)),
                ),
                with_next_line(with_mode(memory, PPUMode::OAMSearch)),
            )
        },
        PPUMode::VBlank => if ly >= LAST_LINE {
            (
                searched(
                    PpuView {
                        mode: PPUMode::OAMSearch,
                        cycles: OAM_SEARCH_DOTS,
                        window_line_counter: 0,
                        ..ppu
                    },
                    with_next_line(with_mode(memory, PPUMode::OAMSearch)),
                ),
                with_next_line(with_mode(memory, PPUMode::OAMSearch)),
            )
        } else {
            (PpuView { cycles: LINE_DOTS, ..ppu }, with_next_line(memory))
        },
    }
}

/// The PPU and the memory one dot later: the sources of the STAT
/// interrupt are looked at, and the current mode goes on or ends.
#[verifier::opaque]
pub open spec fn after_dot(ppu: PpuView, memory: MemoryView) -> (PpuView, MemoryView) {
    let checked = after_stat_check(ppu, memory);
    if checked.0.cycles > 1 {
        (PpuView { cycles: (checked.0.cycles - 1) as u16, ..checked.0 }, checked.1)
    } else {
        after_mode(checked.0, checked.1)
    }
}

/// The pixel-processing unit.
pub struct Ppu {
    cycles: u16,
    mode: PPUMode,
    interrupt_ongoing: bool,
    buffers: ScreenDoubleBuffer,
    scanline_objects: Vec<ObjectAttributes>,
    window_line_counter: u8,
}

impl View for Ppu {
    type V = PpuView;

    closed spec fn view(&self) -> PpuView {
        PpuView {
            cycles: self.cycles,
            mode: self.mode,
            interrupt_ongoing: self.interrupt_ongoing,
            front: self.buffers.front_view(),
            back: self.buffers.back_view(),
            scanline_objects: self.scanline_objects@,
            window_line_counter: self.window_line_counter,
        }
    }
}

impl Ppu {
    pub fn new(memory: &mut Memory) -> (ppu: Self)
        ensures
            ppu@ == initial_ppu(),
            ppu@.wf(),
            final(memory)@ == old(memory)@.write(
                addresses::STAT,
                StatFlag::OAMSearchMode.mask_of(),
            ).write(addresses::LY, 0).write(addresses::SCX, 0).write(addresses::SCY, 0),
    {
        memory.write(addresses::STAT, StatFlag::OAMSearchMode.mask());
        memory.write(addresses::LY, 0x00);
        memory.write(addresses::SCX, 0x00);
        memory.write(addresses::SCY, 0x00);
        Self {
            cycles: OAM_SEARCH_DOTS,
            mode: PPUMode::OAMSearch,
            interrupt_ongoing: false,
            buffers: ScreenDoubleBuffer::new(),
            scanline_objects: Vec::with_capacity(OBJECTS_PER_LINE),
            window_line_counter: 0,
        }
    }

    #[inline]
    pub fn get_lcdc(memory: &Memory) -> (lcdc: LCDC)
        ensures
            lcdc@ == memory@.read(addresses::LCDC),
    {
        LCDC::new(memory.read(addresses::LCDC))
    }

    #[inline]
    pub fn get_stat(memory: &Memory) -> (stat: u8)
        ensures
            stat == memory@.read(addresses::STAT),
    {
        memory.read(addresses::STAT)
    }

    #[inline]
    fn set_mode(&mut self, memory: &mut Memory, mode: PPUMode)
        ensures
            final(self)@ == (PpuView { mode, ..old(self)@ }),
            final(memory)@ == with_mode(old(memory)@, mode),
    {
        self.mode = mode;
        let stat = memory.read(addresses::STAT);
        memory.write(addresses::STAT, stat - stat % 4 + mode.into_stat_flag().mask());
    }

    #[inline]
    fn update_stat_interrupt(&mut self, memory: &mut Memory)
        ensures
            (final(self)@, final(memory)@) == after_stat_check(old(self)@, old(memory)@),
    {
        let stat = Self::get_stat(memory);
        let ly = memory.read(addresses::LY);
        let lyc = memory.read(addresses::LYC);
        let active = (bit_is_set(stat, 3) && self.mode == PPUMode::HBlank) || (bit_is_set(stat, 4)
            && self.mode == PPUMode::VBlank) || (bit_is_set(stat, 5) && self.mode
            == PPUMode::OAMSearch) || (bit_is_set(stat, 6) && ly == lyc);
        if active && !self.interrupt_ongoing {
            memory.request_interrupt(Interrupt::STAT);
        }
        self.interrupt_ongoing = active;
    }

    /// The picture that is shown: 160 by 144 shades from 0 to 3.
    pub fn screen(&self) -> (screen: &ScreenBuffer)
        ensures
            screen@ == self@.front,
            self@.wf() ==> is_picture(screen@),
    {
        self.buffers.front()
    }

    #[inline]
    fn increment_ly(memory: &mut Memory)
        ensures
            final(memory)@ == with_next_line(old(memory)@),
    {
        let new_ly = ((memory.read(addresses::LY) as u16 + 1) % FRAME_LINES as u16) as u8;
        memory.write(addresses::LY, new_ly);
    }

#[verifier::rlimit(50)]
    fn oam_search(&mut self, memory: &Memory)
        ensures
            final(self)@ == searched(old(self)@, memory@),
            final(self)@.scanline_objects.len() <= OBJECTS_PER_LINE,
    {
        self.scanline_objects.clear();
        let ly = memory.read(addresses::LY);
        let lcdc = Self::get_lcdc(memory);
        let tall = lcdc.double_height_objects();
        let height: i16 = if tall {
            16
        } else {
            8
        };
        let oam = memory.oam().as_slice();
        let mut index: usize = 0;
        while index < 40
            invariant
                index <= 40,
                oam@ == memory@.oam,
                oam@.len() == 160,
                lcdc@ == memory@.read(addresses::LCDC),
                tall == lcdc_double_height_objects(lcdc@),
                height == object_height(lcdc@),
                ly == memory@.read(addresses::LY),
                self@ == (PpuView { scanline_objects: self@.scanline_objects, ..old(self)@ }),
                self@.scanline_objects == found_objects(oam@, lcdc@, ly, index as nat),
                self@.scanline_objects.len() <= OBJECTS_PER_LINE,
            decreases 40 - index,
        {
            let tile = oam[4 * index + 2];
            let object = ObjectAttributes {
                y: oam[4 * index],
                x: oam[4 * index + 1],
                tile_index: if tall {
                    tile - tile % 2
                } else {
                    tile
                },
                flags: oam[4 * index + 3],
            };
            let top = object.y_top_left();
            if self.scanline_objects.len() < OBJECTS_PER_LINE && top < ly as i16 && ly as i16 <= top
                + height - 1 {
                self.scanline_objects.push(object);
            }
            index = index + 1;
        }
    }

#[verifier::rlimit(50)]
    fn render_scanline(&mut self, memory: &Memory)
        requires
            old(self)@.wf(),
        ensures
            final(self)@ == rendered(old(self)@, memory@),
            final(self)@.wf(),
    {
        let lcdc = Self::get_lcdc(memory);
        if !lcdc.screen_enabled() {
            self.buffers.back_mut().clear();
            return ;
        }
        let registers = LineRegisters {
            lcdc: memory.read(addresses::LCDC),
            scx: memory.read(addresses::SCX),
            scy: memory.read(addresses::SCY),
            wx: memory.read(addresses::WX),
            wy: memory.read(addresses::WY),
            bgp: memory.read(addresses::BGP),
            obp0: memory.read(addresses::OBP0),
            obp1: memory.read(addresses::OBP1),
            ly: memory.read(addresses::LY),
            window_line: self.window_line_counter,
        };
        if registers.ly as usize >= SCREEN_HEIGHT {
            return ;
        }
        let vram = memory.vram().as_slice();
        let ghost before = self@;
        let mut x: u8 = 0;
        while x < 160
            invariant
                x <= 160,
                registers.ly < SCREEN_HEIGHT,
                vram@ == memory@.vram,
                vram@.len() >= 0x2000,
                before == old(self)@,
                before.wf(),
                registers == line_registers(before, memory@),
                self@ == (PpuView { back: self@.back, ..before }),
                self@.back == drawn(
                    before.back,
                    vram@,
                    before.scanline_objects,
                    registers,
                    x as int,
                ),
                is_picture(self@.back),
            decreases 160 - x,
        {
            let color = compose_pixel(vram, &self.scanline_objects, &registers, x);
            let ghost index = registers.ly as int * 160 + x as int;
            assert(index / 160 == registers.ly && index % 160 == x);
            let _ = self.buffers.back_mut().set_pixel(x as usize, registers.ly as usize, color);
            x = x + 1;
            assert(self@.back =~= drawn(
                before.back,
                vram@,
                before.scanline_objects,
                registers,
                x as int,
            ));
        }
        let window_drawn = lcdc.window_enabled() && lcdc.background_window_priority()
            && registers.ly >= registers.wy && registers.wx <= 166;
        if window_drawn && self.window_line_counter < 0xFF {
            self.window_line_counter = self.window_line_counter + 1;
        }
    }

    /// Moves the PPU on by one dot.
#[verifier::rlimit(50)]
    pub fn cycle(&mut self, memory: &mut Memory)
        requires
            old(self)@.wf(),
        ensures
            (final(self)@, final(memory)@) == after_dot(old(self)@, old(memory)@),
            final(self)@.wf(),
    {
        reveal(after_dot);
        self.update_stat_interrupt(memory);
        if self.cycles > 1 {
            self.cycles = self.cycles - 1;
            return ;
        }
        let ly = memory.read(addresses::LY);
        match self.mode {
            PPUMode::OAMSearch => {
                self.set_mode(memory, PPUMode::Rendering);
                self.cycles = RENDERING_DOTS;
                self.render_scanline(memory);
            },
            PPUMode::Rendering => {
                self.set_mode(memory, PPUMode::HBlank);
                self.cycles = HBLANK_DOTS;
            },
            PPUMode::HBlank => {
                if ly >= LAST_DRAWN_LINE {
                    self.set_mode(memory, PPUMode::VBlank);
                    self.cycles = LINE_DOTS;
                    self.buffers.switch();
                    Self::increment_ly(memory);
                    memory.request_interrupt(Interrupt::VBlank);
                } else {
                    self.set_mode(memory, PPUMode::OAMSearch);
                    self.cycles = OAM_SEARCH_DOTS;
                    Self::increment_ly(memory);
                    self.oam_search(memory);
                }
            },
            PPUMode::VBlank => {
                if ly >= LAST_LINE {
                    self.window_line_counter = 0;
                    self.set_mode(memory, PPUMode::OAMSearch);
                    self.cycles = OAM_SEARCH_DOTS;
                    Self::increment_ly(memory);
                    self.oam_search(memory);
                } else {
                    self.cycles = LINE_DOTS;
                    Self::increment_ly(memory);
                }
            },
        }
    }
}

} // verus!
