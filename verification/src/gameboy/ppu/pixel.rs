//! What one pixel of a scanline shows: the background, the window over
//! it, and the objects over or under both.

use super::priority::first_visible;
use super::{
    pixel_of_tile, shade, tile_pixel, BackgroundPixel, ObjectAttributes, ObjectPixel, Palette,
    Tilemap, OBJECTS_PER_LINE,
};
use crate::gameboy::memory::registers::{
    lcdc_alternative_addressing_mode, lcdc_background_tilemap, lcdc_background_window_priority,
    lcdc_double_height_objects, lcdc_objects_enabled, lcdc_window_enabled, lcdc_window_tilemap,
    LCDC,
};
use vstd::prelude::*;

verus! {

/// The registers that shape a scanline, as they stand when it is drawn.
#[derive(Clone, Copy, Debug)]
pub struct LineRegisters {
    pub lcdc: u8,
    pub scx: u8,
    pub scy: u8,
    pub wx: u8,
    pub wy: u8,
    pub bgp: u8,
    pub obp0: u8,
    pub obp1: u8,
    /// The scanline.
    pub ly: u8,
    /// The row of the window that the scanline shows.
    pub window_line: u8,
}

/// Where in video RAM the tile starts that stands at `column` and `row` of
/// the tile map `map`. With the alternative addressing the tile numbers
/// 0..=127 name the tiles from 0x9000 on, else every number names its tile
/// from 0x8000 on.
pub open spec fn map_tile_start(
    vram: Seq<u8>,
    map: Tilemap,
    alternative: bool,
    column: int,
    row: int,
) -> int {
    let number = vram[map.start_of() + row * 32 + column] as int;
    if alternative && number < 128 {
        (256 + number) * 16
    } else {
        number * 16
    }
}

/// The color index of the pixel at (`px`, `py`) of the 256x256 picture
/// that the tile map `map` lays out.
pub open spec fn layer_pixel(
    vram: Seq<u8>,
    map: Tilemap,
    alternative: bool,
    px: int,
    py: int,
) -> u8 {
    tile_pixel(vram, map_tile_start(vram, map, alternative, px / 8, py / 8), px % 8, py % 8)
}

/// The color index of the background in column `x` of the scanline: the
/// background picture, scrolled by SCX and SCY and wrapping around.
pub open spec fn background_pixel(vram: Seq<u8>, registers: LineRegisters, x: int) -> u8 {
    layer_pixel(
        vram,
        lcdc_background_tilemap(registers.lcdc),
        lcdc_alternative_addressing_mode(registers.lcdc),
        (registers.scx + x) % 256,
        (registers.scy + registers.ly) % 256,
    )
}

/// Whether the window reaches column `x` of the scanline.
pub open spec fn window_covers(registers: LineRegisters, x: int) -> bool {
    x + 7 >= registers.wx && registers.ly >= registers.wy
}

/// The color index of the window in column `x` of the scanline.
pub open spec fn window_pixel(vram: Seq<u8>, registers: LineRegisters, x: int) -> u8 {
    layer_pixel(
        vram,
        lcdc_window_tilemap(registers.lcdc),
        lcdc_alternative_addressing_mode(registers.lcdc),
        x + 7 - registers.wx,
        registers.window_line as int,
    )
}

/// The color index of background and window together in column `x`: zero
/// where LCDC switches both off, the window where it is on and reaches the
/// column, else the background.
pub open spec fn ground_pixel(vram: Seq<u8>, registers: LineRegisters, x: int) -> u8 {
    if !lcdc_background_window_priority(registers.lcdc) {
        0
    } else if lcdc_window_enabled(registers.lcdc) && window_covers(registers, x) {
        window_pixel(vram, registers, x)
    } else {
        background_pixel(vram, registers, x)
    }
}

/// The height of every object, by LCDC.
pub open spec fn object_height(lcdc: u8) -> int {
    if lcdc_double_height_objects(lcdc) {
        16
    } else {
        8
    }
}

/// Whether `object` lies over the pixel in column `x` of scanline `ly`.
pub open spec fn object_covers(object: ObjectAttributes, lcdc: u8, x: int, ly: int) -> bool {
    &&& object.left() <= x < object.left() + 8
    &&& object.top() <= ly < object.top() + object_height(lcdc)
}

/// The color index that `object` has over the pixel in column `x` of
/// scanline `ly`, with its flips applied. A tall object takes its lower
/// half from the tile after its own.
pub open spec fn object_color(
    vram: Seq<u8>,
    object: ObjectAttributes,
    lcdc: u8,
    x: int,
    ly: int,
) -> u8 {
    let row = if object.flipped_y() {
        object_height(lcdc) - 1 - (ly - object.top())
    } else {
        ly - object.top()
    };
    let column = if object.flipped_x() {
        7 - (x - object.left())
    } else {
        x - object.left()
    };
    tile_pixel(vram, (object.tile_index + row / 8) * 16, column, row % 8)
}

/// Whether `object` shows over the pixel in column `x` of the scanline:
/// it lies over the pixel and is not transparent there.
pub open spec fn object_shows(
    vram: Seq<u8>,
    object: ObjectAttributes,
    registers: LineRegisters,
    x: int,
) -> bool {
    object_covers(object, registers.lcdc, x, registers.ly as int) && object_color(
        vram,
        object,
        registers.lcdc,
        x,
        registers.ly as int,
    ) != 0
}

/// Among the first `count` of `objects`, the one that shows over the pixel
/// in column `x` and comes first: the one furthest to the left and, of
/// several that far left, the first in the list.
pub open spec fn front_object(
    vram: Seq<u8>,
    objects: Seq<ObjectAttributes>,
    registers: LineRegisters,
    x: int,
    count: nat,
) -> Option<int>
    decreases count,
{
    if count == 0 {
        None
    } else {
        let earlier = front_object(vram, objects, registers, x, (count - 1) as nat);
        let last = count - 1;
        if object_shows(vram, objects[last], registers, x) && (earlier is None
            || objects[last].x < objects[earlier.unwrap()].x) {
            Some(last)
        } else {
            earlier
        }
    }
}

/// The shade of the pixel in column `x` of the scanline. The object in
/// front colors the pixel through its palette, unless it stands behind the
/// background and the background is not of color 0 there; else BGP colors
/// the pixel of background and window.
pub open spec fn pixel_color(
    vram: Seq<u8>,
    objects: Seq<ObjectAttributes>,
    registers: LineRegisters,
    x: int,
) -> u8 {
    let ground = ground_pixel(vram, registers, x);
    let front = if lcdc_objects_enabled(registers.lcdc) {
        front_object(vram, objects, registers, x, objects.len())
    } else {
        None
    };
    if front is Some && !(objects[front.unwrap()].behind_background() && ground != 0) {
        shade(
            if objects[front.unwrap()].palette_number() == 0 {
                registers.obp0
            } else {
                registers.obp1
            },
            object_color(vram, objects[front.unwrap()], registers.lcdc, x, registers.ly as int),
        )
    } else {
        shade(registers.bgp, ground)
    }
}

/// The color index of the pixel at (`px`, `py`) of the picture that the
/// tile map `map` lays out.
fn layer_color(vram: &[u8], map: Tilemap, alternative: bool, px: u8, py: u8) -> (color: u8)
    requires
        vram@.len() >= 0x2000,
    ensures
        color == layer_pixel(vram@, map, alternative, px as int, py as int),
        color <= 3,
{
    let column = (px / 8) as usize;
    let row = (py / 8) as usize;
    let number = vram[map.start() + row * 32 + column] as usize;
    let start = if alternative && number < 128 {
        (256 + number) * 16
    } else {
        number * 16
    };
    pixel_of_tile(vram, start, px % 8, py % 8)
}

/// The pixel of the background in column `x` of the scanline.
pub fn get_bg_pixel(vram: &[u8], registers: &LineRegisters, x: u8) -> (pixel: BackgroundPixel)
    requires
        vram@.len() >= 0x2000,
    ensures
        pixel.color_index == background_pixel(vram@, *registers, x as int),
        pixel.color_index <= 3,
{
    let lcdc = LCDC::new(registers.lcdc);
    let px = ((registers.scx as u16 + x as u16) % 256) as u8;
    let py = ((registers.scy as u16 + registers.ly as u16) % 256) as u8;
    BackgroundPixel {
        color_index: layer_color(
            vram,
            lcdc.background_tilemap(),
            lcdc.alternative_addressing_mode(),
            px,
            py,
        ),
    }
}

/// The pixel of the window in column `x` of the scanline, if the window
/// reaches the column.
pub fn get_window_pixel(vram: &[u8], registers: &LineRegisters, x: u8) -> (pixel: Option<
    BackgroundPixel,
>)
    requires
        vram@.len() >= 0x2000,
        x < 160,
    ensures
        pixel is Some <==> window_covers(*registers, x as int),
        pixel matches Some(p) ==> p.color_index == window_pixel(vram@, *registers, x as int)
            && p.color_index <= 3,
{
    let lcdc = LCDC::new(registers.lcdc);
    if !(x as u16 + 7 >= registers.wx as u16 && registers.ly >= registers.wy) {
        return None;
    }
    let px = (x as u16 + 7 - registers.wx as u16) as u8;
    Some(
        BackgroundPixel {
            color_index: layer_color(
                vram,
                lcdc.window_tilemap(),
                lcdc.alternative_addressing_mode(),
                px,
                registers.window_line,
            ),
        },
    )
}

/// Whether `object` lies over the pixel in column `x` of scanline `ly`.
pub fn covers(object: &ObjectAttributes, lcdc: u8, x: u8, ly: u8) -> (r: bool)
    ensures
        r == object_covers(*object, lcdc, x as int, ly as int),
{
    let height: i16 = if LCDC::new(lcdc).double_height_objects() {
        16
    } else {
        8
    };
    let left = object.x_top_left();
    let top = object.y_top_left();
    left <= x as i16 && (x as i16) < left + 8 && top <= ly as i16 && (ly as i16) < top + height
}

/// The color index that `object` has over a pixel that it lies over.
#[verifier::rlimit(50)]
pub fn color_of_object(vram: &[u8], object: &ObjectAttributes, lcdc: u8, x: u8, ly: u8) -> (color:
    u8)
    requires
        vram@.len() >= 0x2000,
        object_covers(*object, lcdc, x as int, ly as int),
    ensures
        color == object_color(vram@, *object, lcdc, x as int, ly as int),
        color <= 3,
{
    let height: i16 = if LCDC::new(lcdc).double_height_objects() {
        16
    } else {
        8
    };
    let plain_row = ly as i16 - object.y_top_left();
    let plain_column = x as i16 - object.x_top_left();
    let row = if object.flip_y() {
        height - 1 - plain_row
    } else {
        plain_row
    };
    let column = if object.flip_x() {
        7 - plain_column
    } else {
        plain_column
    };
    let tile = object.tile_index as usize + (row / 8) as usize;
    pixel_of_tile(vram, tile * 16, column as u8, (row % 8) as u8)
}

/// The pixel of the object in front in column `x` of the scanline, if an
/// object shows there.
pub fn get_obj_pixel(
    vram: &[u8],
    objects: &Vec<ObjectAttributes>,
    registers: &LineRegisters,
    x: u8,
) -> (pixel: Option<ObjectPixel>)
    requires
        vram@.len() >= 0x2000,
        objects@.len() <= OBJECTS_PER_LINE,
    ensures
        pixel is Some <==> front_object(vram@, objects@, *registers, x as int, objects@.len())
            is Some,
        pixel matches Some(p) ==> ({
            let front = objects@[front_object(
                vram@,
                objects@,
                *registers,
                x as int,
                objects@.len(),
            ).unwrap()];
            &&& p.color_index == object_color(
                vram@,
                front,
                registers.lcdc,
                x as int,
                registers.ly as int,
            )
            &&& p.palette == front.palette_number()
            &&& p.under_bg_window == front.behind_background()
            &&& 1 <= p.color_index <= 3
        }),
{
    match first_visible(vram, objects, registers, x) {
        Some(index) => {
            let object = &objects[index];
            proof {
                lemma_front_object_shows(vram@, objects@, *registers, x as int, objects@.len());
            }
            Some(
                ObjectPixel {
                    color_index: color_of_object(vram, object, registers.lcdc, x, registers.ly),
                    palette: object.dmg_palette(),
                    under_bg_window: object.under_bg_window(),
                },
            )
        },
        None => None,
    }
}

/// The object in front is one of the objects, it shows, and no object that
/// shows is further left, or as far left and earlier in the list.
#[verifier::rlimit(50)]
pub proof fn lemma_front_object_shows(
    vram: Seq<u8>,
    objects: Seq<ObjectAttributes>,
    registers: LineRegisters,
    x: int,
    count: nat,
)
    requires
        count <= objects.len(),
    ensures
        front_object(vram, objects, registers, x, count) matches Some(front) ==> {
            &&& 0 <= front < count
            &&& object_shows(vram, objects[front], registers, x)
            &&& forall|i: int|
                0 <= i < count && #[trigger] object_shows(vram, objects[i], registers, x)
                    ==> objects[front].x < objects[i].x || (objects[front].x == objects[i].x
                    && front <= i)
        },
        front_object(vram, objects, registers, x, count) is None ==> forall|i: int|
            0 <= i < count ==> !#[trigger] object_shows(vram, objects[i], registers, x),
    decreases count,
{
    if count > 0 {
        lemma_front_object_shows(vram, objects, registers, x, (count - 1) as nat);
    }
}

/// The shade of the pixel in column `x` of the scanline.
#[verifier::rlimit(50)]
pub fn compose_pixel(
    vram: &[u8],
    objects: &Vec<ObjectAttributes>,
    registers: &LineRegisters,
    x: u8,
) -> (color: u8)
    requires
        vram@.len() >= 0x2000,
        objects@.len() <= OBJECTS_PER_LINE,
        x < 160,
    ensures
        color == pixel_color(vram@, objects@, *registers, x as int),
        color <= 3,
{
    let lcdc = LCDC::new(registers.lcdc);
    let bg_pixel = if lcdc.background_window_priority() {
        get_bg_pixel(vram, registers, x)
    } else {
        BackgroundPixel { color_index: 0 }
    };
    let window_pixel = if lcdc.window_enabled() && lcdc.background_window_priority() {
        get_window_pixel(vram, registers, x)
    } else {
        None
    };
    let ground = match window_pixel {
        Some(pixel) => pixel,
        None => bg_pixel,
    };
    let obj_pixel = if lcdc.objects_enabled() {
        get_obj_pixel(vram, objects, registers, x)
    } else {
        None
    };
    match obj_pixel {
        Some(pixel) => {
            if !(pixel.under_bg_window && ground.color_index != 0) {
                let palette = if pixel.palette == 0 {
                    Palette::new(registers.obp0)
                } else {
                    Palette::new(registers.obp1)
                };
                palette.color(pixel.color_index)
            } else {
                Palette::new(registers.bgp).color(ground.color_index)
            }
        },
        None => Palette::new(registers.bgp).color(ground.color_index),
    }
}

} // verus!
