use crate::gameboy::ppu::Tilemap;
use vstd::prelude::*;

pub mod addresses;

verus! {

/// An interrupt source. Each owns one bit of both the interrupt-enable
/// register (0xFFFF) and the interrupt-request register (0xFF0F).
#[derive(Clone, Copy, PartialEq, Eq, Debug, Structural)]
pub enum Interrupt {
    VBlank,
    STAT,
    Timer,
    Serial,
    Joypad,
}

impl Interrupt {
    /// The bit this source owns in the two interrupt registers.
    pub open spec fn mask_of(self) -> u8 {
        match self {
            Interrupt::VBlank => 0x01,
            Interrupt::STAT => 0x02,
            Interrupt::Timer => 0x04,
            Interrupt::Serial => 0x08,
            Interrupt::Joypad => 0x10,
        }
    }

    /// The number of the bit this source owns: its rank, the most urgent
    /// source being the first.
    pub open spec fn index_of(self) -> u8 {
        match self {
            Interrupt::VBlank => 0,
            Interrupt::STAT => 1,
            Interrupt::Timer => 2,
            Interrupt::Serial => 3,
            Interrupt::Joypad => 4,
        }
    }

    /// The address the CPU jumps to when it services this source.
    pub open spec fn vector_of(self) -> u16 {
        match self {
            Interrupt::VBlank => 0x40,
            Interrupt::STAT => 0x48,
            Interrupt::Timer => 0x50,
            Interrupt::Serial => 0x58,
            Interrupt::Joypad => 0x60,
        }
    }

    #[verifier::when_used_as_spec(mask_of)]
    pub fn mask(self) -> (m: u8)
        ensures
            m == self.mask_of(),
    {
        match self {
            Interrupt::VBlank => 0x01,
            Interrupt::STAT => 0x02,
            Interrupt::Timer => 0x04,
            Interrupt::Serial => 0x08,
            Interrupt::Joypad => 0x10,
        }
    }

    #[verifier::when_used_as_spec(index_of)]
    pub fn index(self) -> (i: u8)
        ensures
            i == self.index_of(),
    {
        match self {
            Interrupt::VBlank => 0,
            Interrupt::STAT => 1,
            Interrupt::Timer => 2,
            Interrupt::Serial => 3,
            Interrupt::Joypad => 4,
        }
    }

    #[verifier::when_used_as_spec(vector_of)]
    pub fn vector(self) -> (v: u16)
        ensures
            v == self.vector_of(),
    {
        match self {
            Interrupt::VBlank => 0x40,
            Interrupt::STAT => 0x48,
            Interrupt::Timer => 0x50,
            Interrupt::Serial => 0x58,
            Interrupt::Joypad => 0x60,
        }
    }
}

/// Represents an instance of the state of the LCDC register.
#[derive(Clone, Copy, Debug)]
pub struct LCDC {
    inner: u8,
}

impl View for LCDC {
    type V = u8;

    closed spec fn view(&self) -> u8 {
        self.inner
    }
}

impl From<u8> for LCDC {
    fn from(data: u8) -> (r: Self) {
        Self { inner: data }
    }
}

impl vstd::std_specs::convert::FromSpecImpl<u8> for LCDC {
    open spec fn obeys_from_spec() -> bool {
        true
    }

    closed spec fn from_spec(data: u8) -> Self {
        Self { inner: data }
    }
}

/// The register made from a byte holds that byte.
pub proof fn lemma_lcdc_from(data: u8)
    ensures
        <LCDC as vstd::std_specs::convert::FromSpec<u8>>::from_spec(data)@ == data,
{
}

/// Bit 0 of LCDC: background and window are displayed.
pub open spec fn lcdc_background_window_priority(lcdc: u8) -> bool {
    lcdc & 0x01 != 0
}

/// Bit 1 of LCDC: objects are displayed.
pub open spec fn lcdc_objects_enabled(lcdc: u8) -> bool {
    lcdc & 0x02 != 0
}

/// Bit 2 of LCDC: objects are 16 rows tall rather than 8.
pub open spec fn lcdc_double_height_objects(lcdc: u8) -> bool {
    lcdc & 0x04 != 0
}

/// Bit 3 of LCDC: the background uses the second tile map.
pub open spec fn lcdc_background_tilemap(lcdc: u8) -> Tilemap {
    if lcdc & 0x08 != 0 {
        Tilemap::Tilemap1
    } else {
        Tilemap::Tilemap0
    }
}

/// Bit 4 of LCDC is clear: tile indices 0..=127 address the block at 0x9000
/// and 128..=255 the block at 0x8800.
pub open spec fn lcdc_alternative_addressing_mode(lcdc: u8) -> bool {
    lcdc & 0x10 == 0
}

/// Bit 5 of LCDC: the window is displayed.
pub open spec fn lcdc_window_enabled(lcdc: u8) -> bool {
    lcdc & 0x20 != 0
}

/// Bit 6 of LCDC: the window uses the second tile map.
pub open spec fn lcdc_window_tilemap(lcdc: u8) -> Tilemap {
    if lcdc & 0x40 != 0 {
        Tilemap::Tilemap1
    } else {
        Tilemap::Tilemap0
    }
}

/// Bit 7 of LCDC: the display is switched on.
pub open spec fn lcdc_screen_enabled(lcdc: u8) -> bool {
    lcdc & 0x80 != 0
}

impl LCDC {
    pub fn new(data: u8) -> (r: Self)
        ensures
            r@ == data,
    {
        Self { inner: data }
    }

    pub fn background_window_priority(&self) -> (r: bool)
        ensures
            r == lcdc_background_window_priority(self@),
    {
        self.inner & 0x01 != 0
    }

    pub fn objects_enabled(&self) -> (r: bool)
        ensures
            r == lcdc_objects_enabled(self@),
    {
        self.inner & 0x02 != 0
    }

    pub fn double_height_objects(&self) -> (r: bool)
        ensures
            r == lcdc_double_height_objects(self@),
    {
        self.inner & 0x04 != 0
    }

    pub fn background_tilemap(&self) -> (r: Tilemap)
        ensures
            r == lcdc_background_tilemap(self@),
    {
        if self.inner & 0x08 != 0 {
            Tilemap::Tilemap1
        } else {
            Tilemap::Tilemap0
        }
    }

    pub fn alternative_addressing_mode(&self) -> (r: bool)
        ensures
            r == lcdc_alternative_addressing_mode(self@),
    {
        self.inner & 0x10 == 0
    }

    pub fn window_enabled(&self) -> (r: bool)
        ensures
            r == lcdc_window_enabled(self@),
    {
        self.inner & 0x20 != 0
    }

    pub fn window_tilemap(&self) -> (r: Tilemap)
        ensures
            r == lcdc_window_tilemap(self@),
    {
        if self.inner & 0x40 != 0 {
            Tilemap::Tilemap1
        } else {
            Tilemap::Tilemap0
        }
    }

    pub fn screen_enabled(&self) -> (r: bool)
        ensures
            r == lcdc_screen_enabled(self@),
    {
        self.inner & 0x80 != 0
    }
}

/// A byte has bits set that its register does not have.
#[derive(Clone, Copy, PartialEq, Eq, Debug, Structural)]
pub struct InvalidBits;

/// The fields of the STAT register (0xFF41).
#[derive(Clone, Copy, PartialEq, Eq, Debug, Structural)]
pub enum StatFlag {
    LYCEqualsLY,
    HBlankInterruptEnabled,
    VBlankInterruptEnabled,
    OAMInterruptEnabled,
    LYCEqualsLYInterruptEnabled,
    /// The two bits that hold the current mode.
    ModeBits,
    HBlankMode,
    VBlankMode,
    OAMSearchMode,
    RenderingMode,
}

impl StatFlag {
    /// The bits of STAT that make up this field or, for a mode, its value.
    pub open spec fn mask_of(self) -> u8 {
        match self {
            StatFlag::LYCEqualsLY => 0x04,
            StatFlag::HBlankInterruptEnabled => 0x08,
            StatFlag::VBlankInterruptEnabled => 0x10,
            StatFlag::OAMInterruptEnabled => 0x20,
            StatFlag::LYCEqualsLYInterruptEnabled => 0x40,
            StatFlag::ModeBits => 0x03,
            StatFlag::HBlankMode => 0x00,
            StatFlag::VBlankMode => 0x01,
            StatFlag::OAMSearchMode => 0x02,
            StatFlag::RenderingMode => 0x03,
        }
    }

    #[verifier::when_used_as_spec(mask_of)]
    pub fn mask(self) -> (m: u8)
        ensures
            m == self.mask_of(),
    {
        match self {
            StatFlag::LYCEqualsLY => 0x04,
            StatFlag::HBlankInterruptEnabled => 0x08,
            StatFlag::VBlankInterruptEnabled => 0x10,
            StatFlag::OAMInterruptEnabled => 0x20,
            StatFlag::LYCEqualsLYInterruptEnabled => 0x40,
            StatFlag::ModeBits => 0x03,
            StatFlag::HBlankMode => 0x00,
            StatFlag::VBlankMode => 0x01,
            StatFlag::OAMSearchMode => 0x02,
            StatFlag::RenderingMode => 0x03,
        }
    }
}

} // verus!
