use vstd::prelude::*;

verus! {

pub const INTERRUPT_ENABLE: u16 = 0xFFFF;

pub const INTERRUPT_REQUEST: u16 = 0xFF0F;

pub const LCDC: u16 = 0xFF40;

pub const STAT: u16 = 0xFF41;

pub const SCY: u16 = 0xFF42;

pub const SCX: u16 = 0xFF43;

pub const LY: u16 = 0xFF44;

pub const LYC: u16 = 0xFF45;

pub const WY: u16 = 0xFF4A;

pub const WX: u16 = 0xFF4B;

pub const BGP: u16 = 0xFF47;

pub const OBP0: u16 = 0xFF48;

pub const OBP1: u16 = 0xFF49;

pub const DMA: u16 = 0xFF46;

pub const DIV: u16 = 0xFF04;

pub const TIMA: u16 = 0xFF05;

pub const TMA: u16 = 0xFF06;

pub const TAC: u16 = 0xFF07;

pub const JOYP: u16 = 0xFF00;

/// Writing any value here unmaps the boot ROM.
pub const BOOT_OFF: u16 = 0xFF50;

pub const NR10: u16 = 0xFF10;

pub const NR11: u16 = 0xFF11;

pub const NR12: u16 = 0xFF12;

pub const NR13: u16 = 0xFF13;

pub const NR14: u16 = 0xFF14;

pub const NR21: u16 = 0xFF16;

pub const NR22: u16 = 0xFF17;

pub const NR23: u16 = 0xFF18;

pub const NR24: u16 = 0xFF19;

pub const NR30: u16 = 0xFF1A;

pub const NR31: u16 = 0xFF1B;

pub const NR32: u16 = 0xFF1C;

pub const NR33: u16 = 0xFF1D;

pub const NR34: u16 = 0xFF1E;

pub const NR41: u16 = 0xFF20;

pub const NR42: u16 = 0xFF21;

pub const NR43: u16 = 0xFF22;

pub const NR44: u16 = 0xFF23;

pub const NR50: u16 = 0xFF24;

pub const NR51: u16 = 0xFF25;

pub const NR52: u16 = 0xFF26;

} // verus!
