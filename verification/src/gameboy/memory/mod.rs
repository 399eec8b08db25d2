pub mod registers;

use super::rom::{
    byte_or_open_bus, MbcView, MemoryBankController, Rom, RomCgbStatus, RomHeader,
};
use crate::util::{bit_of, set_bit, set_bit_spec};
use vstd::prelude::*;

verus! {

/// Bytes of video RAM that the bus reaches, at 0x8000..=0x9FFF.
pub const VRAM_WINDOW: usize = 0x2000;

/// Bytes of work RAM that the bus reaches, at 0xC000..=0xDFFF.
pub const WRAM_WINDOW: usize = 0x2000;

/// Bytes of object attribute memory: 40 entries of 4 bytes.
pub const OAM_SIZE: usize = 160;

/// Trait for memory components of the gameboy.
pub trait GameboyMemory {
    /// What the component holds, byte by byte.
    spec fn bytes(&self) -> Seq<u8>;

    fn read(&self, address: u16) -> (data: u8)
        requires
            address < self.bytes().len(),
        ensures
            data == self.bytes()[address as int],
    ;

    fn write(&mut self, address: u16, data: u8)
        requires
            address < old(self).bytes().len(),
        ensures
            final(self).bytes() == old(self).bytes().update(address as int, data),
    ;
}

/// Video RAM, which the PPU reads as a whole.
pub trait Vram: GameboyMemory {
    fn as_slice(&self) -> (slice: &[u8])
        ensures
            slice@ == self.bytes(),
    ;
}

/// The 8 KiB of video RAM of the first console.
pub struct DMGVram {
    data: Box<[u8; 8192]>,
}

impl Default for DMGVram {
    fn default() -> (r: Self)
        ensures
            r.bytes() == Seq::new(8192, |i: int| 0xFFu8),
    {
        let r = Self { data: Box::new([0xFFu8;8192]) };
        assert(r.data@ =~= Seq::new(8192, |i: int| 0xFFu8));
        r
    }
}

impl GameboyMemory for DMGVram {
    closed spec fn bytes(&self) -> Seq<u8> {
        self.data@
    }

    fn read(&self, address: u16) -> (data: u8) {
        self.data[address as usize]
    }

    fn write(&mut self, address: u16, data: u8) {
        self.data[address as usize] = data;
    }
}

impl Vram for DMGVram {
    fn as_slice(&self) -> (slice: &[u8]) {
        self.data.as_slice()
    }
}

/// The 16 KiB of video RAM of the color console.
pub struct CGBVram {
    data: Box<[u8; 16384]>,
}

impl Default for CGBVram {
    fn default() -> (r: Self)
        ensures
            r.bytes() == Seq::new(16384, |i: int| 0xFFu8),
    {
        let r = Self { data: Box::new([0xFFu8;16384]) };
        assert(r.data@ =~= Seq::new(16384, |i: int| 0xFFu8));
        r
    }
}

impl GameboyMemory for CGBVram {
    closed spec fn bytes(&self) -> Seq<u8> {
        self.data@
    }

    fn read(&self, address: u16) -> (data: u8) {
        self.data[address as usize]
    }

    fn write(&mut self, address: u16, data: u8) {
        self.data[address as usize] = data;
    }
}

impl Vram for CGBVram {
    fn as_slice(&self) -> (slice: &[u8]) {
        self.data.as_slice()
    }
}

/// The 8 KiB of work RAM of the first console.
pub struct DMGWram {
    data: Box<[u8; 8192]>,
}

impl Default for DMGWram {
    fn default() -> (r: Self)
        ensures
            r.bytes() == Seq::new(8192, |i: int| 0xFFu8),
    {
        let r = Self { data: Box::new([0xFFu8;8192]) };
        assert(r.data@ =~= Seq::new(8192, |i: int| 0xFFu8));
        r
    }
}

impl GameboyMemory for DMGWram {
    closed spec fn bytes(&self) -> Seq<u8> {
        self.data@
    }

    fn read(&self, address: u16) -> (data: u8) {
        self.data[address as usize]
    }

    fn write(&mut self, address: u16, data: u8) {
        self.data[address as usize] = data;
    }
}

/// The 32 KiB of work RAM of the color console.
pub struct CGBWram {
    data: Box<[u8; 32768]>,
}

impl Default for CGBWram {
    fn default() -> (r: Self)
        ensures
            r.bytes() == Seq::new(32768, |i: int| 0xFFu8),
    {
        let r = Self { data: Box::new([0xFFu8;32768]) };
        assert(r.data@ =~= Seq::new(32768, |i: int| 0xFFu8));
        r
    }
}

impl GameboyMemory for CGBWram {
    closed spec fn bytes(&self) -> Seq<u8> {
        self.data@
    }

    fn read(&self, address: u16) -> (data: u8) {
        self.data[address as usize]
    }

    fn write(&mut self, address: u16, data: u8) {
        self.data[address as usize] = data;
    }
}

/// Object attribute memory: 40 entries of 4 bytes.
pub struct Oam {
    data: Box<[u8; 160]>,
}

impl Default for Oam {
    fn default() -> (r: Self)
        ensures
            r.bytes() == Seq::new(160, |i: int| 0xFFu8),
    {
        let r = Self { data: Box::new([0xFFu8;160]) };
        assert(r.data@ =~= Seq::new(160, |i: int| 0xFFu8));
        r
    }
}

impl GameboyMemory for Oam {
    closed spec fn bytes(&self) -> Seq<u8> {
        self.data@
    }

    fn read(&self, address: u16) -> (data: u8) {
        self.data[address as usize]
    }

    fn write(&mut self, address: u16, data: u8) {
        self.data[address as usize] = data;
    }
}

impl Oam {
    /// The 160 bytes of the table, entry after entry.
    pub fn as_slice(&self) -> (slice: &[u8])
        ensures
            slice@ == self.bytes(),
            slice@.len() == OAM_SIZE,
    {
        self.data.as_slice()
    }
}

/// The 128 bytes of the I/O registers, 0xFF00..=0xFF7F.
pub struct IORegisters {
    data: Box<[u8; 128]>,
}

impl Default for IORegisters {
    fn default() -> (r: Self)
        ensures
            r.bytes() == Seq::new(128, |i: int| 0xFFu8),
    {
        let r = Self { data: Box::new([0xFFu8;128]) };
        assert(r.data@ =~= Seq::new(128, |i: int| 0xFFu8));
        r
    }
}

impl GameboyMemory for IORegisters {
    closed spec fn bytes(&self) -> Seq<u8> {
        self.data@
    }

    fn read(&self, address: u16) -> (data: u8) {
        self.data[address as usize]
    }

    fn write(&mut self, address: u16, data: u8) {
        self.data[address as usize] = data;
    }
}

/// High RAM, 0xFF80..=0xFFFE, and the interrupt-enable register behind it.
pub struct Hram {
    data: Box<[u8; 128]>,
}

impl Default for Hram {
    fn default() -> (r: Self)
        ensures
            r.bytes() == Seq::new(128, |i: int| 0xFFu8),
    {
        let r = Self { data: Box::new([0xFFu8;128]) };
        assert(r.data@ =~= Seq::new(128, |i: int| 0xFFu8));
        r
    }
}

impl GameboyMemory for Hram {
    closed spec fn bytes(&self) -> Seq<u8> {
        self.data@
    }

    fn read(&self, address: u16) -> (data: u8) {
        self.data[address as usize]
    }

    fn write(&mut self, address: u16, data: u8) {
        self.data[address as usize] = data;
    }
}

/// Video RAM of either console generation.
pub enum VideoRam {
    Dmg(DMGVram),
    Cgb(CGBVram),
}

impl GameboyMemory for VideoRam {
    open spec fn bytes(&self) -> Seq<u8> {
        match self {
            VideoRam::Dmg(ram) => ram.bytes(),
            VideoRam::Cgb(ram) => ram.bytes(),
        }
    }

    fn read(&self, address: u16) -> (data: u8) {
        match self {
            VideoRam::Dmg(ram) => ram.read(address),
            VideoRam::Cgb(ram) => ram.read(address),
        }
    }

    fn write(&mut self, address: u16, data: u8) {
        match self {
            VideoRam::Dmg(ram) => ram.write(address, data),
            VideoRam::Cgb(ram) => ram.write(address, data),
        }
    }
}

impl Vram for VideoRam {
    fn as_slice(&self) -> (slice: &[u8]) {
        match self {
            VideoRam::Dmg(ram) => ram.as_slice(),
            VideoRam::Cgb(ram) => ram.as_slice(),
        }
    }
}

/// Work RAM of either console generation.
pub enum WorkRam {
    Dmg(DMGWram),
    Cgb(CGBWram),
}

impl GameboyMemory for WorkRam {
    open spec fn bytes(&self) -> Seq<u8> {
        match self {
            WorkRam::Dmg(ram) => ram.bytes(),
            WorkRam::Cgb(ram) => ram.bytes(),
        }
    }

    fn read(&self, address: u16) -> (data: u8) {
        match self {
            WorkRam::Dmg(ram) => ram.read(address),
            WorkRam::Cgb(ram) => ram.read(address),
        }
    }

    fn write(&mut self, address: u16, data: u8) {
        match self {
            WorkRam::Dmg(ram) => ram.write(address, data),
            WorkRam::Cgb(ram) => ram.write(address, data),
        }
    }
}

/// The contents of the whole address space, region by region.
pub struct MemoryView {
    /// Whether the boot ROM still covers 0x0000..=0x00FF.
    pub boot_mode: bool,
    pub boot: Seq<u8>,
    pub cartridge: MbcView,
    pub vram: Seq<u8>,
    pub wram: Seq<u8>,
    pub oam: Seq<u8>,
    pub io: Seq<u8>,
    pub hram: Seq<u8>,
    /// Whether the CPU has written to DIV since the timer last looked.
    pub divider_reset: bool,
}

impl MemoryView {
    /// Every region is as large as the window the bus has on it.
    pub open spec fn wf(self) -> bool {
        &&& self.vram.len() >= VRAM_WINDOW
        &&& self.wram.len() >= WRAM_WINDOW
        &&& self.oam.len() == OAM_SIZE
        &&& self.io.len() == 128
        &&& self.hram.len() == 128
    }

    /// What a read of `address` returns.
    pub open spec fn read(self, address: u16) -> u8 {
        if self.boot_mode && address <= 0xFF {
            byte_or_open_bus(self.boot, address as int)
        } else if address < 0x8000 {
            self.cartridge.read(address)
        } else if address < 0xA000 {
            self.vram[address - 0x8000]
        } else if address < 0xC000 {
            self.cartridge.external_read(address)
        } else if address < 0xE000 {
            self.wram[address - 0xC000]
        } else if address < 0xFE00 {
            self.wram[address - 0xE000]
        } else if address < 0xFEA0 {
            self.oam[address - 0xFE00]
        } else if address < 0xFF00 {
            0xFF
        } else if address < 0xFF80 {
            self.io[address - 0xFF00]
        } else {
            self.hram[address - 0xFF80]
        }
    }

    /// The state after `data` went to the region that owns `address`.
    pub open spec fn store(self, address: u16, data: u8) -> MemoryView {
        if address < 0x8000 {
            MemoryView { cartridge: self.cartridge.write(address, data), ..self }
        } else if address < 0xA000 {
            MemoryView { vram: self.vram.update(address - 0x8000, data), ..self }
        } else if address < 0xC000 {
            MemoryView { cartridge: self.cartridge.external_write(address, data), ..self }
        } else if address < 0xE000 {
            MemoryView { wram: self.wram.update(address - 0xC000, data), ..self }
        } else if address < 0xFE00 {
            MemoryView { wram: self.wram.update(address - 0xE000, data), ..self }
        } else if address < 0xFEA0 {
            MemoryView { oam: self.oam.update(address - 0xFE00, data), ..self }
        } else if address < 0xFF00 {
            self
        } else if address < 0xFF80 {
            MemoryView { io: self.io.update(address - 0xFF00, data), ..self }
        } else {
            MemoryView { hram: self.hram.update(address - 0xFF80, data), ..self }
        }
    }

    /// The 160 bytes that start at page `page`, as a read sees them.
    pub open spec fn page_head(self, page: u8) -> Seq<u8> {
        Seq::new(OAM_SIZE as nat, |i: int| self.read((page as int * 0x100 + i) as u16))
    }

    /// The state after a write of `data` to `address`. A write to 0xFF50
    /// unmaps the boot ROM; one to 0xFF46 first copies the head of page
    /// `data` into object attribute memory.
    pub open spec fn write(self, address: u16, data: u8) -> MemoryView {
        let unmapped = if address == registers::addresses::BOOT_OFF {
            MemoryView { boot_mode: false, ..self }
        } else {
            self
        };
        let copied = if address == registers::addresses::DMA {
            MemoryView { oam: unmapped.page_head(data), ..unmapped }
        } else {
            unmapped
        };
        copied.store(address, data)
    }

    /// The interrupt-request register, 0xFF0F.
    pub open spec fn interrupt_request(self) -> u8 {
        self.io[0x0F]
    }

    /// The interrupt-enable register, 0xFFFF.
    pub open spec fn interrupt_enable(self) -> u8 {
        self.hram[0x7F]
    }

    /// Whether `interrupt` is both enabled and requested.
    pub open spec fn is_pending(self, interrupt: registers::Interrupt) -> bool {
        bit_of(self.interrupt_enable(), interrupt.index_of()) && bit_of(
            self.interrupt_request(),
            interrupt.index_of(),
        )
    }

    /// The most urgent interrupt that is both enabled and requested.
    pub open spec fn highest_pending(self) -> Option<registers::Interrupt> {
        if self.is_pending(registers::Interrupt::VBlank) {
            Some(registers::Interrupt::VBlank)
        } else if self.is_pending(registers::Interrupt::STAT) {
            Some(registers::Interrupt::STAT)
        } else if self.is_pending(registers::Interrupt::Timer) {
            Some(registers::Interrupt::Timer)
        } else if self.is_pending(registers::Interrupt::Serial) {
            Some(registers::Interrupt::Serial)
        } else if self.is_pending(registers::Interrupt::Joypad) {
            Some(registers::Interrupt::Joypad)
        } else {
            None
        }
    }

    /// The state after `interrupt` was requested.
    pub open spec fn request_interrupt(self, interrupt: registers::Interrupt) -> MemoryView {
        MemoryView {
            io: self.io.update(
                0x0F,
                set_bit_spec(interrupt.index_of(), self.interrupt_request()),
            ),
            ..self
        }
    }

    /// The state after the CPU wrote to DIV: the register reads zero and
    /// the timer is told to start its count anew.
    pub open spec fn reset_divider(self) -> MemoryView {
        MemoryView { io: self.io.update(0x04, 0u8), divider_reset: true, ..self }
    }

    /// The state after the timer took note of a write to DIV.
    pub open spec fn clear_divider_reset(self) -> MemoryView {
        MemoryView { divider_reset: false, ..self }
    }
}

/// What the memory of a console holds when it is switched on with the
/// cartridge `cartridge` and the boot ROM `boot`: 0xFF everywhere.
pub open spec fn initial_memory(cartridge: MbcView, boot: Seq<u8>, cgb: bool) -> MemoryView {
    MemoryView {
        boot_mode: true,
        boot,
        cartridge,
        vram: Seq::new(if cgb { 16384nat } else { 8192nat }, |i: int| 0xFFu8),
        wram: Seq::new(if cgb { 32768nat } else { 8192nat }, |i: int| 0xFFu8),
        oam: Seq::new(160, |i: int| 0xFFu8),
        io: Seq::new(128, |i: int| 0xFFu8),
        hram: Seq::new(128, |i: int| 0xFFu8),
        divider_reset: false,
    }
}

/// A Gameboy memory component.
pub struct Memory {
    boot_mode: bool,
    boot: Vec<u8>,
    rom: Rom,
    vram: VideoRam,
    wram: WorkRam,
    oam: Oam,
    io_registers: IORegisters,
    hram: Hram,
    divider_reset: bool,
}

impl View for Memory {
    type V = MemoryView;

    closed spec fn view(&self) -> MemoryView {
        MemoryView {
            boot_mode: self.boot_mode,
            boot: self.boot@,
            cartridge: self.rom.state(),
            vram: self.vram.bytes(),
            wram: self.wram.bytes(),
            oam: self.oam.bytes(),
            io: self.io_registers.bytes(),
            hram: self.hram.bytes(),
            divider_reset: self.divider_reset,
        }
    }
}

impl Memory {
    /// The header of the cartridge.
    pub closed spec fn header_spec(&self) -> RomHeader {
        self.rom.header_spec()
    }

    /// The regions of every memory have the size of their windows.
    pub proof fn lemma_well_formed(&self)
        ensures
            self@.wf(),
    {
    }

    /// The memory of a console that was just switched on: the boot ROM covers
    /// the first page, and every byte of RAM is 0xFF.
    pub fn new(rom: Rom, boot: Vec<u8>) -> (memory: Self)
        ensures
            memory@ == initial_memory(
                rom.state(),
                boot@,
                rom.header_spec().cgb != RomCgbStatus::NoCGB,
            ),
            memory.header_spec() == rom.header_spec(),
    {
        match rom.header().cgb {
            RomCgbStatus::CGBOnly | RomCgbStatus::CGBSupport => Self {
                boot_mode: true,
                boot,
                rom,
                vram: VideoRam::Cgb(CGBVram::default()),
                wram: WorkRam::Cgb(CGBWram::default()),
                oam: Oam::default(),
                io_registers: IORegisters::default(),
                hram: Hram::default(),
                divider_reset: false,
            },
            RomCgbStatus::NoCGB => Self {
                boot_mode: true,
                boot,
                rom,
                vram: VideoRam::Dmg(DMGVram::default()),
                wram: WorkRam::Dmg(DMGWram::default()),
                oam: Oam::default(),
                io_registers: IORegisters::default(),
                hram: Hram::default(),
                divider_reset: false,
            },
        }
    }

    /// Reads a value from memory.
    ///
    /// Adresses 0xFEA0..=0xFEFF always return 0xFF.
    #[inline]
    pub fn read(&self, address: u16) -> (data: u8)
        ensures
            data == self@.read(address),
    {
        if self.boot_mode && address <= 0xFF {
            return if (address as usize) < self.boot.len() {
                self.boot[address as usize]
            } else {
                0xFF
            };
        }
        if address < 0x8000 {
            self.rom.read(address)
        } else if address < 0xA000 {
            self.vram.read(address - 0x8000)
        } else if address < 0xC000 {
            self.rom.external_read(address)
        } else if address < 0xE000 {
            self.wram.read(address - 0xC000)
        } else if address < 0xFE00 {
            self.wram.read(address - 0xE000)
        } else if address < 0xFEA0 {
            self.oam.read(address - 0xFE00)
        } else if address < 0xFF00 {
            0xFF
        } else if address < 0xFF80 {
            self.io_registers.read(address - 0xFF00)
        } else {
            self.hram.read(address - 0xFF80)
        }
    }

    /// Copies the first 160 bytes of page `page` into object attribute memory.
#[verifier::rlimit(50)]
    fn copy_page_to_oam(&mut self, page: u8)
        ensures
            final(self)@ == (MemoryView { oam: old(self)@.page_head(page), ..old(self)@ }),
    {
        let base: u16 = page as u16 * 0x100;
        let ghost before = self@;
        let mut i: u16 = 0;
        while i < 160
            invariant
                i <= 160,
                base == page * 0x100,
                self@ == (MemoryView { oam: self@.oam, ..before }),
                before == old(self)@,
                self@.oam.len() == 160,
                forall|j: int| 0 <= j < i ==> self@.oam[j] == before.read((base + j) as u16),
                forall|j: int| i <= j < 160 ==> self@.oam[j] == before.oam[j],
            decreases 160 - i,
        {
            let data = self.read(base + i);
            self.oam.write(i, data);
            i = i + 1;
        }
        assert(self@.oam =~= before.page_head(page));
    }

    /// Writes a value to memory.
    ///
    /// Writes to adresses 0xFEA0..=0xFEFF have no effect and writing any value to 0xFF50 while boot mode is on turns it off.
    #[inline]
#[verifier::rlimit(50)]
    pub fn write(&mut self, address: u16, data: u8)
        ensures
            final(self)@ == old(self)@.write(address, data),
    {
        if address == registers::addresses::BOOT_OFF {
            self.boot_mode = false;
        }
        if address == registers::addresses::DMA {
            self.copy_page_to_oam(data);
        }
        if address < 0x8000 {
            self.rom.write(address, data)
        } else if address < 0xA000 {
            self.vram.write(address - 0x8000, data)
        } else if address < 0xC000 {
            self.rom.external_write(address, data)
        } else if address < 0xE000 {
            self.wram.write(address - 0xC000, data)
        } else if address < 0xFE00 {
            self.wram.write(address - 0xE000, data)
        } else if address < 0xFEA0 {
            self.oam.write(address - 0xFE00, data)
        } else if address < 0xFF00 {
        } else if address < 0xFF80 {
            self.io_registers.write(address - 0xFF00, data)
        } else {
            self.hram.write(address - 0xFF80, data)
        }
    }

    /// Requests an interrupt by turning the corresponding bit in the interrupt request register on.
    #[inline]
    pub fn request_interrupt(&mut self, interrupt: registers::Interrupt)
        ensures
            final(self)@ == old(self)@.request_interrupt(interrupt),
    {
        let current = self.io_registers.read(0x0F);
        self.io_registers.write(0x0F, set_bit(interrupt.index(), current));
    }

    /// Sets DIV to zero on behalf of the CPU and leaves word for the timer.
    pub fn reset_divider(&mut self)
        ensures
            final(self)@ == old(self)@.reset_divider(),
    {
        self.io_registers.write(0x04, 0);
        self.divider_reset = true;
    }

    /// Whether the CPU has written to DIV since the last call.
    pub fn take_divider_reset(&mut self) -> (was_reset: bool)
        ensures
            was_reset == old(self)@.divider_reset,
            final(self)@ == old(self)@.clear_divider_reset(),
    {
        let was_reset = self.divider_reset;
        self.divider_reset = false;
        was_reset
    }

    /// Whether boot mode is active or not.
    pub fn boot_mode(&self) -> (active: bool)
        ensures
            active == self@.boot_mode,
    {
        self.boot_mode
    }

    /// Object attribute memory.
    pub fn oam(&self) -> (oam: &Oam)
        ensures
            oam.bytes() == self@.oam,
            self@.oam.len() == OAM_SIZE,
    {
        &self.oam
    }

    /// Video RAM.
    pub fn vram(&self) -> (vram: &VideoRam)
        ensures
            vram.bytes() == self@.vram,
            self@.vram.len() >= VRAM_WINDOW,
    {
        &self.vram
    }

    /// The header of the cartridge.
    pub fn rom_header(&self) -> (header: &RomHeader)
        ensures
            *header == self.header_spec(),
    {
        self.rom.header()
    }
}

/// A byte written to video RAM, work RAM or its echo, object attribute
/// memory or high RAM is the byte that the next read of that address returns.
pub proof fn lemma_write_then_read(memory: MemoryView, address: u16, data: u8)
    requires
        memory.wf(),
        0x8000 <= address < 0xA000 || 0xC000 <= address < 0xFEA0 || 0xFF80 <= address,
    ensures
        memory.write(address, data).read(address) == data,
        memory.write(address, data).wf(),
{
}

/// The unused range 0xFEA0..=0xFEFF takes no write: it reads 0xFF before
/// and after, and the write changes nothing.
pub proof fn lemma_unused_range(memory: MemoryView, address: u16, data: u8)
    requires
        0xFEA0 <= address < 0xFF00,
    ensures
        memory.read(address) == 0xFF,
        memory.write(address, data) == memory,
{
}

/// A write to 0xFF50 unmaps the boot ROM, and no write maps it again.
pub proof fn lemma_boot_latch(memory: MemoryView, address: u16, data: u8)
    ensures
        memory.write(address, data).boot_mode == (memory.boot_mode && address
            != registers::addresses::BOOT_OFF),
        memory.write(address, data).boot == memory.boot,
        !memory.boot_mode && address < 0x8000 ==> memory.read(address) == memory.cartridge.read(
            address,
        ),
{
}

/// A write keeps every region the size it was.
pub proof fn lemma_write_keeps_well_formed(memory: MemoryView, address: u16, data: u8)
    requires
        memory.wf(),
    ensures
        memory.write(address, data).wf(),
{
}

/// Writing the page number `page` to 0xFF46 leaves in object attribute
/// memory the 160 bytes that stood at the start of that page.
#[verifier::rlimit(50)]
pub proof fn lemma_dma_copies_page(memory: MemoryView, page: u8, i: int)
    requires
        memory.wf(),
        0 <= i < 160,
    ensures
        memory.write(registers::addresses::DMA, page).oam[i] == memory.read(
            (page as int * 0x100 + i) as u16,
        ),
{
}

/// A requested interrupt is pending as soon as it is enabled, and a
/// request leaves the requests of the other sources as they were.
pub proof fn lemma_request_sets_one_bit(
    memory: MemoryView,
    interrupt: registers::Interrupt,
    other: registers::Interrupt,
)
    requires
        memory.wf(),
    ensures
        bit_of(memory.request_interrupt(interrupt).interrupt_request(), interrupt.index_of()),
        other != interrupt ==> bit_of(
            memory.request_interrupt(interrupt).interrupt_request(),
            other.index_of(),
        ) == bit_of(memory.interrupt_request(), other.index_of()),
        memory.request_interrupt(interrupt).interrupt_enable() == memory.interrupt_enable(),
{
    crate::util::lemma_set_bit(
        memory.interrupt_request(),
        interrupt.index_of(),
        other.index_of(),
    );
}

} // verus!
