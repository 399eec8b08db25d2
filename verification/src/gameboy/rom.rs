use binread::BinReaderExt;
use vstd::prelude::*;
use vstd::slice::slice_subrange;

verus! {

/// Number of bytes of a cartridge header: 0x0133..=0x014F.
pub const HEADER_LEN: usize = 29;

/// Address of the first header byte within a ROM image.
pub const HEADER_START: usize = 0x0133;

/// Address one past the last header byte within a ROM image.
pub const HEADER_END: usize = 0x0150;

/// Size of one switchable ROM bank.
pub const ROM_BANK_SIZE: usize = 0x4000;

/// Size of one switchable bank of cartridge RAM.
pub const RAM_BANK_SIZE: usize = 0x2000;

/// What a cartridge says of the color console.
#[derive(Debug, Clone, Copy, PartialEq, Eq, Structural)]
pub enum RomCgbStatus {
    CGBOnly,
    CGBSupport,
    NoCGB,
}

/// Whether a cartridge knows the functions of the Super Game Boy.
#[derive(Debug, Clone, Copy, PartialEq, Eq, Structural)]
pub enum RomSgbStatus {
    SGBSupport,
    NoSGB,
}

/// The bank controller of a cartridge, as its header names it.
#[derive(Debug, Clone, Copy, PartialEq, Eq, Structural)]
pub enum RomMBCType {
    NoMBC,
    MBC1,
    MBC1Ram,
    MBC1RamBattery,
    Unknown,
}

/// Why a ROM image was refused.
#[derive(Debug, Clone, Copy, PartialEq, Eq, Structural)]
pub enum RomError {
    /// A header must be exactly `HEADER_LEN` bytes long.
    WrongHeaderLength { got: usize },
    /// A header field ended before its last byte.
    TruncatedField,
    /// The ROM size code names a size that no image can have.
    RomSizeOutOfRange { code: u8 },
    /// The image ends before the header does.
    TooSmall,
    /// The image is not as long as its header says.
    SizeMismatch { expected: usize, got: usize },
    /// The cartridge type is neither flat ROM nor an MBC1.
    UnsupportedMbc,
}

impl RomError {
    /// The cause of the refusal, in words.
    pub fn message(&self) -> (text: String)
        ensures
            text@ == (match *self {
                RomError::WrongHeaderLength { .. } => "Wrong input length for a rom header"@,
                RomError::TruncatedField => "Rom header field is cut short"@,
                RomError::RomSizeOutOfRange { .. } => "Rom size in header is out of range"@,
                RomError::TooSmall => "Rom too small to even contain a rom header"@,
                RomError::SizeMismatch { .. } =>
                    "Rom size doesn't match with size specified in it's header"@,
                RomError::UnsupportedMbc => "MBC not supported"@,
            }),
    {
        match self {
            RomError::WrongHeaderLength { .. } => "Wrong input length for a rom header".to_owned(),
            RomError::TruncatedField => "Rom header field is cut short".to_owned(),
            RomError::RomSizeOutOfRange { .. } => "Rom size in header is out of range".to_owned(),
            RomError::TooSmall => "Rom too small to even contain a rom header".to_owned(),
            RomError::SizeMismatch { .. } =>
                "Rom size doesn't match with size specified in it's header".to_owned(),
            RomError::UnsupportedMbc => "MBC not supported".to_owned(),
        }
    }
}

/// Represents information regarding a [Rom].
#[derive(Debug, Clone)]
pub struct RomHeader {
    /// The title of the game.
    pub title: String,
    /// The manufacturer code.
    pub manufacturer: u32,
    /// Whether this rom supports CGB, and if it does, whether it is CGB only or not.
    pub cgb: RomCgbStatus,
    /// The license code.
    pub license: u16,
    /// Wether the game supports SGB functions.
    pub sgb: RomSgbStatus,
    /// Specifies which MBC is used in this rom, if any.
    pub rom_type: RomMBCType,
    /// The size of the rom, in bytes.
    pub rom_size: usize,
    /// The size of the external ram, if any, in bytes.
    pub ram_size: usize,
    /// Wether this version of the game was sold in Japan or not.
    pub japanese: bool,
    /// The old license code.
    pub old_license: u8,
    /// The version number of the rom.
    pub rom_version: u8,
    /// The header checksum.
    pub checksum: u8,
    /// The rom checksum.
    pub rom_checksum: u16,
}

/// The 16-bit value whose little-endian bytes are `b0`, `b1`.
pub open spec fn le_u16(b0: u8, b1: u8) -> u16 {
    (b0 as int + 0x100 * (b1 as int)) as u16
}

/// The 32-bit value whose little-endian bytes are `b0` to `b3`.
pub open spec fn le_u32(b0: u8, b1: u8, b2: u8, b3: u8) -> u32 {
    (b0 as int + 0x100 * (b1 as int) + 0x1_0000 * (b2 as int) + 0x100_0000 * (b3 as int)) as u32
}

/// A byte that may stand in a title: ASCII and no control character.
pub open spec fn is_printable(byte: u8) -> bool {
    0x20 <= byte <= 0x7E
}

/// How many of the first `limit` bytes are printable without a gap.
pub open spec fn printable_prefix_len(bytes: Seq<u8>, limit: nat) -> nat
    decreases limit,
{
    if limit == 0 || limit > bytes.len() {
        0
    } else {
        let shorter = printable_prefix_len(bytes, (limit - 1) as nat);
        if shorter == limit - 1 && is_printable(bytes[limit - 1]) {
            limit
        } else {
            shorter
        }
    }
}

/// The title held in the first 16 bytes of a header: its bytes as
/// characters, up to the first that is not printable.
pub open spec fn title_of(header: Seq<u8>) -> Seq<char> {
    Seq::new(printable_prefix_len(header, 16), |i: int| header[i] as char)
}

/// What the header byte `code` says of the color console.
pub open spec fn cgb_status_of(code: u8) -> RomCgbStatus {
    if code == 0x80 {
        RomCgbStatus::CGBSupport
    } else if code == 0xC0 {
        RomCgbStatus::CGBOnly
    } else {
        RomCgbStatus::NoCGB
    }
}

/// What the header byte `code` says of the Super Game Boy.
pub open spec fn sgb_status_of(code: u8) -> RomSgbStatus {
    if code == 0x03 {
        RomSgbStatus::SGBSupport
    } else {
        RomSgbStatus::NoSGB
    }
}

/// The bank controller that the header byte `code` names.
pub open spec fn mbc_type_of(code: u8) -> RomMBCType {
    if code == 0x00 {
        RomMBCType::NoMBC
    } else if code == 0x01 {
        RomMBCType::MBC1
    } else if code == 0x02 {
        RomMBCType::MBC1Ram
    } else if code == 0x03 {
        RomMBCType::MBC1RamBattery
    } else {
        RomMBCType::Unknown
    }
}

/// Two to the power of `exponent`.
pub open spec fn two_pow(exponent: nat) -> nat
    decreases exponent,
{
    if exponent == 0 {
        1
    } else {
        2 * two_pow((exponent - 1) as nat)
    }
}

/// The largest ROM size code whose size fits every `usize`.
pub const MAX_ROM_SIZE_CODE: u8 = 16;

/// Bytes of ROM that size code `code` stands for: 32 KiB shifted left by it.
pub open spec fn rom_size_of(code: u8) -> nat {
    32 * 1024 * two_pow(code as nat)
}

/// Bytes of cartridge RAM that size code `code` stands for.
pub open spec fn ram_size_of(code: u8) -> nat {
    if code == 0x00 {
        0
    } else if code == 0x02 {
        8 * 1024
    } else if code == 0x03 {
        32 * 1024
    } else if code == 0x04 {
        128 * 1024
    } else if code == 0x05 {
        64 * 1024
    } else {
        128 * 1024
    }
}

/// `header` holds what the 29 bytes `bytes` encode, field by field.
pub open spec fn header_decodes(header: RomHeader, bytes: Seq<u8>) -> bool {
    &&& header.title@ == title_of(bytes)
    &&& header.manufacturer == le_u32(bytes[12], bytes[13], bytes[14], bytes[15])
    &&& header.cgb == cgb_status_of(bytes[16])
    &&& header.license == le_u16(bytes[17], bytes[18])
    &&& header.sgb == sgb_status_of(bytes[19])
    &&& header.rom_type == mbc_type_of(bytes[20])
    &&& header.rom_size == rom_size_of(bytes[21])
    &&& header.ram_size == ram_size_of(bytes[22])
    &&& header.japanese == (bytes[23] == 0)
    &&& header.old_license == bytes[24]
    &&& header.rom_version == bytes[25]
    &&& header.checksum == bytes[26]
    &&& header.rom_checksum == le_u16(bytes[27], bytes[28])
}

/// What decoding the header bytes `bytes` gives when it fails.
pub open spec fn header_error(bytes: Seq<u8>) -> Option<RomError> {
    if bytes.len() != HEADER_LEN {
        Some(RomError::WrongHeaderLength { got: bytes.len() as usize })
    } else if bytes[21] > MAX_ROM_SIZE_CODE {
        Some(RomError::RomSizeOutOfRange { code: bytes[21] })
    } else {
        None
    }
}

/// An error of the `binread` crate.
#[verifier::external_type_specification]
#[verifier::external_body]
pub struct ExBinreadError(binread::Error);

/// `binread::BinReaderExt::read_le::<u16>` on a cursor over `bytes[at..]`.
/// The crate reads two bytes and joins them little end first; it fails when
/// fewer than two are left.
#[verifier::external_body]
fn read_le_u16(bytes: &[u8], at: usize) -> (r: Result<u16, binread::Error>)
    requires
        at <= bytes@.len(),
    ensures
        r is Ok <==> at + 2 <= bytes@.len(),
        r matches Ok(v) ==> v == le_u16(bytes@[at as int], bytes@[at + 1]),
{
    binread::io::Cursor::new(&bytes[at..]).read_le::<u16>()
}

/// `binread::BinReaderExt::read_le::<u32>` on a cursor over `bytes[at..]`.
/// The crate reads four bytes and joins them little end first; it fails when
/// fewer than four are left.
#[verifier::external_body]
fn read_le_u32(bytes: &[u8], at: usize) -> (r: Result<u32, binread::Error>)
    requires
        at <= bytes@.len(),
    ensures
        r is Ok <==> at + 4 <= bytes@.len(),
        r matches Ok(v) ==> v == le_u32(
            bytes@[at as int],
            bytes@[at + 1],
            bytes@[at + 2],
            bytes@[at + 3],
        ),
{
    binread::io::Cursor::new(&bytes[at..]).read_le::<u32>()
}

/// `bytesize::KIB`, the number of bytes in a kibibyte, which the crate
/// defines as 1024.
#[verifier::external_body]
fn kib() -> (r: usize)
    ensures
        r == 1024,
{
    bytesize::KIB as usize
}

/// `String::push`: appends one character.
#[verifier::external_body]
fn push_char(text: &mut String, c: char)
    ensures
        final(text)@ == old(text)@.push(c),
{
    text.push(c)
}

proof fn lemma_two_pow_bound(exponent: nat)
    requires
        exponent <= 16,
    ensures
        1 <= two_pow(exponent) <= 0x1_0000,
    decreases 16 - exponent,
{
    if exponent < 16 {
        lemma_two_pow_bound(exponent + 1);
    } else {
        reveal_with_fuel(two_pow, 17);
    }
}

/// Two to the power of `exponent`, for exponents whose power fits 32 bits.
fn pow2(exponent: u8) -> (r: usize)
    requires
        exponent <= MAX_ROM_SIZE_CODE,
    ensures
        r == two_pow(exponent as nat),
        r <= 0x1_0000,
{
    let mut r: usize = 1;
    let mut i: u8 = 0;
    while i < exponent
        invariant
            i <= exponent <= 16,
            r == two_pow(i as nat),
        decreases exponent - i,
    {
        proof {
            lemma_two_pow_bound(i as nat);
        }
        r = r * 2;
        i = i + 1;
    }
    proof {
        lemma_two_pow_bound(exponent as nat);
    }
    r
}

/// Reads the title out of the first 16 bytes of a header.
#[verifier::rlimit(50)]
fn read_title(bytes: &[u8]) -> (title: String)
    requires
        bytes@.len() >= 16,
    ensures
        title@ == title_of(bytes@),
{
    let mut title = String::new();
    let mut i: usize = 0;
    while i < 16 && 0x20 <= bytes[i] && bytes[i] <= 0x7E
        invariant
            i <= 16 <= bytes@.len(),
            printable_prefix_len(bytes@, i as nat) == i,
            title@ == Seq::new(i as nat, |k: int| bytes@[k] as char),
        decreases 16 - i,
    {
        let c = bytes[i] as char;
        push_char(&mut title, c);
        i = i + 1;
        assert(title@ =~= Seq::new(i as nat, |k: int| bytes@[k] as char));
    }
    proof {
        lemma_prefix_stops(bytes@, i as nat, 16);
    }
    title
}

/// Once a byte is not printable, the prefix grows no further.
proof fn lemma_prefix_stops(bytes: Seq<u8>, reached: nat, limit: nat)
    requires
        reached <= limit <= bytes.len(),
        printable_prefix_len(bytes, reached) == reached,
        reached == limit || !is_printable(bytes[reached as int]),
    ensures
        printable_prefix_len(bytes, limit) == reached,
    decreases limit,
{
    if limit > reached {
        lemma_prefix_stops(bytes, reached, (limit - 1) as nat);
    }
}

impl RomHeader {
    /// Tries to decode a [RomHeader] instance from bytes.
    ///
    /// Exactly [HEADER_LEN] bytes are expected and an error is returned if the input length is wrong.
#[verifier::rlimit(50)]
    pub fn try_from_bytes(bytes: &[u8]) -> (r: Result<Self, RomError>)
        ensures
            r is Ok <==> header_error(bytes@) is None,
            r matches Ok(header) ==> header_decodes(header, bytes@),
            r matches Err(e) ==> header_error(bytes@) == Some(e),
    {
        if bytes.len() != HEADER_LEN {
            return Err(RomError::WrongHeaderLength { got: bytes.len() });
        }
        let title = read_title(bytes);
        let manufacturer = match read_le_u32(bytes, 12) {
            Ok(v) => v,
            Err(_) => {
                return Err(RomError::TruncatedField);
            },
        };
        let cgb = match bytes[16] {
            0x80 => RomCgbStatus::CGBSupport,
            0xC0 => RomCgbStatus::CGBOnly,
            _ => RomCgbStatus::NoCGB,
        };
        let license = match read_le_u16(bytes, 17) {
            Ok(v) => v,
            Err(_) => {
                return Err(RomError::TruncatedField);
            },
        };
        let sgb = match bytes[19] {
            0x03 => RomSgbStatus::SGBSupport,
            _ => RomSgbStatus::NoSGB,
        };
        let rom_type = match bytes[20] {
            0x00 => RomMBCType::NoMBC,
            0x01 => RomMBCType::MBC1,
            0x02 => RomMBCType::MBC1Ram,
            0x03 => RomMBCType::MBC1RamBattery,
            _ => RomMBCType::Unknown,
        };
        let rom_size_code = bytes[21];
        if rom_size_code > MAX_ROM_SIZE_CODE {
            return Err(RomError::RomSizeOutOfRange { code: rom_size_code });
        }
        let base = 32 * kib();
        let doublings = pow2(rom_size_code);
        assert(base * doublings == 32 * 1024 * two_pow(rom_size_code as nat)
            && base * doublings <= 0x8000_0000) by (nonlinear_arith)
            requires
                base == 32 * 1024,
                doublings == two_pow(rom_size_code as nat),
                doublings <= 0x1_0000,
        ;
        let rom_size = base * doublings;
        let ram_banks: usize = match bytes[22] {
            0x00 => 0,
            0x02 => 8,
            0x03 => 32,
            0x04 => 128,
            0x05 => 64,
            _ => 128,
        };
        let ram_size = ram_banks * kib();
        let japanese = bytes[23] == 0;
        let old_license = bytes[24];
        let rom_version = bytes[25];
        let checksum = bytes[26];
        let rom_checksum = match read_le_u16(bytes, 27) {
            Ok(v) => v,
            Err(_) => {
                return Err(RomError::TruncatedField);
            },
        };
        Ok(
            Self {
                title,
                manufacturer,
                cgb,
                license,
                sgb,
                rom_type,
                rom_size,
                ram_size,
                japanese,
                old_license,
                rom_version,
                checksum,
                rom_checksum,
            },
        )
    }
}

/// The state of a cartridge: its two memories and the registers of its bank
/// controller. A flat cartridge never changes its registers.
pub struct MbcView {
    /// Whether the cartridge has an MBC1.
    pub banked: bool,
    pub rom: Seq<u8>,
    pub external: Seq<u8>,
    /// Lower five bits of the ROM bank number.
    pub bank1: u8,
    /// Upper two bits of the ROM bank number, or the RAM bank number.
    pub bank2: u8,
    pub ram_enabled: bool,
    /// The advanced banking mode, in which `bank2` also applies to the first
    /// ROM window and to RAM.
    pub alt_mode: bool,
}

/// `count` rounded up to a power of two, between 1 and 128: the number of
/// bank numbers that a cartridge with `count` banks tells apart.
pub open spec fn bank_span(count: int) -> int {
    if count <= 1 {
        1
    } else if count <= 2 {
        2
    } else if count <= 4 {
        4
    } else if count <= 8 {
        8
    } else if count <= 16 {
        16
    } else if count <= 32 {
        32
    } else if count <= 64 {
        64
    } else {
        128
    }
}

/// The byte of `memory` at `offset`, or 0xFF where it has none.
pub open spec fn byte_or_open_bus(memory: Seq<u8>, offset: int) -> u8 {
    if 0 <= offset < memory.len() {
        memory[offset]
    } else {
        0xFF
    }
}

impl MbcView {
    pub open spec fn rom_bank_count(self) -> int {
        self.rom.len() as int / 0x4000
    }

    pub open spec fn external_bank_count(self) -> int {
        self.external.len() as int / 0x2000
    }

    /// The bank number that a program has selected for 0x4000..=0x7FFF.
    pub open spec fn selected_bank(self) -> int {
        self.bank2 as int * 32 + self.bank1 as int
    }

    /// The ROM bank mapped at 0x0000..=0x3FFF.
    pub open spec fn low_bank(self) -> int {
        if self.banked && self.alt_mode {
            (self.bank2 as int * 32) % bank_span(self.rom_bank_count())
        } else {
            0
        }
    }

    /// The ROM bank mapped at 0x4000..=0x7FFF.
    pub open spec fn high_bank(self) -> int {
        if self.banked {
            self.selected_bank() % bank_span(self.rom_bank_count())
        } else {
            1
        }
    }

    /// The RAM bank mapped at 0xA000..=0xBFFF.
    pub open spec fn ram_bank(self) -> int {
        if self.banked && self.alt_mode {
            (self.bank2 as int) % bank_span(self.external_bank_count())
        } else {
            0
        }
    }

    /// Where in the ROM image the byte at `address` lies.
    pub open spec fn rom_offset(self, address: u16) -> int {
        if address < 0x4000 {
            self.low_bank() * 0x4000 + address
        } else {
            self.high_bank() * 0x4000 + (address - 0x4000)
        }
    }

    /// Where in external RAM the byte at `address` lies.
    pub open spec fn ram_offset(self, address: u16) -> int {
        self.ram_bank() * 0x2000 + (address - 0xA000)
    }

    /// Whether external RAM answers at all.
    pub open spec fn ram_accessible(self) -> bool {
        !self.banked || self.ram_enabled
    }

    /// What a read of `address` in 0x0000..=0x7FFF returns.
    pub open spec fn read(self, address: u16) -> u8 {
        byte_or_open_bus(self.rom, self.rom_offset(address))
    }

    /// The state after a write of `data` to `address` in 0x0000..=0x7FFF.
    /// The ROM is never written: an MBC1 takes the write as a command.
    pub open spec fn write(self, address: u16, data: u8) -> MbcView {
        if !self.banked {
            self
        } else if address < 0x2000 {
            MbcView { ram_enabled: data % 16 == 0x0A, ..self }
        } else if address < 0x4000 {
            MbcView { bank1: if data % 32 == 0 { 1 } else { data % 32 }, ..self }
        } else if address < 0x6000 {
            MbcView { bank2: data % 4, ..self }
        } else {
            MbcView { alt_mode: data % 2 == 1, ..self }
        }
    }

    /// What a read of `address` in 0xA000..=0xBFFF returns.
    pub open spec fn external_read(self, address: u16) -> u8 {
        if self.ram_accessible() {
            byte_or_open_bus(self.external, self.ram_offset(address))
        } else {
            0xFF
        }
    }

    /// The state after a write of `data` to `address` in 0xA000..=0xBFFF.
    pub open spec fn external_write(self, address: u16, data: u8) -> MbcView {
        if self.ram_accessible() && 0 <= self.ram_offset(address) < self.external.len() {
            MbcView { external: self.external.update(self.ram_offset(address), data), ..self }
        } else {
            self
        }
    }
}

/// Rounds a bank count up to a power of two, between 1 and 128.
fn round_up_banks(count: usize) -> (span: usize)
    ensures
        span == bank_span(count as int),
        1 <= span <= 128,
{
    if count <= 1 {
        1
    } else if count <= 2 {
        2
    } else if count <= 4 {
        4
    } else if count <= 8 {
        8
    } else if count <= 16 {
        16
    } else if count <= 32 {
        32
    } else if count <= 64 {
        64
    } else {
        128
    }
}

/// A cartridge as the memory bus sees it. `read` and `write` serve
/// 0x0000..=0x7FFF, `external_read` and `external_write` 0xA000..=0xBFFF.
pub trait MemoryBankController {
    /// The cartridge's state.
    spec fn state(&self) -> MbcView;

    fn read(&self, address: u16) -> (data: u8)
        requires
            address < 0x8000,
        ensures
            data == self.state().read(address),
    ;

    fn write(&mut self, address: u16, data: u8)
        requires
            address < 0x8000,
        ensures
            final(self).state() == old(self).state().write(address, data),
    ;

    fn external_read(&self, address: u16) -> (data: u8)
        requires
            0xA000 <= address < 0xC000,
        ensures
            data == self.state().external_read(address),
    ;

    fn external_write(&mut self, address: u16, data: u8)
        requires
            0xA000 <= address < 0xC000,
        ensures
            final(self).state() == old(self).state().external_write(address, data),
    ;
}

/// A cartridge without a bank controller: 32 KiB of ROM, and RAM or none.
pub struct NoMBC {
    rom: Vec<u8>,
    external: Vec<u8>,
}

impl NoMBC {
    pub fn new(rom: Vec<u8>, external: Vec<u8>) -> (mbc: Self)
        ensures
            mbc.state() == (MbcView {
                banked: false,
                rom: rom@,
                external: external@,
                bank1: 1,
                bank2: 0,
                ram_enabled: false,
                alt_mode: false,
            }),
    {
        Self { rom, external }
    }
}

impl MemoryBankController for NoMBC {
    closed spec fn state(&self) -> MbcView {
        MbcView {
            banked: false,
            rom: self.rom@,
            external: self.external@,
            bank1: 1,
            bank2: 0,
            ram_enabled: false,
            alt_mode: false,
        }
    }

    fn read(&self, address: u16) -> (data: u8) {
        let offset = address as usize;
        if offset < self.rom.len() {
            self.rom[offset]
        } else {
            0xFF
        }
    }

    fn write(&mut self, _address: u16, _data: u8) {
    }

    fn external_read(&self, address: u16) -> (data: u8) {
        let offset = (address - 0xA000) as usize;
        if offset < self.external.len() {
            self.external[offset]
        } else {
            0xFF
        }
    }

    fn external_write(&mut self, address: u16, data: u8) {
        let offset = (address - 0xA000) as usize;
        if offset < self.external.len() {
            self.external[offset] = data;
        }
    }
}

/// A cartridge with an MBC1: up to 2 MiB of ROM and 32 KiB of RAM.
pub struct MBC1 {
    rom: Vec<u8>,
    external: Vec<u8>,
    bank1: u8,
    bank2: u8,
    ram_enabled: bool,
    alt_mode: bool,
}

impl MBC1 {
    pub fn new(rom: Vec<u8>, external: Vec<u8>) -> (mbc: Self)
        ensures
            mbc.state() == (MbcView {
                banked: true,
                rom: rom@,
                external: external@,
                bank1: 1,
                bank2: 0,
                ram_enabled: false,
                alt_mode: false,
            }),
    {
        Self { rom, external, bank1: 1, bank2: 0, ram_enabled: false, alt_mode: false }
    }

    pub fn rom_bank_count(&self) -> (count: usize)
        ensures
            count == self.state().rom_bank_count(),
    {
        self.rom.len() / ROM_BANK_SIZE
    }

    pub fn external_bank_count(&self) -> (count: usize)
        ensures
            count == self.state().external_bank_count(),
    {
        self.external.len() / RAM_BANK_SIZE
    }

    /// Where in external RAM the byte at `address` lies.
    fn ram_offset(&self, address: u16) -> (offset: usize)
        requires
            0xA000 <= address < 0xC000,
        ensures
            offset == self.state().ram_offset(address),
    {
        let ram_bank = if self.alt_mode {
            self.bank2 as usize % round_up_banks(self.external_bank_count())
        } else {
            0
        };
        ram_bank * RAM_BANK_SIZE + (address - 0xA000) as usize
    }
}

impl MemoryBankController for MBC1 {
    closed spec fn state(&self) -> MbcView {
        MbcView {
            banked: true,
            rom: self.rom@,
            external: self.external@,
            bank1: self.bank1,
            bank2: self.bank2,
            ram_enabled: self.ram_enabled,
            alt_mode: self.alt_mode,
        }
    }

    fn read(&self, address: u16) -> (data: u8) {
        let span = round_up_banks(self.rom_bank_count());
        let offset = if address < 0x4000 {
            let rom_bank = if self.alt_mode {
                (self.bank2 as usize * 32) % span
            } else {
                0
            };
            rom_bank * ROM_BANK_SIZE + address as usize
        } else {
            let rom_bank = (self.bank2 as usize * 32 + self.bank1 as usize) % span;
            rom_bank * ROM_BANK_SIZE + (address - 0x4000) as usize
        };
        if offset < self.rom.len() {
            self.rom[offset]
        } else {
            0xFF
        }
    }

    fn write(&mut self, address: u16, data: u8) {
        if address < 0x2000 {
            self.ram_enabled = data % 16 == 0x0A;
        } else if address < 0x4000 {
            let low = data % 32;
            self.bank1 = if low == 0 {
                1
            } else {
                low
            };
        } else if address < 0x6000 {
            self.bank2 = data % 4;
        } else {
            self.alt_mode = data % 2 == 1;
        }
    }

    fn external_read(&self, address: u16) -> (data: u8) {
        if !self.ram_enabled {
            return 0xFF;
        }
        let offset = self.ram_offset(address);
        if offset < self.external.len() {
            self.external[offset]
        } else {
            0xFF
        }
    }

    fn external_write(&mut self, address: u16, data: u8) {
        if !self.ram_enabled {
            return ;
        }
        let offset = self.ram_offset(address);
        if offset < self.external.len() {
            self.external[offset] = data;
        }
    }
}

/// The bank controller of a cartridge.
pub enum Mbc {
    NoMBC(NoMBC),
    MBC1(MBC1),
}

impl MemoryBankController for Mbc {
    open spec fn state(&self) -> MbcView {
        match self {
            Mbc::NoMBC(mbc) => mbc.state(),
            Mbc::MBC1(mbc) => mbc.state(),
        }
    }

    fn read(&self, address: u16) -> (data: u8) {
        match self {
            Mbc::NoMBC(mbc) => mbc.read(address),
            Mbc::MBC1(mbc) => mbc.read(address),
        }
    }

    fn write(&mut self, address: u16, data: u8) {
        match self {
            Mbc::NoMBC(mbc) => mbc.write(address, data),
            Mbc::MBC1(mbc) => mbc.write(address, data),
        }
    }

    fn external_read(&self, address: u16) -> (data: u8) {
        match self {
            Mbc::NoMBC(mbc) => mbc.external_read(address),
            Mbc::MBC1(mbc) => mbc.external_read(address),
        }
    }

    fn external_write(&mut self, address: u16, data: u8) {
        match self {
            Mbc::NoMBC(mbc) => mbc.external_write(address, data),
            Mbc::MBC1(mbc) => mbc.external_write(address, data),
        }
    }
}

/// What loading the ROM image `bytes` gives when it fails.
pub open spec fn rom_error(bytes: Seq<u8>) -> Option<RomError> {
    if bytes.len() < HEADER_END {
        Some(RomError::TooSmall)
    } else if header_error(bytes.subrange(HEADER_START as int, HEADER_END as int)) is Some {
        header_error(bytes.subrange(HEADER_START as int, HEADER_END as int))
    } else if bytes.len() != rom_size_of(bytes[HEADER_START + 21]) {
        Some(
            RomError::SizeMismatch {
                expected: rom_size_of(bytes[HEADER_START + 21]) as usize,
                got: bytes.len() as usize,
            },
        )
    } else if mbc_type_of(bytes[HEADER_START + 20]) == RomMBCType::Unknown {
        Some(RomError::UnsupportedMbc)
    } else {
        None
    }
}

/// The state of the cartridge that the ROM image `bytes` describes, before
/// any program has run.
pub open spec fn initial_cartridge(bytes: Seq<u8>) -> MbcView {
    MbcView {
        banked: mbc_type_of(bytes[HEADER_START + 20]) != RomMBCType::NoMBC,
        rom: bytes,
        external: Seq::new(ram_size_of(bytes[HEADER_START + 22]), |i: int| 0xFFu8),
        bank1: 1,
        bank2: 0,
        ram_enabled: false,
        alt_mode: false,
    }
}

/// Represents a gameboy game rom.
pub struct Rom {
    header: RomHeader,
    mbc: Mbc,
}

impl Rom {
    /// The header that the image was loaded with.
    pub closed spec fn header_spec(&self) -> RomHeader {
        self.header
    }

    /// Loads a ROM image: decodes its header, checks its length against the
    /// header and sets up the bank controller that the header names.
#[verifier::rlimit(50)]
    pub fn try_from_bytes(bytes: Vec<u8>) -> (r: Result<Self, RomError>)
        ensures
            r is Ok <==> rom_error(bytes@) is None,
            r matches Err(e) ==> rom_error(bytes@) == Some(e),
            r matches Ok(rom) ==> rom.state() == initial_cartridge(bytes@) && header_decodes(
                rom.header_spec(),
                bytes@.subrange(HEADER_START as int, HEADER_END as int),
            ),
    {
        if bytes.len() < HEADER_END {
            return Err(RomError::TooSmall);
        }
        let header = match RomHeader::try_from_bytes(
            slice_subrange(bytes.as_slice(), HEADER_START, HEADER_END),
        ) {
            Ok(header) => header,
            Err(e) => {
                return Err(e);
            },
        };
        if bytes.len() != header.rom_size {
            return Err(RomError::SizeMismatch { expected: header.rom_size, got: bytes.len() });
        }
        let external = vec![0xFFu8; header.ram_size];
        assert(external@ =~= Seq::new(header.ram_size as nat, |i: int| 0xFFu8));
        let mbc = match header.rom_type {
            RomMBCType::NoMBC => Mbc::NoMBC(NoMBC::new(bytes, external)),
            RomMBCType::MBC1 | RomMBCType::MBC1Ram | RomMBCType::MBC1RamBattery => Mbc::MBC1(
                MBC1::new(bytes, external),
            ),
            RomMBCType::Unknown => {
                return Err(RomError::UnsupportedMbc);
            },
        };
        Ok(Self { header, mbc })
    }

    pub fn header(&self) -> (header: &RomHeader)
        ensures
            *header == self.header_spec(),
    {
        &self.header
    }
}

impl MemoryBankController for Rom {
    closed spec fn state(&self) -> MbcView {
        self.mbc.state()
    }

    fn read(&self, address: u16) -> (data: u8) {
        self.mbc.read(address)
    }

    fn write(&mut self, address: u16, data: u8) {
        self.mbc.write(address, data)
    }

    fn external_read(&self, address: u16) -> (data: u8) {
        self.mbc.external_read(address)
    }

    fn external_write(&mut self, address: u16, data: u8) {
        self.mbc.external_write(address, data)
    }
}

/// On an MBC1 with 2 MiB of ROM every bank number selects its own bank:
/// after `low` went to 0x2000..=0x3FFF, `high` to 0x4000..=0x5FFF and `mode`
/// to 0x6000..=0x7FFF, the window at 0x4000 shows the bank whose number has
/// the low two bits of `high` above the low five bits of `low`, with a zero
/// in the low five bits read as one, and the window at 0x0000 shows bank 0
/// or, in the advanced mode, the bank 32 times the low two bits of `high`.
#[verifier::rlimit(50)]
pub proof fn lemma_mbc1_windows(cartridge: MbcView, low: u8, high: u8, mode: u8, address: u16)
    requires
        cartridge.banked,
        cartridge.rom.len() == 0x20_0000,
        address < 0x8000,
    ensures
        ({
            let selected = cartridge.write(0x2000, low).write(0x4000, high).write(0x6000, mode);
            let bank1 = if low % 32 == 0 {
                1int
            } else {
                low as int % 32
            };
            let bank2 = high as int % 4;
            &&& selected.rom == cartridge.rom
            &&& selected.bank1 == bank1
            &&& selected.bank2 == bank2
            &&& selected.alt_mode == (mode % 2 == 1)
            &&& address >= 0x4000 ==> selected.read(address) == cartridge.rom[(bank2 * 32 + bank1)
                * 0x4000 + (address - 0x4000)]
            &&& address < 0x4000 && mode % 2 == 1 ==> selected.read(address) == cartridge.rom[bank2
                * 32 * 0x4000 + address]
            &&& address < 0x4000 && mode % 2 == 0 ==> selected.read(address)
                == cartridge.rom[address as int]
        }),
{
}

/// A flat cartridge ignores writes to its ROM range, and with no RAM its
/// RAM range reads 0xFF.
pub proof fn lemma_flat_cartridge(cartridge: MbcView, address: u16, data: u8)
    requires
        !cartridge.banked,
    ensures
        cartridge.write(address, data) == cartridge,
        cartridge.external.len() == 0 ==> cartridge.external_read(address) == 0xFF,
{
}

} // verus!
