//! Cartridge image container and the binary header parser.
//!
//! The accepted input is a binary image with a 16-byte header starting with
//! the magic bytes `4E 45 53 1A`, followed by the PRG-ROM size in 16 KiB
//! units (byte 4), the CHR-ROM size in 8 KiB units (byte 5), two flag bytes,
//! an optional 512-byte trainer, the PRG banks and the CHR banks.  The newer
//! format variant is recognised by bits 2-3 of byte 7 equal to binary 10 and
//! reinterprets bytes 8-15.

use vstd::prelude::*;

verus! {

/// Size of one PRG-ROM bank in bytes (16 KiB).
pub const PRG_ROM_UNIT_SIZE: usize = 0x4000;

/// Size of one CHR-ROM bank in bytes (8 KiB).
pub const CHR_ROM_UNIT_SIZE: usize = 0x2000;

/// The nametable mirroring wired into the cartridge.
#[derive(Debug, PartialEq, Eq, Structural, Clone, Copy)]
pub enum MirroringType {
    /// Four-screen mode: no mirroring between the nametables.
    FourScreen,
    /// Horizontal mirroring: the two upper and the two lower tables alias.
    Horizontal,
    /// Vertical mirroring: the two left and the two right tables alias.
    Vertical,
}

/// The console family the image targets.
#[derive(Debug, PartialEq, Eq, Structural, Clone, Copy)]
pub enum ConsoleType {
    /// The home console.
    Nes,
    /// The arcade Vs. System.
    VsSystem,
    /// The arcade Playchoice 10.
    Playchoice10,
    /// An extended console type.
    Extended,
}

/// The television signal format.
#[derive(Debug, PartialEq, Eq, Structural, Clone, Copy)]
pub enum TvFormat {
    /// 60 Hz timing.
    NTSC,
    /// 50 Hz timing.
    PAL,
}

/// The CPU/PPU timing profile named by the newer header format.
#[derive(Debug, PartialEq, Eq, Structural, Clone, Copy)]
pub enum CPUTiming {
    /// 60 Hz timing.
    NTSC,
    /// 50 Hz timing.
    PAL,
    /// An image marked as running on several regions.
    MultiRegion,
    /// The Dendy clone's timing.
    Dendy,
}

/// Why a cartridge image was rejected.
#[derive(Debug, PartialEq, Eq, Structural, Clone, Copy)]
pub enum RomError {
    /// The image is shorter than the 16-byte header.
    HeaderTooShort,
    /// The magic bytes are wrong.
    BadMagic,
    /// The image ends before the banks the header declares.
    Truncated,
}

/// A parsed cartridge image.
#[derive(Debug)]
pub struct NesRom {
    /// The PRG-ROM banks, concatenated.
    pub prg_rom: Vec<u8>,
    /// The CHR-ROM banks, concatenated.
    pub chr_rom: Vec<u8>,
    /// The 512-byte trainer, where the header declares one.
    pub trainer: Option<Vec<u8>>,
    /// The nametable mirroring mode.
    pub mirroring_type: MirroringType,
    /// Whether the cartridge carries battery-backed memory.
    pub battery_backed: bool,
    /// The console family.
    pub console_type: ConsoleType,
    /// The mapper number assembled from its header nibbles.
    pub mapper_no: u16,
    /// The PRG-RAM size in bytes.
    pub prg_ram_size: u32,
    /// The EEPROM size in bytes (newer format only).
    pub eeprom_size: u32,
    /// The television signal format.
    pub tv_format: TvFormat,
    /// The CHR-RAM size in bytes (newer format only).
    pub chr_ram_size: u32,
    /// The non-volatile CHR-RAM size in bytes (newer format only).
    pub chr_nvram_size: u32,
    /// The CPU/PPU timing profile (newer format only).
    pub cpu_timing: CPUTiming,
    /// The Vs. System type nibble (newer format only).
    pub vssystem_type: u8,
    /// The Vs. System hardware nibble (newer format only).
    pub vshardware_type: u8,
}

impl NesRom {
    /// The PRG-ROM banks.
    pub fn prg_rom(&self) -> (r: &Vec<u8>)
        ensures
            r == &self.prg_rom,
    {
        &self.prg_rom
    }

    /// The CHR-ROM banks.
    pub fn chr_rom(&self) -> (r: &Vec<u8>)
        ensures
            r == &self.chr_rom,
    {
        &self.chr_rom
    }

    /// The nametable mirroring mode.
    pub fn mirroring_type(&self) -> (r: MirroringType)
        ensures
            r == self.mirroring_type,
    {
        self.mirroring_type
    }
}

/// The mirroring mode named by flag byte 6.
pub open spec fn spec_mirroring(flags: u8) -> MirroringType {
    if flags & 0x08 != 0 {
        MirroringType::FourScreen
    } else if flags & 0x01 != 0 {
        MirroringType::Vertical
    } else {
        MirroringType::Horizontal
    }
}

/// The console type named by the low bits of flag byte 7.
pub open spec fn spec_console_type(flags: u8) -> ConsoleType {
    if flags & 0x03 == 0 {
        ConsoleType::Nes
    } else if flags & 0x03 == 1 {
        ConsoleType::VsSystem
    } else if flags & 0x03 == 2 {
        ConsoleType::Playchoice10
    } else {
        ConsoleType::Extended
    }
}

/// Whether flag byte 7 marks the newer header format.
pub open spec fn spec_is_v2(flags: u8) -> bool {
    (flags / 4) % 4 == 2
}

/// Parses flag byte 6: mirroring, battery, trainer presence and the low
/// mapper nibble.
pub fn parse_flag6(flags: u8) -> (r: (MirroringType, bool, bool, u8))
    ensures
        r.0 == spec_mirroring(flags),
        r.1 == (flags & 0x02 != 0),
        r.2 == (flags & 0x04 != 0),
        r.3 == flags / 16,
{
    let mirroring_type = if flags & 0x08 != 0 {
        MirroringType::FourScreen
    } else if flags & 0x01 != 0 {
        MirroringType::Vertical
    } else {
        MirroringType::Horizontal
    };
    let battery_backed = (flags & 0x02) != 0;
    let has_trainer = (flags & 0x04) != 0;
    let mapper_lower = flags / 16;
    (mirroring_type, battery_backed, has_trainer, mapper_lower)
}

/// Parses flag byte 7: console type, the newer-format identifier and the
/// middle mapper nibble.
pub fn parse_flag7(flags: u8) -> (r: (ConsoleType, bool, u8))
    ensures
        r.0 == spec_console_type(flags),
        r.1 == spec_is_v2(flags),
        r.2 == flags / 16,
{
    let console_type = if flags & 0x03 == 0 {
        ConsoleType::Nes
    } else if flags & 0x03 == 1 {
        ConsoleType::VsSystem
    } else if flags & 0x03 == 2 {
        ConsoleType::Playchoice10
    } else {
        ConsoleType::Extended
    };
    let is_v2 = (flags / 4) % 4 == 2;
    let mapper_middle = flags / 16;
    (console_type, is_v2, mapper_middle)
}

/// The PRG-RAM size named by byte 8 of the older format: a zero infers one
/// 8 KiB unit.
pub open spec fn spec_prg_ram_size_v1(flags: u8) -> u32 {
    if flags == 0 {
        0x2000u32
    } else {
        (0x2000 * flags) as u32
    }
}

/// Parses byte 8 of the older format: the PRG-RAM size in bytes.
pub fn parse_flag8(flags: u8) -> (r: u32)
    ensures
        r == spec_prg_ram_size_v1(flags),
{
    if flags == 0 {
        0x2000
    } else {
        0x2000 * (flags as u32)
    }
}

/// Parses byte 8 of the newer format: the high mapper nibble and the
/// submapper nibble.
pub fn parse_flag8_v2(flags: u8) -> (r: (u8, u8))
    ensures
        r.0 == flags % 16,
        r.1 == flags % 16,
{
    (flags % 16, flags % 16)
}

/// Parses byte 9 of the older format: the television signal format.
pub fn parse_flag9(flags: u8) -> (r: TvFormat)
    ensures
        r == (if flags & 0x01 == 0 {
            TvFormat::NTSC
        } else {
            TvFormat::PAL
        }),
{
    if flags & 0x01 == 0 {
        TvFormat::NTSC
    } else {
        TvFormat::PAL
    }
}

/// Parses byte 9 of the newer format: the PRG-ROM and CHR-ROM size high
/// nibbles.
pub fn parse_flag9_v2(flags: u8) -> (r: (u8, u8))
    ensures
        r.0 == flags % 16,
        r.1 == flags & 0xF0,
{
    (flags % 16, flags & 0xF0)
}

/// The pair of sizes named by byte 10 of the newer format, as
/// `64 << shift-count` bytes each.
pub open spec fn spec_shift_sizes(flags: u8) -> (u32, u32) {
    ((64u32 << (flags / 16)), (64u32 << (flags % 16)))
}

/// Parses byte 10 of the newer format: the PRG-RAM and EEPROM sizes.
pub fn parse_flag10_v2(flags: u8) -> (r: (u32, u32))
    ensures
        r == spec_shift_sizes(flags),
{
    (64u32 << (flags / 16), 64u32 << (flags % 16))
}

/// Parses byte 11 of the newer format: the CHR-RAM and non-volatile CHR-RAM
/// sizes.
pub fn parse_flag11_v2(flags: u8) -> (r: (u32, u32))
    ensures
        r == spec_shift_sizes(flags),
{
    (64u32 << (flags / 16), 64u32 << (flags % 16))
}

/// The timing profile read from byte 12 of the newer format.
pub open spec fn spec_cpu_timing(flags: u8) -> CPUTiming {
    if flags | 0x03 == 0 {
        CPUTiming::NTSC
    } else if flags | 0x03 == 1 {
        CPUTiming::PAL
    } else if flags | 0x03 == 2 {
        CPUTiming::MultiRegion
    } else if flags | 0x03 == 3 {
        CPUTiming::Dendy
    } else {
        CPUTiming::NTSC
    }
}

/// Parses byte 12 of the newer format: the CPU/PPU timing profile.
pub fn parse_flag12_v2(flags: u8) -> (r: CPUTiming)
    ensures
        r == spec_cpu_timing(flags),
{
    if flags | 0x03 == 0 {
        CPUTiming::NTSC
    } else if flags | 0x03 == 1 {
        CPUTiming::PAL
    } else if flags | 0x03 == 2 {
        CPUTiming::MultiRegion
    } else if flags | 0x03 == 3 {
        CPUTiming::Dendy
    } else {
        CPUTiming::NTSC
    }
}

/// Parses byte 13 of the newer format: the Vs. System type nibbles.
pub fn parse_flag13_v2(flags: u8) -> (r: (u8, u8))
    ensures
        r.0 == flags % 16,
        r.1 == flags / 16,
{
    (flags % 16, flags / 16)
}

/// The bank size in bytes named by a size high nibble and low byte of the
/// newer format.  A high nibble of 15 selects an exponent-multiplier
/// notation: `2^exponent * (multiplier * 2 + 1)` bytes.
pub open spec fn spec_rom_size(upper: u8, lower: u8) -> u128 {
    if upper == 0x0F {
        (((1u64 << (lower / 4)) as u128) * (((lower % 4) * 2 + 1) as u128)) as u128
    } else {
        (upper * 256 + lower) as u128
    }
}

/// Computes the bank size in bytes from a size high nibble and low byte of
/// the newer format.
pub fn calculate_rom_size(upper: u8, lower: u8) -> (r: u128)
    ensures
        r == spec_rom_size(upper, lower),
        r <= 0xFFFF_FFFF_FFFF_FFFFu128 * 7,
{
    if upper == 0x0F {
        let mm: u128 = ((lower % 4) as u128) * 2 + 1;
        let exponent: u8 = lower / 4;
        let base: u64 = 1u64 << exponent;
        assert((base as u128) * mm <= 0xFFFF_FFFF_FFFF_FFFFu128 * 7) by (nonlinear_arith)
            requires
                base as u128 <= 0xFFFF_FFFF_FFFF_FFFFu128,
                1 <= mm <= 7,
        ;
        (base as u128) * mm
    } else {
        (upper as u128) * 256 + (lower as u128)
    }
}

/// Whether the image is long enough to hold the header.
pub open spec fn spec_header_long_enough(b: Seq<u8>) -> bool {
    b.len() >= 16
}

/// Whether the header starts with the magic bytes.
pub open spec fn spec_magic_ok(b: Seq<u8>) -> bool {
    &&& b.len() >= 16
    &&& b[0] == 0x4E
    &&& b[1] == 0x45
    &&& b[2] == 0x53
    &&& b[3] == 0x1A
}

/// Whether the header declares a trainer.
pub open spec fn spec_has_trainer(b: Seq<u8>) -> bool {
    b[6] & 0x04 != 0
}

/// The PRG-ROM size in bytes the header declares.
pub open spec fn spec_prg_size(b: Seq<u8>) -> int {
    if spec_is_v2(b[7]) {
        spec_rom_size(b[9] % 16, b[4]) as int
    } else {
        b[4] * 0x4000
    }
}

/// The CHR-ROM size in bytes the header declares.
pub open spec fn spec_chr_size(b: Seq<u8>) -> int {
    if spec_is_v2(b[7]) {
        spec_rom_size(b[9] & 0xF0, b[5]) as int
    } else {
        b[5] * 0x2000
    }
}

/// The trainer size in bytes the header declares.
pub open spec fn spec_trainer_size(b: Seq<u8>) -> int {
    if spec_has_trainer(b) {
        512
    } else {
        0
    }
}

/// The total image length the header demands.
pub open spec fn spec_total_needed(b: Seq<u8>) -> int {
    16 + spec_trainer_size(b) + spec_prg_size(b) + spec_chr_size(b)
}

/// Whether an image parses successfully.
pub open spec fn spec_parse_ok(b: Seq<u8>) -> bool {
    &&& spec_header_long_enough(b)
    &&& spec_magic_ok(b)
    &&& b.len() >= spec_total_needed(b)
}

/// Copies `len` bytes of `src` starting at `start` into a fresh vector.
fn copy_range(src: &Vec<u8>, start: usize, len: usize) -> (r: Vec<u8>)
    requires
        start + len <= src@.len(),
    ensures
        r@ == src@.subrange(start as int, start + len),
{
    let slen: usize = src.len();
    let mut out: Vec<u8> = Vec::new();
    let mut i: usize = 0;
    while i < len
        invariant
            i <= len,
            start + len <= slen,
            slen == src@.len(),
            out@ == src@.subrange(start as int, start + i),
        decreases len - i,
    {
        out.push(src[start + i]);
        assert(out@ == src@.subrange(start as int, start + i + 1));
        i = i + 1;
    }
    out
}

/// Parses a cartridge image.
///
/// Succeeds exactly when the image holds the 16-byte header, the magic bytes
/// match, and the image is long enough for the trainer and banks the header
/// declares; otherwise reports which of the three conditions failed first.
pub fn parse(rom_bin: &Vec<u8>) -> (r: Result<NesRom, RomError>)
    ensures
        r is Ok <==> spec_parse_ok(rom_bin@),
        r == Result::<NesRom, RomError>::Err(RomError::HeaderTooShort) <==> !spec_header_long_enough(
            rom_bin@,
        ),
        r == Result::<NesRom, RomError>::Err(RomError::BadMagic) <==> (spec_header_long_enough(
            rom_bin@,
        ) && !spec_magic_ok(rom_bin@)),
        r == Result::<NesRom, RomError>::Err(RomError::Truncated) <==> (spec_magic_ok(rom_bin@)
            && rom_bin@.len() < spec_total_needed(rom_bin@)),
        r matches Ok(rom) ==> {
            let b = rom_bin@;
            &&& rom.prg_rom@ == b.subrange(
                16 + spec_trainer_size(b),
                16 + spec_trainer_size(b) + spec_prg_size(b),
            )
            &&& rom.chr_rom@ == b.subrange(
                16 + spec_trainer_size(b) + spec_prg_size(b),
                spec_total_needed(b),
            )
            &&& (rom.trainer matches Some(t) ==> spec_has_trainer(b) && t@ == b.subrange(16, 528))
            &&& (rom.trainer is None <==> !spec_has_trainer(b))
            &&& rom.mirroring_type == spec_mirroring(b[6])
            &&& rom.battery_backed == (b[6] & 0x02 != 0)
            &&& rom.console_type == spec_console_type(b[7])
            &&& rom.mapper_no == (if spec_is_v2(b[7]) {
                (b[8] % 16) * 256 + (b[7] / 16) * 16 + b[6] / 16
            } else {
                (b[7] / 16) * 16 + b[6] / 16
            })
            &&& rom.prg_ram_size == (if spec_is_v2(b[7]) {
                spec_shift_sizes(b[10]).0
            } else {
                spec_prg_ram_size_v1(b[8])
            })
            &&& rom.eeprom_size == (if spec_is_v2(b[7]) {
                spec_shift_sizes(b[10]).1
            } else {
                0u32
            })
            &&& rom.tv_format == (if spec_is_v2(b[7]) {
                TvFormat::NTSC
            } else if b[9] & 0x01 == 0 {
                TvFormat::NTSC
            } else {
                TvFormat::PAL
            })
            &&& rom.chr_ram_size == (if spec_is_v2(b[7]) {
                spec_shift_sizes(b[11]).0
            } else {
                0u32
            })
            &&& rom.chr_nvram_size == (if spec_is_v2(b[7]) {
                spec_shift_sizes(b[11]).1
            } else {
                0u32
            })
            &&& rom.cpu_timing == (if spec_is_v2(b[7]) {
                spec_cpu_timing(b[12])
            } else {
                CPUTiming::NTSC
            })
            &&& rom.vssystem_type == (if spec_is_v2(b[7]) {
                b[13] % 16
            } else {
                0u8
            })
            &&& rom.vshardware_type == (if spec_is_v2(b[7]) {
                b[13] / 16
            } else {
                0u8
            })
        },
{
    if rom_bin.len() < 16 {
        return Err(RomError::HeaderTooShort);
    }
    if !(rom_bin[0] == 0x4E && rom_bin[1] == 0x45 && rom_bin[2] == 0x53 && rom_bin[3] == 0x1A) {
        return Err(RomError::BadMagic);
    }

    let prg_lower = rom_bin[4];
    let chr_lower = rom_bin[5];
    let (mirroring_type, battery_backed, has_trainer, mapper_lower) = parse_flag6(rom_bin[6]);
    let (console_type, is_v2, mapper_middle) = parse_flag7(rom_bin[7]);

    let prg_ram_size: u32;
    let eeprom_size: u32;
    let mapper_upper: u8;
    if is_v2 {
        let (prg, eep) = parse_flag10_v2(rom_bin[10]);
        prg_ram_size = prg;
        eeprom_size = eep;
        let (upper, _sub) = parse_flag8_v2(rom_bin[8]);
        mapper_upper = upper;
    } else {
        prg_ram_size = parse_flag8(rom_bin[8]);
        eeprom_size = 0;
        mapper_upper = 0;
    }

    let mapper_no: u16 = (mapper_upper as u16) * 256 + (mapper_middle as u16) * 16 + (mapper_lower
        as u16);

    let tv_format: TvFormat;
    let prg_rom_size: u128;
    let chr_rom_size: u128;
    if is_v2 {
        let (prg_upper, chr_upper) = parse_flag9_v2(rom_bin[9]);
        prg_rom_size = calculate_rom_size(prg_upper, prg_lower);
        chr_rom_size = calculate_rom_size(chr_upper, chr_lower);
        tv_format = TvFormat::NTSC;
    } else {
        tv_format = parse_flag9(rom_bin[9]);
        prg_rom_size = (prg_lower as u128) * 0x4000;
        chr_rom_size = (chr_lower as u128) * 0x2000;
    }

    let chr_ram_size: u32;
    let chr_nvram_size: u32;
    if is_v2 {
        let (chr, chr_nv) = parse_flag11_v2(rom_bin[11]);
        chr_ram_size = chr;
        chr_nvram_size = chr_nv;
    } else {
        chr_ram_size = 0;
        chr_nvram_size = 0;
    }

    let cpu_timing = if is_v2 {
        parse_flag12_v2(rom_bin[12])
    } else {
        CPUTiming::NTSC
    };

    let (vssystem_type, vshardware_type) = if is_v2 {
        parse_flag13_v2(rom_bin[13])
    } else {
        (0u8, 0u8)
    };

    let trainer_size: u128 = if has_trainer {
        512
    } else {
        0
    };
    let needed: u128 = 16 + trainer_size + prg_rom_size + chr_rom_size;
    if (rom_bin.len() as u128) < needed {
        return Err(RomError::Truncated);
    }

    let prg_len: usize = prg_rom_size as usize;
    let chr_len: usize = chr_rom_size as usize;
    let mut index: usize = 16;

    let trainer: Option<Vec<u8>> = if has_trainer {
        let t = copy_range(rom_bin, index, 512);
        index = index + 512;
        Some(t)
    } else {
        None
    };

    let prg_rom = copy_range(rom_bin, index, prg_len);
    index = index + prg_len;
    let chr_rom = copy_range(rom_bin, index, chr_len);

    Ok(
        NesRom {
            prg_rom,
            chr_rom,
            trainer,
            mirroring_type,
            battery_backed,
            console_type,
            mapper_no,
            prg_ram_size,
            eeprom_size,
            tv_format,
            chr_ram_size,
            chr_nvram_size,
            cpu_timing,
            vssystem_type,
            vshardware_type,
        },
    )
}

} // verus!
