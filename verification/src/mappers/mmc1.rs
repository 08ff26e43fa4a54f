use vstd::prelude::*;
use crate::mappers::{Mapper, empty_tile};
use crate::rom::Mirroring;

verus! {

// 4bit0
// -----
// CPPMM
// |||||
// |||++- Nametable arrangement: (0: one-screen, lower bank; 1: one-screen, upper bank;
// |||               2: horizontal arrangement ("vertical mirroring", PPU A10);
// |||               3: vertical arrangement ("horizontal mirroring", PPU A11) )
// |++--- PRG-ROM bank mode (0, 1: switch 32 KB at $8000, ignoring low bit of bank number;
// |                         2: fix first bank at $8000 and switch 16 KB bank at $C000;
// |                         3: fix last bank at $C000 and switch 16 KB bank at $8000)
// +----- CHR-ROM bank mode (0: switch 8 KB at a time; 1: switch two separate 4 KB banks)
/// The MMC1 control register.
#[derive(Debug, Clone, Copy)]
pub struct ControlRegister {
    pub value: u8,
}

/// How the MMC1 maps PRG ROM into 0x8000..0xFFFF.
#[derive(Debug, Clone, Copy, PartialEq, Eq, Structural)]
pub enum PRGBankMode {
    Mode32k,
    FirstBankFix,
    LastBankFix,
}

/// The name table arrangement that the low two bits of the control register select.
pub open spec fn mirroring_of(control: u8) -> Mirroring {
    let m = control & 3;
    if m == 0 {
        Mirroring::ONE_SCREEN_LOWER_BANK
    } else if m == 1 {
        Mirroring::ONE_SCREEN_UPPER_BANK
    } else if m == 2 {
        Mirroring::VERTICAL
    } else {
        Mirroring::HORIZONTAL
    }
}

/// The PRG bank mode that bits 2 and 3 of the control register select.
pub open spec fn prg_mode_of(control: u8) -> PRGBankMode {
    let m = (control & 0xC) >> 2u8;
    if m <= 1 {
        PRGBankMode::Mode32k
    } else if m == 2 {
        PRGBankMode::FirstBankFix
    } else {
        PRGBankMode::LastBankFix
    }
}

impl ControlRegister {
    /// Powers on in PRG bank mode 3 (last bank fixed).
    pub fn new() -> (r: Self)
        ensures
            r.value == 0b01100,
    {
        // "Although some tests have found that all versions of the MMC1 seems to reliably power on in the last bank (by setting the "PRG-ROM bank mode" to 3); other tests have found that this is fragile. Several commercial games have reset vectors every 32 KiB, but not every 16, so evidently PRG-ROM bank mode 2 doesn't seem to occur randomly on power-up." nes-dev
        ControlRegister { value: 0b01100 }
    }

    /// Sets PRG bank mode 3 (last bank fixed), keeping the other bits.
    pub fn reset(&mut self)
        ensures
            final(self).value == old(self).value | 0b01100,
    {
        self.value = self.value | 0b01100;
    }

    pub fn set(&mut self, value: u8)
        ensures
            final(self).value == value,
    {
        self.value = value;
    }

    pub fn get_mirroring(&self) -> (r: Mirroring)
        ensures
            r == mirroring_of(self.value),
    {
        let m = self.value & 0b11;
        if m == 0b00 {
            Mirroring::ONE_SCREEN_LOWER_BANK
        } else if m == 0b01 {
            Mirroring::ONE_SCREEN_UPPER_BANK
        } else if m == 0b10 {
            Mirroring::VERTICAL
        } else {
            Mirroring::HORIZONTAL
        }
    }

    pub fn get_prg_mode(&self) -> (r: PRGBankMode)
        ensures
            r == prg_mode_of(self.value),
    {
        let m = (self.value & 0b1100) >> 2u8;
        if m <= 1 {
            PRGBankMode::Mode32k
        } else if m == 2 {
            PRGBankMode::FirstBankFix
        } else {
            PRGBankMode::LastBankFix
        }
    }

    /// Whether CHR memory switches 8 KiB at a time (bit 4 clear).
    pub fn chr_8k_mode(&self) -> (r: bool)
        ensures
            r == (self.value & 0b10000 == 0),
    {
        self.value & 0b10000 == 0
    }
}

/// Cartridge PRG RAM.
#[derive(Debug)]
pub struct PrgRamWrapper<T> {
    data: T,
}

impl<T> PrgRamWrapper<T> {
    /// The memory the wrapper holds.
    pub closed spec fn inner(self) -> T {
        self.data
    }

    pub fn new(data: T) -> (r: Self)
        ensures
            r.inner() == data,
    {
        PrgRamWrapper { data }
    }
}

impl PrgRamWrapper<Vec<u8>> {
    fn read(&self, index: usize) -> (r: u8)
        requires
            index < self.inner()@.len(),
        ensures
            r == self.inner()@[index as int],
    {
        self.data[index]
    }

    fn write(&mut self, index: usize, value: u8)
        requires
            index < old(self).inner()@.len(),
        ensures
            final(self).inner()@ == old(self).inner()@.update(index as int, value),
    {
        self.data.set(index, value);
    }

    fn as_slice(&self) -> (r: &[u8])
        ensures
            r@ == self.inner()@,
    {
        self.data.as_slice()
    }
}

pub const CONTROL_REGISTER_START: u16 = 0x8000;
pub const CONTROL_REGISTER_END: u16 = 0x9FFF;
pub const CHR_BANK_0_START: u16 = 0xA000;
pub const CHR_BANK_0_END: u16 = 0xBFFF;
pub const CHR_BANK_1_START: u16 = 0xC000;
pub const CHR_BANK_1_END: u16 = 0xDFFF;
pub const PRG_BANK_START: u16 = 0xE000;
pub const PRG_BANK_END: u16 = 0xFFFF;
pub const PRG_ADDRESS_MASK: u8 = 0b1111;
pub const SHIFT_REGISTER_RESET: u8 = 0b1000_0000;
pub const SHIFT_REGISTER_INIT: u8 = 0b1_0000;
pub const BANK_SIZE_4K: usize = 0x1000;
pub const BANK_SIZE_8K: usize = 0x2000;
pub const BANK_SIZE_16K: usize = 0x4000;
pub const BANK_SIZE_32K: usize = 0x8000;

/// Size of PRG ROM at which the MMC1 uses a CHR register bit to select a 256 KiB half.
pub const PRG_ROM_512K: usize = 524288;

/// Mapper 1: switchable PRG and CHR banks, loaded through a serial shift register.
#[derive(Debug)]
pub struct MMC1Mapper {
    prg_rom: Vec<u8>,
    prg_rom_bank0_offset: usize,
    prg_rom_bank1_offset: usize,
    prg_ram: Option<PrgRamWrapper<Vec<u8>>>,
    chr_rom: Vec<u8>,
    chr_rom_bank0_offset: usize,
    chr_rom_bank1_offset: usize,
    shift_register: u8,
    control_register: ControlRegister,
    chr_bank0_register: u8,
    chr_bank1_register: u8,
    prg_bank_register: u8,
    mirroring: Mirroring,
}

/// The memories, registers and derived bank offsets of an MMC1 cartridge.
pub struct MMC1State {
    pub prg_rom: Seq<u8>,
    pub prg_bank0: usize,
    pub prg_bank1: usize,
    pub prg_ram: Option<Seq<u8>>,
    pub chr_rom: Seq<u8>,
    pub chr_bank0: usize,
    pub chr_bank1: usize,
    pub shift_register: u8,
    pub control: u8,
    pub chr_bank0_register: u8,
    pub chr_bank1_register: u8,
    pub prg_bank_register: u8,
    pub mirroring: Mirroring,
}

impl View for MMC1Mapper {
    type V = MMC1State;

    closed spec fn view(&self) -> MMC1State {
        MMC1State {
            prg_rom: self.prg_rom@,
            prg_bank0: self.prg_rom_bank0_offset,
            prg_bank1: self.prg_rom_bank1_offset,
            prg_ram: match self.prg_ram {
                Some(r) => Some(r.inner()@),
                None => None,
            },
            chr_rom: self.chr_rom@,
            chr_bank0: self.chr_rom_bank0_offset,
            chr_bank1: self.chr_rom_bank1_offset,
            shift_register: self.shift_register,
            control: self.control_register.value,
            chr_bank0_register: self.chr_bank0_register,
            chr_bank1_register: self.chr_bank1_register,
            prg_bank_register: self.prg_bank_register,
            mirroring: self.mirroring,
        }
    }
}

pub open spec fn min(a: int, b: int) -> int {
    if a < b { a } else { b }
}

impl MMC1State {
    /// PRG ROM holds at least 32 KiB and both 16 KiB windows lie inside it.
    pub open spec fn wf(self) -> bool {
        &&& self.prg_rom.len() >= 0x8000
        &&& self.prg_rom.len() <= usize::MAX
        &&& self.prg_bank0 + 0x4000 <= self.prg_rom.len()
        &&& self.prg_bank1 + 0x4000 <= self.prg_rom.len()
        &&& self.chr_bank0 <= 0xFF000
        &&& self.chr_bank1 <= 0x100000
    }

    /// The 256 KiB half selected on 512 KiB carts: bit 4 of either CHR register (0 or 16 banks).
    pub open spec fn upper_256kb(self) -> int {
        if self.prg_rom.len() == PRG_ROM_512K { ((self.chr_bank0_register | self.chr_bank1_register) & 0x10) as int } else { 0 }
    }

    /// The offsets of the PRG windows at 0x8000 and 0xC000 for the current registers.
    pub open spec fn prg_offsets(self) -> (int, int) {
        let len = self.prg_rom.len() as int;
        let bank_id = (self.prg_bank_register & 0xF) as int;
        let upper = self.upper_256kb();
        let max_16k = len / 0x4000 - 1;
        let max_32k = len / 0x8000 - 1;
        let first_bank = upper * 0x4000;
        let last_bank = if len == PRG_ROM_512K && upper == 0 { (max_16k - 16) * 0x4000 } else { max_16k * 0x4000 };
        match prg_mode_of(self.control) {
            PRGBankMode::Mode32k => {
                let b = 0x8000 * min(upper + ((self.prg_bank_register & 0xF) & 0xE) as int, max_32k);
                (b, b + 0x4000)
            },
            PRGBankMode::FirstBankFix => (first_bank, 0x4000 * min(upper + bank_id, max_16k)),
            PRGBankMode::LastBankFix => (0x4000 * min(upper + bank_id, max_16k), last_bank),
        }
    }

    /// The offset of the CHR window at 0x0000.
    pub open spec fn chr0_offset(self) -> int {
        let chr_8k = self.control & 0x10 == 0;
        if self.prg_rom.len() == PRG_ROM_512K {
            if chr_8k { 0 } else { (self.chr_bank0_register & 1) * 0x1000 }
        } else if chr_8k {
            (self.chr_bank0_register >> 1u8) * 0x2000
        } else {
            self.chr_bank0_register * 0x1000
        }
    }

    /// The offset of the CHR window at 0x1000.
    pub open spec fn chr1_offset(self) -> int {
        if self.control & 0x10 == 0 { self.chr0_offset() + 0x1000 } else { self.chr_bank1_register * 0x1000 }
    }

    /// The offsets and mirroring recomputed from the registers.
    pub open spec fn updated(self) -> Self {
        MMC1State {
            prg_bank0: self.prg_offsets().0 as usize,
            prg_bank1: self.prg_offsets().1 as usize,
            chr_bank0: self.chr0_offset() as usize,
            chr_bank1: self.chr1_offset() as usize,
            mirroring: mirroring_of(self.control),
            ..self
        }
    }

    /// A write of `value` to register address `address` (relative to 0x8000): bit 7 resets the
    /// shift register and sets PRG mode 3; otherwise bit 0 is shifted in, and on the fifth write
    /// the collected value goes to the register that `address` selects.
    pub open spec fn register_write(self, address: u16, value: u8) -> Self {
        if value & 0x80 != 0 {
            MMC1State { shift_register: 0x10, control: self.control | 0x0C, ..self }
        } else {
            let shifted = (self.shift_register >> 1u8) | ((value & 1) << 4u8);
            if self.shift_register & 1 == 1 {
                let a = address + 0x8000;
                let s = if a <= 0x9FFF {
                    MMC1State { control: shifted, ..self }
                } else if a <= 0xBFFF {
                    MMC1State { chr_bank0_register: shifted, ..self }
                } else if a <= 0xDFFF {
                    MMC1State { chr_bank1_register: shifted, ..self }
                } else {
                    MMC1State { prg_bank_register: shifted, ..self }
                };
                MMC1State { shift_register: 0x10, ..s.updated() }
            } else {
                MMC1State { shift_register: shifted, ..self }
            }
        }
    }

    /// The PRG ROM index that `address` (relative to 0x8000) reads.
    pub open spec fn prg_index(self, address: u16) -> int {
        if address < 0x4000 { address + self.prg_bank0 } else { address - 0x4000 + self.prg_bank1 }
    }

    /// The CHR index that pattern address `address` reaches.
    pub open spec fn chr_index(self, address: u16) -> int {
        if address < 0x1000 { address + self.chr_bank0 } else { address - 0x1000 + self.chr_bank1 }
    }
}

/// The register state after the five writes that load `value` through the serial port at
/// `address`: bit `k` of `value` in the `k`-th write.
pub open spec fn serial_load(s: MMC1State, address: u16, value: u8) -> MMC1State {
    s.register_write(address, value & 1)
        .register_write(address, (value >> 1u8) & 1)
        .register_write(address, (value >> 2u8) & 1)
        .register_write(address, (value >> 3u8) & 1)
        .register_write(address, (value >> 4u8) & 1)
}

/// After a reset of the shift register, five writes load the five low bits of a value, least
/// significant first, into the register that the address selects (0x8000.., 0xA000..,
/// 0xC000.., 0xE000.. relative to 0x8000), after which the shift register is ready again.
pub proof fn law_serial_load(s: MMC1State, address: u16, value: u8)
    requires
        s.shift_register == 0x10,
        address < 0x8000,
    ensures
        ({
            let r = serial_load(s, address, value);
            let v = value & 0x1F;
            let a = address + 0x8000;
            let loaded = if a <= 0x9FFF {
                MMC1State { control: v, ..s }
            } else if a <= 0xBFFF {
                MMC1State { chr_bank0_register: v, ..s }
            } else if a <= 0xDFFF {
                MMC1State { chr_bank1_register: v, ..s }
            } else {
                MMC1State { prg_bank_register: v, ..s }
            };
            r == MMC1State { shift_register: 0x10, ..loaded.updated() }
        }),
{
    crate::bits::lemma_serial_shift(value);
}

/// Where the two PRG windows point once the registers are applied. Bits 2 and 3 of the control
/// register pick the mode. Mode 2 fixes the first 16 KiB bank (of the selected 256 KiB half) at
/// 0x8000 and puts the bank that the PRG register selects, clamped to the last bank, at 0xC000.
/// Mode 3 puts the selected bank at 0x8000 and fixes the last bank (of the selected half) at
/// 0xC000. Modes 0 and 1 map 32 KiB at once, ignoring the low bit of the bank number.
pub proof fn law_prg_windows(s: MMC1State, address: u16)
    requires
        0x8000 <= s.prg_rom.len() <= usize::MAX,
        address < 0x8000,
    ensures
        ({
            let t = s.updated();
            let len = s.prg_rom.len() as int;
            let mode = (s.control / 4) % 4;
            let upper = s.upper_256kb();
            let last = len / 0x4000 - 1;
            let wanted = upper + s.prg_bank_register % 16;
            let selected = if wanted < last { wanted } else { last };
            let last_fixed = if len == 0x80000 && upper == 0 { last - 16 } else { last };
            let pair = upper + (s.prg_bank_register % 16) / 2 * 2;
            let base = 0x8000 * (if pair < len / 0x8000 - 1 { pair } else { len / 0x8000 - 1 });
            &&& mode == 2 && address < 0x4000 ==> t.prg_index(address) == upper * 0x4000 + address
            &&& mode == 2 && address >= 0x4000 ==> t.prg_index(address) == selected * 0x4000 + (
            address - 0x4000)
            &&& mode == 3 && address < 0x4000 ==> t.prg_index(address) == selected * 0x4000
                + address
            &&& mode == 3 && address >= 0x4000 ==> t.prg_index(address) == last_fixed * 0x4000 + (
            address - 0x4000)
            &&& mode <= 1 ==> t.prg_index(address) == base + address
        }),
{
    crate::bits::lemma_u8_arith_bits(s.control);
    crate::bits::lemma_u8_arith_bits(s.prg_bank_register);
    lemma_offsets_in_range(s);
}

proof fn lemma_chr_offsets_bounded(s: MMC1State)
    ensures
        0 <= s.chr0_offset() <= 0xFF000,
        0 <= s.chr1_offset() <= 0x100000,
{
    let c0 = s.chr_bank0_register;
    assert(c0 & 1u8 <= 1) by {
        crate::bits::lemma_u8_bits(c0);
    }
    assert(c0 >> 1u8 <= 127) by {
        crate::bits::lemma_u8_bits(c0);
    }
}

proof fn lemma_offsets_in_range(s: MMC1State)
    requires
        s.prg_rom.len() >= 0x8000,
    ensures
        0 <= s.prg_offsets().0,
        0 <= s.prg_offsets().1,
        s.prg_offsets().0 + 0x4000 <= s.prg_rom.len(),
        s.prg_offsets().1 + 0x4000 <= s.prg_rom.len(),
{
    let len = s.prg_rom.len() as int;
    let max_16k = len / 0x4000 - 1;
    let max_32k = len / 0x8000 - 1;
    assert(max_16k * 0x4000 + 0x4000 <= len && max_16k >= 1) by (nonlinear_arith)
        requires
            max_16k == len / 0x4000 - 1,
            len >= 0x8000,
    ;
    assert(max_32k * 0x8000 + 0x8000 <= len && max_32k >= 0) by (nonlinear_arith)
        requires
            max_32k == len / 0x8000 - 1,
            len >= 0x8000,
    ;
    let upper = s.upper_256kb();
    let c0 = s.chr_bank0_register;
    let c1 = s.chr_bank1_register;
    let pb = s.prg_bank_register;
    assert((c0 | c1) & 0x10 <= 0x10) by {
        crate::bits::lemma_u8_pair_bits(c0, c1);
    }
    assert(((pb & 0xF) & 0xE) <= 0xF) by {
        crate::bits::lemma_u8_bits(pb);
    }
    assert((pb & 0xF) <= 0xF) by {
        crate::bits::lemma_u8_bits(pb);
    }
    let bank_id = (s.prg_bank_register & 0xF) as int;
    let a = min(upper + ((s.prg_bank_register & 0xF) & 0xE) as int, max_32k);
    assert(0x8000 * a + 0x8000 <= len) by (nonlinear_arith)
        requires
            a <= max_32k,
            max_32k * 0x8000 + 0x8000 <= len,
    ;
    let b = min(upper + bank_id, max_16k);
    assert(0x4000 * b + 0x4000 <= len) by (nonlinear_arith)
        requires
            b <= max_16k,
            max_16k * 0x4000 + 0x4000 <= len,
    ;
    assert(0 <= 0x8000 * a && 0 <= 0x4000 * b) by (nonlinear_arith)
        requires
            0 <= a,
            0 <= b,
    ;
    if len == PRG_ROM_512K {
        assert(max_16k == 31);
    }
}

impl MMC1Mapper {
    /// A mapper over the given memories; `battery_backed_ram` is the cartridge's save RAM, if it
    /// has one. The registers start at zero, the control register in PRG mode 3.
    pub fn new(prg_rom: Vec<u8>, chr_rom: Vec<u8>, battery_backed_ram: Option<Vec<u8>>) -> (r: Self)
        requires
            prg_rom@.len() >= 0x8000,
        ensures
            r@.wf(),
            r@ == (MMC1State {
                prg_rom: prg_rom@,
                prg_bank0: 0,
                prg_bank1: 0,
                prg_ram: match battery_backed_ram {
                    Some(v) => Some(v@),
                    None => None,
                },
                chr_rom: chr_rom@,
                chr_bank0: 0,
                chr_bank1: 0,
                shift_register: 0,
                control: 0b01100,
                chr_bank0_register: 0,
                chr_bank1_register: 0,
                prg_bank_register: 0,
                mirroring: Mirroring::VERTICAL,
            }).updated(),
    {
        let prg_ram = match battery_backed_ram {
            Some(v) => Some(PrgRamWrapper::new(v)),
            None => None,
        };
        let mut mapper = MMC1Mapper {
            prg_rom,
            prg_rom_bank0_offset: 0,
            prg_rom_bank1_offset: 0,
            prg_ram,
            chr_rom,
            chr_rom_bank0_offset: 0,
            chr_rom_bank1_offset: 0,
            shift_register: 0,
            control_register: ControlRegister::new(),
            chr_bank0_register: 0,
            chr_bank1_register: 0,
            prg_bank_register: 0,
            mirroring: Mirroring::VERTICAL,
        };
        mapper.update_from_registers();
        mapper
    }

    fn get_prg_bank_offsets(&self) -> (r: (usize, usize))
        requires
            self@.prg_rom.len() >= 0x8000,
        ensures
            r.0 == self@.prg_offsets().0,
            r.1 == self@.prg_offsets().1,
    {
        proof { lemma_offsets_in_range(self@); }
        let len = self.prg_rom.len();
        let bank_id = (self.prg_bank_register & PRG_ADDRESS_MASK) as usize;
        let upper_256kb = if len == PRG_ROM_512K {
            ((self.chr_bank0_register | self.chr_bank1_register) & 0b10000) as usize
        } else {
            0usize
        };
        let c0 = self.chr_bank0_register;
        let c1 = self.chr_bank1_register;
        assert((c0 | c1) & 0x10 <= 0x10) by {
            crate::bits::lemma_u8_pair_bits(c0, c1);
        }
        let max_16k_banks = len / BANK_SIZE_16K - 1;
        let max_32k_banks = len / BANK_SIZE_32K - 1;
        let first_bank = upper_256kb * BANK_SIZE_16K;
        let last_bank = if len == PRG_ROM_512K && upper_256kb == 0 {
            (max_16k_banks - 0b10000) * BANK_SIZE_16K
        } else {
            max_16k_banks * BANK_SIZE_16K
        };
        assert(max_16k_banks * 0x4000 <= len) by (nonlinear_arith)
            requires
                max_16k_banks == len / 0x4000 - 1,
                len >= 0x8000,
        ;
        match self.control_register.get_prg_mode() {
            PRGBankMode::Mode32k => {
                let even = upper_256kb + (bank_id & 0b1110);
                let bank = if even < max_32k_banks { even } else { max_32k_banks };
                (BANK_SIZE_32K * bank, BANK_SIZE_32K * bank + BANK_SIZE_16K)
            },
            PRGBankMode::FirstBankFix => {
                let b = upper_256kb + bank_id;
                let bank = if b < max_16k_banks { b } else { max_16k_banks };
                (first_bank, BANK_SIZE_16K * bank)
            },
            PRGBankMode::LastBankFix => {
                let b = upper_256kb + bank_id;
                let bank = if b < max_16k_banks { b } else { max_16k_banks };
                (BANK_SIZE_16K * bank, last_bank)
            },
        }
    }

    fn get_chr_bank_0_offset(&self) -> (r: usize)
        ensures
            r == self@.chr0_offset(),
    {
        if self.prg_rom.len() == PRG_ROM_512K {
            if self.control_register.chr_8k_mode() {
                0
            } else {
                let c0 = self.chr_bank0_register;
                assert(c0 & 1u8 <= 1) by {
                    crate::bits::lemma_u8_bits(c0);
                }
                (c0 & 1) as usize * BANK_SIZE_4K
            }
        } else {
            // Smaller boards: register 0 selects an 8 KiB bank (its low bit ignored) or a 4 KiB bank.
            if self.control_register.chr_8k_mode() {
                let c0 = self.chr_bank0_register;
                assert(c0 >> 1u8 <= 127) by {
                    crate::bits::lemma_u8_bits(c0);
                }
                (c0 >> 1u8) as usize * BANK_SIZE_8K
            } else {
                self.chr_bank0_register as usize * BANK_SIZE_4K
            }
        }
    }

    fn get_chr_bank_1_offset(&self) -> (r: usize)
        ensures
            r == self@.chr1_offset(),
    {
        if self.control_register.chr_8k_mode() {
            self.get_chr_bank_0_offset() + BANK_SIZE_4K
        } else {
            self.chr_bank1_register as usize * BANK_SIZE_4K
        }
    }

    fn update_from_registers(&mut self)
        requires
            old(self)@.prg_rom.len() >= 0x8000,
        ensures
            final(self)@ == old(self)@.updated(),
            final(self)@.wf(),
    {
        proof {
            lemma_offsets_in_range(self@);
            lemma_chr_offsets_bounded(self@);
        }
        let _len = self.prg_rom.len();
        let (bank0, bank1) = self.get_prg_bank_offsets();
        self.prg_rom_bank0_offset = bank0;
        self.prg_rom_bank1_offset = bank1;
        self.chr_rom_bank0_offset = self.get_chr_bank_0_offset();
        self.chr_rom_bank1_offset = self.get_chr_bank_1_offset();
        self.mirroring = self.control_register.get_mirroring();
    }
}

impl Mapper for MMC1Mapper {
    open spec fn prg_ok(&self, address: u16) -> bool {
        self@.prg_index(address) < self@.prg_rom.len()
    }

    /// The window at 0x8000 reads bank 0, the one at 0xC000 bank 1.
    open spec fn prg_at(&self, address: u16) -> u8 {
        self@.prg_rom[self@.prg_index(address)]
    }

    open spec fn chr_ok(&self, address: u16) -> bool {
        self@.chr_index(address) < self@.chr_rom.len()
    }

    open spec fn chr_at(&self, address: u16) -> u8 {
        self@.chr_rom[self@.chr_index(address)]
    }

    open spec fn chr_bank_ok(&self, bank: u16, address: u16) -> bool {
        bank * 0x2000 + address <= 0xFFFF && bank * 0x2000 + address < self@.chr_rom.len()
    }

    open spec fn chr_bank_at(&self, bank: u16, address: u16) -> u8 {
        self@.chr_rom[bank * 0x2000 + address]
    }

    /// Reads past the end of CHR memory give an empty tile; a tile may not straddle the end.
    open spec fn tile_ok(&self, address: u16) -> bool {
        self@.wf() && (self@.chr_index(address) > self@.chr_rom.len() || self@.chr_index(address) + 16 <= self@.chr_rom.len())
    }

    open spec fn tile_at(&self, address: u16) -> Seq<u8> {
        if self@.chr_index(address) > self@.chr_rom.len() {
            Seq::new(16, |i: int| 0u8)
        } else {
            self@.chr_rom.subrange(self@.chr_index(address), self@.chr_index(address) + 16)
        }
    }

    open spec fn tile_bank_ok(&self, bank: u16, address: u16) -> bool {
        bank * 0x2000 + address + 16 <= self@.chr_rom.len()
    }

    open spec fn tile_bank_at(&self, bank: u16, address: u16) -> Seq<u8> {
        self@.chr_rom.subrange(bank * 0x2000 + address, bank * 0x2000 + address + 16)
    }

    open spec fn ram_ok(&self, address: u16) -> bool {
        self@.prg_ram matches Some(r) ==> (address as int) < r.len()
    }

    /// Without RAM reads give 0.
    open spec fn ram_at(&self, address: u16) -> u8 {
        match self@.prg_ram {
            Some(r) => r[address as int],
            None => 0,
        }
    }

    open spec fn chr_ram_ok(&self, address: u16) -> bool {
        self@.chr_index(address) < self@.chr_rom.len()
    }

    open spec fn register_ok(&self, address: u16) -> bool {
        self@.wf() && address < 0x8000
    }

    /// The CPU sees a 32 KiB PRG window.
    open spec fn prg_len(&self) -> usize {
        BANK_SIZE_32K
    }

    /// The PPU sees an 8 KiB CHR window.
    open spec fn chr_len(&self) -> usize {
        BANK_SIZE_8K
    }

    open spec fn mirroring(&self) -> Mirroring {
        self@.mirroring
    }

    fn prg_rom_len(&self) -> (r: usize) {
        BANK_SIZE_32K
    }

    fn chr_rom_len(&self) -> (r: usize) {
        BANK_SIZE_8K
    }

    fn read_prg_rom(&self, address: u16) -> (r: u8) {
        let _len = self.prg_rom.len();
        if address < BANK_SIZE_16K as u16 {
            self.prg_rom[address as usize + self.prg_rom_bank0_offset]
        } else {
            self.prg_rom[address as usize - BANK_SIZE_16K + self.prg_rom_bank1_offset]
        }
    }

    fn read_chr_rom(&self, address: u16) -> (r: u8) {
        let _len = self.chr_rom.len();
        if address < BANK_SIZE_4K as u16 {
            self.chr_rom[address as usize + self.chr_rom_bank0_offset]
        } else {
            self.chr_rom[address as usize - BANK_SIZE_4K + self.chr_rom_bank1_offset]
        }
    }

    fn read_chr_rom_bank(&self, bank: u16, address: u16) -> (r: u8) {
        self.chr_rom[(bank * BANK_SIZE_8K as u16 + address) as usize]
    }

    fn read_tile_chr_rom(&self, address: u16) -> (r: &[u8]) {
        let _len = self.chr_rom.len();
        let addr = if address < BANK_SIZE_4K as u16 {
            address as usize + self.chr_rom_bank0_offset
        } else {
            address as usize - BANK_SIZE_4K + self.chr_rom_bank1_offset
        };
        if addr > self.chr_rom.len() {
            return empty_tile();
        }
        vstd::slice::slice_subrange(self.chr_rom.as_slice(), addr, addr + 16)
    }

    fn read_tile_chr_rom_bank(&self, bank: u16, address: u16) -> (r: &[u8]) {
        let addr = bank as usize * BANK_SIZE_8K + address as usize;
        vstd::slice::slice_subrange(self.chr_rom.as_slice(), addr, addr + 16)
    }

    /// Writes on consecutive CPU cycles are treated like any other write.
    fn register_write(&mut self, address: u16, value: u8)
        ensures
            final(self)@ == old(self)@.register_write(address, value),
            final(self)@.wf(),
    {
        if value & SHIFT_REGISTER_RESET != 0 {
            self.shift_register = SHIFT_REGISTER_INIT;
            self.control_register.reset();
            return;
        }
        let write = self.shift_register & 1 == 1;
        self.shift_register = self.shift_register >> 1u8;
        self.shift_register = self.shift_register | ((value & 1) << 4u8);
        if write {
            let a = address + 0x8000;
            if a <= CONTROL_REGISTER_END {
                self.control_register.set(self.shift_register);
            } else if a <= CHR_BANK_0_END {
                self.chr_bank0_register = self.shift_register;
            } else if a <= CHR_BANK_1_END {
                self.chr_bank1_register = self.shift_register;
            } else {
                self.prg_bank_register = self.shift_register;
            }
            self.update_from_registers();
            self.shift_register = SHIFT_REGISTER_INIT;
        }
    }

    fn read_cartridge_ram(&self, address: u16) -> (r: u8) {
        match &self.prg_ram {
            Some(ram) => ram.read(address as usize),
            None => 0,
        }
    }

    /// Writes are ignored while bit 4 of the PRG bank register disables the RAM, or when the
    /// cartridge has none.
    fn write_cartridge_ram(&mut self, address: u16, value: u8)
        ensures
            final(self)@ == (MMC1State {
                prg_ram: match old(self)@.prg_ram {
                    Some(r) => if old(self)@.prg_bank_register & 0x10 != 0 { Some(r) } else { Some(r.update(address as int, value)) },
                    None => None,
                },
                ..old(self)@
            }),
    {
        if self.prg_bank_register & 0b10000 != 0 {
            return;
        }
        match self.prg_ram.take() {
            Some(mut ram) => {
                ram.write(address as usize, value);
                self.prg_ram = Some(ram);
            },
            None => {},
        }
    }

    fn write_chr_ram(&mut self, address: u16, value: u8)
        ensures
            final(self)@ == (MMC1State { chr_rom: old(self)@.chr_rom.update(old(self)@.chr_index(address), value), ..old(self)@ }),
    {
        let _len = self.chr_rom.len();
        if address < BANK_SIZE_4K as u16 {
            self.chr_rom.set(address as usize + self.chr_rom_bank0_offset, value);
        } else {
            self.chr_rom.set(address as usize - BANK_SIZE_4K + self.chr_rom_bank1_offset, value);
        }
    }

    /// The save RAM, when the cartridge has one.
    fn get_battery_backed_ram(&self) -> (r: Option<&[u8]>)
        ensures
            match self@.prg_ram {
                Some(v) => r matches Some(s) && s@ == v,
                None => r is None,
            },
    {
        match &self.prg_ram {
            Some(ram) => Some(ram.as_slice()),
            None => None,
        }
    }

    fn get_mirroring(&self) -> (r: Mirroring) {
        self.mirroring
    }
}

} // verus!
