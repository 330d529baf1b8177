//! Cartridge and memory bank controllers.
//!
//! The header is parsed out of the raw ROM bytes: the fixed logo sequence
//! must match, the MBC type byte selects the controller variant, and the
//! ROM/RAM size codes give the bank counts. Every CPU address dispatched
//! here lies in `0x0000..=0x7FFF` or `0xA000..=0xBFFF`; bank indices are
//! always reduced modulo the header-declared bank count.

use vstd::prelude::*;

verus! {

/// Fatal cartridge start-up errors.
#[derive(Clone, Copy, PartialEq, Eq, Structural, Debug)]
pub enum CartridgeError {
    /// Logo mismatch, truncated header, or a ROM length that does not
    /// match the header-declared bank count.
    InvalidCartridge,
    /// An MBC type byte outside the implemented set.
    UnsupportedCartridge,
}

/// Masking an address keeps it below the mask's power of two.
pub proof fn lemma_mask_bounds(a: u16)
    ensures
        a & 0x3FFF < 0x4000,
        a & 0x1FFF < 0x2000,
        a & 0x00FF < 0x0100,
        a & 0x007F < 0x0080,
        a & 0x000F < 0x0010,
{
    assert(a & 0x3FFF < 0x4000 && a & 0x1FFF < 0x2000 && a & 0x00FF < 0x0100
        && a & 0x007F < 0x0080 && a & 0x000F < 0x0010) by (bit_vector);
}

/// The fixed 48-byte logo sequence at `0x0104..0x0134` of every valid ROM.
pub open spec fn spec_logo() -> Seq<u8> {
    seq![
        0xCEu8, 0xED, 0x66, 0x66, 0xCC, 0x0D, 0x00, 0x0B, 0x03, 0x73, 0x00, 0x83,
        0x00, 0x0C, 0x00, 0x0D, 0x00, 0x08, 0x11, 0x1F, 0x88, 0x89, 0x00, 0x0E,
        0xDC, 0xCC, 0x6E, 0xE6, 0xDD, 0xDD, 0xD9, 0x99, 0xBB, 0xBB, 0x67, 0x63,
        0x6E, 0x0E, 0xEC, 0xCC, 0xDD, 0xDC, 0x99, 0x9F, 0xBB, 0xB9, 0x33, 0x3E,
    ]
}

/// Whether the ROM carries the fixed logo sequence.
pub open spec fn spec_logo_ok(rom: Seq<u8>) -> bool {
    forall|i: int| 0 <= i < 48 ==> rom[0x104 + i] == spec_logo()[i]
}

/// Check the logo bytes of a ROM of at least header size.
pub fn logo_matches(bytes: &Vec<u8>) -> (r: bool)
    requires
        bytes@.len() >= 0x150,
    ensures
        r == spec_logo_ok(bytes@),
{
    let expected: [u8; 48] = [
        0xCE, 0xED, 0x66, 0x66, 0xCC, 0x0D, 0x00, 0x0B, 0x03, 0x73, 0x00, 0x83,
        0x00, 0x0C, 0x00, 0x0D, 0x00, 0x08, 0x11, 0x1F, 0x88, 0x89, 0x00, 0x0E,
        0xDC, 0xCC, 0x6E, 0xE6, 0xDD, 0xDD, 0xD9, 0x99, 0xBB, 0xBB, 0x67, 0x63,
        0x6E, 0x0E, 0xEC, 0xCC, 0xDD, 0xDC, 0x99, 0x9F, 0xBB, 0xB9, 0x33, 0x3E,
    ];
    assert(expected@ =~= spec_logo());
    let mut i: usize = 0;
    while i < 48
        invariant
            0 <= i <= 48,
            bytes@.len() >= 0x150,
            expected@ =~= spec_logo(),
            forall|j: int| 0 <= j < i ==> bytes@[0x104 + j] == spec_logo()[j],
        decreases 48 - i,
    {
        if bytes[0x104 + i] != expected[i] {
            return false;
        }
        i += 1;
    }
    true
}

/// The header checksum over the first `n` of the 25 bytes at
/// `0x0134..=0x014C`: start from zero, and for each byte subtract the byte
/// and one more, wrapping.
pub open spec fn spec_checksum_upto(rom: Seq<u8>, n: int) -> u8
    decreases n,
{
    if n <= 0 {
        0
    } else {
        ((spec_checksum_upto(rom, n - 1) - rom[0x134 + n - 1] - 1) % 256) as u8
    }
}

/// The full 8-bit header checksum, recomputed as the console does.
pub open spec fn spec_checksum(rom: Seq<u8>) -> u8 {
    spec_checksum_upto(rom, 25)
}

/// Recompute the header checksum; the stored byte at `0x014D` should equal
/// it, but a mismatch is a warning only.
pub fn calculate_checksum(rom: &Vec<u8>) -> (r: u8)
    requires
        rom@.len() >= 0x150,
    ensures
        r == spec_checksum(rom@),
{
    let mut checksum: u8 = 0;
    let mut i: usize = 0;
    while i < 25
        invariant
            0 <= i <= 25,
            rom@.len() >= 0x150,
            checksum == spec_checksum_upto(rom@, i as int),
        decreases 25 - i,
    {
        checksum = checksum.wrapping_sub(rom[0x134 + i]).wrapping_sub(1);
        i += 1;
    }
    checksum
}

/// ROM bank count from the size code at `0x0148`; zero for an unknown code.
pub open spec fn spec_rom_banks(code: u8) -> u16 {
    if code == 0x00 {
        2
    } else if code == 0x01 {
        4
    } else if code == 0x02 {
        8
    } else if code == 0x03 {
        16
    } else if code == 0x04 {
        32
    } else if code == 0x05 {
        64
    } else if code == 0x06 {
        128
    } else if code == 0x07 {
        256
    } else if code == 0x08 {
        512
    } else if code == 0x52 {
        72
    } else if code == 0x53 {
        80
    } else if code == 0x54 {
        96
    } else {
        0
    }
}

/// RAM bank count from the size code at `0x0149`; zero for codes that
/// declare no banked RAM.
pub open spec fn spec_ram_banks(code: u8) -> u16 {
    if code == 0x02 {
        1
    } else if code == 0x03 {
        4
    } else if code == 0x04 {
        16
    } else if code == 0x05 {
        8
    } else {
        0
    }
}

fn rom_banks_of(code: u8) -> (r: u16)
    ensures
        r == spec_rom_banks(code),
{
    match code {
        0x00 => 2,
        0x01 => 4,
        0x02 => 8,
        0x03 => 16,
        0x04 => 32,
        0x05 => 64,
        0x06 => 128,
        0x07 => 256,
        0x08 => 512,
        0x52 => 72,
        0x53 => 80,
        0x54 => 96,
        _ => 0,
    }
}

fn ram_banks_of(code: u8) -> (r: u16)
    ensures
        r == spec_ram_banks(code),
{
    match code {
        0x02 => 1,
        0x03 => 4,
        0x04 => 16,
        0x05 => 8,
        _ => 0,
    }
}

/// A bank controller maps the CPU's cartridge addresses onto the raw ROM
/// and external RAM bytes.
pub trait MemoryBankController {
    spec fn mbc_wf(&self) -> bool;

    fn read_byte(&self, address: u16) -> u8
        requires
            self.mbc_wf(),
            address < 0x8000 || (0xA000 <= address && address < 0xC000),
    ;

    fn write_byte(&mut self, address: u16, byte: u8)
        requires
            old(self).mbc_wf(),
            address < 0x8000 || (0xA000 <= address && address < 0xC000),
        ensures
            final(self).mbc_wf(),
    ;
}

/// A plain 32 KiB ROM with no bank controller.
pub struct Rom {
    pub data: Vec<u8>,
}

impl Rom {
    pub open spec fn wf(self) -> bool {
        self.data@.len() >= 0x8000
    }

    pub fn new(bytes: Vec<u8>) -> (r: Rom)
        requires
            bytes@.len() >= 0x8000,
        ensures
            r.data@ == bytes@,
            r.wf(),
    {
        Rom { data: bytes }
    }

    /// A read below `0x8000` hits the ROM byte itself; the external RAM
    /// window reads `0xFF` because there is none.
    pub open spec fn spec_read_byte(self, address: u16) -> u8 {
        if address < 0x8000 {
            self.data@[address as int]
        } else {
            0xFF
        }
    }

    pub fn read_byte(&self, address: u16) -> (r: u8)
        requires
            self.wf(),
            address < 0x8000 || (0xA000 <= address && address < 0xC000),
        ensures
            r == self.spec_read_byte(address),
    {
        if address < 0x8000 {
            self.data[address as usize]
        } else {
            0xFF
        }
    }

    /// Writes never change a plain ROM.
    pub fn write_byte(&mut self, address: u16, byte: u8)
        ensures
            *final(self) == *old(self),
    {
    }
}

impl MemoryBankController for Rom {
    open spec fn mbc_wf(&self) -> bool {
        self.wf()
    }

    fn read_byte(&self, address: u16) -> u8 {
        Rom::read_byte(self, address)
    }

    fn write_byte(&mut self, address: u16, byte: u8) {
        Rom::write_byte(self, address, byte)
    }
}

/// The first bank controller: a 5-bit ROM bank register, a 2-bit upper
/// register, and a mode flag that routes the upper register to either the
/// high ROM bank bits or the RAM bank.
pub struct Mbc1 {
    pub data: Vec<u8>,
    pub has_ram: bool,
    pub has_battery: bool,
    pub number_rombank: u16,
    pub number_rambank: u16,
    pub ram: Vec<u8>,
    pub ram_enable: bool,
    pub rombank: u16,
    pub upper_bank: u16,
    pub mode: bool,
}

impl Mbc1 {
    pub open spec fn wf(self) -> bool {
        &&& 1 <= self.number_rombank <= 512
        &&& self.data@.len() == self.number_rombank * 0x4000
        &&& 1 <= self.rombank <= 31
        &&& self.upper_bank <= 3
        &&& self.number_rambank <= 16
        &&& self.ram@.len() == (if self.has_ram { self.number_rambank * 0x2000 } else { 0int })
    }

    /// The effective bank for `0x4000..=0x7FFF`: the 5-bit register with
    /// the 2-bit upper register above it, reduced modulo the bank count.
    pub open spec fn spec_high_bank(self) -> u16 {
        ((self.upper_bank * 32 + self.rombank) % (self.number_rombank as int)) as u16
    }

    /// The effective bank for `0x0000..=0x3FFF`: bank 0, except that mode 1
    /// applies the upper register.
    pub open spec fn spec_low_bank(self) -> u16 {
        if self.mode {
            ((self.upper_bank * 32) % (self.number_rombank as int)) as u16
        } else {
            0
        }
    }

    /// The effective external RAM bank: the upper register in mode 1.
    pub open spec fn spec_ram_bank(self) -> u16 {
        if self.mode && self.number_rambank > 0 {
            (self.upper_bank % self.number_rambank) as u16
        } else {
            0
        }
    }

    /// Whether the external RAM window is backed and enabled.
    pub open spec fn spec_ram_usable(self) -> bool {
        self.ram_enable && self.has_ram && self.number_rambank > 0
            && self.spec_ram_bank() < self.number_rambank
    }

    pub open spec fn spec_read_byte(self, address: u16) -> u8 {
        if address < 0x4000 {
            self.data@[self.spec_low_bank() * 0x4000 + (address & 0x3FFF)]
        } else if address < 0x8000 {
            self.data@[self.spec_high_bank() * 0x4000 + (address & 0x3FFF)]
        } else {
            if self.spec_ram_usable() {
                self.ram@[self.spec_ram_bank() * 0x2000 + (address & 0x1FFF)]
            } else {
                0xFF
            }
        }
    }

    pub fn read_byte(&self, address: u16) -> (r: u8)
        requires
            self.wf(),
            address < 0x8000 || (0xA000 <= address && address < 0xC000),
        ensures
            r == self.spec_read_byte(address),
    {
        proof {
            lemma_mask_bounds(address);
        }
        if address < 0x4000 {
            let bank: u16 = if self.mode {
                (self.upper_bank * 32) % self.number_rombank
            } else {
                0
            };
            self.data[bank as usize * 0x4000 + (address & 0x3FFF) as usize]
        } else if address < 0x8000 {
            let bank: u16 = (self.upper_bank * 32 + self.rombank) % self.number_rombank;
            self.data[bank as usize * 0x4000 + (address & 0x3FFF) as usize]
        } else {
            if self.ram_enable && self.has_ram && self.number_rambank > 0 {
                let bank: u16 = if self.mode {
                    self.upper_bank % self.number_rambank
                } else {
                    0
                };
                self.ram[bank as usize * 0x2000 + (address & 0x1FFF) as usize]
            } else {
                0xFF
            }
        }
    }

    /// The controller after a write to a bank-control register (any
    /// address below `0x8000`); such writes change registers only.
    pub open spec fn spec_write_control(self, address: u16, byte: u8) -> Mbc1 {
        if address < 0x2000 {
            Mbc1 { ram_enable: byte & 0x0F == 0x0A, ..self }
        } else if address < 0x4000 {
            let v = (byte & 0x1F) as u16;
            Mbc1 { rombank: if v == 0 { 1u16 } else { v }, ..self }
        } else if address < 0x6000 {
            Mbc1 { upper_bank: (byte & 0x03) as u16, ..self }
        } else {
            Mbc1 { mode: byte & 0x01 == 0x01, ..self }
        }
    }

    pub fn write_byte(&mut self, address: u16, byte: u8)
        requires
            old(self).wf(),
            address < 0x8000 || (0xA000 <= address && address < 0xC000),
        ensures
            final(self).wf(),
            address < 0x8000 ==> *final(self) == old(self).spec_write_control(address, byte),
            address >= 0x8000 && old(self).spec_ram_usable() ==> *final(self) == (Mbc1 {
                ram: final(self).ram,
                ..*old(self)
            }) && final(self).ram@ == old(self).ram@.update(
                old(self).spec_ram_bank() * 0x2000 + (address & 0x1FFF),
                byte,
            ),
            address >= 0x8000 && !old(self).spec_ram_usable() ==> *final(self) == *old(self),
    {
        proof {
            lemma_mask_bounds(address);
        }
        if address < 0x2000 {
            self.ram_enable = byte & 0x0F == 0x0A;
        } else if address < 0x4000 {
            let v = (byte & 0x1F) as u16;
            assert(byte & 0x1F < 0x20) by (bit_vector);
            self.rombank = if v == 0 { 1 } else { v };
        } else if address < 0x6000 {
            assert(byte & 0x03 < 0x04) by (bit_vector);
            self.upper_bank = (byte & 0x03) as u16;
        } else if address < 0x8000 {
            self.mode = byte & 0x01 == 0x01;
        } else {
            if self.ram_enable && self.has_ram && self.number_rambank > 0 {
                let bank: u16 = if self.mode {
                    self.upper_bank % self.number_rambank
                } else {
                    0
                };
                let idx: usize = bank as usize * 0x2000 + (address & 0x1FFF) as usize;
                self.ram.set(idx, byte);
            }
        }
    }
}

impl MemoryBankController for Mbc1 {
    open spec fn mbc_wf(&self) -> bool {
        self.wf()
    }

    fn read_byte(&self, address: u16) -> u8 {
        Mbc1::read_byte(self, address)
    }

    fn write_byte(&mut self, address: u16, byte: u8) {
        Mbc1::write_byte(self, address, byte)
    }
}

/// The fifth bank controller: a 9-bit ROM bank register written in two
/// halves, and a 4-bit RAM bank register.
pub struct Mbc5 {
    pub data: Vec<u8>,
    pub has_ram: bool,
    pub has_battery: bool,
    pub number_rombank: u16,
    pub number_rambank: u16,
    pub ram: Vec<u8>,
    pub ram_enable: bool,
    pub rombank: u16,
    pub rambank: u16,
}

impl Mbc5 {
    pub open spec fn wf(self) -> bool {
        &&& 1 <= self.number_rombank <= 512
        &&& self.data@.len() == self.number_rombank * 0x4000
        &&& self.rombank < self.number_rombank
        &&& self.number_rambank <= 16
        &&& (self.number_rambank > 0 ==> self.rambank < self.number_rambank)
        &&& (self.number_rambank == 0 ==> self.rambank == 0)
        &&& self.ram@.len() == (if self.has_ram { self.number_rambank * 0x2000 } else { 0int })
    }

    /// Whether the external RAM window is backed and enabled.
    pub open spec fn spec_ram_usable(self) -> bool {
        self.ram_enable && self.has_ram && self.number_rambank > 0
    }

    /// A read below `0x4000` always hits physical bank 0; the switchable
    /// window reads `rombank * 0x4000 + (address & 0x3FFF)`; the external
    /// RAM window reads through the RAM bank register, or `0xFF` when the
    /// RAM is absent or disabled.
    pub open spec fn spec_read_byte(self, address: u16) -> u8 {
        if address < 0x4000 {
            self.data@[address as int]
        } else if address < 0x8000 {
            self.data@[self.rombank * 0x4000 + (address & 0x3FFF)]
        } else {
            if self.spec_ram_usable() {
                self.ram@[self.rambank * 0x2000 + (address & 0x1FFF)]
            } else {
                0xFF
            }
        }
    }

    pub fn read_byte(&self, address: u16) -> (r: u8)
        requires
            self.wf(),
            address < 0x8000 || (0xA000 <= address && address < 0xC000),
        ensures
            r == self.spec_read_byte(address),
    {
        proof {
            lemma_mask_bounds(address);
        }
        if address < 0x4000 {
            self.data[address as usize]
        } else if address < 0x8000 {
            self.data[self.rombank as usize * 0x4000 + (address & 0x3FFF) as usize]
        } else {
            if self.ram_enable && self.has_ram && self.number_rambank > 0 {
                self.ram[self.rambank as usize * 0x2000 + (address & 0x1FFF) as usize]
            } else {
                0xFF
            }
        }
    }

    /// The controller after a write to a bank-control register: RAM is
    /// enabled iff the low nibble is `0x0A`; the two ROM bank registers
    /// set the low eight bits and bit 8, each reduced modulo the bank
    /// count; the RAM bank register keeps the low nibble reduced modulo
    /// the RAM bank count.
    pub open spec fn spec_write_control(self, address: u16, byte: u8) -> Mbc5 {
        if address < 0x2000 {
            Mbc5 { ram_enable: byte & 0x0F == 0x0A, ..self }
        } else if address < 0x3000 {
            Mbc5 {
                rombank: (((self.rombank & 0x100) | byte as u16) % self.number_rombank) as u16,
                ..self
            }
        } else if address < 0x4000 {
            Mbc5 {
                rombank: (((self.rombank & 0xFF) | ((byte as u16 & 1) << 8)) % self.number_rombank) as u16,
                ..self
            }
        } else if address < 0x6000 {
            if self.number_rambank > 0 {
                Mbc5 { rambank: ((byte as u16 & 0x0F) % self.number_rambank) as u16, ..self }
            } else {
                self
            }
        } else {
            self
        }
    }

    pub fn write_byte(&mut self, address: u16, byte: u8)
        requires
            old(self).wf(),
            address < 0x8000 || (0xA000 <= address && address < 0xC000),
        ensures
            final(self).wf(),
            address < 0x8000 ==> *final(self) == old(self).spec_write_control(address, byte),
            address >= 0x8000 && old(self).spec_ram_usable() ==> *final(self) == (Mbc5 {
                ram: final(self).ram,
                ..*old(self)
            }) && final(self).ram@ == old(self).ram@.update(
                old(self).rambank * 0x2000 + (address & 0x1FFF),
                byte,
            ),
            address >= 0x8000 && !old(self).spec_ram_usable() ==> *final(self) == *old(self),
    {
        proof {
            lemma_mask_bounds(address);
        }
        if address < 0x2000 {
            self.ram_enable = byte & 0x0F == 0x0A;
        } else if address < 0x3000 {
            self.rombank = ((self.rombank & 0x100) | byte as u16) % self.number_rombank;
        } else if address < 0x4000 {
            self.rombank = ((self.rombank & 0xFF) | ((byte as u16 & 1) << 8)) % self.number_rombank;
        } else if address < 0x6000 {
            if self.number_rambank > 0 {
                self.rambank = (byte as u16 & 0x0F) % self.number_rambank;
            }
        } else if address < 0x8000 {
        } else {
            if self.ram_enable && self.has_ram && self.number_rambank > 0 {
                let idx: usize = self.rambank as usize * 0x2000 + (address & 0x1FFF) as usize;
                self.ram.set(idx, byte);
            }
        }
    }
}

impl MemoryBankController for Mbc5 {
    open spec fn mbc_wf(&self) -> bool {
        self.wf()
    }

    fn read_byte(&self, address: u16) -> u8 {
        Mbc5::read_byte(self, address)
    }

    fn write_byte(&mut self, address: u16, byte: u8) {
        Mbc5::write_byte(self, address, byte)
    }
}

/// The cartridge the bus owns: one of the supported bank controllers.
pub enum Cartridge {
    Rom(Rom),
    Mbc1(Mbc1),
    Mbc5(Mbc5),
}

impl Cartridge {
    pub open spec fn wf(self) -> bool {
        match self {
            Cartridge::Rom(c) => c.wf(),
            Cartridge::Mbc1(c) => c.wf(),
            Cartridge::Mbc5(c) => c.wf(),
        }
    }

    pub open spec fn spec_read_byte(self, address: u16) -> u8 {
        match self {
            Cartridge::Rom(c) => c.spec_read_byte(address),
            Cartridge::Mbc1(c) => c.spec_read_byte(address),
            Cartridge::Mbc5(c) => c.spec_read_byte(address),
        }
    }

    /// Whether `post` is the cartridge that results from writing `byte` at
    /// `address` in `pre`. Writes never change the ROM bytes or the
    /// declared geometry; a bank-control write updates registers, and a
    /// RAM-window write stores one byte when the RAM is usable.
    pub open spec fn spec_write_rel(pre: Cartridge, post: Cartridge, address: u16, byte: u8) -> bool {
        match (pre, post) {
            (Cartridge::Rom(p), Cartridge::Rom(q)) => q == p,
            (Cartridge::Mbc1(p), Cartridge::Mbc1(q)) => {
                if address < 0x8000 {
                    q == p.spec_write_control(address, byte)
                } else if p.spec_ram_usable() {
                    q == (Mbc1 { ram: q.ram, ..p }) && q.ram@ == p.ram@.update(
                        p.spec_ram_bank() * 0x2000 + (address & 0x1FFF),
                        byte,
                    )
                } else {
                    q == p
                }
            },
            (Cartridge::Mbc5(p), Cartridge::Mbc5(q)) => {
                if address < 0x8000 {
                    q == p.spec_write_control(address, byte)
                } else if p.spec_ram_usable() {
                    q == (Mbc5 { ram: q.ram, ..p }) && q.ram@ == p.ram@.update(
                        p.rambank * 0x2000 + (address & 0x1FFF),
                        byte,
                    )
                } else {
                    q == p
                }
            },
            _ => false,
        }
    }

    pub fn read_byte(&self, address: u16) -> (r: u8)
        requires
            self.wf(),
            address < 0x8000 || (0xA000 <= address && address < 0xC000),
        ensures
            r == self.spec_read_byte(address),
    {
        match self {
            Cartridge::Rom(c) => c.read_byte(address),
            Cartridge::Mbc1(c) => c.read_byte(address),
            Cartridge::Mbc5(c) => c.read_byte(address),
        }
    }

    pub fn write_byte(&mut self, address: u16, byte: u8)
        requires
            old(self).wf(),
            address < 0x8000 || (0xA000 <= address && address < 0xC000),
        ensures
            final(self).wf(),
            Cartridge::spec_write_rel(*old(self), *final(self), address, byte),
    {
        match self {
            Cartridge::Rom(c) => c.write_byte(address, byte),
            Cartridge::Mbc1(c) => c.write_byte(address, byte),
            Cartridge::Mbc5(c) => c.write_byte(address, byte),
        }
    }

    /// Whether the cartridge declares battery-backed RAM, whose contents
    /// the host persists across runs.
    pub fn battery_backed(&self) -> (r: bool)
        ensures
            r == self.spec_battery_backed(),
    {
        match self {
            Cartridge::Rom(_) => false,
            Cartridge::Mbc1(c) => c.has_battery && c.has_ram,
            Cartridge::Mbc5(c) => c.has_battery && c.has_ram,
        }
    }

    pub open spec fn spec_battery_backed(self) -> bool {
        match self {
            Cartridge::Rom(_) => false,
            Cartridge::Mbc1(c) => c.has_battery && c.has_ram,
            Cartridge::Mbc5(c) => c.has_battery && c.has_ram,
        }
    }

    pub open spec fn spec_ram(self) -> Seq<u8> {
        match self {
            Cartridge::Rom(_) => Seq::empty(),
            Cartridge::Mbc1(c) => c.ram@,
            Cartridge::Mbc5(c) => c.ram@,
        }
    }

    /// A copy of the external RAM, for the host to persist.
    pub fn external_ram(&self) -> (r: Vec<u8>)
        ensures
            r@ == self.spec_ram(),
    {
        match self {
            Cartridge::Rom(_) => Vec::new(),
            Cartridge::Mbc1(c) => clone_bytes(&c.ram),
            Cartridge::Mbc5(c) => clone_bytes(&c.ram),
        }
    }

    /// Install previously saved external RAM. The bytes are taken verbatim
    /// when their length matches the declared RAM size exactly; any other
    /// length is rejected and nothing changes.
    pub fn load_external_ram(&mut self, data: Vec<u8>) -> (r: bool)
        requires
            old(self).wf(),
        ensures
            final(self).wf(),
            r == (data@.len() == old(self).spec_ram().len() && old(self).spec_battery_backed()),
            r ==> final(self).spec_ram() == data@
                && Cartridge::spec_same_but_ram(*old(self), *final(self)),
            !r ==> *final(self) == *old(self),
    {
        match self {
            Cartridge::Rom(_) => false,
            Cartridge::Mbc1(c) => {
                if c.has_battery && c.has_ram && data.len() == c.ram.len() {
                    c.ram = data;
                    true
                } else {
                    false
                }
            },
            Cartridge::Mbc5(c) => {
                if c.has_battery && c.has_ram && data.len() == c.ram.len() {
                    c.ram = data;
                    true
                } else {
                    false
                }
            },
        }
    }

    /// Whether two cartridges agree on everything except the external RAM
    /// contents.
    pub open spec fn spec_same_but_ram(pre: Cartridge, post: Cartridge) -> bool {
        match (pre, post) {
            (Cartridge::Rom(p), Cartridge::Rom(q)) => q == p,
            (Cartridge::Mbc1(p), Cartridge::Mbc1(q)) => q == (Mbc1 { ram: q.ram, ..p }),
            (Cartridge::Mbc5(p), Cartridge::Mbc5(q)) => q == (Mbc5 { ram: q.ram, ..p }),
            _ => false,
        }
    }
}

/// Copy a byte vector.
fn clone_bytes(v: &Vec<u8>) -> (r: Vec<u8>)
    ensures
        r@ == v@,
{
    let mut out: Vec<u8> = Vec::new();
    let mut i: usize = 0;
    while i < v.len()
        invariant
            0 <= i <= v@.len(),
            out@ == v@.subrange(0, i as int),
        decreases v@.len() - i,
    {
        out.push(v[i]);
        assert(out@ =~= v@.subrange(0, i + 1 as int));
        i += 1;
    }
    assert(out@ =~= v@);
    out
}

/// Whether the header bytes parse to a supported, well-sized cartridge.
pub open spec fn spec_header_ok(rom: Seq<u8>) -> bool {
    &&& rom.len() >= 0x150
    &&& spec_logo_ok(rom)
    &&& spec_mbc_supported(rom[0x147])
    &&& spec_rom_banks(rom[0x148]) > 0
    &&& rom.len() == spec_rom_banks(rom[0x148]) * 0x4000
}

/// The MBC type bytes this crate implements: plain ROM, the first
/// controller with optional RAM and battery, and the fifth with optional
/// RAM, battery and rumble.
pub open spec fn spec_mbc_supported(code: u8) -> bool {
    code == 0x00 || (0x01 <= code && code <= 0x03) || (0x19 <= code && code <= 0x1E)
}

/// Decode the ROM header and build the matching bank controller.
///
/// Succeeds exactly on byte images whose header is intact: the image holds
/// a full header, the logo bytes match, the MBC type byte is in the
/// supported set, and the image length equals the declared bank count
/// times `0x4000`. A bad MBC type byte is `UnsupportedCartridge`; every
/// other failure is `InvalidCartridge`. A checksum mismatch is not fatal
/// and is reported by [`calculate_checksum`] instead.
pub fn new(bytes: Vec<u8>) -> (r: Result<Cartridge, CartridgeError>)
    ensures
        r is Ok <==> spec_header_ok(bytes@),
        r is Ok ==> r->Ok_0.wf() && spec_fresh_cartridge(r->Ok_0, bytes@),
        r is Err ==> (r->Err_0 == CartridgeError::UnsupportedCartridge <==> (
            bytes@.len() >= 0x150 && spec_logo_ok(bytes@) && !spec_mbc_supported(bytes@[0x147])
        )),
{
    if bytes.len() < 0x150 {
        return Err(CartridgeError::InvalidCartridge);
    }
    if !logo_matches(&bytes) {
        return Err(CartridgeError::InvalidCartridge);
    }
    let mbc_code = bytes[0x147];
    if !(mbc_code == 0x00 || (0x01 <= mbc_code && mbc_code <= 0x03)
        || (0x19 <= mbc_code && mbc_code <= 0x1E)) {
        return Err(CartridgeError::UnsupportedCartridge);
    }
    let number_rombank = rom_banks_of(bytes[0x148]);
    if number_rombank == 0 {
        return Err(CartridgeError::InvalidCartridge);
    }
    if bytes.len() != number_rombank as usize * 0x4000 {
        return Err(CartridgeError::InvalidCartridge);
    }
    let number_rambank = ram_banks_of(bytes[0x149]);
    if mbc_code == 0x00 {
        Ok(Cartridge::Rom(Rom::new(bytes)))
    } else if mbc_code <= 0x03 {
        let has_ram = mbc_code == 0x02 || mbc_code == 0x03;
        let has_battery = mbc_code == 0x03;
        let ram = zero_bytes(if has_ram { number_rambank as usize * 0x2000 } else { 0 });
        Ok(Cartridge::Mbc1(Mbc1 {
            data: bytes,
            has_ram,
            has_battery,
            number_rombank,
            number_rambank,
            ram,
            ram_enable: false,
            rombank: 1,
            upper_bank: 0,
            mode: false,
        }))
    } else {
        let has_ram = mbc_code == 0x1A || mbc_code == 0x1B || mbc_code == 0x1D || mbc_code == 0x1E;
        let has_battery = mbc_code == 0x1B || mbc_code == 0x1E;
        let ram = zero_bytes(if has_ram { number_rambank as usize * 0x2000 } else { 0 });
        Ok(Cartridge::Mbc5(Mbc5 {
            data: bytes,
            has_ram,
            has_battery,
            number_rombank,
            number_rambank,
            ram,
            ram_enable: false,
            rombank: 1,
            rambank: 0,
        }))
    }
}

/// What a freshly parsed cartridge looks like: the ROM bytes are kept
/// verbatim, the geometry follows the header codes, the RAM starts zeroed
/// and disabled, and the selected ROM bank starts at 1.
pub open spec fn spec_fresh_cartridge(c: Cartridge, rom: Seq<u8>) -> bool {
    match c {
        Cartridge::Rom(r) => rom[0x147] == 0x00 && r.data@ == rom,
        Cartridge::Mbc1(m) => {
            &&& 0x01 <= rom[0x147] <= 0x03
            &&& m.data@ == rom
            &&& m.number_rombank == spec_rom_banks(rom[0x148])
            &&& m.number_rambank == spec_ram_banks(rom[0x149])
            &&& m.has_ram == (rom[0x147] == 0x02 || rom[0x147] == 0x03)
            &&& m.has_battery == (rom[0x147] == 0x03)
            &&& m.ram@ == Seq::new((if m.has_ram { m.number_rambank * 0x2000 } else { 0 }) as nat, |i: int| 0u8)
            &&& !m.ram_enable
            &&& m.rombank == 1
            &&& m.upper_bank == 0
            &&& !m.mode
        },
        Cartridge::Mbc5(m) => {
            &&& 0x19 <= rom[0x147] <= 0x1E
            &&& m.data@ == rom
            &&& m.number_rombank == spec_rom_banks(rom[0x148])
            &&& m.number_rambank == spec_ram_banks(rom[0x149])
            &&& m.has_ram == (rom[0x147] == 0x1A || rom[0x147] == 0x1B || rom[0x147] == 0x1D
                || rom[0x147] == 0x1E)
            &&& m.has_battery == (rom[0x147] == 0x1B || rom[0x147] == 0x1E)
            &&& m.ram@ == Seq::new((if m.has_ram { m.number_rambank * 0x2000 } else { 0 }) as nat, |i: int| 0u8)
            &&& !m.ram_enable
            &&& m.rombank == 1
            &&& m.rambank == 0
        },
    }
}

/// A zero-filled byte vector of the given length.
fn zero_bytes(n: usize) -> (r: Vec<u8>)
    ensures
        r@ == Seq::new(n as nat, |i: int| 0u8),
{
    let mut out: Vec<u8> = Vec::new();
    let mut i: usize = 0;
    while i < n
        invariant
            0 <= i <= n,
            out@ =~= Seq::new(i as nat, |j: int| 0u8),
        decreases n - i,
    {
        out.push(0);
        assert(out@ =~= Seq::new((i + 1) as nat, |j: int| 0u8));
        i += 1;
    }
    assert(out@ =~= Seq::new(n as nat, |j: int| 0u8));
    out
}

/// The effective bank an MBC5 uses for the switchable window is always the
/// written 9-bit value reduced modulo the declared bank count, and reads
/// below `0x4000` always hit physical bank 0 whatever the selector holds.
pub proof fn lemma_mbc5_banking(c: Mbc5, low: u8, high: u8, address: u16)
    requires
        c.wf(),
        c.number_rombank <= 256 || c.number_rombank == 512,
    ensures
        ({
            let after = c.spec_write_control(0x2000, low).spec_write_control(0x3000, high);
            &&& after.rombank == (((high as u16 & 1) << 8 | low as u16) % c.number_rombank) as u16
            &&& (0x4000 <= address < 0x8000 ==> after.spec_read_byte(address)
                == c.data@[after.rombank * 0x4000 + (address & 0x3FFF)])
            &&& (address < 0x4000 ==> after.spec_read_byte(address) == c.data@[address as int])
        }),
{
    let rb = c.rombank;
    let nb = c.number_rombank;
    let b1 = ((rb & 0x100) | low as u16) % nb;
    let b2 = ((b1 & 0xFF) | ((high as u16 & 1) << 8)) % nb;
    assert(b2 == ((high as u16 & 1) << 8 | low as u16) % nb) by (bit_vector)
        requires
            b1 == ((rb & 0x100) | low as u16) % nb,
            b2 == ((b1 & 0xFF) | ((high as u16 & 1) << 8)) % nb,
            1 <= nb <= 512,
            nb <= 256 || nb == 512,
            rb < nb,
    ;
}

} // verus!
