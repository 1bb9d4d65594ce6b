//! Cartridges: the immutable PRG-ROM, the battery-backed PRG-RAM, and the
//! nametable mirroring flag, behind the `Cartridge` capability trait.

use vstd::prelude::*;

verus! {

/// The little-endian 16-bit reset vector, read from the last-but-four offset
/// of the PRG-ROM image (the CPU addresses 0xfffc-0xfffd through the mirror).
pub open spec fn spec_reset_vector(prg_rom: Seq<u8>) -> u16
    recommends
        prg_rom.len() >= 4,
{
    (prg_rom[prg_rom.len() - 4] + prg_rom[prg_rom.len() - 3] * 0x100) as u16
}

/// What the executor needs from a cartridge: immutable program bytes, working
/// RAM, the mirroring flag, and the reset vector.
pub trait Cartridge: Sized {
    spec fn prg_rom_v(&self) -> Seq<u8>;

    spec fn prg_ram_v(&self) -> Seq<u8>;

    spec fn mirror_h(&self) -> bool;

    spec fn inv(&self) -> bool;

    fn read_is_mirroring_horizontal(&self) -> (r: bool)
        ensures
            r == self.mirror_h(),
    ;

    fn reset_vector(&self) -> (r: u16)
        requires
            self.inv(),
        ensures
            r == spec_reset_vector(self.prg_rom_v()),
    ;

    fn peek_prg_rom(&self, address: u16) -> (r: u8)
        requires
            self.inv(),
            address < 0x8000,
        ensures
            r == self.prg_rom_v()[address as int],
    ;

    fn peek_prg_ram(&self, address: u16) -> (r: u8)
        requires
            self.inv(),
            address < 0x2000,
        ensures
            r == self.prg_ram_v()[address as int],
    ;

    fn write_prg_ram(&mut self, address: u16, value: u8)
        requires
            old(self).inv(),
            address < 0x2000,
        ensures
            final(self).inv(),
            final(self).prg_ram_v() == old(self).prg_ram_v().update(address as int, value),
            final(self).prg_rom_v() == old(self).prg_rom_v(),
            final(self).mirror_h() == old(self).mirror_h(),
    ;
}

/// The NROM (mapper 0) cartridge: a fixed 16 or 32 KiB PRG-ROM bank mirrored
/// to fill 0x8000-0xffff, and 8 KiB of PRG-RAM.
pub struct Nrom {
    pub is_mirroring_horizontal: bool,
    pub prg_ram: Vec<u8>,
    pub prg_rom: Vec<u8>,
}

impl Nrom {
    /// Builds an NROM cartridge from a 16 or 32 KiB PRG-ROM image; a 16 KiB
    /// image is doubled so that the stored image always covers 32 KiB.
    pub fn new(prg_rom: &[u8], is_mirroring_horizontal: bool) -> (r: Nrom)
        requires
            prg_rom@.len() == 0x4000 || prg_rom@.len() == 0x8000,
        ensures
            r.inv(),
            r.mirror_h() == is_mirroring_horizontal,
            forall|i: int|
                0 <= i < 0x8000 ==> r.prg_rom_v()[i] == prg_rom@[i % (prg_rom@.len() as int)],
            forall|i: int| 0 <= i < 0x2000 ==> r.prg_ram_v()[i] == 0u8,
    {
        let bank_len: usize = prg_rom.len();
        let mut rom: Vec<u8> = Vec::new();
        let mut i: usize = 0;
        while i < 0x8000
            invariant
                prg_rom@.len() == bank_len,
                bank_len == 0x4000 || bank_len == 0x8000,
                i <= 0x8000,
                rom@.len() == i,
                forall|j: int| 0 <= j < i ==> rom@[j] == prg_rom@[j % (bank_len as int)],
            decreases 0x8000 - i,
        {
            rom.push(*vstd::slice::slice_index_get(prg_rom, i % bank_len));
            i = i + 1;
        }
        Nrom { is_mirroring_horizontal, prg_ram: crate::zeroed_bytes(0x2000), prg_rom: rom }
    }
}

impl Cartridge for Nrom {
    open spec fn prg_rom_v(&self) -> Seq<u8> {
        self.prg_rom@
    }

    open spec fn prg_ram_v(&self) -> Seq<u8> {
        self.prg_ram@
    }

    open spec fn mirror_h(&self) -> bool {
        self.is_mirroring_horizontal
    }

    open spec fn inv(&self) -> bool {
        self.prg_rom@.len() == 0x8000 && self.prg_ram@.len() == 0x2000
    }

    fn read_is_mirroring_horizontal(&self) -> (r: bool) {
        self.is_mirroring_horizontal
    }

    fn reset_vector(&self) -> (r: u16) {
        let low = self.prg_rom[self.prg_rom.len() - 4];
        let high = self.prg_rom[self.prg_rom.len() - 3];
        (low as u16) + (high as u16) * 0x100
    }

    fn peek_prg_rom(&self, address: u16) -> (r: u8) {
        self.prg_rom[address as usize]
    }

    fn peek_prg_ram(&self, address: u16) -> (r: u8) {
        self.prg_ram[address as usize]
    }

    fn write_prg_ram(&mut self, address: u16, value: u8) {
        self.prg_ram[address as usize] = value;
    }
}

/// The closed set of cartridge kinds the executor can run.
pub enum AnyCartridge {
    Nrom(Nrom),
}

impl Cartridge for AnyCartridge {
    open spec fn prg_rom_v(&self) -> Seq<u8> {
        match self {
            AnyCartridge::Nrom(cartridge) => cartridge.prg_rom_v(),
        }
    }

    open spec fn prg_ram_v(&self) -> Seq<u8> {
        match self {
            AnyCartridge::Nrom(cartridge) => cartridge.prg_ram_v(),
        }
    }

    open spec fn mirror_h(&self) -> bool {
        match self {
            AnyCartridge::Nrom(cartridge) => cartridge.mirror_h(),
        }
    }

    open spec fn inv(&self) -> bool {
        match self {
            AnyCartridge::Nrom(cartridge) => cartridge.inv(),
        }
    }

    fn read_is_mirroring_horizontal(&self) -> (r: bool) {
        match self {
            AnyCartridge::Nrom(cartridge) => cartridge.read_is_mirroring_horizontal(),
        }
    }

    fn reset_vector(&self) -> (r: u16) {
        match self {
            AnyCartridge::Nrom(cartridge) => cartridge.reset_vector(),
        }
    }

    fn peek_prg_rom(&self, address: u16) -> (r: u8) {
        match self {
            AnyCartridge::Nrom(cartridge) => cartridge.peek_prg_rom(address),
        }
    }

    fn peek_prg_ram(&self, address: u16) -> (r: u8) {
        match self {
            AnyCartridge::Nrom(cartridge) => cartridge.peek_prg_ram(address),
        }
    }

    fn write_prg_ram(&mut self, address: u16, value: u8) {
        match self {
            AnyCartridge::Nrom(cartridge) => cartridge.write_prg_ram(address, value),
        }
    }
}

/// Parses an iNES image far enough to build a cartridge: byte 4 of the header
/// gives the PRG-ROM chunk count (16 KiB each), and bit 0 of byte 6 gives the
/// mirroring direction.
pub fn from_bytes_with_header(bytes: &[u8]) -> (r: AnyCartridge)
    requires
        bytes@.len() >= 0x10,
        bytes@[4] == 1 || bytes@[4] == 2,
        bytes@.len() >= 0x10 + bytes@[4] * 0x4000,
    ensures
        r.inv(),
        r.mirror_h() == (bytes@[6] % 2 == 1),
        forall|i: int|
            0 <= i < 0x8000 ==> r.prg_rom_v()[i] == bytes@[0x10 + (i % (bytes@[4] * 0x4000))],
        forall|i: int| 0 <= i < 0x2000 ==> r.prg_ram_v()[i] == 0u8,
{
    let prg_rom_chunks = *vstd::slice::slice_index_get(bytes, 4);
    let prg_rom_len: usize = (prg_rom_chunks as usize) * 0x4000;
    let prg_rom = vstd::slice::slice_subrange(bytes, 0x10, 0x10 + prg_rom_len);
    let is_mirroring_horizontal = *vstd::slice::slice_index_get(bytes, 6) % 2 == 1;
    let cartridge = Nrom::new(prg_rom, is_mirroring_horizontal);
    AnyCartridge::Nrom(cartridge)
}

} // verus!
