//! The guest machine state: CPU registers and RAM, the PPU subset, and the
//! cartridge, together with its mathematical view.

use crate::cartridge::{AnyCartridge, Cartridge};
use vstd::prelude::*;

verus! {

/// The 6502 CPU core: byte registers, the 16-bit program counter, and the
/// 2 KiB internal RAM.
pub struct Cpu {
    pub ram: Vec<u8>,
    pub a: u8,
    pub x: u8,
    pub y: u8,
    pub p: u8,
    pub s: u8,
    pub pc: u16,
}

impl Cpu {
    pub fn new(pc: u16) -> (r: Cpu)
        ensures
            r.ram@.len() == 0x800,
            forall|i: int| 0 <= i < 0x800 ==> r.ram@[i] == 0u8,
            r.a == 0 && r.x == 0 && r.y == 0 && r.p == 0 && r.s == 0,
            r.pc == pc,
    {
        Cpu { ram: crate::zeroed_bytes(0x800), a: 0, x: 0, y: 0, p: 0, s: 0, pc }
    }
}

/// The PPU subset the recompiler models: 2 KiB of VRAM behind the mirroring
/// remap, palette RAM, the control register, the data-port read buffer, and
/// the current VRAM address.
pub struct Ppu {
    pub ram: Vec<u8>,
    pub palette_ram: Vec<u8>,
    pub control_register: u8,
    pub read_buffer: u8,
    pub current_address: u16,
}

impl Ppu {
    pub fn new() -> (r: Ppu)
        ensures
            r.ram@.len() == 0x800,
            forall|i: int| 0 <= i < 0x800 ==> r.ram@[i] == 0u8,
            r.palette_ram@.len() == 0x20,
            forall|i: int| 0 <= i < 0x20 ==> r.palette_ram@[i] == 0u8,
            r.control_register == 0 && r.read_buffer == 0 && r.current_address == 0,
    {
        Ppu {
            ram: crate::zeroed_bytes(0x800),
            palette_ram: crate::zeroed_bytes(0x20),
            control_register: 0,
            read_buffer: 0,
            current_address: 0,
        }
    }
}

/// The mathematical view of the whole guest state: every register and memory
/// the compiled fragments can observe or change.
#[verifier::ext_equal]
pub struct NesV {
    pub ram: Seq<u8>,
    pub a: u8,
    pub x: u8,
    pub y: u8,
    pub p: u8,
    pub s: u8,
    pub pc: u16,
    pub ppu_ram: Seq<u8>,
    pub palette_ram: Seq<u8>,
    pub control_register: u8,
    pub read_buffer: u8,
    pub current_address: u16,
    pub prg_ram: Seq<u8>,
    pub prg_rom: Seq<u8>,
    pub mirror_horizontal: bool,
}

impl NesV {
    /// Well-formedness: every memory has its architected size.
    pub open spec fn wf(self) -> bool {
        &&& self.ram.len() == 0x800
        &&& self.ppu_ram.len() == 0x800
        &&& self.palette_ram.len() == 0x20
        &&& self.prg_ram.len() == 0x2000
        &&& self.prg_rom.len() == 0x8000
    }
}

/// The guest machine: CPU, PPU, and cartridge.
pub struct Nes {
    pub cartridge: AnyCartridge,
    pub cpu: Cpu,
    pub ppu: Ppu,
}

impl View for Nes {
    type V = NesV;

    open spec fn view(&self) -> NesV {
        NesV {
            ram: self.cpu.ram@,
            a: self.cpu.a,
            x: self.cpu.x,
            y: self.cpu.y,
            p: self.cpu.p,
            s: self.cpu.s,
            pc: self.cpu.pc,
            ppu_ram: self.ppu.ram@,
            palette_ram: self.ppu.palette_ram@,
            control_register: self.ppu.control_register,
            read_buffer: self.ppu.read_buffer,
            current_address: self.ppu.current_address,
            prg_ram: self.cartridge.prg_ram_v(),
            prg_rom: self.cartridge.prg_rom_v(),
            mirror_horizontal: self.cartridge.mirror_h(),
        }
    }
}

/// What the CPU bus yields outside compiled code, for the regions the
/// recompiler models as readable: RAM, PRG-RAM and PRG-ROM, each behind its
/// power-of-two mirror mask.
pub open spec fn spec_peek(v: NesV, address: u16) -> u8 {
    if address < 0x2000 {
        v.ram[(address as int) % 0x800]
    } else if address < 0x6000 {
        0u8
    } else if address < 0x8000 {
        v.prg_ram[(address as int) % 0x2000]
    } else {
        v.prg_rom[(address as int) % 0x8000]
    }
}

impl Nes {
    /// Builds the machine in its reset state: all memories and registers
    /// zero, with the program counter read from the cartridge's reset vector.
    pub fn new(cartridge: AnyCartridge) -> (r: Nes)
        requires
            cartridge.inv(),
        ensures
            r@.wf(),
            r@.pc == crate::cartridge::spec_reset_vector(cartridge.prg_rom_v()),
            r@.prg_rom == cartridge.prg_rom_v(),
            r@.prg_ram == cartridge.prg_ram_v(),
            r@.mirror_horizontal == cartridge.mirror_h(),
            r@.a == 0 && r@.x == 0 && r@.y == 0 && r@.p == 0 && r@.s == 0,
            forall|i: int| 0 <= i < 0x800 ==> r@.ram[i] == 0u8,
            forall|i: int| 0 <= i < 0x800 ==> r@.ppu_ram[i] == 0u8,
            forall|i: int| 0 <= i < 0x20 ==> r@.palette_ram[i] == 0u8,
            r@.control_register == 0 && r@.read_buffer == 0 && r@.current_address == 0,
    {
        let cpu_pc = cartridge.reset_vector();
        Nes { cartridge, cpu: Cpu::new(cpu_pc), ppu: Ppu::new() }
    }

    /// Reads one byte the way the decoder sees the bus. The 0x2000-0x5fff
    /// window holds no decodable bytes and is outside this function's domain.
    pub fn peek(&self, address: u16) -> (r: u8)
        requires
            self@.wf(),
            !(0x2000 <= address < 0x6000),
        ensures
            r == spec_peek(self@, address),
    {
        if address < 0x2000 {
            self.cpu.ram[(address % 0x800) as usize]
        } else if address < 0x8000 {
            self.cartridge.peek_prg_ram(address % 0x2000)
        } else {
            self.cartridge.peek_prg_rom(address % 0x8000)
        }
    }
}

} // verus!
