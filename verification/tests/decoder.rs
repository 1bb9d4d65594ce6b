//! Decoder and opcode-table tests.

use nopt::cartridge::{AnyCartridge, Cartridge, Nrom, from_bytes_with_header};
use nopt::instruction_decoder::decode_instruction;
use nopt::nes::Nes;
use nopt::nes_assembly::{AddressingMode, Instruction, Mnemonic, Operation};

/// A 32 KiB PRG-ROM image holding `program` at `offset`, with the reset
/// vector pointing at 0x8000 + `entry`.
fn rom_image(program: &[u8], offset: usize, entry: u16) -> Vec<u8> {
    let mut rom = vec![0u8; 0x8000];
    rom[offset..offset + program.len()].copy_from_slice(program);
    rom[0x7ffc] = (entry % 0x100) as u8;
    rom[0x7ffd] = (entry / 0x100) as u8;
    rom
}

fn nes_with(program: &[u8], offset: usize, entry: u16) -> Nes {
    let rom = rom_image(program, offset, entry);
    Nes::new(AnyCartridge::Nrom(Nrom::new(&rom, false)))
}

#[test]
fn every_opcode_has_a_small_operand_length() {
    for opcode in 0..=255u8 {
        let operation = Operation::from_opcode(opcode);
        let len = operation.addressing_mode().len();
        assert!(len == 0 || len == 1 || len == 2);
        if operation.mnemonic() == Mnemonic::Unimplemented {
            assert_eq!(len, 0);
        }
    }
}

#[test]
fn official_opcodes_encode_back_to_themselves() {
    let mut official = 0;
    for opcode in 0..=255u8 {
        let operation = Operation::from_opcode(opcode);
        if let Some(encoded) = operation.opcode() {
            assert_eq!(encoded, opcode);
            official += 1;
        } else {
            assert_eq!(operation.mnemonic(), Mnemonic::Unimplemented);
        }
    }
    assert_eq!(official, 151);
}

#[test]
fn decode_lda_immediate() {
    let nes = nes_with(&[0xa9, 0x42], 0, 0x8000);
    let (instruction, prg_rom_only) = decode_instruction(&nes, 0x8000);
    assert!(prg_rom_only);
    assert_eq!(instruction.operation().mnemonic(), Mnemonic::Lda);
    assert_eq!(
        instruction.operation().addressing_mode(),
        AddressingMode::Immediate
    );
    assert_eq!(instruction.operand_u16(), 0x42);
    assert_eq!(instruction.address_end(), 0x8002);
}

#[test]
fn decode_absolute_operand_is_little_endian() {
    let nes = nes_with(&[0x4c, 0x34, 0x12], 0, 0x8000);
    let (instruction, _) = decode_instruction(&nes, 0x8000);
    assert_eq!(instruction.operation().mnemonic(), Mnemonic::Jmp);
    assert_eq!(instruction.operand_u16(), 0x1234);
    assert_eq!(instruction.address_end(), 0x8003);
}

#[test]
fn decode_consumes_exactly_the_operation_length() {
    for (program, expected_len) in [
        (vec![0xeau8], 1u16),        // NOP, implied
        (vec![0xa9u8, 0x01], 2u16),  // LDA immediate
        (vec![0xadu8, 0x00, 0x20], 3u16), // LDA absolute
        (vec![0x02u8], 1u16),        // unofficial: Unimplemented, length 1
    ] {
        let nes = nes_with(&program, 0, 0x8000);
        let (instruction, _) = decode_instruction(&nes, 0x8000);
        assert_eq!(instruction.address_end(), 0x8000 + expected_len);
    }
}

#[test]
fn decode_from_ram_is_not_prg_rom_only() {
    let mut nes = nes_with(&[], 0, 0x8000);
    nes.cpu.ram[0x200] = 0xa9;
    nes.cpu.ram[0x201] = 0x07;
    let (instruction, prg_rom_only) = decode_instruction(&nes, 0x0200);
    assert!(!prg_rom_only);
    assert_eq!(instruction.operation().mnemonic(), Mnemonic::Lda);
    assert_eq!(instruction.operand_u16(), 0x07);
}

#[test]
fn encode_decode_round_trip_through_memory() {
    // Place every official opcode with a fitting operand in ROM and check
    // that decoding reproduces mnemonic, mode, and operand.
    for opcode in 0..=255u8 {
        let operation = Operation::from_opcode(opcode);
        if operation.opcode().is_none() {
            continue;
        }
        let operand: u16 = match operation.addressing_mode().len() {
            0 => 0,
            1 => 0x5a,
            _ => 0xbeef,
        };
        let program = match operation.addressing_mode().len() {
            0 => vec![opcode],
            1 => vec![opcode, operand as u8],
            _ => vec![opcode, (operand % 0x100) as u8, (operand / 0x100) as u8],
        };
        let nes = nes_with(&program, 0x1000, 0x9000);
        let (instruction, _) = decode_instruction(&nes, 0x9000);
        assert_eq!(
            instruction,
            Instruction::new(0x9000, operation, operand),
            "opcode {opcode:#04x}"
        );
    }
}

#[test]
fn branch_target_sign_extends_the_operand() {
    let forward = Instruction::new(
        0xc000,
        Operation::from_opcode(0xd0),
        0x02,
    );
    assert_eq!(forward.branch_target(), 0xc004);
    let backward = Instruction::new(
        0xc000,
        Operation::from_opcode(0xd0),
        0xfe,
    );
    assert_eq!(backward.branch_target(), 0xc000);
    assert_eq!(backward.operand_i8(), -2);
}

#[test]
fn peek_reads_ram_prg_ram_and_prg_rom() {
    let mut rom = rom_image(&[], 0, 0x8000);
    rom[0x123] = 0xab;
    let mut nes = Nes::new(AnyCartridge::Nrom(Nrom::new(&rom, false)));
    nes.cpu.ram[0x45] = 0x99;
    assert_eq!(nes.peek(0x0045), 0x99);
    assert_eq!(nes.peek(0x0845), 0x99); // RAM mirror
    assert_eq!(nes.peek(0x8123), 0xab);
    assert_eq!(nes.peek(0xfffc), 0x00);
    assert_eq!(nes.peek(0xfffd), 0x80);
    nes.cartridge.write_prg_ram(0x10, 0x77);
    assert_eq!(nes.peek(0x6010), 0x77);
}

#[test]
fn sixteen_kilobyte_images_are_mirrored() {
    let mut bytes = vec![0u8; 0x10 + 0x4000];
    bytes[4] = 1; // one 16 KiB PRG-ROM chunk
    bytes[6] = 1; // horizontal mirroring
    bytes[0x10] = 0xcd;
    bytes[0x10 + 0x3ffc] = 0x00;
    bytes[0x10 + 0x3ffd] = 0x80;
    let cartridge = from_bytes_with_header(&bytes);
    assert!(cartridge.read_is_mirroring_horizontal());
    assert_eq!(cartridge.peek_prg_rom(0x0000), 0xcd);
    assert_eq!(cartridge.peek_prg_rom(0x4000), 0xcd); // mirrored bank
    assert_eq!(cartridge.reset_vector(), 0x8000);
}

#[test]
fn rom_exposes_the_prg_rom_slice() {
    let mut bytes = vec![0u8; 0x10 + 0x8000];
    bytes[4] = 2; // two 16 KiB PRG-ROM chunks
    bytes[0x10] = 0x11;
    bytes[0x10 + 0x7fff] = 0x99;
    let rom = nopt::rom::Rom::from_bytes_with_header(bytes);
    let prg = rom.prg_rom();
    assert_eq!(prg.len(), 0x8000);
    assert_eq!(prg[0], 0x11);
    assert_eq!(prg[0x7fff], 0x99);
    assert_eq!(rom.header.prg_rom_chunks, 2);
}

#[test]
fn wrapping_address_arithmetic() {
    assert_eq!(nopt::wrap_add16(0xffff, 1), 0x0000);
    assert_eq!(nopt::wrap_add16(0xfffe, 3), 0x0001);
    assert_eq!(nopt::wrap_add16(0x1234, 0), 0x1234);
}
