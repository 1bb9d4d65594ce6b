//! The 6502 assembly model: mnemonics, addressing modes, the opcode table,
//! and decoded instructions.

use vstd::prelude::*;

verus! {

/// The 56 official 6502 mnemonics, plus a distinguished `Unimplemented`
/// mnemonic for the unofficial opcodes, which compile to a no-op.
#[derive(Clone, Copy, Debug, PartialEq, Eq, Structural)]
pub enum Mnemonic {
    Adc,
    And,
    Asl,
    Bcc,
    Bcs,
    Beq,
    Bit,
    Bmi,
    Bne,
    Bpl,
    Brk,
    Bvc,
    Bvs,
    Clc,
    Cld,
    Cli,
    Clv,
    Cmp,
    Cpx,
    Cpy,
    Dec,
    Dex,
    Dey,
    Eor,
    Inc,
    Inx,
    Iny,
    Jmp,
    Jsr,
    Lda,
    Ldx,
    Ldy,
    Lsr,
    Nop,
    Ora,
    Pha,
    Php,
    Pla,
    Plp,
    Rol,
    Ror,
    Rti,
    Rts,
    Sbc,
    Sec,
    Sed,
    Sei,
    Sta,
    Stx,
    Sty,
    Tax,
    Tay,
    Tsx,
    Txa,
    Txs,
    Tya,
    Unimplemented,
}

/// The 6502 addressing modes; each determines the operand length and how the
/// operand is turned into a value or an effective address.
#[derive(Clone, Copy, Debug, PartialEq, Eq, Structural)]
pub enum AddressingMode {
    Absolute,
    AbsoluteX,
    AbsoluteY,
    Accumulator,
    Immediate,
    Implied,
    Indirect,
    IndirectY,
    Relative,
    XIndirect,
    Zeropage,
    ZeropageX,
    ZeropageY,
}

impl AddressingMode {
    /// The number of operand bytes that follow the opcode byte: 0, 1 or 2.
    pub open spec fn spec_len(self) -> u8 {
        match self {
            AddressingMode::Accumulator | AddressingMode::Implied => 0,
            AddressingMode::Immediate
            | AddressingMode::IndirectY
            | AddressingMode::Relative
            | AddressingMode::XIndirect
            | AddressingMode::Zeropage
            | AddressingMode::ZeropageX
            | AddressingMode::ZeropageY => 1,
            AddressingMode::Absolute
            | AddressingMode::AbsoluteX
            | AddressingMode::AbsoluteY
            | AddressingMode::Indirect => 2,
        }
    }

    pub fn len(self) -> (r: u8)
        ensures
            r == self.spec_len(),
            r == 0 || r == 1 || r == 2,
    {
        match self {
            AddressingMode::Accumulator | AddressingMode::Implied => 0,
            AddressingMode::Immediate
            | AddressingMode::IndirectY
            | AddressingMode::Relative
            | AddressingMode::XIndirect
            | AddressingMode::Zeropage
            | AddressingMode::ZeropageX
            | AddressingMode::ZeropageY => 1,
            AddressingMode::Absolute
            | AddressingMode::AbsoluteX
            | AddressingMode::AbsoluteY
            | AddressingMode::Indirect => 2,
        }
    }
}

/// A mnemonic paired with an addressing mode: what one opcode byte stands for.
#[derive(Clone, Copy, Debug, PartialEq, Eq, Structural)]
pub struct Operation {
    pub mnemonic: Mnemonic,
    pub addressing_mode: AddressingMode,
}

/// The opcode table: every opcode 0x00-0xff maps to exactly one operation.
/// The 151 official opcodes are enumerated; every other opcode maps to
/// `Unimplemented` with the implied (zero-length) addressing mode.
pub open spec fn spec_from_opcode(opcode: u8) -> Operation {
    if false { arbitrary()
    } else if opcode == 0x00 { Operation { mnemonic: Mnemonic::Brk, addressing_mode: AddressingMode::Implied }
    } else if opcode == 0x01 { Operation { mnemonic: Mnemonic::Ora, addressing_mode: AddressingMode::XIndirect }
    } else if opcode == 0x05 { Operation { mnemonic: Mnemonic::Ora, addressing_mode: AddressingMode::Zeropage }
    } else if opcode == 0x06 { Operation { mnemonic: Mnemonic::Asl, addressing_mode: AddressingMode::Zeropage }
    } else if opcode == 0x08 { Operation { mnemonic: Mnemonic::Php, addressing_mode: AddressingMode::Implied }
    } else if opcode == 0x09 { Operation { mnemonic: Mnemonic::Ora, addressing_mode: AddressingMode::Immediate }
    } else if opcode == 0x0a { Operation { mnemonic: Mnemonic::Asl, addressing_mode: AddressingMode::Accumulator }
    } else if opcode == 0x0d { Operation { mnemonic: Mnemonic::Ora, addressing_mode: AddressingMode::Absolute }
    } else if opcode == 0x0e { Operation { mnemonic: Mnemonic::Asl, addressing_mode: AddressingMode::Absolute }
    } else if opcode == 0x10 { Operation { mnemonic: Mnemonic::Bpl, addressing_mode: AddressingMode::Relative }
    } else if opcode == 0x11 { Operation { mnemonic: Mnemonic::Ora, addressing_mode: AddressingMode::IndirectY }
    } else if opcode == 0x15 { Operation { mnemonic: Mnemonic::Ora, addressing_mode: AddressingMode::ZeropageX }
    } else if opcode == 0x16 { Operation { mnemonic: Mnemonic::Asl, addressing_mode: AddressingMode::ZeropageX }
    } else if opcode == 0x18 { Operation { mnemonic: Mnemonic::Clc, addressing_mode: AddressingMode::Implied }
    } else if opcode == 0x19 { Operation { mnemonic: Mnemonic::Ora, addressing_mode: AddressingMode::AbsoluteY }
    } else if opcode == 0x1d { Operation { mnemonic: Mnemonic::Ora, addressing_mode: AddressingMode::AbsoluteX }
    } else if opcode == 0x1e { Operation { mnemonic: Mnemonic::Asl, addressing_mode: AddressingMode::AbsoluteX }
    } else if opcode == 0x20 { Operation { mnemonic: Mnemonic::Jsr, addressing_mode: AddressingMode::Absolute }
    } else if opcode == 0x21 { Operation { mnemonic: Mnemonic::And, addressing_mode: AddressingMode::XIndirect }
    } else if opcode == 0x24 { Operation { mnemonic: Mnemonic::Bit, addressing_mode: AddressingMode::Zeropage }
    } else if opcode == 0x25 { Operation { mnemonic: Mnemonic::And, addressing_mode: AddressingMode::Zeropage }
    } else if opcode == 0x26 { Operation { mnemonic: Mnemonic::Rol, addressing_mode: AddressingMode::Zeropage }
    } else if opcode == 0x28 { Operation { mnemonic: Mnemonic::Plp, addressing_mode: AddressingMode::Implied }
    } else if opcode == 0x29 { Operation { mnemonic: Mnemonic::And, addressing_mode: AddressingMode::Immediate }
    } else if opcode == 0x2a { Operation { mnemonic: Mnemonic::Rol, addressing_mode: AddressingMode::Accumulator }
    } else if opcode == 0x2c { Operation { mnemonic: Mnemonic::Bit, addressing_mode: AddressingMode::Absolute }
    } else if opcode == 0x2d { Operation { mnemonic: Mnemonic::And, addressing_mode: AddressingMode::Absolute }
    } else if opcode == 0x2e { Operation { mnemonic: Mnemonic::Rol, addressing_mode: AddressingMode::Absolute }
    } else if opcode == 0x30 { Operation { mnemonic: Mnemonic::Bmi, addressing_mode: AddressingMode::Relative }
    } else if opcode == 0x31 { Operation { mnemonic: Mnemonic::And, addressing_mode: AddressingMode::IndirectY }
    } else if opcode == 0x35 { Operation { mnemonic: Mnemonic::And, addressing_mode: AddressingMode::ZeropageX }
    } else if opcode == 0x36 { Operation { mnemonic: Mnemonic::Rol, addressing_mode: AddressingMode::ZeropageX }
    } else if opcode == 0x38 { Operation { mnemonic: Mnemonic::Sec, addressing_mode: AddressingMode::Implied }
    } else if opcode == 0x39 { Operation { mnemonic: Mnemonic::And, addressing_mode: AddressingMode::AbsoluteY }
    } else if opcode == 0x3d { Operation { mnemonic: Mnemonic::And, addressing_mode: AddressingMode::AbsoluteX }
    } else if opcode == 0x3e { Operation { mnemonic: Mnemonic::Rol, addressing_mode: AddressingMode::AbsoluteX }
    } else if opcode == 0x40 { Operation { mnemonic: Mnemonic::Rti, addressing_mode: AddressingMode::Implied }
    } else if opcode == 0x41 { Operation { mnemonic: Mnemonic::Eor, addressing_mode: AddressingMode::XIndirect }
    } else if opcode == 0x45 { Operation { mnemonic: Mnemonic::Eor, addressing_mode: AddressingMode::Zeropage }
    } else if opcode == 0x46 { Operation { mnemonic: Mnemonic::Lsr, addressing_mode: AddressingMode::Zeropage }
    } else if opcode == 0x48 { Operation { mnemonic: Mnemonic::Pha, addressing_mode: AddressingMode::Implied }
    } else if opcode == 0x49 { Operation { mnemonic: Mnemonic::Eor, addressing_mode: AddressingMode::Immediate }
    } else if opcode == 0x4a { Operation { mnemonic: Mnemonic::Lsr, addressing_mode: AddressingMode::Accumulator }
    } else if opcode == 0x4c { Operation { mnemonic: Mnemonic::Jmp, addressing_mode: AddressingMode::Absolute }
    } else if opcode == 0x4d { Operation { mnemonic: Mnemonic::Eor, addressing_mode: AddressingMode::Absolute }
    } else if opcode == 0x4e { Operation { mnemonic: Mnemonic::Lsr, addressing_mode: AddressingMode::Absolute }
    } else if opcode == 0x50 { Operation { mnemonic: Mnemonic::Bvc, addressing_mode: AddressingMode::Relative }
    } else if opcode == 0x51 { Operation { mnemonic: Mnemonic::Eor, addressing_mode: AddressingMode::IndirectY }
    } else if opcode == 0x55 { Operation { mnemonic: Mnemonic::Eor, addressing_mode: AddressingMode::ZeropageX }
    } else if opcode == 0x56 { Operation { mnemonic: Mnemonic::Lsr, addressing_mode: AddressingMode::ZeropageX }
    } else if opcode == 0x58 { Operation { mnemonic: Mnemonic::Cli, addressing_mode: AddressingMode::Implied }
    } else if opcode == 0x59 { Operation { mnemonic: Mnemonic::Eor, addressing_mode: AddressingMode::AbsoluteY }
    } else if opcode == 0x5d { Operation { mnemonic: Mnemonic::Eor, addressing_mode: AddressingMode::AbsoluteX }
    } else if opcode == 0x5e { Operation { mnemonic: Mnemonic::Lsr, addressing_mode: AddressingMode::AbsoluteX }
    } else if opcode == 0x60 { Operation { mnemonic: Mnemonic::Rts, addressing_mode: AddressingMode::Implied }
    } else if opcode == 0x61 { Operation { mnemonic: Mnemonic::Adc, addressing_mode: AddressingMode::XIndirect }
    } else if opcode == 0x65 { Operation { mnemonic: Mnemonic::Adc, addressing_mode: AddressingMode::Zeropage }
    } else if opcode == 0x66 { Operation { mnemonic: Mnemonic::Ror, addressing_mode: AddressingMode::Zeropage }
    } else if opcode == 0x68 { Operation { mnemonic: Mnemonic::Pla, addressing_mode: AddressingMode::Implied }
    } else if opcode == 0x69 { Operation { mnemonic: Mnemonic::Adc, addressing_mode: AddressingMode::Immediate }
    } else if opcode == 0x6a { Operation { mnemonic: Mnemonic::Ror, addressing_mode: AddressingMode::Accumulator }
    } else if opcode == 0x6c { Operation { mnemonic: Mnemonic::Jmp, addressing_mode: AddressingMode::Indirect }
    } else if opcode == 0x6d { Operation { mnemonic: Mnemonic::Adc, addressing_mode: AddressingMode::Absolute }
    } else if opcode == 0x6e { Operation { mnemonic: Mnemonic::Ror, addressing_mode: AddressingMode::Absolute }
    } else if opcode == 0x70 { Operation { mnemonic: Mnemonic::Bvs, addressing_mode: AddressingMode::Relative }
    } else if opcode == 0x71 { Operation { mnemonic: Mnemonic::Adc, addressing_mode: AddressingMode::IndirectY }
    } else if opcode == 0x75 { Operation { mnemonic: Mnemonic::Adc, addressing_mode: AddressingMode::ZeropageX }
    } else if opcode == 0x76 { Operation { mnemonic: Mnemonic::Ror, addressing_mode: AddressingMode::ZeropageX }
    } else if opcode == 0x78 { Operation { mnemonic: Mnemonic::Sei, addressing_mode: AddressingMode::Implied }
    } else if opcode == 0x79 { Operation { mnemonic: Mnemonic::Adc, addressing_mode: AddressingMode::AbsoluteY }
    } else if opcode == 0x7d { Operation { mnemonic: Mnemonic::Adc, addressing_mode: AddressingMode::AbsoluteX }
    } else if opcode == 0x7e { Operation { mnemonic: Mnemonic::Ror, addressing_mode: AddressingMode::AbsoluteX }
    } else if opcode == 0x81 { Operation { mnemonic: Mnemonic::Sta, addressing_mode: AddressingMode::XIndirect }
    } else if opcode == 0x84 { Operation { mnemonic: Mnemonic::Sty, addressing_mode: AddressingMode::Zeropage }
    } else if opcode == 0x85 { Operation { mnemonic: Mnemonic::Sta, addressing_mode: AddressingMode::Zeropage }
    } else if opcode == 0x86 { Operation { mnemonic: Mnemonic::Stx, addressing_mode: AddressingMode::Zeropage }
    } else if opcode == 0x88 { Operation { mnemonic: Mnemonic::Dey, addressing_mode: AddressingMode::Implied }
    } else if opcode == 0x8a { Operation { mnemonic: Mnemonic::Txa, addressing_mode: AddressingMode::Implied }
    } else if opcode == 0x8c { Operation { mnemonic: Mnemonic::Sty, addressing_mode: AddressingMode::Absolute }
    } else if opcode == 0x8d { Operation { mnemonic: Mnemonic::Sta, addressing_mode: AddressingMode::Absolute }
    } else if opcode == 0x8e { Operation { mnemonic: Mnemonic::Stx, addressing_mode: AddressingMode::Absolute }
    } else if opcode == 0x90 { Operation { mnemonic: Mnemonic::Bcc, addressing_mode: AddressingMode::Relative }
    } else if opcode == 0x91 { Operation { mnemonic: Mnemonic::Sta, addressing_mode: AddressingMode::IndirectY }
    } else if opcode == 0x94 { Operation { mnemonic: Mnemonic::Sty, addressing_mode: AddressingMode::ZeropageX }
    } else if opcode == 0x95 { Operation { mnemonic: Mnemonic::Sta, addressing_mode: AddressingMode::ZeropageX }
    } else if opcode == 0x96 { Operation { mnemonic: Mnemonic::Stx, addressing_mode: AddressingMode::ZeropageY }
    } else if opcode == 0x98 { Operation { mnemonic: Mnemonic::Tya, addressing_mode: AddressingMode::Implied }
    } else if opcode == 0x99 { Operation { mnemonic: Mnemonic::Sta, addressing_mode: AddressingMode::AbsoluteY }
    } else if opcode == 0x9a { Operation { mnemonic: Mnemonic::Txs, addressing_mode: AddressingMode::Implied }
    } else if opcode == 0x9d { Operation { mnemonic: Mnemonic::Sta, addressing_mode: AddressingMode::AbsoluteX }
    } else if opcode == 0xa0 { Operation { mnemonic: Mnemonic::Ldy, addressing_mode: AddressingMode::Immediate }
    } else if opcode == 0xa1 { Operation { mnemonic: Mnemonic::Lda, addressing_mode: AddressingMode::XIndirect }
    } else if opcode == 0xa2 { Operation { mnemonic: Mnemonic::Ldx, addressing_mode: AddressingMode::Immediate }
    } else if opcode == 0xa4 { Operation { mnemonic: Mnemonic::Ldy, addressing_mode: AddressingMode::Zeropage }
    } else if opcode == 0xa5 { Operation { mnemonic: Mnemonic::Lda, addressing_mode: AddressingMode::Zeropage }
    } else if opcode == 0xa6 { Operation { mnemonic: Mnemonic::Ldx, addressing_mode: AddressingMode::Zeropage }
    } else if opcode == 0xa8 { Operation { mnemonic: Mnemonic::Tay, addressing_mode: AddressingMode::Implied }
    } else if opcode == 0xa9 { Operation { mnemonic: Mnemonic::Lda, addressing_mode: AddressingMode::Immediate }
    } else if opcode == 0xaa { Operation { mnemonic: Mnemonic::Tax, addressing_mode: AddressingMode::Implied }
    } else if opcode == 0xac { Operation { mnemonic: Mnemonic::Ldy, addressing_mode: AddressingMode::Absolute }
    } else if opcode == 0xad { Operation { mnemonic: Mnemonic::Lda, addressing_mode: AddressingMode::Absolute }
    } else if opcode == 0xae { Operation { mnemonic: Mnemonic::Ldx, addressing_mode: AddressingMode::Absolute }
    } else if opcode == 0xb0 { Operation { mnemonic: Mnemonic::Bcs, addressing_mode: AddressingMode::Relative }
    } else if opcode == 0xb1 { Operation { mnemonic: Mnemonic::Lda, addressing_mode: AddressingMode::IndirectY }
    } else if opcode == 0xb4 { Operation { mnemonic: Mnemonic::Ldy, addressing_mode: AddressingMode::ZeropageX }
    } else if opcode == 0xb5 { Operation { mnemonic: Mnemonic::Lda, addressing_mode: AddressingMode::ZeropageX }
    } else if opcode == 0xb6 { Operation { mnemonic: Mnemonic::Ldx, addressing_mode: AddressingMode::ZeropageY }
    } else if opcode == 0xb8 { Operation { mnemonic: Mnemonic::Clv, addressing_mode: AddressingMode::Implied }
    } else if opcode == 0xb9 { Operation { mnemonic: Mnemonic::Lda, addressing_mode: AddressingMode::AbsoluteY }
    } else if opcode == 0xba { Operation { mnemonic: Mnemonic::Tsx, addressing_mode: AddressingMode::Implied }
    } else if opcode == 0xbc { Operation { mnemonic: Mnemonic::Ldy, addressing_mode: AddressingMode::AbsoluteX }
    } else if opcode == 0xbd { Operation { mnemonic: Mnemonic::Lda, addressing_mode: AddressingMode::AbsoluteX }
    } else if opcode == 0xbe { Operation { mnemonic: Mnemonic::Ldx, addressing_mode: AddressingMode::AbsoluteY }
    } else if opcode == 0xc0 { Operation { mnemonic: Mnemonic::Cpy, addressing_mode: AddressingMode::Immediate }
    } else if opcode == 0xc1 { Operation { mnemonic: Mnemonic::Cmp, addressing_mode: AddressingMode::XIndirect }
    } else if opcode == 0xc4 { Operation { mnemonic: Mnemonic::Cpy, addressing_mode: AddressingMode::Zeropage }
    } else if opcode == 0xc5 { Operation { mnemonic: Mnemonic::Cmp, addressing_mode: AddressingMode::Zeropage }
    } else if opcode == 0xc6 { Operation { mnemonic: Mnemonic::Dec, addressing_mode: AddressingMode::Zeropage }
    } else if opcode == 0xc8 { Operation { mnemonic: Mnemonic::Iny, addressing_mode: AddressingMode::Implied }
    } else if opcode == 0xc9 { Operation { mnemonic: Mnemonic::Cmp, addressing_mode: AddressingMode::Immediate }
    } else if opcode == 0xca { Operation { mnemonic: Mnemonic::Dex, addressing_mode: AddressingMode::Implied }
    } else if opcode == 0xcc { Operation { mnemonic: Mnemonic::Cpy, addressing_mode: AddressingMode::Absolute }
    } else if opcode == 0xcd { Operation { mnemonic: Mnemonic::Cmp, addressing_mode: AddressingMode::Absolute }
    } else if opcode == 0xce { Operation { mnemonic: Mnemonic::Dec, addressing_mode: AddressingMode::Absolute }
    } else if opcode == 0xd0 { Operation { mnemonic: Mnemonic::Bne, addressing_mode: AddressingMode::Relative }
    } else if opcode == 0xd1 { Operation { mnemonic: Mnemonic::Cmp, addressing_mode: AddressingMode::IndirectY }
    } else if opcode == 0xd5 { Operation { mnemonic: Mnemonic::Cmp, addressing_mode: AddressingMode::ZeropageX }
    } else if opcode == 0xd6 { Operation { mnemonic: Mnemonic::Dec, addressing_mode: AddressingMode::ZeropageX }
    } else if opcode == 0xd8 { Operation { mnemonic: Mnemonic::Cld, addressing_mode: AddressingMode::Implied }
    } else if opcode == 0xd9 { Operation { mnemonic: Mnemonic::Cmp, addressing_mode: AddressingMode::AbsoluteY }
    } else if opcode == 0xdd { Operation { mnemonic: Mnemonic::Cmp, addressing_mode: AddressingMode::AbsoluteX }
    } else if opcode == 0xde { Operation { mnemonic: Mnemonic::Dec, addressing_mode: AddressingMode::AbsoluteX }
    } else if opcode == 0xe0 { Operation { mnemonic: Mnemonic::Cpx, addressing_mode: AddressingMode::Immediate }
    } else if opcode == 0xe1 { Operation { mnemonic: Mnemonic::Sbc, addressing_mode: AddressingMode::XIndirect }
    } else if opcode == 0xe4 { Operation { mnemonic: Mnemonic::Cpx, addressing_mode: AddressingMode::Zeropage }
    } else if opcode == 0xe5 { Operation { mnemonic: Mnemonic::Sbc, addressing_mode: AddressingMode::Zeropage }
    } else if opcode == 0xe6 { Operation { mnemonic: Mnemonic::Inc, addressing_mode: AddressingMode::Zeropage }
    } else if opcode == 0xe8 { Operation { mnemonic: Mnemonic::Inx, addressing_mode: AddressingMode::Implied }
    } else if opcode == 0xe9 { Operation { mnemonic: Mnemonic::Sbc, addressing_mode: AddressingMode::Immediate }
    } else if opcode == 0xea { Operation { mnemonic: Mnemonic::Nop, addressing_mode: AddressingMode::Implied }
    } else if opcode == 0xec { Operation { mnemonic: Mnemonic::Cpx, addressing_mode: AddressingMode::Absolute }
    } else if opcode == 0xed { Operation { mnemonic: Mnemonic::Sbc, addressing_mode: AddressingMode::Absolute }
    } else if opcode == 0xee { Operation { mnemonic: Mnemonic::Inc, addressing_mode: AddressingMode::Absolute }
    } else if opcode == 0xf0 { Operation { mnemonic: Mnemonic::Beq, addressing_mode: AddressingMode::Relative }
    } else if opcode == 0xf1 { Operation { mnemonic: Mnemonic::Sbc, addressing_mode: AddressingMode::IndirectY }
    } else if opcode == 0xf5 { Operation { mnemonic: Mnemonic::Sbc, addressing_mode: AddressingMode::ZeropageX }
    } else if opcode == 0xf6 { Operation { mnemonic: Mnemonic::Inc, addressing_mode: AddressingMode::ZeropageX }
    } else if opcode == 0xf8 { Operation { mnemonic: Mnemonic::Sed, addressing_mode: AddressingMode::Implied }
    } else if opcode == 0xf9 { Operation { mnemonic: Mnemonic::Sbc, addressing_mode: AddressingMode::AbsoluteY }
    } else if opcode == 0xfd { Operation { mnemonic: Mnemonic::Sbc, addressing_mode: AddressingMode::AbsoluteX }
    } else if opcode == 0xfe { Operation { mnemonic: Mnemonic::Inc, addressing_mode: AddressingMode::AbsoluteX }
    } else {
        Operation { mnemonic: Mnemonic::Unimplemented, addressing_mode: AddressingMode::Implied }
    }
}

/// The opcode that encodes an operation, if the operation is in the table.
/// `Unimplemented` operations and unused mnemonic/mode pairings have none.
pub open spec fn spec_opcode_for(mnemonic: Mnemonic, addressing_mode: AddressingMode) -> Option<u8> {
    match (mnemonic, addressing_mode) {
        (Mnemonic::Brk, AddressingMode::Implied) => Some(0x00u8),
        (Mnemonic::Ora, AddressingMode::XIndirect) => Some(0x01u8),
        (Mnemonic::Ora, AddressingMode::Zeropage) => Some(0x05u8),
        (Mnemonic::Asl, AddressingMode::Zeropage) => Some(0x06u8),
        (Mnemonic::Php, AddressingMode::Implied) => Some(0x08u8),
        (Mnemonic::Ora, AddressingMode::Immediate) => Some(0x09u8),
        (Mnemonic::Asl, AddressingMode::Accumulator) => Some(0x0au8),
        (Mnemonic::Ora, AddressingMode::Absolute) => Some(0x0du8),
        (Mnemonic::Asl, AddressingMode::Absolute) => Some(0x0eu8),
        (Mnemonic::Bpl, AddressingMode::Relative) => Some(0x10u8),
        (Mnemonic::Ora, AddressingMode::IndirectY) => Some(0x11u8),
        (Mnemonic::Ora, AddressingMode::ZeropageX) => Some(0x15u8),
        (Mnemonic::Asl, AddressingMode::ZeropageX) => Some(0x16u8),
        (Mnemonic::Clc, AddressingMode::Implied) => Some(0x18u8),
        (Mnemonic::Ora, AddressingMode::AbsoluteY) => Some(0x19u8),
        (Mnemonic::Ora, AddressingMode::AbsoluteX) => Some(0x1du8),
        (Mnemonic::Asl, AddressingMode::AbsoluteX) => Some(0x1eu8),
        (Mnemonic::Jsr, AddressingMode::Absolute) => Some(0x20u8),
        (Mnemonic::And, AddressingMode::XIndirect) => Some(0x21u8),
        (Mnemonic::Bit, AddressingMode::Zeropage) => Some(0x24u8),
        (Mnemonic::And, AddressingMode::Zeropage) => Some(0x25u8),
        (Mnemonic::Rol, AddressingMode::Zeropage) => Some(0x26u8),
        (Mnemonic::Plp, AddressingMode::Implied) => Some(0x28u8),
        (Mnemonic::And, AddressingMode::Immediate) => Some(0x29u8),
        (Mnemonic::Rol, AddressingMode::Accumulator) => Some(0x2au8),
        (Mnemonic::Bit, AddressingMode::Absolute) => Some(0x2cu8),
        (Mnemonic::And, AddressingMode::Absolute) => Some(0x2du8),
        (Mnemonic::Rol, AddressingMode::Absolute) => Some(0x2eu8),
        (Mnemonic::Bmi, AddressingMode::Relative) => Some(0x30u8),
        (Mnemonic::And, AddressingMode::IndirectY) => Some(0x31u8),
        (Mnemonic::And, AddressingMode::ZeropageX) => Some(0x35u8),
        (Mnemonic::Rol, AddressingMode::ZeropageX) => Some(0x36u8),
        (Mnemonic::Sec, AddressingMode::Implied) => Some(0x38u8),
        (Mnemonic::And, AddressingMode::AbsoluteY) => Some(0x39u8),
        (Mnemonic::And, AddressingMode::AbsoluteX) => Some(0x3du8),
        (Mnemonic::Rol, AddressingMode::AbsoluteX) => Some(0x3eu8),
        (Mnemonic::Rti, AddressingMode::Implied) => Some(0x40u8),
        (Mnemonic::Eor, AddressingMode::XIndirect) => Some(0x41u8),
        (Mnemonic::Eor, AddressingMode::Zeropage) => Some(0x45u8),
        (Mnemonic::Lsr, AddressingMode::Zeropage) => Some(0x46u8),
        (Mnemonic::Pha, AddressingMode::Implied) => Some(0x48u8),
        (Mnemonic::Eor, AddressingMode::Immediate) => Some(0x49u8),
        (Mnemonic::Lsr, AddressingMode::Accumulator) => Some(0x4au8),
        (Mnemonic::Jmp, AddressingMode::Absolute) => Some(0x4cu8),
        (Mnemonic::Eor, AddressingMode::Absolute) => Some(0x4du8),
        (Mnemonic::Lsr, AddressingMode::Absolute) => Some(0x4eu8),
        (Mnemonic::Bvc, AddressingMode::Relative) => Some(0x50u8),
        (Mnemonic::Eor, AddressingMode::IndirectY) => Some(0x51u8),
        (Mnemonic::Eor, AddressingMode::ZeropageX) => Some(0x55u8),
        (Mnemonic::Lsr, AddressingMode::ZeropageX) => Some(0x56u8),
        (Mnemonic::Cli, AddressingMode::Implied) => Some(0x58u8),
        (Mnemonic::Eor, AddressingMode::AbsoluteY) => Some(0x59u8),
        (Mnemonic::Eor, AddressingMode::AbsoluteX) => Some(0x5du8),
        (Mnemonic::Lsr, AddressingMode::AbsoluteX) => Some(0x5eu8),
        (Mnemonic::Rts, AddressingMode::Implied) => Some(0x60u8),
        (Mnemonic::Adc, AddressingMode::XIndirect) => Some(0x61u8),
        (Mnemonic::Adc, AddressingMode::Zeropage) => Some(0x65u8),
        (Mnemonic::Ror, AddressingMode::Zeropage) => Some(0x66u8),
        (Mnemonic::Pla, AddressingMode::Implied) => Some(0x68u8),
        (Mnemonic::Adc, AddressingMode::Immediate) => Some(0x69u8),
        (Mnemonic::Ror, AddressingMode::Accumulator) => Some(0x6au8),
        (Mnemonic::Jmp, AddressingMode::Indirect) => Some(0x6cu8),
        (Mnemonic::Adc, AddressingMode::Absolute) => Some(0x6du8),
        (Mnemonic::Ror, AddressingMode::Absolute) => Some(0x6eu8),
        (Mnemonic::Bvs, AddressingMode::Relative) => Some(0x70u8),
        (Mnemonic::Adc, AddressingMode::IndirectY) => Some(0x71u8),
        (Mnemonic::Adc, AddressingMode::ZeropageX) => Some(0x75u8),
        (Mnemonic::Ror, AddressingMode::ZeropageX) => Some(0x76u8),
        (Mnemonic::Sei, AddressingMode::Implied) => Some(0x78u8),
        (Mnemonic::Adc, AddressingMode::AbsoluteY) => Some(0x79u8),
        (Mnemonic::Adc, AddressingMode::AbsoluteX) => Some(0x7du8),
        (Mnemonic::Ror, AddressingMode::AbsoluteX) => Some(0x7eu8),
        (Mnemonic::Sta, AddressingMode::XIndirect) => Some(0x81u8),
        (Mnemonic::Sty, AddressingMode::Zeropage) => Some(0x84u8),
        (Mnemonic::Sta, AddressingMode::Zeropage) => Some(0x85u8),
        (Mnemonic::Stx, AddressingMode::Zeropage) => Some(0x86u8),
        (Mnemonic::Dey, AddressingMode::Implied) => Some(0x88u8),
        (Mnemonic::Txa, AddressingMode::Implied) => Some(0x8au8),
        (Mnemonic::Sty, AddressingMode::Absolute) => Some(0x8cu8),
        (Mnemonic::Sta, AddressingMode::Absolute) => Some(0x8du8),
        (Mnemonic::Stx, AddressingMode::Absolute) => Some(0x8eu8),
        (Mnemonic::Bcc, AddressingMode::Relative) => Some(0x90u8),
        (Mnemonic::Sta, AddressingMode::IndirectY) => Some(0x91u8),
        (Mnemonic::Sty, AddressingMode::ZeropageX) => Some(0x94u8),
        (Mnemonic::Sta, AddressingMode::ZeropageX) => Some(0x95u8),
        (Mnemonic::Stx, AddressingMode::ZeropageY) => Some(0x96u8),
        (Mnemonic::Tya, AddressingMode::Implied) => Some(0x98u8),
        (Mnemonic::Sta, AddressingMode::AbsoluteY) => Some(0x99u8),
        (Mnemonic::Txs, AddressingMode::Implied) => Some(0x9au8),
        (Mnemonic::Sta, AddressingMode::AbsoluteX) => Some(0x9du8),
        (Mnemonic::Ldy, AddressingMode::Immediate) => Some(0xa0u8),
        (Mnemonic::Lda, AddressingMode::XIndirect) => Some(0xa1u8),
        (Mnemonic::Ldx, AddressingMode::Immediate) => Some(0xa2u8),
        (Mnemonic::Ldy, AddressingMode::Zeropage) => Some(0xa4u8),
        (Mnemonic::Lda, AddressingMode::Zeropage) => Some(0xa5u8),
        (Mnemonic::Ldx, AddressingMode::Zeropage) => Some(0xa6u8),
        (Mnemonic::Tay, AddressingMode::Implied) => Some(0xa8u8),
        (Mnemonic::Lda, AddressingMode::Immediate) => Some(0xa9u8),
        (Mnemonic::Tax, AddressingMode::Implied) => Some(0xaau8),
        (Mnemonic::Ldy, AddressingMode::Absolute) => Some(0xacu8),
        (Mnemonic::Lda, AddressingMode::Absolute) => Some(0xadu8),
        (Mnemonic::Ldx, AddressingMode::Absolute) => Some(0xaeu8),
        (Mnemonic::Bcs, AddressingMode::Relative) => Some(0xb0u8),
        (Mnemonic::Lda, AddressingMode::IndirectY) => Some(0xb1u8),
        (Mnemonic::Ldy, AddressingMode::ZeropageX) => Some(0xb4u8),
        (Mnemonic::Lda, AddressingMode::ZeropageX) => Some(0xb5u8),
        (Mnemonic::Ldx, AddressingMode::ZeropageY) => Some(0xb6u8),
        (Mnemonic::Clv, AddressingMode::Implied) => Some(0xb8u8),
        (Mnemonic::Lda, AddressingMode::AbsoluteY) => Some(0xb9u8),
        (Mnemonic::Tsx, AddressingMode::Implied) => Some(0xbau8),
        (Mnemonic::Ldy, AddressingMode::AbsoluteX) => Some(0xbcu8),
        (Mnemonic::Lda, AddressingMode::AbsoluteX) => Some(0xbdu8),
        (Mnemonic::Ldx, AddressingMode::AbsoluteY) => Some(0xbeu8),
        (Mnemonic::Cpy, AddressingMode::Immediate) => Some(0xc0u8),
        (Mnemonic::Cmp, AddressingMode::XIndirect) => Some(0xc1u8),
        (Mnemonic::Cpy, AddressingMode::Zeropage) => Some(0xc4u8),
        (Mnemonic::Cmp, AddressingMode::Zeropage) => Some(0xc5u8),
        (Mnemonic::Dec, AddressingMode::Zeropage) => Some(0xc6u8),
        (Mnemonic::Iny, AddressingMode::Implied) => Some(0xc8u8),
        (Mnemonic::Cmp, AddressingMode::Immediate) => Some(0xc9u8),
        (Mnemonic::Dex, AddressingMode::Implied) => Some(0xcau8),
        (Mnemonic::Cpy, AddressingMode::Absolute) => Some(0xccu8),
        (Mnemonic::Cmp, AddressingMode::Absolute) => Some(0xcdu8),
        (Mnemonic::Dec, AddressingMode::Absolute) => Some(0xceu8),
        (Mnemonic::Bne, AddressingMode::Relative) => Some(0xd0u8),
        (Mnemonic::Cmp, AddressingMode::IndirectY) => Some(0xd1u8),
        (Mnemonic::Cmp, AddressingMode::ZeropageX) => Some(0xd5u8),
        (Mnemonic::Dec, AddressingMode::ZeropageX) => Some(0xd6u8),
        (Mnemonic::Cld, AddressingMode::Implied) => Some(0xd8u8),
        (Mnemonic::Cmp, AddressingMode::AbsoluteY) => Some(0xd9u8),
        (Mnemonic::Cmp, AddressingMode::AbsoluteX) => Some(0xddu8),
        (Mnemonic::Dec, AddressingMode::AbsoluteX) => Some(0xdeu8),
        (Mnemonic::Cpx, AddressingMode::Immediate) => Some(0xe0u8),
        (Mnemonic::Sbc, AddressingMode::XIndirect) => Some(0xe1u8),
        (Mnemonic::Cpx, AddressingMode::Zeropage) => Some(0xe4u8),
        (Mnemonic::Sbc, AddressingMode::Zeropage) => Some(0xe5u8),
        (Mnemonic::Inc, AddressingMode::Zeropage) => Some(0xe6u8),
        (Mnemonic::Inx, AddressingMode::Implied) => Some(0xe8u8),
        (Mnemonic::Sbc, AddressingMode::Immediate) => Some(0xe9u8),
        (Mnemonic::Nop, AddressingMode::Implied) => Some(0xeau8),
        (Mnemonic::Cpx, AddressingMode::Absolute) => Some(0xecu8),
        (Mnemonic::Sbc, AddressingMode::Absolute) => Some(0xedu8),
        (Mnemonic::Inc, AddressingMode::Absolute) => Some(0xeeu8),
        (Mnemonic::Beq, AddressingMode::Relative) => Some(0xf0u8),
        (Mnemonic::Sbc, AddressingMode::IndirectY) => Some(0xf1u8),
        (Mnemonic::Sbc, AddressingMode::ZeropageX) => Some(0xf5u8),
        (Mnemonic::Inc, AddressingMode::ZeropageX) => Some(0xf6u8),
        (Mnemonic::Sed, AddressingMode::Implied) => Some(0xf8u8),
        (Mnemonic::Sbc, AddressingMode::AbsoluteY) => Some(0xf9u8),
        (Mnemonic::Sbc, AddressingMode::AbsoluteX) => Some(0xfdu8),
        (Mnemonic::Inc, AddressingMode::AbsoluteX) => Some(0xfeu8),
        _ => None,
    }
}

impl Operation {
    /// Looks an opcode up in the static 256-entry table. Official opcodes map
    /// to their operation; unofficial opcodes map to `Unimplemented` with
    /// zero operand length.
    pub fn from_opcode(opcode: u8) -> (r: Operation)
        ensures
            r == spec_from_opcode(opcode),
    {
        match opcode {
            0x00 => Operation { mnemonic: Mnemonic::Brk, addressing_mode: AddressingMode::Implied },
            0x01 => Operation { mnemonic: Mnemonic::Ora, addressing_mode: AddressingMode::XIndirect },
            0x05 => Operation { mnemonic: Mnemonic::Ora, addressing_mode: AddressingMode::Zeropage },
            0x06 => Operation { mnemonic: Mnemonic::Asl, addressing_mode: AddressingMode::Zeropage },
            0x08 => Operation { mnemonic: Mnemonic::Php, addressing_mode: AddressingMode::Implied },
            0x09 => Operation { mnemonic: Mnemonic::Ora, addressing_mode: AddressingMode::Immediate },
            0x0a => Operation { mnemonic: Mnemonic::Asl, addressing_mode: AddressingMode::Accumulator },
            0x0d => Operation { mnemonic: Mnemonic::Ora, addressing_mode: AddressingMode::Absolute },
            0x0e => Operation { mnemonic: Mnemonic::Asl, addressing_mode: AddressingMode::Absolute },
            0x10 => Operation { mnemonic: Mnemonic::Bpl, addressing_mode: AddressingMode::Relative },
            0x11 => Operation { mnemonic: Mnemonic::Ora, addressing_mode: AddressingMode::IndirectY },
            0x15 => Operation { mnemonic: Mnemonic::Ora, addressing_mode: AddressingMode::ZeropageX },
            0x16 => Operation { mnemonic: Mnemonic::Asl, addressing_mode: AddressingMode::ZeropageX },
            0x18 => Operation { mnemonic: Mnemonic::Clc, addressing_mode: AddressingMode::Implied },
            0x19 => Operation { mnemonic: Mnemonic::Ora, addressing_mode: AddressingMode::AbsoluteY },
            0x1d => Operation { mnemonic: Mnemonic::Ora, addressing_mode: AddressingMode::AbsoluteX },
            0x1e => Operation { mnemonic: Mnemonic::Asl, addressing_mode: AddressingMode::AbsoluteX },
            0x20 => Operation { mnemonic: Mnemonic::Jsr, addressing_mode: AddressingMode::Absolute },
            0x21 => Operation { mnemonic: Mnemonic::And, addressing_mode: AddressingMode::XIndirect },
            0x24 => Operation { mnemonic: Mnemonic::Bit, addressing_mode: AddressingMode::Zeropage },
            0x25 => Operation { mnemonic: Mnemonic::And, addressing_mode: AddressingMode::Zeropage },
            0x26 => Operation { mnemonic: Mnemonic::Rol, addressing_mode: AddressingMode::Zeropage },
            0x28 => Operation { mnemonic: Mnemonic::Plp, addressing_mode: AddressingMode::Implied },
            0x29 => Operation { mnemonic: Mnemonic::And, addressing_mode: AddressingMode::Immediate },
            0x2a => Operation { mnemonic: Mnemonic::Rol, addressing_mode: AddressingMode::Accumulator },
            0x2c => Operation { mnemonic: Mnemonic::Bit, addressing_mode: AddressingMode::Absolute },
            0x2d => Operation { mnemonic: Mnemonic::And, addressing_mode: AddressingMode::Absolute },
            0x2e => Operation { mnemonic: Mnemonic::Rol, addressing_mode: AddressingMode::Absolute },
            0x30 => Operation { mnemonic: Mnemonic::Bmi, addressing_mode: AddressingMode::Relative },
            0x31 => Operation { mnemonic: Mnemonic::And, addressing_mode: AddressingMode::IndirectY },
            0x35 => Operation { mnemonic: Mnemonic::And, addressing_mode: AddressingMode::ZeropageX },
            0x36 => Operation { mnemonic: Mnemonic::Rol, addressing_mode: AddressingMode::ZeropageX },
            0x38 => Operation { mnemonic: Mnemonic::Sec, addressing_mode: AddressingMode::Implied },
            0x39 => Operation { mnemonic: Mnemonic::And, addressing_mode: AddressingMode::AbsoluteY },
            0x3d => Operation { mnemonic: Mnemonic::And, addressing_mode: AddressingMode::AbsoluteX },
            0x3e => Operation { mnemonic: Mnemonic::Rol, addressing_mode: AddressingMode::AbsoluteX },
            0x40 => Operation { mnemonic: Mnemonic::Rti, addressing_mode: AddressingMode::Implied },
            0x41 => Operation { mnemonic: Mnemonic::Eor, addressing_mode: AddressingMode::XIndirect },
            0x45 => Operation { mnemonic: Mnemonic::Eor, addressing_mode: AddressingMode::Zeropage },
            0x46 => Operation { mnemonic: Mnemonic::Lsr, addressing_mode: AddressingMode::Zeropage },
            0x48 => Operation { mnemonic: Mnemonic::Pha, addressing_mode: AddressingMode::Implied },
            0x49 => Operation { mnemonic: Mnemonic::Eor, addressing_mode: AddressingMode::Immediate },
            0x4a => Operation { mnemonic: Mnemonic::Lsr, addressing_mode: AddressingMode::Accumulator },
            0x4c => Operation { mnemonic: Mnemonic::Jmp, addressing_mode: AddressingMode::Absolute },
            0x4d => Operation { mnemonic: Mnemonic::Eor, addressing_mode: AddressingMode::Absolute },
            0x4e => Operation { mnemonic: Mnemonic::Lsr, addressing_mode: AddressingMode::Absolute },
            0x50 => Operation { mnemonic: Mnemonic::Bvc, addressing_mode: AddressingMode::Relative },
            0x51 => Operation { mnemonic: Mnemonic::Eor, addressing_mode: AddressingMode::IndirectY },
            0x55 => Operation { mnemonic: Mnemonic::Eor, addressing_mode: AddressingMode::ZeropageX },
            0x56 => Operation { mnemonic: Mnemonic::Lsr, addressing_mode: AddressingMode::ZeropageX },
            0x58 => Operation { mnemonic: Mnemonic::Cli, addressing_mode: AddressingMode::Implied },
            0x59 => Operation { mnemonic: Mnemonic::Eor, addressing_mode: AddressingMode::AbsoluteY },
            0x5d => Operation { mnemonic: Mnemonic::Eor, addressing_mode: AddressingMode::AbsoluteX },
            0x5e => Operation { mnemonic: Mnemonic::Lsr, addressing_mode: AddressingMode::AbsoluteX },
            0x60 => Operation { mnemonic: Mnemonic::Rts, addressing_mode: AddressingMode::Implied },
            0x61 => Operation { mnemonic: Mnemonic::Adc, addressing_mode: AddressingMode::XIndirect },
            0x65 => Operation { mnemonic: Mnemonic::Adc, addressing_mode: AddressingMode::Zeropage },
            0x66 => Operation { mnemonic: Mnemonic::Ror, addressing_mode: AddressingMode::Zeropage },
            0x68 => Operation { mnemonic: Mnemonic::Pla, addressing_mode: AddressingMode::Implied },
            0x69 => Operation { mnemonic: Mnemonic::Adc, addressing_mode: AddressingMode::Immediate },
            0x6a => Operation { mnemonic: Mnemonic::Ror, addressing_mode: AddressingMode::Accumulator },
            0x6c => Operation { mnemonic: Mnemonic::Jmp, addressing_mode: AddressingMode::Indirect },
            0x6d => Operation { mnemonic: Mnemonic::Adc, addressing_mode: AddressingMode::Absolute },
            0x6e => Operation { mnemonic: Mnemonic::Ror, addressing_mode: AddressingMode::Absolute },
            0x70 => Operation { mnemonic: Mnemonic::Bvs, addressing_mode: AddressingMode::Relative },
            0x71 => Operation { mnemonic: Mnemonic::Adc, addressing_mode: AddressingMode::IndirectY },
            0x75 => Operation { mnemonic: Mnemonic::Adc, addressing_mode: AddressingMode::ZeropageX },
            0x76 => Operation { mnemonic: Mnemonic::Ror, addressing_mode: AddressingMode::ZeropageX },
            0x78 => Operation { mnemonic: Mnemonic::Sei, addressing_mode: AddressingMode::Implied },
            0x79 => Operation { mnemonic: Mnemonic::Adc, addressing_mode: AddressingMode::AbsoluteY },
            0x7d => Operation { mnemonic: Mnemonic::Adc, addressing_mode: AddressingMode::AbsoluteX },
            0x7e => Operation { mnemonic: Mnemonic::Ror, addressing_mode: AddressingMode::AbsoluteX },
            0x81 => Operation { mnemonic: Mnemonic::Sta, addressing_mode: AddressingMode::XIndirect },
            0x84 => Operation { mnemonic: Mnemonic::Sty, addressing_mode: AddressingMode::Zeropage },
            0x85 => Operation { mnemonic: Mnemonic::Sta, addressing_mode: AddressingMode::Zeropage },
            0x86 => Operation { mnemonic: Mnemonic::Stx, addressing_mode: AddressingMode::Zeropage },
            0x88 => Operation { mnemonic: Mnemonic::Dey, addressing_mode: AddressingMode::Implied },
            0x8a => Operation { mnemonic: Mnemonic::Txa, addressing_mode: AddressingMode::Implied },
            0x8c => Operation { mnemonic: Mnemonic::Sty, addressing_mode: AddressingMode::Absolute },
            0x8d => Operation { mnemonic: Mnemonic::Sta, addressing_mode: AddressingMode::Absolute },
            0x8e => Operation { mnemonic: Mnemonic::Stx, addressing_mode: AddressingMode::Absolute },
            0x90 => Operation { mnemonic: Mnemonic::Bcc, addressing_mode: AddressingMode::Relative },
            0x91 => Operation { mnemonic: Mnemonic::Sta, addressing_mode: AddressingMode::IndirectY },
            0x94 => Operation { mnemonic: Mnemonic::Sty, addressing_mode: AddressingMode::ZeropageX },
            0x95 => Operation { mnemonic: Mnemonic::Sta, addressing_mode: AddressingMode::ZeropageX },
            0x96 => Operation { mnemonic: Mnemonic::Stx, addressing_mode: AddressingMode::ZeropageY },
            0x98 => Operation { mnemonic: Mnemonic::Tya, addressing_mode: AddressingMode::Implied },
            0x99 => Operation { mnemonic: Mnemonic::Sta, addressing_mode: AddressingMode::AbsoluteY },
            0x9a => Operation { mnemonic: Mnemonic::Txs, addressing_mode: AddressingMode::Implied },
            0x9d => Operation { mnemonic: Mnemonic::Sta, addressing_mode: AddressingMode::AbsoluteX },
            0xa0 => Operation { mnemonic: Mnemonic::Ldy, addressing_mode: AddressingMode::Immediate },
            0xa1 => Operation { mnemonic: Mnemonic::Lda, addressing_mode: AddressingMode::XIndirect },
            0xa2 => Operation { mnemonic: Mnemonic::Ldx, addressing_mode: AddressingMode::Immediate },
            0xa4 => Operation { mnemonic: Mnemonic::Ldy, addressing_mode: AddressingMode::Zeropage },
            0xa5 => Operation { mnemonic: Mnemonic::Lda, addressing_mode: AddressingMode::Zeropage },
            0xa6 => Operation { mnemonic: Mnemonic::Ldx, addressing_mode: AddressingMode::Zeropage },
            0xa8 => Operation { mnemonic: Mnemonic::Tay, addressing_mode: AddressingMode::Implied },
            0xa9 => Operation { mnemonic: Mnemonic::Lda, addressing_mode: AddressingMode::Immediate },
            0xaa => Operation { mnemonic: Mnemonic::Tax, addressing_mode: AddressingMode::Implied },
            0xac => Operation { mnemonic: Mnemonic::Ldy, addressing_mode: AddressingMode::Absolute },
            0xad => Operation { mnemonic: Mnemonic::Lda, addressing_mode: AddressingMode::Absolute },
            0xae => Operation { mnemonic: Mnemonic::Ldx, addressing_mode: AddressingMode::Absolute },
            0xb0 => Operation { mnemonic: Mnemonic::Bcs, addressing_mode: AddressingMode::Relative },
            0xb1 => Operation { mnemonic: Mnemonic::Lda, addressing_mode: AddressingMode::IndirectY },
            0xb4 => Operation { mnemonic: Mnemonic::Ldy, addressing_mode: AddressingMode::ZeropageX },
            0xb5 => Operation { mnemonic: Mnemonic::Lda, addressing_mode: AddressingMode::ZeropageX },
            0xb6 => Operation { mnemonic: Mnemonic::Ldx, addressing_mode: AddressingMode::ZeropageY },
            0xb8 => Operation { mnemonic: Mnemonic::Clv, addressing_mode: AddressingMode::Implied },
            0xb9 => Operation { mnemonic: Mnemonic::Lda, addressing_mode: AddressingMode::AbsoluteY },
            0xba => Operation { mnemonic: Mnemonic::Tsx, addressing_mode: AddressingMode::Implied },
            0xbc => Operation { mnemonic: Mnemonic::Ldy, addressing_mode: AddressingMode::AbsoluteX },
            0xbd => Operation { mnemonic: Mnemonic::Lda, addressing_mode: AddressingMode::AbsoluteX },
            0xbe => Operation { mnemonic: Mnemonic::Ldx, addressing_mode: AddressingMode::AbsoluteY },
            0xc0 => Operation { mnemonic: Mnemonic::Cpy, addressing_mode: AddressingMode::Immediate },
            0xc1 => Operation { mnemonic: Mnemonic::Cmp, addressing_mode: AddressingMode::XIndirect },
            0xc4 => Operation { mnemonic: Mnemonic::Cpy, addressing_mode: AddressingMode::Zeropage },
            0xc5 => Operation { mnemonic: Mnemonic::Cmp, addressing_mode: AddressingMode::Zeropage },
            0xc6 => Operation { mnemonic: Mnemonic::Dec, addressing_mode: AddressingMode::Zeropage },
            0xc8 => Operation { mnemonic: Mnemonic::Iny, addressing_mode: AddressingMode::Implied },
            0xc9 => Operation { mnemonic: Mnemonic::Cmp, addressing_mode: AddressingMode::Immediate },
            0xca => Operation { mnemonic: Mnemonic::Dex, addressing_mode: AddressingMode::Implied },
            0xcc => Operation { mnemonic: Mnemonic::Cpy, addressing_mode: AddressingMode::Absolute },
            0xcd => Operation { mnemonic: Mnemonic::Cmp, addressing_mode: AddressingMode::Absolute },
            0xce => Operation { mnemonic: Mnemonic::Dec, addressing_mode: AddressingMode::Absolute },
            0xd0 => Operation { mnemonic: Mnemonic::Bne, addressing_mode: AddressingMode::Relative },
            0xd1 => Operation { mnemonic: Mnemonic::Cmp, addressing_mode: AddressingMode::IndirectY },
            0xd5 => Operation { mnemonic: Mnemonic::Cmp, addressing_mode: AddressingMode::ZeropageX },
            0xd6 => Operation { mnemonic: Mnemonic::Dec, addressing_mode: AddressingMode::ZeropageX },
            0xd8 => Operation { mnemonic: Mnemonic::Cld, addressing_mode: AddressingMode::Implied },
            0xd9 => Operation { mnemonic: Mnemonic::Cmp, addressing_mode: AddressingMode::AbsoluteY },
            0xdd => Operation { mnemonic: Mnemonic::Cmp, addressing_mode: AddressingMode::AbsoluteX },
            0xde => Operation { mnemonic: Mnemonic::Dec, addressing_mode: AddressingMode::AbsoluteX },
            0xe0 => Operation { mnemonic: Mnemonic::Cpx, addressing_mode: AddressingMode::Immediate },
            0xe1 => Operation { mnemonic: Mnemonic::Sbc, addressing_mode: AddressingMode::XIndirect },
            0xe4 => Operation { mnemonic: Mnemonic::Cpx, addressing_mode: AddressingMode::Zeropage },
            0xe5 => Operation { mnemonic: Mnemonic::Sbc, addressing_mode: AddressingMode::Zeropage },
            0xe6 => Operation { mnemonic: Mnemonic::Inc, addressing_mode: AddressingMode::Zeropage },
            0xe8 => Operation { mnemonic: Mnemonic::Inx, addressing_mode: AddressingMode::Implied },
            0xe9 => Operation { mnemonic: Mnemonic::Sbc, addressing_mode: AddressingMode::Immediate },
            0xea => Operation { mnemonic: Mnemonic::Nop, addressing_mode: AddressingMode::Implied },
            0xec => Operation { mnemonic: Mnemonic::Cpx, addressing_mode: AddressingMode::Absolute },
            0xed => Operation { mnemonic: Mnemonic::Sbc, addressing_mode: AddressingMode::Absolute },
            0xee => Operation { mnemonic: Mnemonic::Inc, addressing_mode: AddressingMode::Absolute },
            0xf0 => Operation { mnemonic: Mnemonic::Beq, addressing_mode: AddressingMode::Relative },
            0xf1 => Operation { mnemonic: Mnemonic::Sbc, addressing_mode: AddressingMode::IndirectY },
            0xf5 => Operation { mnemonic: Mnemonic::Sbc, addressing_mode: AddressingMode::ZeropageX },
            0xf6 => Operation { mnemonic: Mnemonic::Inc, addressing_mode: AddressingMode::ZeropageX },
            0xf8 => Operation { mnemonic: Mnemonic::Sed, addressing_mode: AddressingMode::Implied },
            0xf9 => Operation { mnemonic: Mnemonic::Sbc, addressing_mode: AddressingMode::AbsoluteY },
            0xfd => Operation { mnemonic: Mnemonic::Sbc, addressing_mode: AddressingMode::AbsoluteX },
            0xfe => Operation { mnemonic: Mnemonic::Inc, addressing_mode: AddressingMode::AbsoluteX },
            _ => Operation {
                mnemonic: Mnemonic::Unimplemented,
                addressing_mode: AddressingMode::Implied,
            },
        }
    }

    /// The opcode byte that encodes this operation, if any: the inverse of
    /// `from_opcode` on the official part of the table.
    pub fn opcode(self) -> (r: Option<u8>)
        ensures
            r == spec_opcode_for(self.mnemonic, self.addressing_mode),
    {
        match (self.mnemonic, self.addressing_mode) {
            (Mnemonic::Brk, AddressingMode::Implied) => Some(0x00),
            (Mnemonic::Ora, AddressingMode::XIndirect) => Some(0x01),
            (Mnemonic::Ora, AddressingMode::Zeropage) => Some(0x05),
            (Mnemonic::Asl, AddressingMode::Zeropage) => Some(0x06),
            (Mnemonic::Php, AddressingMode::Implied) => Some(0x08),
            (Mnemonic::Ora, AddressingMode::Immediate) => Some(0x09),
            (Mnemonic::Asl, AddressingMode::Accumulator) => Some(0x0a),
            (Mnemonic::Ora, AddressingMode::Absolute) => Some(0x0d),
            (Mnemonic::Asl, AddressingMode::Absolute) => Some(0x0e),
            (Mnemonic::Bpl, AddressingMode::Relative) => Some(0x10),
            (Mnemonic::Ora, AddressingMode::IndirectY) => Some(0x11),
            (Mnemonic::Ora, AddressingMode::ZeropageX) => Some(0x15),
            (Mnemonic::Asl, AddressingMode::ZeropageX) => Some(0x16),
            (Mnemonic::Clc, AddressingMode::Implied) => Some(0x18),
            (Mnemonic::Ora, AddressingMode::AbsoluteY) => Some(0x19),
            (Mnemonic::Ora, AddressingMode::AbsoluteX) => Some(0x1d),
            (Mnemonic::Asl, AddressingMode::AbsoluteX) => Some(0x1e),
            (Mnemonic::Jsr, AddressingMode::Absolute) => Some(0x20),
            (Mnemonic::And, AddressingMode::XIndirect) => Some(0x21),
            (Mnemonic::Bit, AddressingMode::Zeropage) => Some(0x24),
            (Mnemonic::And, AddressingMode::Zeropage) => Some(0x25),
            (Mnemonic::Rol, AddressingMode::Zeropage) => Some(0x26),
            (Mnemonic::Plp, AddressingMode::Implied) => Some(0x28),
            (Mnemonic::And, AddressingMode::Immediate) => Some(0x29),
            (Mnemonic::Rol, AddressingMode::Accumulator) => Some(0x2a),
            (Mnemonic::Bit, AddressingMode::Absolute) => Some(0x2c),
            (Mnemonic::And, AddressingMode::Absolute) => Some(0x2d),
            (Mnemonic::Rol, AddressingMode::Absolute) => Some(0x2e),
            (Mnemonic::Bmi, AddressingMode::Relative) => Some(0x30),
            (Mnemonic::And, AddressingMode::IndirectY) => Some(0x31),
            (Mnemonic::And, AddressingMode::ZeropageX) => Some(0x35),
            (Mnemonic::Rol, AddressingMode::ZeropageX) => Some(0x36),
            (Mnemonic::Sec, AddressingMode::Implied) => Some(0x38),
            (Mnemonic::And, AddressingMode::AbsoluteY) => Some(0x39),
            (Mnemonic::And, AddressingMode::AbsoluteX) => Some(0x3d),
            (Mnemonic::Rol, AddressingMode::AbsoluteX) => Some(0x3e),
            (Mnemonic::Rti, AddressingMode::Implied) => Some(0x40),
            (Mnemonic::Eor, AddressingMode::XIndirect) => Some(0x41),
            (Mnemonic::Eor, AddressingMode::Zeropage) => Some(0x45),
            (Mnemonic::Lsr, AddressingMode::Zeropage) => Some(0x46),
            (Mnemonic::Pha, AddressingMode::Implied) => Some(0x48),
            (Mnemonic::Eor, AddressingMode::Immediate) => Some(0x49),
            (Mnemonic::Lsr, AddressingMode::Accumulator) => Some(0x4a),
            (Mnemonic::Jmp, AddressingMode::Absolute) => Some(0x4c),
            (Mnemonic::Eor, AddressingMode::Absolute) => Some(0x4d),
            (Mnemonic::Lsr, AddressingMode::Absolute) => Some(0x4e),
            (Mnemonic::Bvc, AddressingMode::Relative) => Some(0x50),
            (Mnemonic::Eor, AddressingMode::IndirectY) => Some(0x51),
            (Mnemonic::Eor, AddressingMode::ZeropageX) => Some(0x55),
            (Mnemonic::Lsr, AddressingMode::ZeropageX) => Some(0x56),
            (Mnemonic::Cli, AddressingMode::Implied) => Some(0x58),
            (Mnemonic::Eor, AddressingMode::AbsoluteY) => Some(0x59),
            (Mnemonic::Eor, AddressingMode::AbsoluteX) => Some(0x5d),
            (Mnemonic::Lsr, AddressingMode::AbsoluteX) => Some(0x5e),
            (Mnemonic::Rts, AddressingMode::Implied) => Some(0x60),
            (Mnemonic::Adc, AddressingMode::XIndirect) => Some(0x61),
            (Mnemonic::Adc, AddressingMode::Zeropage) => Some(0x65),
            (Mnemonic::Ror, AddressingMode::Zeropage) => Some(0x66),
            (Mnemonic::Pla, AddressingMode::Implied) => Some(0x68),
            (Mnemonic::Adc, AddressingMode::Immediate) => Some(0x69),
            (Mnemonic::Ror, AddressingMode::Accumulator) => Some(0x6a),
            (Mnemonic::Jmp, AddressingMode::Indirect) => Some(0x6c),
            (Mnemonic::Adc, AddressingMode::Absolute) => Some(0x6d),
            (Mnemonic::Ror, AddressingMode::Absolute) => Some(0x6e),
            (Mnemonic::Bvs, AddressingMode::Relative) => Some(0x70),
            (Mnemonic::Adc, AddressingMode::IndirectY) => Some(0x71),
            (Mnemonic::Adc, AddressingMode::ZeropageX) => Some(0x75),
            (Mnemonic::Ror, AddressingMode::ZeropageX) => Some(0x76),
            (Mnemonic::Sei, AddressingMode::Implied) => Some(0x78),
            (Mnemonic::Adc, AddressingMode::AbsoluteY) => Some(0x79),
            (Mnemonic::Adc, AddressingMode::AbsoluteX) => Some(0x7d),
            (Mnemonic::Ror, AddressingMode::AbsoluteX) => Some(0x7e),
            (Mnemonic::Sta, AddressingMode::XIndirect) => Some(0x81),
            (Mnemonic::Sty, AddressingMode::Zeropage) => Some(0x84),
            (Mnemonic::Sta, AddressingMode::Zeropage) => Some(0x85),
            (Mnemonic::Stx, AddressingMode::Zeropage) => Some(0x86),
            (Mnemonic::Dey, AddressingMode::Implied) => Some(0x88),
            (Mnemonic::Txa, AddressingMode::Implied) => Some(0x8a),
            (Mnemonic::Sty, AddressingMode::Absolute) => Some(0x8c),
            (Mnemonic::Sta, AddressingMode::Absolute) => Some(0x8d),
            (Mnemonic::Stx, AddressingMode::Absolute) => Some(0x8e),
            (Mnemonic::Bcc, AddressingMode::Relative) => Some(0x90),
            (Mnemonic::Sta, AddressingMode::IndirectY) => Some(0x91),
            (Mnemonic::Sty, AddressingMode::ZeropageX) => Some(0x94),
            (Mnemonic::Sta, AddressingMode::ZeropageX) => Some(0x95),
            (Mnemonic::Stx, AddressingMode::ZeropageY) => Some(0x96),
            (Mnemonic::Tya, AddressingMode::Implied) => Some(0x98),
            (Mnemonic::Sta, AddressingMode::AbsoluteY) => Some(0x99),
            (Mnemonic::Txs, AddressingMode::Implied) => Some(0x9a),
            (Mnemonic::Sta, AddressingMode::AbsoluteX) => Some(0x9d),
            (Mnemonic::Ldy, AddressingMode::Immediate) => Some(0xa0),
            (Mnemonic::Lda, AddressingMode::XIndirect) => Some(0xa1),
            (Mnemonic::Ldx, AddressingMode::Immediate) => Some(0xa2),
            (Mnemonic::Ldy, AddressingMode::Zeropage) => Some(0xa4),
            (Mnemonic::Lda, AddressingMode::Zeropage) => Some(0xa5),
            (Mnemonic::Ldx, AddressingMode::Zeropage) => Some(0xa6),
            (Mnemonic::Tay, AddressingMode::Implied) => Some(0xa8),
            (Mnemonic::Lda, AddressingMode::Immediate) => Some(0xa9),
            (Mnemonic::Tax, AddressingMode::Implied) => Some(0xaa),
            (Mnemonic::Ldy, AddressingMode::Absolute) => Some(0xac),
            (Mnemonic::Lda, AddressingMode::Absolute) => Some(0xad),
            (Mnemonic::Ldx, AddressingMode::Absolute) => Some(0xae),
            (Mnemonic::Bcs, AddressingMode::Relative) => Some(0xb0),
            (Mnemonic::Lda, AddressingMode::IndirectY) => Some(0xb1),
            (Mnemonic::Ldy, AddressingMode::ZeropageX) => Some(0xb4),
            (Mnemonic::Lda, AddressingMode::ZeropageX) => Some(0xb5),
            (Mnemonic::Ldx, AddressingMode::ZeropageY) => Some(0xb6),
            (Mnemonic::Clv, AddressingMode::Implied) => Some(0xb8),
            (Mnemonic::Lda, AddressingMode::AbsoluteY) => Some(0xb9),
            (Mnemonic::Tsx, AddressingMode::Implied) => Some(0xba),
            (Mnemonic::Ldy, AddressingMode::AbsoluteX) => Some(0xbc),
            (Mnemonic::Lda, AddressingMode::AbsoluteX) => Some(0xbd),
            (Mnemonic::Ldx, AddressingMode::AbsoluteY) => Some(0xbe),
            (Mnemonic::Cpy, AddressingMode::Immediate) => Some(0xc0),
            (Mnemonic::Cmp, AddressingMode::XIndirect) => Some(0xc1),
            (Mnemonic::Cpy, AddressingMode::Zeropage) => Some(0xc4),
            (Mnemonic::Cmp, AddressingMode::Zeropage) => Some(0xc5),
            (Mnemonic::Dec, AddressingMode::Zeropage) => Some(0xc6),
            (Mnemonic::Iny, AddressingMode::Implied) => Some(0xc8),
            (Mnemonic::Cmp, AddressingMode::Immediate) => Some(0xc9),
            (Mnemonic::Dex, AddressingMode::Implied) => Some(0xca),
            (Mnemonic::Cpy, AddressingMode::Absolute) => Some(0xcc),
            (Mnemonic::Cmp, AddressingMode::Absolute) => Some(0xcd),
            (Mnemonic::Dec, AddressingMode::Absolute) => Some(0xce),
            (Mnemonic::Bne, AddressingMode::Relative) => Some(0xd0),
            (Mnemonic::Cmp, AddressingMode::IndirectY) => Some(0xd1),
            (Mnemonic::Cmp, AddressingMode::ZeropageX) => Some(0xd5),
            (Mnemonic::Dec, AddressingMode::ZeropageX) => Some(0xd6),
            (Mnemonic::Cld, AddressingMode::Implied) => Some(0xd8),
            (Mnemonic::Cmp, AddressingMode::AbsoluteY) => Some(0xd9),
            (Mnemonic::Cmp, AddressingMode::AbsoluteX) => Some(0xdd),
            (Mnemonic::Dec, AddressingMode::AbsoluteX) => Some(0xde),
            (Mnemonic::Cpx, AddressingMode::Immediate) => Some(0xe0),
            (Mnemonic::Sbc, AddressingMode::XIndirect) => Some(0xe1),
            (Mnemonic::Cpx, AddressingMode::Zeropage) => Some(0xe4),
            (Mnemonic::Sbc, AddressingMode::Zeropage) => Some(0xe5),
            (Mnemonic::Inc, AddressingMode::Zeropage) => Some(0xe6),
            (Mnemonic::Inx, AddressingMode::Implied) => Some(0xe8),
            (Mnemonic::Sbc, AddressingMode::Immediate) => Some(0xe9),
            (Mnemonic::Nop, AddressingMode::Implied) => Some(0xea),
            (Mnemonic::Cpx, AddressingMode::Absolute) => Some(0xec),
            (Mnemonic::Sbc, AddressingMode::Absolute) => Some(0xed),
            (Mnemonic::Inc, AddressingMode::Absolute) => Some(0xee),
            (Mnemonic::Beq, AddressingMode::Relative) => Some(0xf0),
            (Mnemonic::Sbc, AddressingMode::IndirectY) => Some(0xf1),
            (Mnemonic::Sbc, AddressingMode::ZeropageX) => Some(0xf5),
            (Mnemonic::Inc, AddressingMode::ZeropageX) => Some(0xf6),
            (Mnemonic::Sed, AddressingMode::Implied) => Some(0xf8),
            (Mnemonic::Sbc, AddressingMode::AbsoluteY) => Some(0xf9),
            (Mnemonic::Sbc, AddressingMode::AbsoluteX) => Some(0xfd),
            (Mnemonic::Inc, AddressingMode::AbsoluteX) => Some(0xfe),
            _ => None,
        }
    }

    pub fn mnemonic(self) -> (r: Mnemonic)
        ensures
            r == self.mnemonic,
    {
        self.mnemonic
    }

    pub fn addressing_mode(self) -> (r: AddressingMode)
        ensures
            r == self.addressing_mode,
    {
        self.addressing_mode
    }

    pub open spec fn spec_op_len(self) -> u8 {
        (1 + self.addressing_mode.spec_len()) as u8
    }

    /// Total instruction length in bytes: the opcode byte plus the operand.
    pub fn len(self) -> (r: u8)
        ensures
            r == self.spec_op_len(),
            1 <= r <= 3,
    {
        1 + self.addressing_mode.len()
    }
}

/// One decoded 6502 instruction: where it starts, what it does, and its
/// operand, zero-extended to 16 bits when narrower.
#[derive(Clone, Copy, Debug, PartialEq, Eq, Structural)]
pub struct Instruction {
    pub address: u16,
    pub operation: Operation,
    pub operand: u16,
}

/// Whether an operand value fits the operand length of an operation: a
/// zero-length operand is zero, a one-byte operand is below 0x100.
pub open spec fn operand_fits(operation: Operation, operand: u16) -> bool {
    match operation.addressing_mode.spec_len() {
        0u8 => operand == 0,
        1u8 => operand < 0x100,
        _ => true,
    }
}

impl Instruction {
    pub fn new(address: u16, operation: Operation, operand: u16) -> (r: Instruction)
        ensures
            r == (Instruction { address, operation, operand }),
    {
        Instruction { address, operation, operand }
    }

    /// The guest address of the first byte after this instruction, wrapping
    /// around the 16-bit address space.
    pub open spec fn spec_address_end(self) -> u16 {
        crate::wrap_add16_spec(self.address, self.operation.spec_op_len() as u16)
    }

    pub fn address_end(self) -> (r: u16)
        ensures
            r == self.spec_address_end(),
    {
        crate::wrap_add16(self.address, self.operation.len() as u16)
    }

    pub fn operation(self) -> (r: Operation)
        ensures
            r == self.operation,
    {
        self.operation
    }

    /// The low byte of the operand.
    pub fn operand_u8(self) -> (r: u8)
        ensures
            r == self.operand % 0x100,
    {
        (self.operand % 0x100) as u8
    }

    /// The low byte of the operand read as a signed displacement.
    pub fn operand_i8(self) -> (r: i8)
        ensures
            r == (if self.operand % 0x100 < 0x80 {
                (self.operand % 0x100) as int
            } else {
                (self.operand % 0x100) - 0x100
            }),
    {
        let b = self.operand_u8();
        if b < 0x80 {
            b as i8
        } else {
            ((b as i16) - 0x100) as i8
        }
    }

    pub fn operand_u16(self) -> (r: u16)
        ensures
            r == self.operand,
    {
        self.operand
    }

    /// The target of a relative branch: the end of this instruction plus the
    /// sign-extended operand byte, modulo 2^16.
    pub open spec fn spec_branch_target(self) -> u16 {
        if self.operand % 0x100 < 0x80 {
            crate::wrap_add16_spec(self.spec_address_end(), (self.operand % 0x100) as u16)
        } else {
            crate::wrap_add16_spec(
                self.spec_address_end(),
                ((self.operand % 0x100) + 0xff00) as u16,
            )
        }
    }

    pub fn branch_target(self) -> (r: u16)
        ensures
            r == self.spec_branch_target(),
    {
        let b = self.operand_u8();
        if b < 0x80 {
            crate::wrap_add16(self.address_end(), b as u16)
        } else {
            crate::wrap_add16(self.address_end(), (b as u16) + 0xff00)
        }
    }
}

/// Decoding three candidate bytes at an address: the first byte selects the
/// operation, and the operand is assembled in little-endian order from as
/// many of the following bytes as the addressing mode asks for.
pub open spec fn spec_decode_op(b0: u8, b1: u8, b2: u8, address: u16) -> Instruction {
    let operation = spec_from_opcode(b0);
    let operand: u16 = if operation.addressing_mode.spec_len() == 0 {
        0u16
    } else if operation.addressing_mode.spec_len() == 1 {
        b1 as u16
    } else {
        (b1 + b2 * 0x100) as u16
    };
    Instruction { address, operation, operand }
}

/// Round trip: the bytes that encode an instruction decode back to the same
/// instruction, for every operation the opcode table can encode and every
/// operand that fits its addressing mode.
pub proof fn lemma_encode_decode_roundtrip(
    mnemonic: Mnemonic,
    addressing_mode: AddressingMode,
    operand: u16,
    address: u16,
)
    requires
        spec_opcode_for(mnemonic, addressing_mode) is Some,
        operand_fits(Operation { mnemonic, addressing_mode }, operand),
    ensures
        spec_decode_op(
            spec_opcode_for(mnemonic, addressing_mode)->Some_0,
            (operand % 0x100) as u8,
            (operand / 0x100) as u8,
            address,
        ) == (Instruction {
            address,
            operation: Operation { mnemonic, addressing_mode },
            operand,
        }),
{
}

} // verus!
