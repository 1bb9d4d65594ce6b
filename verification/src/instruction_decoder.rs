//! The instruction decoder: parses 6502 bytes at a guest address into one
//! structured instruction, and reports whether every fetched byte came from
//! the immutable PRG-ROM window.

use crate::nes::{Nes, NesV, spec_peek};
use crate::nes_assembly::{Instruction, Mnemonic, Operation, spec_decode_op, spec_from_opcode};
use vstd::prelude::*;

verus! {

/// Whether a guest address lies in the PRG-ROM window 0x8000-0xffff.
pub open spec fn in_prg_rom(address: u16) -> bool {
    0x8000 <= address
}

/// Whether the bus yields a byte at this address outside compiled code; the
/// 0x2000-0x5fff window holds no decodable bytes.
pub open spec fn peekable(address: u16) -> bool {
    !(0x2000 <= address < 0x6000)
}

/// The addresses a decoder run at `address` fetches, in fetch order: the
/// opcode byte, then one address per operand byte, wrapping around the
/// 16-bit address space.
pub open spec fn spec_decode_fetched(v: NesV, address: u16) -> Seq<u16> {
    let len = spec_from_opcode(spec_peek(v, address)).spec_op_len();
    Seq::new(len as nat, |k: int| crate::wrap_add16_spec(address, k as u16))
}

/// The instruction a decoder run at `address` produces: the opcode byte
/// selects the operation, and the operand bytes follow in little-endian
/// order.
pub open spec fn spec_decode(v: NesV, address: u16) -> Instruction {
    spec_decode_op(
        spec_peek(v, address),
        spec_peek(v, crate::wrap_add16_spec(address, 1)),
        spec_peek(v, crate::wrap_add16_spec(address, 2)),
        address,
    )
}

/// Whether every byte of the instruction at `address` comes from PRG-ROM.
pub open spec fn spec_prg_rom_only(v: NesV, address: u16) -> bool {
    forall|k: int|
        0 <= k < spec_decode_fetched(v, address).len() ==> in_prg_rom(
            #[trigger] spec_decode_fetched(v, address)[k],
        )
}

/// Whether every address a decoder run at `address` fetches is one the bus
/// can yield outside compiled code.
pub open spec fn decode_fetch_ok(v: NesV, address: u16) -> bool {
    forall|k: int|
        0 <= k < spec_decode_fetched(v, address).len() ==> peekable(
            #[trigger] spec_decode_fetched(v, address)[k],
        )
}

/// Decodes one instruction starting at `address`: fetches the opcode byte,
/// looks it up in the static table, then fetches exactly as many operand
/// bytes as the addressing mode asks for. The boolean is the conjunction
/// over all fetched addresses of "lies in the PRG-ROM window".
pub fn decode_instruction(nes: &Nes, address: u16) -> (r: (Instruction, bool))
    requires
        nes@.wf(),
        decode_fetch_ok(nes@, address),
    ensures
        r.0 == spec_decode(nes@, address),
        r.1 == spec_prg_rom_only(nes@, address),
{
    let ghost fetched = spec_decode_fetched(nes@, address);
    proof {
        assert(fetched[0] == crate::wrap_add16_spec(address, 0u16));
        assert(crate::wrap_add16_spec(address, 0u16) == address);
    }
    let opcode = nes.peek(address);
    let operation = Operation::from_opcode(opcode);
    let len = operation.addressing_mode().len();
    let address_1 = crate::wrap_add16(address, 1);
    let address_2 = crate::wrap_add16(address, 2);
    proof {
        assert(fetched.len() == 1 + operation.addressing_mode.spec_len());
        if fetched.len() > 1 {
            assert(fetched[1] == address_1);
        }
        if fetched.len() > 2 {
            assert(fetched[2] == address_2);
        }
    }
    let operand: u16 = if len == 0 {
        0
    } else if len == 1 {
        nes.peek(address_1) as u16
    } else {
        (nes.peek(address_1) as u16) + (nes.peek(address_2) as u16) * 0x100
    };
    let is_prg_rom_only: bool = if len == 0 {
        address >= 0x8000
    } else if len == 1 {
        address >= 0x8000 && address_1 >= 0x8000
    } else {
        address >= 0x8000 && address_1 >= 0x8000 && address_2 >= 0x8000
    };
    proof {
        if is_prg_rom_only {
            assert forall|k: int| 0 <= k < fetched.len() implies in_prg_rom(
                #[trigger] fetched[k],
            ) by {
                if k == 0 {
                } else if k == 1 {
                } else {
                    assert(k == 2);
                }
            }
        } else {
            if len == 0 {
                assert(!in_prg_rom(fetched[0]));
            } else if len == 1 {
                assert(!in_prg_rom(fetched[0]) || !in_prg_rom(fetched[1]));
            } else {
                assert(!in_prg_rom(fetched[0]) || !in_prg_rom(fetched[1]) || !in_prg_rom(
                    fetched[2],
                ));
            }
        }
    }
    (Instruction::new(address, operation, operand), is_prg_rom_only)
}

/// Law: for every opcode, the decoded operation's addressing mode has an
/// operand length of 0, 1 or 2; an unofficial opcode decodes to
/// `Unimplemented` with operand length 0.
pub proof fn lemma_decode_operand_length(opcode: u8)
    ensures
        0 <= spec_from_opcode(opcode).addressing_mode.spec_len() <= 2,
        spec_from_opcode(opcode).mnemonic == Mnemonic::Unimplemented ==> spec_from_opcode(
            opcode,
        ).addressing_mode.spec_len() == 0,
{
}

/// Whether a decoder run fetched PRG-ROM bytes only depends on the program
/// bytes alone, for a program counter inside the PRG-ROM window: no write a
/// fragment can perform changes it.
pub proof fn lemma_prg_only_depends_on_rom(v1: NesV, v2: NesV, address: u16)
    requires
        v1.prg_rom == v2.prg_rom,
        0x8000 <= address,
    ensures
        spec_prg_rom_only(v1, address) == spec_prg_rom_only(v2, address),
{
    assert(spec_peek(v1, address) == spec_peek(v2, address));
    assert(spec_decode_fetched(v1, address) =~= spec_decode_fetched(v2, address));
}

/// Law (idempotence of compilation, decoder half): a PRG-ROM-only decoder
/// run is a function of the immutable program bytes alone. Decoding the same
/// address again against the same PRG-ROM yields the identical instruction
/// and is again PRG-ROM-only, whatever else changed in the machine; the
/// transpiler consumes nothing beyond that instruction and the cartridge's
/// fixed mirroring flag.
pub proof fn lemma_decode_idempotent_on_rom(v1: NesV, v2: NesV, address: u16)
    requires
        v1.prg_rom == v2.prg_rom,
        spec_prg_rom_only(v1, address),
    ensures
        spec_decode(v1, address) == spec_decode(v2, address),
        spec_prg_rom_only(v2, address),
{
    let fetched_1 = spec_decode_fetched(v1, address);
    assert(fetched_1[0] == crate::wrap_add16_spec(address, 0u16));
    assert(crate::wrap_add16_spec(address, 0u16) == address);
    assert(in_prg_rom(address));
    assert(spec_peek(v1, address) == spec_peek(v2, address));
    let operation = spec_from_opcode(spec_peek(v1, address));
    let len = operation.spec_op_len();
    assert(fetched_1.len() == len);
    if len >= 2 {
        assert(fetched_1[1] == crate::wrap_add16_spec(address, 1));
        assert(in_prg_rom(crate::wrap_add16_spec(address, 1)));
        assert(spec_peek(v1, crate::wrap_add16_spec(address, 1)) == spec_peek(
            v2,
            crate::wrap_add16_spec(address, 1),
        ));
    }
    if len >= 3 {
        assert(fetched_1[2] == crate::wrap_add16_spec(address, 2));
        assert(in_prg_rom(crate::wrap_add16_spec(address, 2)));
        assert(spec_peek(v1, crate::wrap_add16_spec(address, 2)) == spec_peek(
            v2,
            crate::wrap_add16_spec(address, 2),
        ));
    }
    assert(spec_decode(v1, address) == spec_decode(v2, address));
    assert(spec_decode_fetched(v2, address) =~= fetched_1);
}

/// Every address a decoder run fetches from the PRG-ROM window is one the
/// bus can yield: the run stays in the window, or wraps past 0xffff into the
/// zero page.
pub proof fn lemma_rom_window_fetch_ok(v: NesV, address: u16)
    requires
        0x8000 <= address,
    ensures
        decode_fetch_ok(v, address),
{
    assert forall|k: int| 0 <= k < spec_decode_fetched(v, address).len() implies peekable(
        #[trigger] spec_decode_fetched(v, address)[k],
    ) by {
        assert(spec_decode_fetched(v, address)[k] == crate::wrap_add16_spec(address, k as u16));
        assert(spec_decode_fetched(v, address).len() <= 3);
        assert(0 <= k <= 2);
        assert(crate::wrap_add16_spec(address, k as u16) == (address + k) % 0x10000);
        if address + k < 0x10000 {
            assert((address + k) % 0x10000 == address + k >= 0x8000);
        } else {
            assert((address + k) % 0x10000 == address + k - 0x10000 < 0x2000);
        }
    }
}

/// Law: a decoder run consumes exactly as many bytes as the decoded
/// operation's length, so the instruction ends where the fetching stopped.
pub proof fn lemma_decode_consumes_length(v: NesV, address: u16)
    ensures
        spec_decode_fetched(v, address).len() == spec_decode(v, address).operation.spec_op_len(),
        spec_decode(v, address).spec_address_end() == crate::wrap_add16_spec(
            address,
            spec_decode_fetched(v, address).len() as u16,
        ),
{
    assert(spec_decode(v, address).operation == spec_from_opcode(spec_peek(v, address)));
}

} // verus!
