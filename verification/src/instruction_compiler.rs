//! The transpiler: expands one decoded 6502 instruction into a well-formed IR
//! function. Every mnemonic and addressing mode of the opcode table is
//! covered; the terminator path of each fragment writes the next program
//! counter before returning.

use crate::instruction_decoder::{decode_instruction, spec_prg_rom_only};
use crate::cartridge::Cartridge;
use crate::ir::{
    CpuFlag, Definition1, Definition16, Definition8, Destination1, Destination16, Destination8,
    Function, FunctionV, Jump, Register8, Variable16, Variable8, defined_in_prefix, spec_define_1,
    spec_define_16, spec_define_8, spec_new_function, spec_store_1, spec_store_16, spec_store_8,
};
use crate::memory_compiler::{
    compile_read, compile_write, spec_compile_read, spec_compile_write,
};
use crate::nes::NesV;
use crate::nes::Nes;
use crate::nes_assembly::{
    AddressingMode, Instruction, Mnemonic, Operation, spec_from_opcode, spec_opcode_for,
};
use vstd::prelude::*;

verus! {

/// Whether an operation can come out of the opcode table: either an official
/// pairing, or the `Unimplemented` no-op with the implied mode.
pub open spec fn table_operation(operation: Operation) -> bool {
    ||| spec_opcode_for(operation.mnemonic, operation.addressing_mode) is Some
    ||| (operation.mnemonic == Mnemonic::Unimplemented && operation.addressing_mode
        == AddressingMode::Implied)
}

/// Every operation the table yields is a table operation.
pub proof fn lemma_from_opcode_in_table(opcode: u8)
    ensures
        table_operation(spec_from_opcode(opcode)),
{
}

/// The addressing modes that resolve to a guest memory address.
pub open spec fn is_memory_mode(am: AddressingMode) -> bool {
    match am {
        AddressingMode::Absolute
        | AddressingMode::Zeropage
        | AddressingMode::AbsoluteX
        | AddressingMode::AbsoluteY
        | AddressingMode::IndirectY
        | AddressingMode::XIndirect
        | AddressingMode::ZeropageX
        | AddressingMode::ZeropageY => true,
        _ => false,
    }
}

/// The addressing modes an 8-bit operand can be read through.
pub open spec fn readable_mode(am: AddressingMode) -> bool {
    is_memory_mode(am) || am == AddressingMode::Accumulator || am == AddressingMode::Immediate
}

/// The addressing modes an 8-bit operand can be written through.
pub open spec fn writable_mode(am: AddressingMode) -> bool {
    is_memory_mode(am) || am == AddressingMode::Accumulator
}

/// The addressing modes that yield a 16-bit operand address.
pub open spec fn u16_operand_mode(am: AddressingMode) -> bool {
    am == AddressingMode::Absolute || am == AddressingMode::Indirect || am
        == AddressingMode::Relative
}

/// What the opcode table guarantees about the addressing mode paired with
/// each mnemonic; the transpiler's operand helpers rest on these shapes.
pub proof fn lemma_operand_mode_shapes(m: Mnemonic, am: AddressingMode)
    requires
        spec_opcode_for(m, am) is Some,
    ensures
        (m == Mnemonic::Adc || m == Mnemonic::And || m == Mnemonic::Bit || m == Mnemonic::Cmp || m
            == Mnemonic::Cpx || m == Mnemonic::Cpy || m == Mnemonic::Eor || m == Mnemonic::Lda || m
            == Mnemonic::Ldx || m == Mnemonic::Ldy || m == Mnemonic::Ora || m == Mnemonic::Sbc)
            ==> readable_mode(am),
        (m == Mnemonic::Asl || m == Mnemonic::Dec || m == Mnemonic::Inc || m == Mnemonic::Lsr || m
            == Mnemonic::Rol || m == Mnemonic::Ror) ==> readable_mode(am) && writable_mode(am),
        (m == Mnemonic::Sta || m == Mnemonic::Stx || m == Mnemonic::Sty) ==> writable_mode(am),
        (m == Mnemonic::Bcc || m == Mnemonic::Bcs || m == Mnemonic::Beq || m == Mnemonic::Bmi || m
            == Mnemonic::Bne || m == Mnemonic::Bpl || m == Mnemonic::Bvc || m == Mnemonic::Bvs)
            ==> am == AddressingMode::Relative,
        m == Mnemonic::Jmp ==> (am == AddressingMode::Absolute || am == AddressingMode::Indirect),
        m == Mnemonic::Jsr ==> am == AddressingMode::Absolute,
{
}


/// What `set_nz` emits.
#[verifier::opaque]
pub open spec fn spec_set_nz(f: FunctionV, cur: usize, value: Variable8) -> FunctionV {
    let (f, n) = spec_define_1(f, cur as int, Definition1::U8Bit { operand: value, index: 7 });
    let (f, z) = spec_define_1(f, cur as int, Definition1::EqualToZero(value));
    let f = spec_store_1(f, cur as int, Destination1::Flag(CpuFlag::Negative), n);
    spec_store_1(f, cur as int, Destination1::Flag(CpuFlag::Zero), z)
}

/// What `push_u8` emits.
#[verifier::opaque]
pub open spec fn spec_push_u8(
    f: FunctionV,
    cur: usize,
    value: Variable8,
    mirror_horizontal: bool,
) -> (FunctionV, usize) {
    let (f, one) = spec_define_8(f, cur as int, Definition8::Immediate(1));
    let (f, s) = spec_define_8(f, cur as int, Definition8::Register(Register8::S));
    let (f, no_borrow) = spec_define_1(f, cur as int, Definition1::Immediate(false));
    let (f, s_minus_1) = spec_define_8(
        f,
        cur as int,
        Definition8::Difference { operand_0: s, operand_1: one, operand_borrow: no_borrow },
    );
    let (f, address) = spec_define_16(f, cur as int, Definition16::FromU8s { high: one, low: s });
    let (f, cur) = spec_compile_write(f, cur, address, value, mirror_horizontal);
    let f = spec_store_8(f, cur as int, Destination8::Register(Register8::S), s_minus_1);
    (f, cur)
}

/// What `push_u16` emits.
#[verifier::opaque]
pub open spec fn spec_push_u16(
    f: FunctionV,
    cur: usize,
    value: Variable16,
    mirror_horizontal: bool,
) -> (FunctionV, usize) {
    let (f, low) = spec_define_8(f, cur as int, Definition8::LowByte(value));
    let (f, high) = spec_define_8(f, cur as int, Definition8::HighByte(value));
    let (f, cur) = spec_push_u8(f, cur, high, mirror_horizontal);
    spec_push_u8(f, cur, low, mirror_horizontal)
}

/// What `pop_u8` emits.
#[verifier::opaque]
pub open spec fn spec_pop_u8(f: FunctionV, cur: usize, mirror_horizontal: bool) -> (
    FunctionV,
    usize,
    Variable8,
) {
    let (f, one) = spec_define_8(f, cur as int, Definition8::Immediate(1));
    let (f, s) = spec_define_8(f, cur as int, Definition8::Register(Register8::S));
    let (f, no_carry) = spec_define_1(f, cur as int, Definition1::Immediate(false));
    let (f, s_plus_1) = spec_define_8(
        f,
        cur as int,
        Definition8::Sum { operand_0: s, operand_1: one, operand_carry: no_carry },
    );
    let (f, address) = spec_define_16(
        f,
        cur as int,
        Definition16::FromU8s { high: one, low: s_plus_1 },
    );
    let (f, cur, result) = spec_compile_read(f, cur, address, mirror_horizontal);
    let f = spec_store_8(f, cur as int, Destination8::Register(Register8::S), s_plus_1);
    (f, cur, result)
}

/// What `pop_u16` emits.
#[verifier::opaque]
pub open spec fn spec_pop_u16(f: FunctionV, cur: usize, mirror_horizontal: bool) -> (
    FunctionV,
    usize,
    Variable16,
) {
    let (f, cur, low) = spec_pop_u8(f, cur, mirror_horizontal);
    let (f, cur, high) = spec_pop_u8(f, cur, mirror_horizontal);
    let (f, result) = spec_define_16(f, cur as int, Definition16::FromU8s { high, low });
    (f, cur, result)
}

/// What `read_u16_deref` emits.
#[verifier::opaque]
pub open spec fn spec_read_u16_deref(
    f: FunctionV,
    cur: usize,
    address: Variable16,
    mirror_horizontal: bool,
) -> (FunctionV, usize, Variable16) {
    let (f, one) = spec_define_8(f, cur as int, Definition8::Immediate(1));
    let (f, no_carry) = spec_define_1(f, cur as int, Definition1::Immediate(false));
    let (f, high_address_high) = spec_define_8(f, cur as int, Definition8::HighByte(address));
    let (f, high_address_low) = spec_define_8(f, cur as int, Definition8::LowByte(address));
    let (f, high_address_low) = spec_define_8(
        f,
        cur as int,
        Definition8::Sum { operand_0: high_address_low, operand_1: one, operand_carry: no_carry },
    );
    let (f, high_address) = spec_define_16(
        f,
        cur as int,
        Definition16::FromU8s { high: high_address_high, low: high_address_low },
    );
    let (f, cur, low) = spec_compile_read(f, cur, address, mirror_horizontal);
    let (f, cur, high) = spec_compile_read(f, cur, high_address, mirror_horizontal);
    let (f, result) = spec_define_16(f, cur as int, Definition16::FromU8s { high, low });
    (f, cur, result)
}

/// What `get_operand_address` emits for each memory addressing mode.
#[verifier::opaque]
pub open spec fn spec_get_operand_address(
    f: FunctionV,
    cur: usize,
    instruction: Instruction,
    mirror_horizontal: bool,
) -> (FunctionV, usize, Variable16) {
    match instruction.operation.addressing_mode {
        AddressingMode::Absolute | AddressingMode::Zeropage => {
            let (f, address) = spec_define_16(
                f,
                cur as int,
                Definition16::Immediate(instruction.operand),
            );
            (f, cur, address)
        },
        AddressingMode::AbsoluteX => {
            let (f, zero) = spec_define_8(f, cur as int, Definition8::Immediate(0));
            let (f, x) = spec_define_8(f, cur as int, Definition8::Register(Register8::X));
            let (f, base) = spec_define_16(
                f,
                cur as int,
                Definition16::Immediate(instruction.operand),
            );
            let (f, x_16) = spec_define_16(
                f,
                cur as int,
                Definition16::FromU8s { high: zero, low: x },
            );
            let (f, address) = spec_define_16(f, cur as int, Definition16::Add(base, x_16));
            (f, cur, address)
        },
        AddressingMode::AbsoluteY => {
            let (f, zero) = spec_define_8(f, cur as int, Definition8::Immediate(0));
            let (f, y) = spec_define_8(f, cur as int, Definition8::Register(Register8::Y));
            let (f, y_16) = spec_define_16(
                f,
                cur as int,
                Definition16::FromU8s { high: zero, low: y },
            );
            let (f, base) = spec_define_16(
                f,
                cur as int,
                Definition16::Immediate(instruction.operand),
            );
            let (f, address) = spec_define_16(f, cur as int, Definition16::Add(base, y_16));
            (f, cur, address)
        },
        AddressingMode::IndirectY => {
            let (f, zero) = spec_define_8(f, cur as int, Definition8::Immediate(0));
            let (f, pointer) = spec_define_16(
                f,
                cur as int,
                Definition16::Immediate(instruction.operand),
            );
            let (f, cur, base) = spec_read_u16_deref(f, cur, pointer, mirror_horizontal);
            let (f, y) = spec_define_8(f, cur as int, Definition8::Register(Register8::Y));
            let (f, y_16) = spec_define_16(
                f,
                cur as int,
                Definition16::FromU8s { high: zero, low: y },
            );
            let (f, address) = spec_define_16(f, cur as int, Definition16::Add(base, y_16));
            (f, cur, address)
        },
        AddressingMode::XIndirect => {
            let (f, zero) = spec_define_8(f, cur as int, Definition8::Immediate(0));
            let (f, x) = spec_define_8(f, cur as int, Definition8::Register(Register8::X));
            let (f, operand) = spec_define_8(
                f,
                cur as int,
                Definition8::Immediate((instruction.operand % 0x100) as u8),
            );
            let (f, no_carry) = spec_define_1(f, cur as int, Definition1::Immediate(false));
            let (f, pointer_low) = spec_define_8(
                f,
                cur as int,
                Definition8::Sum { operand_0: operand, operand_1: x, operand_carry: no_carry },
            );
            let (f, pointer) = spec_define_16(
                f,
                cur as int,
                Definition16::FromU8s { high: zero, low: pointer_low },
            );
            spec_read_u16_deref(f, cur, pointer, mirror_horizontal)
        },
        AddressingMode::ZeropageX => {
            let (f, zero) = spec_define_8(f, cur as int, Definition8::Immediate(0));
            let (f, operand) = spec_define_8(
                f,
                cur as int,
                Definition8::Immediate((instruction.operand % 0x100) as u8),
            );
            let (f, x) = spec_define_8(f, cur as int, Definition8::Register(Register8::X));
            let (f, no_carry) = spec_define_1(f, cur as int, Definition1::Immediate(false));
            let (f, low) = spec_define_8(
                f,
                cur as int,
                Definition8::Sum { operand_0: operand, operand_1: x, operand_carry: no_carry },
            );
            let (f, address) = spec_define_16(
                f,
                cur as int,
                Definition16::FromU8s { high: zero, low },
            );
            (f, cur, address)
        },
        AddressingMode::ZeropageY => {
            let (f, zero) = spec_define_8(f, cur as int, Definition8::Immediate(0));
            let (f, operand) = spec_define_8(
                f,
                cur as int,
                Definition8::Immediate((instruction.operand % 0x100) as u8),
            );
            let (f, y) = spec_define_8(f, cur as int, Definition8::Register(Register8::Y));
            let (f, no_carry) = spec_define_1(f, cur as int, Definition1::Immediate(false));
            let (f, low) = spec_define_8(
                f,
                cur as int,
                Definition8::Sum { operand_0: operand, operand_1: y, operand_carry: no_carry },
            );
            let (f, address) = spec_define_16(
                f,
                cur as int,
                Definition16::FromU8s { high: zero, low },
            );
            (f, cur, address)
        },
        _ => arbitrary(),
    }
}

/// What `read_operand_u8` emits for each readable addressing mode.
#[verifier::opaque]
pub open spec fn spec_read_operand_u8(
    f: FunctionV,
    cur: usize,
    instruction: Instruction,
    mirror_horizontal: bool,
) -> (FunctionV, usize, Variable8) {
    match instruction.operation.addressing_mode {
        AddressingMode::Absolute
        | AddressingMode::Zeropage
        | AddressingMode::AbsoluteX
        | AddressingMode::AbsoluteY
        | AddressingMode::IndirectY
        | AddressingMode::XIndirect
        | AddressingMode::ZeropageX
        | AddressingMode::ZeropageY => {
            let (f, cur, address) = spec_get_operand_address(f, cur, instruction, mirror_horizontal);
            spec_compile_read(f, cur, address, mirror_horizontal)
        },
        AddressingMode::Accumulator => {
            let (f, a) = spec_define_8(f, cur as int, Definition8::Register(Register8::A));
            (f, cur, a)
        },
        AddressingMode::Immediate => {
            let (f, value) = spec_define_8(
                f,
                cur as int,
                Definition8::Immediate((instruction.operand % 0x100) as u8),
            );
            (f, cur, value)
        },
        _ => arbitrary(),
    }
}

/// What `write_operand_u8` emits for each writable addressing mode.
#[verifier::opaque]
pub open spec fn spec_write_operand_u8(
    f: FunctionV,
    cur: usize,
    instruction: Instruction,
    value: Variable8,
    mirror_horizontal: bool,
) -> (FunctionV, usize) {
    match instruction.operation.addressing_mode {
        AddressingMode::Absolute
        | AddressingMode::Zeropage
        | AddressingMode::AbsoluteX
        | AddressingMode::AbsoluteY
        | AddressingMode::IndirectY
        | AddressingMode::XIndirect
        | AddressingMode::ZeropageX
        | AddressingMode::ZeropageY => {
            let (f, cur, address) = spec_get_operand_address(f, cur, instruction, mirror_horizontal);
            spec_compile_write(f, cur, address, value, mirror_horizontal)
        },
        AddressingMode::Accumulator => {
            let f = spec_store_8(f, cur as int, Destination8::Register(Register8::A), value);
            (f, cur)
        },
        _ => arbitrary(),
    }
}

/// What `read_operand_u16` emits for each 16-bit operand mode.
#[verifier::opaque]
pub open spec fn spec_read_operand_u16(
    f: FunctionV,
    cur: usize,
    instruction: Instruction,
    mirror_horizontal: bool,
) -> (FunctionV, usize, Variable16) {
    match instruction.operation.addressing_mode {
        AddressingMode::Absolute => {
            let (f, address) = spec_define_16(
                f,
                cur as int,
                Definition16::Immediate(instruction.operand),
            );
            (f, cur, address)
        },
        AddressingMode::Indirect => {
            let (f, pointer) = spec_define_16(
                f,
                cur as int,
                Definition16::Immediate(instruction.operand),
            );
            spec_read_u16_deref(f, cur, pointer, mirror_horizontal)
        },
        AddressingMode::Relative => {
            let (f, target) = spec_define_16(
                f,
                cur as int,
                Definition16::Immediate(instruction.spec_branch_target()),
            );
            (f, cur, target)
        },
        _ => arbitrary(),
    }
}

/// Emits the N and Z flag updates for a value: N is the value's sign bit and
/// Z is its equality to zero.
pub fn set_nz(f: &mut Function, cur: usize, value: Variable8)
    requires
        old(f).wf(),
        cur < old(f)@.basic_blocks.len(),
        value.id < old(f)@.variable_id_counter,
        old(f)@.variable_id_counter + 8 <= usize::MAX,
        forall|b2: int|
            cur as int <= b2 ==> #[trigger] defined_in_prefix(
                old(f)@,
                b2,
                value.id as int,
            ),
    ensures
        final(f).wf(),
        old(f)@.basic_blocks.len() == final(f)@.basic_blocks.len(),
        old(f)@.variable_id_counter <= final(f)@.variable_id_counter,
        final(f)@.variable_id_counter <= old(f)@.variable_id_counter + 8,
        forall|b: int|
            0 <= b < old(f)@.basic_blocks.len() ==> final(f)@.basic_blocks[b].has_argument == old(
                f,
            )@.basic_blocks[b].has_argument,
        forall|b: int|
            0 <= b < old(f)@.basic_blocks.len() ==> final(f)@.basic_blocks[b].jump == old(
                f,
            )@.basic_blocks[b].jump,
        final(f)@ == spec_set_nz(old(f)@, cur, value),
        forall|b2: int, id: int|
            defined_in_prefix(old(f)@, b2, id) ==> #[trigger] defined_in_prefix(
                final(f)@,
                b2,
                id,
            ),
{
    proof {
        reveal(spec_set_nz);
    }
    let n = f.define_1(cur, Definition1::U8Bit { operand: value, index: 7 });
    let z = f.define_1(cur, Definition1::EqualToZero(value));
    f.store_1(cur, Destination1::Flag(CpuFlag::Negative), n);
    f.store_1(cur, Destination1::Flag(CpuFlag::Zero), z);
}

/// Emits a push: the value goes to the stack page at the current stack
/// pointer, which is then decremented.
pub fn push_u8(f: &mut Function, cur: usize, value: Variable8, mirror_horizontal: bool) -> (r:
    usize)
    requires
        old(f).wf(),
        cur < old(f)@.basic_blocks.len(),
        value.id < old(f)@.variable_id_counter,
        old(f)@.variable_id_counter + 2048 <= usize::MAX,
        forall|b2: int|
            cur as int <= b2 ==> #[trigger] defined_in_prefix(
                old(f)@,
                b2,
                value.id as int,
            ),
    ensures
        final(f).wf(),
        old(f)@.basic_blocks.len() <= final(f)@.basic_blocks.len(),
        old(f)@.variable_id_counter <= final(f)@.variable_id_counter,
        final(f)@.variable_id_counter <= old(f)@.variable_id_counter + 2048,
        forall|b: int|
            0 <= b < old(f)@.basic_blocks.len() ==> final(f)@.basic_blocks[b].has_argument == old(
                f,
            )@.basic_blocks[b].has_argument,
        r == final(f)@.basic_blocks.len() - 1,
        final(f)@.basic_blocks[r as int].jump == Jump::Return,
        final(f)@ == spec_push_u8(old(f)@, cur, value, mirror_horizontal).0,
        r == spec_push_u8(old(f)@, cur, value, mirror_horizontal).1,
        forall|b2: int, id: int|
            defined_in_prefix(old(f)@, b2, id) ==> #[trigger] defined_in_prefix(
                final(f)@,
                b2,
                id,
            ),
        cur <= r,
{
    proof {
        reveal(spec_push_u8);
    }
    let one = f.define_8(cur, Definition8::Immediate(1));
    let s = f.define_8(cur, Definition8::Register(Register8::S));
    let no_borrow = f.define_1(cur, Definition1::Immediate(false));
    let s_minus_1 = f.define_8(
        cur,
        Definition8::Difference { operand_0: s, operand_1: one, operand_borrow: no_borrow },
    );
    let address = f.define_16(cur, Definition16::FromU8s { high: one, low: s });
    let cur = compile_write(f, cur, address, value, mirror_horizontal);
    f.store_8(cur, Destination8::Register(Register8::S), s_minus_1);
    cur
}

/// Emits a 16-bit push: high byte first, then low, per the NES convention.
pub fn push_u16(f: &mut Function, cur: usize, value: Variable16, mirror_horizontal: bool) -> (r:
    usize)
    requires
        old(f).wf(),
        cur < old(f)@.basic_blocks.len(),
        value.id < old(f)@.variable_id_counter,
        old(f)@.variable_id_counter + 8192 <= usize::MAX,
        forall|b2: int|
            cur as int <= b2 ==> #[trigger] defined_in_prefix(
                old(f)@,
                b2,
                value.id as int,
            ),
    ensures
        final(f).wf(),
        old(f)@.basic_blocks.len() <= final(f)@.basic_blocks.len(),
        old(f)@.variable_id_counter <= final(f)@.variable_id_counter,
        final(f)@.variable_id_counter <= old(f)@.variable_id_counter + 8192,
        forall|b: int|
            0 <= b < old(f)@.basic_blocks.len() ==> final(f)@.basic_blocks[b].has_argument == old(
                f,
            )@.basic_blocks[b].has_argument,
        r == final(f)@.basic_blocks.len() - 1,
        final(f)@.basic_blocks[r as int].jump == Jump::Return,
        final(f)@ == spec_push_u16(old(f)@, cur, value, mirror_horizontal).0,
        r == spec_push_u16(old(f)@, cur, value, mirror_horizontal).1,
        forall|b2: int, id: int|
            defined_in_prefix(old(f)@, b2, id) ==> #[trigger] defined_in_prefix(
                final(f)@,
                b2,
                id,
            ),
        cur <= r,
{
    proof {
        reveal(spec_push_u16);
    }
    let low = f.define_8(cur, Definition8::LowByte(value));
    let high = f.define_8(cur, Definition8::HighByte(value));
    let cur = push_u8(f, cur, high, mirror_horizontal);
    push_u8(f, cur, low, mirror_horizontal)
}

/// Emits a pop: the stack pointer is incremented and the byte above the old
/// top is read.
pub fn pop_u8(f: &mut Function, cur: usize, mirror_horizontal: bool) -> (r: (usize, Variable8))
    requires
        old(f).wf(),
        cur < old(f)@.basic_blocks.len(),
        old(f)@.variable_id_counter + 2048 <= usize::MAX,
    ensures
        final(f).wf(),
        old(f)@.basic_blocks.len() <= final(f)@.basic_blocks.len(),
        old(f)@.variable_id_counter <= final(f)@.variable_id_counter,
        final(f)@.variable_id_counter <= old(f)@.variable_id_counter + 2048,
        forall|b: int|
            0 <= b < old(f)@.basic_blocks.len() ==> final(f)@.basic_blocks[b].has_argument == old(
                f,
            )@.basic_blocks[b].has_argument,
        r.0 == final(f)@.basic_blocks.len() - 1,
        final(f)@.basic_blocks[r.0 as int].jump == Jump::Return,
        r.1.id < final(f)@.variable_id_counter,
        final(f)@ == spec_pop_u8(old(f)@, cur, mirror_horizontal).0,
        r.0 == spec_pop_u8(old(f)@, cur, mirror_horizontal).1,
        r.1 == spec_pop_u8(old(f)@, cur, mirror_horizontal).2,
        forall|b2: int, id: int|
            defined_in_prefix(old(f)@, b2, id) ==> #[trigger] defined_in_prefix(
                final(f)@,
                b2,
                id,
            ),
        forall|b2: int|
            r.0 as int <= b2 ==> #[trigger] defined_in_prefix(
                final(f)@,
                b2,
                r.1.id as int,
            ),
        cur <= r.0,
{
    proof {
        reveal(spec_pop_u8);
    }
    let one = f.define_8(cur, Definition8::Immediate(1));
    let s = f.define_8(cur, Definition8::Register(Register8::S));
    let no_carry = f.define_1(cur, Definition1::Immediate(false));
    let s_plus_1 = f.define_8(
        cur,
        Definition8::Sum { operand_0: s, operand_1: one, operand_carry: no_carry },
    );
    let address = f.define_16(cur, Definition16::FromU8s { high: one, low: s_plus_1 });
    let (cur, result) = compile_read(f, cur, address, mirror_horizontal);
    f.store_8(cur, Destination8::Register(Register8::S), s_plus_1);
    (cur, result)
}

/// Emits a 16-bit pop: low byte first, then high.
pub fn pop_u16(f: &mut Function, cur: usize, mirror_horizontal: bool) -> (r: (usize, Variable16))
    requires
        old(f).wf(),
        cur < old(f)@.basic_blocks.len(),
        old(f)@.variable_id_counter + 8192 <= usize::MAX,
    ensures
        final(f).wf(),
        old(f)@.basic_blocks.len() <= final(f)@.basic_blocks.len(),
        old(f)@.variable_id_counter <= final(f)@.variable_id_counter,
        final(f)@.variable_id_counter <= old(f)@.variable_id_counter + 8192,
        forall|b: int|
            0 <= b < old(f)@.basic_blocks.len() ==> final(f)@.basic_blocks[b].has_argument == old(
                f,
            )@.basic_blocks[b].has_argument,
        r.0 == final(f)@.basic_blocks.len() - 1,
        final(f)@.basic_blocks[r.0 as int].jump == Jump::Return,
        r.1.id < final(f)@.variable_id_counter,
        final(f)@ == spec_pop_u16(old(f)@, cur, mirror_horizontal).0,
        r.0 == spec_pop_u16(old(f)@, cur, mirror_horizontal).1,
        r.1 == spec_pop_u16(old(f)@, cur, mirror_horizontal).2,
        forall|b2: int, id: int|
            defined_in_prefix(old(f)@, b2, id) ==> #[trigger] defined_in_prefix(
                final(f)@,
                b2,
                id,
            ),
        forall|b2: int|
            r.0 as int <= b2 ==> #[trigger] defined_in_prefix(
                final(f)@,
                b2,
                r.1.id as int,
            ),
        cur <= r.0,
{
    proof {
        reveal(spec_pop_u16);
    }
    let (cur, low) = pop_u8(f, cur, mirror_horizontal);
    let (cur, high) = pop_u8(f, cur, mirror_horizontal);
    let result = f.define_16(cur, Definition16::FromU8s { high, low });
    (cur, result)
}

/// Emits a 16-bit little-endian read through a pointer, reproducing the
/// original hardware's page-wrap bug: the high byte is fetched from the same
/// page as the low byte, the pointer's low byte wrapping modulo 256.
#[verifier::rlimit(100)]
#[verifier::spinoff_prover]
pub fn read_u16_deref(
    f: &mut Function,
    cur: usize,
    address: Variable16,
    mirror_horizontal: bool,
) -> (r: (usize, Variable16))
    requires
        old(f).wf(),
        cur < old(f)@.basic_blocks.len(),
        address.id < old(f)@.variable_id_counter,
        old(f)@.variable_id_counter + 4096 <= usize::MAX,
        forall|b2: int|
            cur as int <= b2 ==> #[trigger] defined_in_prefix(
                old(f)@,
                b2,
                address.id as int,
            ),
    ensures
        final(f).wf(),
        old(f)@.basic_blocks.len() <= final(f)@.basic_blocks.len(),
        old(f)@.variable_id_counter <= final(f)@.variable_id_counter,
        final(f)@.variable_id_counter <= old(f)@.variable_id_counter + 4096,
        forall|b: int|
            0 <= b < old(f)@.basic_blocks.len() ==> final(f)@.basic_blocks[b].has_argument == old(
                f,
            )@.basic_blocks[b].has_argument,
        r.0 == final(f)@.basic_blocks.len() - 1,
        final(f)@.basic_blocks[r.0 as int].jump == Jump::Return,
        r.1.id < final(f)@.variable_id_counter,
        final(f)@ == spec_read_u16_deref(old(f)@, cur, address, mirror_horizontal).0,
        r.0 == spec_read_u16_deref(old(f)@, cur, address, mirror_horizontal).1,
        r.1 == spec_read_u16_deref(old(f)@, cur, address, mirror_horizontal).2,
        forall|b2: int, id: int|
            defined_in_prefix(old(f)@, b2, id) ==> #[trigger] defined_in_prefix(
                final(f)@,
                b2,
                id,
            ),
        forall|b2: int|
            r.0 as int <= b2 ==> #[trigger] defined_in_prefix(
                final(f)@,
                b2,
                r.1.id as int,
            ),
        cur <= r.0,
{
    proof {
        reveal(spec_read_u16_deref);
    }
    let one = f.define_8(cur, Definition8::Immediate(1));
    let no_carry = f.define_1(cur, Definition1::Immediate(false));
    let high_address_high = f.define_8(cur, Definition8::HighByte(address));
    let high_address_low = f.define_8(cur, Definition8::LowByte(address));
    let high_address_low = f.define_8(
        cur,
        Definition8::Sum { operand_0: high_address_low, operand_1: one, operand_carry: no_carry },
    );
    let high_address = f.define_16(
        cur,
        Definition16::FromU8s { high: high_address_high, low: high_address_low },
    );
    let (cur, low) = compile_read(f, cur, address, mirror_horizontal);
    let (cur, high) = compile_read(f, cur, high_address, mirror_horizontal);
    let result = f.define_16(cur, Definition16::FromU8s { high, low });
    (cur, result)
}

/// Emits the effective-address computation of a memory addressing mode.
pub fn get_operand_address(
    f: &mut Function,
    cur: usize,
    instruction: Instruction,
    mirror_horizontal: bool,
) -> (r: (usize, Variable16))
    requires
        old(f).wf(),
        cur < old(f)@.basic_blocks.len(),
        is_memory_mode(instruction.operation.addressing_mode),
        old(f)@.variable_id_counter + 8192 <= usize::MAX,
    ensures
        final(f).wf(),
        old(f)@.basic_blocks.len() <= final(f)@.basic_blocks.len(),
        old(f)@.variable_id_counter <= final(f)@.variable_id_counter,
        final(f)@.variable_id_counter <= old(f)@.variable_id_counter + 8192,
        forall|b: int|
            0 <= b < old(f)@.basic_blocks.len() ==> final(f)@.basic_blocks[b].has_argument == old(
                f,
            )@.basic_blocks[b].has_argument,
        r.0 < final(f)@.basic_blocks.len(),
        cur == old(f)@.basic_blocks.len() - 1 && old(f)@.basic_blocks[cur as int].jump
            == Jump::Return ==> r.0 == final(f)@.basic_blocks.len() - 1
            && final(f)@.basic_blocks[r.0 as int].jump == Jump::Return,
        r.1.id < final(f)@.variable_id_counter,
        final(f)@ == spec_get_operand_address(old(f)@, cur, instruction, mirror_horizontal).0,
        r.0 == spec_get_operand_address(old(f)@, cur, instruction, mirror_horizontal).1,
        r.1 == spec_get_operand_address(old(f)@, cur, instruction, mirror_horizontal).2,
        forall|b2: int, id: int|
            defined_in_prefix(old(f)@, b2, id) ==> #[trigger] defined_in_prefix(
                final(f)@,
                b2,
                id,
            ),
        forall|b2: int|
            r.0 as int <= b2 ==> #[trigger] defined_in_prefix(
                final(f)@,
                b2,
                r.1.id as int,
            ),
        cur <= r.0,
{
    proof {
        reveal(spec_get_operand_address);
    }
    match instruction.operation().addressing_mode() {
        AddressingMode::Absolute | AddressingMode::Zeropage => {
            let address = f.define_16(cur, Definition16::Immediate(instruction.operand_u16()));
            (cur, address)
        },
        AddressingMode::AbsoluteX => {
            let zero = f.define_8(cur, Definition8::Immediate(0));
            let x = f.define_8(cur, Definition8::Register(Register8::X));
            let base = f.define_16(cur, Definition16::Immediate(instruction.operand_u16()));
            let x_16 = f.define_16(cur, Definition16::FromU8s { high: zero, low: x });
            let address = f.define_16(cur, Definition16::Add(base, x_16));
            (cur, address)
        },
        AddressingMode::AbsoluteY => {
            let zero = f.define_8(cur, Definition8::Immediate(0));
            let y = f.define_8(cur, Definition8::Register(Register8::Y));
            let y_16 = f.define_16(cur, Definition16::FromU8s { high: zero, low: y });
            let base = f.define_16(cur, Definition16::Immediate(instruction.operand_u16()));
            let address = f.define_16(cur, Definition16::Add(base, y_16));
            (cur, address)
        },
        AddressingMode::IndirectY => {
            let zero = f.define_8(cur, Definition8::Immediate(0));
            let pointer = f.define_16(cur, Definition16::Immediate(instruction.operand_u16()));
            let (cur, base) = read_u16_deref(f, cur, pointer, mirror_horizontal);
            let y = f.define_8(cur, Definition8::Register(Register8::Y));
            let y_16 = f.define_16(cur, Definition16::FromU8s { high: zero, low: y });
            let address = f.define_16(cur, Definition16::Add(base, y_16));
            (cur, address)
        },
        AddressingMode::XIndirect => {
            let zero = f.define_8(cur, Definition8::Immediate(0));
            let x = f.define_8(cur, Definition8::Register(Register8::X));
            let operand = f.define_8(cur, Definition8::Immediate(instruction.operand_u8()));
            let no_carry = f.define_1(cur, Definition1::Immediate(false));
            let pointer_low = f.define_8(
                cur,
                Definition8::Sum { operand_0: operand, operand_1: x, operand_carry: no_carry },
            );
            let pointer = f.define_16(cur, Definition16::FromU8s { high: zero, low: pointer_low });
            read_u16_deref(f, cur, pointer, mirror_horizontal)
        },
        AddressingMode::ZeropageX => {
            let zero = f.define_8(cur, Definition8::Immediate(0));
            let operand = f.define_8(cur, Definition8::Immediate(instruction.operand_u8()));
            let x = f.define_8(cur, Definition8::Register(Register8::X));
            let no_carry = f.define_1(cur, Definition1::Immediate(false));
            let low = f.define_8(
                cur,
                Definition8::Sum { operand_0: operand, operand_1: x, operand_carry: no_carry },
            );
            let address = f.define_16(cur, Definition16::FromU8s { high: zero, low });
            (cur, address)
        },
        AddressingMode::ZeropageY => {
            let zero = f.define_8(cur, Definition8::Immediate(0));
            let operand = f.define_8(cur, Definition8::Immediate(instruction.operand_u8()));
            let y = f.define_8(cur, Definition8::Register(Register8::Y));
            let no_carry = f.define_1(cur, Definition1::Immediate(false));
            let low = f.define_8(
                cur,
                Definition8::Sum { operand_0: operand, operand_1: y, operand_carry: no_carry },
            );
            let address = f.define_16(cur, Definition16::FromU8s { high: zero, low });
            (cur, address)
        },
        AddressingMode::Accumulator
        | AddressingMode::Immediate
        | AddressingMode::Implied
        | AddressingMode::Indirect
        | AddressingMode::Relative => unreached(),
    }
}

/// Emits the read of an instruction's 8-bit operand: through memory, the
/// accumulator, or an immediate byte.
pub fn read_operand_u8(
    f: &mut Function,
    cur: usize,
    instruction: Instruction,
    mirror_horizontal: bool,
) -> (r: (usize, Variable8))
    requires
        old(f).wf(),
        cur < old(f)@.basic_blocks.len(),
        readable_mode(instruction.operation.addressing_mode),
        old(f)@.variable_id_counter + 16384 <= usize::MAX,
    ensures
        final(f).wf(),
        old(f)@.basic_blocks.len() <= final(f)@.basic_blocks.len(),
        old(f)@.variable_id_counter <= final(f)@.variable_id_counter,
        final(f)@.variable_id_counter <= old(f)@.variable_id_counter + 16384,
        forall|b: int|
            0 <= b < old(f)@.basic_blocks.len() ==> final(f)@.basic_blocks[b].has_argument == old(
                f,
            )@.basic_blocks[b].has_argument,
        r.0 < final(f)@.basic_blocks.len(),
        cur == old(f)@.basic_blocks.len() - 1 && old(f)@.basic_blocks[cur as int].jump
            == Jump::Return ==> r.0 == final(f)@.basic_blocks.len() - 1
            && final(f)@.basic_blocks[r.0 as int].jump == Jump::Return,
        r.1.id < final(f)@.variable_id_counter,
        final(f)@ == spec_read_operand_u8(old(f)@, cur, instruction, mirror_horizontal).0,
        r.0 == spec_read_operand_u8(old(f)@, cur, instruction, mirror_horizontal).1,
        r.1 == spec_read_operand_u8(old(f)@, cur, instruction, mirror_horizontal).2,
        forall|b2: int, id: int|
            defined_in_prefix(old(f)@, b2, id) ==> #[trigger] defined_in_prefix(
                final(f)@,
                b2,
                id,
            ),
        forall|b2: int|
            r.0 as int <= b2 ==> #[trigger] defined_in_prefix(
                final(f)@,
                b2,
                r.1.id as int,
            ),
        cur <= r.0,
{
    proof {
        reveal(spec_read_operand_u8);
    }
    match instruction.operation().addressing_mode() {
        AddressingMode::Absolute
        | AddressingMode::Zeropage
        | AddressingMode::AbsoluteX
        | AddressingMode::AbsoluteY
        | AddressingMode::IndirectY
        | AddressingMode::XIndirect
        | AddressingMode::ZeropageX
        | AddressingMode::ZeropageY => {
            let (cur, address) = get_operand_address(f, cur, instruction, mirror_horizontal);
            compile_read(f, cur, address, mirror_horizontal)
        },
        AddressingMode::Accumulator => {
            let a = f.define_8(cur, Definition8::Register(Register8::A));
            (cur, a)
        },
        AddressingMode::Immediate => {
            let value = f.define_8(cur, Definition8::Immediate(instruction.operand_u8()));
            (cur, value)
        },
        AddressingMode::Implied | AddressingMode::Indirect | AddressingMode::Relative
            => unreached(),
    }
}

/// Emits the write of an instruction's 8-bit result: through memory or into
/// the accumulator.
pub fn write_operand_u8(
    f: &mut Function,
    cur: usize,
    instruction: Instruction,
    value: Variable8,
    mirror_horizontal: bool,
) -> (r: usize)
    requires
        old(f).wf(),
        cur < old(f)@.basic_blocks.len(),
        value.id < old(f)@.variable_id_counter,
        writable_mode(instruction.operation.addressing_mode),
        old(f)@.variable_id_counter + 16384 <= usize::MAX,
        forall|b2: int|
            cur as int <= b2 ==> #[trigger] defined_in_prefix(
                old(f)@,
                b2,
                value.id as int,
            ),
    ensures
        final(f).wf(),
        old(f)@.basic_blocks.len() <= final(f)@.basic_blocks.len(),
        old(f)@.variable_id_counter <= final(f)@.variable_id_counter,
        final(f)@.variable_id_counter <= old(f)@.variable_id_counter + 16384,
        forall|b: int|
            0 <= b < old(f)@.basic_blocks.len() ==> final(f)@.basic_blocks[b].has_argument == old(
                f,
            )@.basic_blocks[b].has_argument,
        r < final(f)@.basic_blocks.len(),
        cur == old(f)@.basic_blocks.len() - 1 && old(f)@.basic_blocks[cur as int].jump
            == Jump::Return ==> r == final(f)@.basic_blocks.len() - 1
            && final(f)@.basic_blocks[r as int].jump == Jump::Return,
        final(f)@ == spec_write_operand_u8(old(f)@, cur, instruction, value, mirror_horizontal).0,
        r == spec_write_operand_u8(old(f)@, cur, instruction, value, mirror_horizontal).1,
        forall|b2: int, id: int|
            defined_in_prefix(old(f)@, b2, id) ==> #[trigger] defined_in_prefix(
                final(f)@,
                b2,
                id,
            ),
        cur <= r,
{
    proof {
        reveal(spec_write_operand_u8);
    }
    match instruction.operation().addressing_mode() {
        AddressingMode::Absolute
        | AddressingMode::Zeropage
        | AddressingMode::AbsoluteX
        | AddressingMode::AbsoluteY
        | AddressingMode::IndirectY
        | AddressingMode::XIndirect
        | AddressingMode::ZeropageX
        | AddressingMode::ZeropageY => {
            let (cur, address) = get_operand_address(f, cur, instruction, mirror_horizontal);
            compile_write(f, cur, address, value, mirror_horizontal)
        },
        AddressingMode::Accumulator => {
            f.store_8(cur, Destination8::Register(Register8::A), value);
            cur
        },
        AddressingMode::Immediate
        | AddressingMode::Implied
        | AddressingMode::Indirect
        | AddressingMode::Relative => unreached(),
    }
}

/// Emits the computation of an instruction's 16-bit operand address: an
/// absolute address, an indirect pointer with the page-wrap bug, or a
/// relative branch target resolved at compile time.
pub fn read_operand_u16(
    f: &mut Function,
    cur: usize,
    instruction: Instruction,
    mirror_horizontal: bool,
) -> (r: (usize, Variable16))
    requires
        old(f).wf(),
        cur < old(f)@.basic_blocks.len(),
        u16_operand_mode(instruction.operation.addressing_mode),
        old(f)@.variable_id_counter + 8192 <= usize::MAX,
    ensures
        final(f).wf(),
        old(f)@.basic_blocks.len() <= final(f)@.basic_blocks.len(),
        old(f)@.variable_id_counter <= final(f)@.variable_id_counter,
        final(f)@.variable_id_counter <= old(f)@.variable_id_counter + 8192,
        forall|b: int|
            0 <= b < old(f)@.basic_blocks.len() ==> final(f)@.basic_blocks[b].has_argument == old(
                f,
            )@.basic_blocks[b].has_argument,
        r.0 < final(f)@.basic_blocks.len(),
        cur == old(f)@.basic_blocks.len() - 1 && old(f)@.basic_blocks[cur as int].jump
            == Jump::Return ==> r.0 == final(f)@.basic_blocks.len() - 1
            && final(f)@.basic_blocks[r.0 as int].jump == Jump::Return,
        r.1.id < final(f)@.variable_id_counter,
        final(f)@ == spec_read_operand_u16(old(f)@, cur, instruction, mirror_horizontal).0,
        r.0 == spec_read_operand_u16(old(f)@, cur, instruction, mirror_horizontal).1,
        r.1 == spec_read_operand_u16(old(f)@, cur, instruction, mirror_horizontal).2,
        forall|b2: int, id: int|
            defined_in_prefix(old(f)@, b2, id) ==> #[trigger] defined_in_prefix(
                final(f)@,
                b2,
                id,
            ),
        forall|b2: int|
            r.0 as int <= b2 ==> #[trigger] defined_in_prefix(
                final(f)@,
                b2,
                r.1.id as int,
            ),
        cur <= r.0,
{
    proof {
        reveal(spec_read_operand_u16);
    }
    match instruction.operation().addressing_mode() {
        AddressingMode::Absolute => {
            let address = f.define_16(cur, Definition16::Immediate(instruction.operand_u16()));
            (cur, address)
        },
        AddressingMode::Indirect => {
            let pointer = f.define_16(cur, Definition16::Immediate(instruction.operand_u16()));
            read_u16_deref(f, cur, pointer, mirror_horizontal)
        },
        AddressingMode::Relative => {
            let target = f.define_16(cur, Definition16::Immediate(instruction.branch_target()));
            (cur, target)
        },
        _ => unreached(),
    }
}


/// What the ADC emitter builds.
#[verifier::opaque]
pub open spec fn spec_emit_adc(
    f: FunctionV,
    cur: usize,
    instruction: Instruction,
    mirror_horizontal: bool,
) -> (FunctionV, usize, Option<Variable16>) {
    let (f, a) = spec_define_8(f, cur as int, Definition8::Register(Register8::A));
    let (f, cur, operand) = spec_read_operand_u8(f, cur, instruction, mirror_horizontal);
    let (f, carry) = spec_define_1(f, cur as int, Definition1::Flag(CpuFlag::Carry));
    let (f, result) = spec_define_8(
        f,
        cur as int,
        Definition8::Sum { operand_0: a, operand_1: operand, operand_carry: carry },
    );
    let (f, result_carry) = spec_define_1(
        f,
        cur as int,
        Definition1::SumCarry { operand_0: a, operand_1: operand, operand_carry: carry },
    );
    let (f, result_overflow) = spec_define_1(
        f,
        cur as int,
        Definition1::SumOverflow { operand_0: a, operand_1: operand, operand_carry: carry },
    );
    let f = spec_store_8(f, cur as int, Destination8::Register(Register8::A), result);
    let f = spec_store_1(f, cur as int, Destination1::Flag(CpuFlag::Carry), result_carry);
    let f = spec_store_1(f, cur as int, Destination1::Flag(CpuFlag::Overflow), result_overflow);
    let f = spec_set_nz(f, cur, result);
    (f, cur, None)
}

/// What the SBC emitter builds.
#[verifier::opaque]
pub open spec fn spec_emit_sbc(
    f: FunctionV,
    cur: usize,
    instruction: Instruction,
    mirror_horizontal: bool,
) -> (FunctionV, usize, Option<Variable16>) {
    let (f, a) = spec_define_8(f, cur as int, Definition8::Register(Register8::A));
    let (f, cur, operand) = spec_read_operand_u8(f, cur, instruction, mirror_horizontal);
    let (f, carry) = spec_define_1(f, cur as int, Definition1::Flag(CpuFlag::Carry));
    let (f, borrow) = spec_define_1(f, cur as int, Definition1::Not(carry));
    let (f, result) = spec_define_8(
        f,
        cur as int,
        Definition8::Difference { operand_0: a, operand_1: operand, operand_borrow: borrow },
    );
    let (f, result_borrow) = spec_define_1(
        f,
        cur as int,
        Definition1::DifferenceBorrow { operand_0: a, operand_1: operand, operand_borrow: borrow },
    );
    let (f, result_carry) = spec_define_1(f, cur as int, Definition1::Not(result_borrow));
    let (f, result_overflow) = spec_define_1(
        f,
        cur as int,
        Definition1::DifferenceOverflow {
            operand_0: a,
            operand_1: operand,
            operand_borrow: borrow,
        },
    );
    let f = spec_store_8(f, cur as int, Destination8::Register(Register8::A), result);
    let f = spec_store_1(f, cur as int, Destination1::Flag(CpuFlag::Carry), result_carry);
    let f = spec_store_1(f, cur as int, Destination1::Flag(CpuFlag::Overflow), result_overflow);
    let f = spec_set_nz(f, cur, result);
    (f, cur, None)
}

/// What the AND, EOR and ORA emitter builds.
#[verifier::opaque]
pub open spec fn spec_emit_binary_logic(
    f: FunctionV,
    cur: usize,
    instruction: Instruction,
    mirror_horizontal: bool,
) -> (FunctionV, usize, Option<Variable16>) {
    let (f, a) = spec_define_8(f, cur as int, Definition8::Register(Register8::A));
    let (f, cur, operand) = spec_read_operand_u8(f, cur, instruction, mirror_horizontal);
    let definition = match instruction.operation.mnemonic {
        Mnemonic::And => Definition8::And(a, operand),
        Mnemonic::Eor => Definition8::Xor(a, operand),
        _ => Definition8::Or(a, operand),
    };
    let (f, result) = spec_define_8(f, cur as int, definition);
    let f = spec_store_8(f, cur as int, Destination8::Register(Register8::A), result);
    let f = spec_set_nz(f, cur, result);
    (f, cur, None)
}

/// What the ASL, LSR, ROL and ROR emitter builds.
#[verifier::opaque]
pub open spec fn spec_emit_shift(
    f: FunctionV,
    cur: usize,
    instruction: Instruction,
    mirror_horizontal: bool,
) -> (FunctionV, usize, Option<Variable16>) {
    let mnemonic = instruction.operation.mnemonic;
    let (f, cur, operand) = spec_read_operand_u8(f, cur, instruction, mirror_horizontal);
    let (f, carry_in) = match mnemonic {
        Mnemonic::Rol | Mnemonic::Ror => spec_define_1(
            f,
            cur as int,
            Definition1::Flag(CpuFlag::Carry),
        ),
        _ => spec_define_1(f, cur as int, Definition1::Immediate(false)),
    };
    let (f, result) = match mnemonic {
        Mnemonic::Asl | Mnemonic::Rol => spec_define_8(
            f,
            cur as int,
            Definition8::RotateLeft { operand, operand_carry: carry_in },
        ),
        _ => spec_define_8(
            f,
            cur as int,
            Definition8::RotateRight { operand, operand_carry: carry_in },
        ),
    };
    let carry_bit: u8 = match mnemonic {
        Mnemonic::Asl | Mnemonic::Rol => 7,
        _ => 0,
    };
    let (f, result_carry) = spec_define_1(
        f,
        cur as int,
        Definition1::U8Bit { operand, index: carry_bit },
    );
    let (f, cur) = spec_write_operand_u8(f, cur, instruction, result, mirror_horizontal);
    let f = spec_store_1(f, cur as int, Destination1::Flag(CpuFlag::Carry), result_carry);
    let f = spec_set_nz(f, cur, result);
    (f, cur, None)
}

/// What the conditional-branch emitter builds.
#[verifier::opaque]
pub open spec fn spec_emit_branch(
    f: FunctionV,
    cur: usize,
    instruction: Instruction,
    mirror_horizontal: bool,
) -> (FunctionV, usize, Option<Variable16>) {
    let mnemonic = instruction.operation.mnemonic;
    let flag = match mnemonic {
        Mnemonic::Bcc | Mnemonic::Bcs => CpuFlag::Carry,
        Mnemonic::Beq | Mnemonic::Bne => CpuFlag::Zero,
        Mnemonic::Bmi | Mnemonic::Bpl => CpuFlag::Negative,
        _ => CpuFlag::Overflow,
    };
    let (f, flag_value) = spec_define_1(f, cur as int, Definition1::Flag(flag));
    let (f, condition) = match mnemonic {
        Mnemonic::Bcc | Mnemonic::Bne | Mnemonic::Bpl | Mnemonic::Bvc => spec_define_1(
            f,
            cur as int,
            Definition1::Not(flag_value),
        ),
        _ => (f, flag_value),
    };
    let (f, cur, taken) = spec_read_operand_u16(f, cur, instruction, mirror_horizontal);
    let (f, not_taken) = spec_define_16(
        f,
        cur as int,
        Definition16::Immediate(instruction.spec_address_end()),
    );
    let (f, target) = spec_define_16(
        f,
        cur as int,
        Definition16::Select { condition, result_if_true: taken, result_if_false: not_taken },
    );
    (f, cur, Some(target))
}

/// What the BIT emitter builds.
#[verifier::opaque]
pub open spec fn spec_emit_bit(
    f: FunctionV,
    cur: usize,
    instruction: Instruction,
    mirror_horizontal: bool,
) -> (FunctionV, usize, Option<Variable16>) {
    let (f, cur, operand) = spec_read_operand_u8(f, cur, instruction, mirror_horizontal);
    let (f, n) = spec_define_1(f, cur as int, Definition1::U8Bit { operand, index: 7 });
    let (f, v) = spec_define_1(f, cur as int, Definition1::U8Bit { operand, index: 6 });
    let (f, a) = spec_define_8(f, cur as int, Definition8::Register(Register8::A));
    let (f, masked) = spec_define_8(f, cur as int, Definition8::And(a, operand));
    let (f, z) = spec_define_1(f, cur as int, Definition1::EqualToZero(masked));
    let f = spec_store_1(f, cur as int, Destination1::Flag(CpuFlag::Negative), n);
    let f = spec_store_1(f, cur as int, Destination1::Flag(CpuFlag::Overflow), v);
    let f = spec_store_1(f, cur as int, Destination1::Flag(CpuFlag::Zero), z);
    (f, cur, None)
}

/// What the BRK emitter builds.
#[verifier::opaque]
pub open spec fn spec_emit_brk(f: FunctionV, cur: usize, mirror_horizontal: bool) -> (
    FunctionV,
    usize,
    Option<Variable16>,
) {
    let (f, always) = spec_define_1(f, cur as int, Definition1::Immediate(true));
    let (f, pc) = spec_define_16(f, cur as int, Definition16::Pc);
    let (f, two) = spec_define_16(f, cur as int, Definition16::Immediate(2));
    let (f, pc_plus_two) = spec_define_16(f, cur as int, Definition16::Add(pc, two));
    let (f, vector) = spec_define_16(f, cur as int, Definition16::Immediate(0xfffe));
    let (f, cur, handler) = spec_read_u16_deref(f, cur, vector, mirror_horizontal);
    let f = spec_store_1(f, cur as int, Destination1::Flag(CpuFlag::Unused), always);
    let f = spec_store_1(f, cur as int, Destination1::Flag(CpuFlag::Break), always);
    let (f, p) = spec_define_8(f, cur as int, Definition8::Register(Register8::P));
    let f = spec_store_1(f, cur as int, Destination1::Flag(CpuFlag::InterruptDisable), always);
    let (f, cur) = spec_push_u16(f, cur, pc_plus_two, mirror_horizontal);
    let (f, cur) = spec_push_u8(f, cur, p, mirror_horizontal);
    (f, cur, Some(handler))
}

/// What the flag set and clear emitter builds.
#[verifier::opaque]
pub open spec fn spec_emit_flag_write(f: FunctionV, cur: usize, instruction: Instruction) -> (
    FunctionV,
    usize,
    Option<Variable16>,
) {
    let mnemonic = instruction.operation.mnemonic;
    let flag = match mnemonic {
        Mnemonic::Clc | Mnemonic::Sec => CpuFlag::Carry,
        Mnemonic::Cld | Mnemonic::Sed => CpuFlag::Decimal,
        Mnemonic::Cli | Mnemonic::Sei => CpuFlag::InterruptDisable,
        _ => CpuFlag::Overflow,
    };
    let (f, value) = match mnemonic {
        Mnemonic::Sec | Mnemonic::Sed | Mnemonic::Sei => spec_define_1(
            f,
            cur as int,
            Definition1::Immediate(true),
        ),
        _ => spec_define_1(f, cur as int, Definition1::Immediate(false)),
    };
    let f = spec_store_1(f, cur as int, Destination1::Flag(flag), value);
    (f, cur, None)
}

/// What the CMP, CPX and CPY emitter builds.
#[verifier::opaque]
pub open spec fn spec_emit_compare(
    f: FunctionV,
    cur: usize,
    instruction: Instruction,
    mirror_horizontal: bool,
) -> (FunctionV, usize, Option<Variable16>) {
    let register = match instruction.operation.mnemonic {
        Mnemonic::Cmp => Register8::A,
        Mnemonic::Cpx => Register8::X,
        _ => Register8::Y,
    };
    let (f, lhs) = spec_define_8(f, cur as int, Definition8::Register(register));
    let (f, cur, operand) = spec_read_operand_u8(f, cur, instruction, mirror_horizontal);
    let (f, no_borrow) = spec_define_1(f, cur as int, Definition1::Immediate(false));
    let (f, result) = spec_define_8(
        f,
        cur as int,
        Definition8::Difference { operand_0: lhs, operand_1: operand, operand_borrow: no_borrow },
    );
    let (f, borrow) = spec_define_1(
        f,
        cur as int,
        Definition1::DifferenceBorrow {
            operand_0: lhs,
            operand_1: operand,
            operand_borrow: no_borrow,
        },
    );
    let (f, carry) = spec_define_1(f, cur as int, Definition1::Not(borrow));
    let f = spec_store_1(f, cur as int, Destination1::Flag(CpuFlag::Carry), carry);
    let f = spec_set_nz(f, cur, result);
    (f, cur, None)
}

/// What the INC and DEC emitter builds.
#[verifier::opaque]
pub open spec fn spec_emit_memory_step(
    f: FunctionV,
    cur: usize,
    instruction: Instruction,
    mirror_horizontal: bool,
) -> (FunctionV, usize, Option<Variable16>) {
    let (f, cur, operand) = spec_read_operand_u8(f, cur, instruction, mirror_horizontal);
    let (f, one) = spec_define_8(f, cur as int, Definition8::Immediate(1));
    let (f, no_carry) = spec_define_1(f, cur as int, Definition1::Immediate(false));
    let (f, result) = match instruction.operation.mnemonic {
        Mnemonic::Inc => spec_define_8(
            f,
            cur as int,
            Definition8::Sum { operand_0: operand, operand_1: one, operand_carry: no_carry },
        ),
        _ => spec_define_8(
            f,
            cur as int,
            Definition8::Difference { operand_0: operand, operand_1: one, operand_borrow: no_carry },
        ),
    };
    let (f, cur) = spec_write_operand_u8(f, cur, instruction, result, mirror_horizontal);
    let f = spec_set_nz(f, cur, result);
    (f, cur, None)
}

/// What the INX, DEX, INY and DEY emitter builds.
#[verifier::opaque]
pub open spec fn spec_emit_register_step(f: FunctionV, cur: usize, instruction: Instruction) -> (
    FunctionV,
    usize,
    Option<Variable16>,
) {
    let mnemonic = instruction.operation.mnemonic;
    let register = match mnemonic {
        Mnemonic::Inx | Mnemonic::Dex => Register8::X,
        _ => Register8::Y,
    };
    let (f, value) = spec_define_8(f, cur as int, Definition8::Register(register));
    let (f, one) = spec_define_8(f, cur as int, Definition8::Immediate(1));
    let (f, no_carry) = spec_define_1(f, cur as int, Definition1::Immediate(false));
    let (f, result) = match mnemonic {
        Mnemonic::Inx | Mnemonic::Iny => spec_define_8(
            f,
            cur as int,
            Definition8::Sum { operand_0: value, operand_1: one, operand_carry: no_carry },
        ),
        _ => spec_define_8(
            f,
            cur as int,
            Definition8::Difference { operand_0: value, operand_1: one, operand_borrow: no_carry },
        ),
    };
    let f = spec_store_8(f, cur as int, Destination8::Register(register), result);
    let f = spec_set_nz(f, cur, result);
    (f, cur, None)
}

/// What the JMP emitter builds.
#[verifier::opaque]
pub open spec fn spec_emit_jmp(
    f: FunctionV,
    cur: usize,
    instruction: Instruction,
    mirror_horizontal: bool,
) -> (FunctionV, usize, Option<Variable16>) {
    let (f, cur, address) = spec_read_operand_u16(f, cur, instruction, mirror_horizontal);
    (f, cur, Some(address))
}

/// What the JSR emitter builds.
#[verifier::opaque]
pub open spec fn spec_emit_jsr(
    f: FunctionV,
    cur: usize,
    instruction: Instruction,
    mirror_horizontal: bool,
) -> (FunctionV, usize, Option<Variable16>) {
    let (f, pc) = spec_define_16(f, cur as int, Definition16::Pc);
    let (f, two) = spec_define_16(f, cur as int, Definition16::Immediate(2));
    let (f, pc_plus_two) = spec_define_16(f, cur as int, Definition16::Add(pc, two));
    let (f, cur, address) = spec_read_operand_u16(f, cur, instruction, mirror_horizontal);
    let (f, cur) = spec_push_u16(f, cur, pc_plus_two, mirror_horizontal);
    (f, cur, Some(address))
}

/// What the LDA, LDX and LDY emitter builds.
#[verifier::opaque]
pub open spec fn spec_emit_load(
    f: FunctionV,
    cur: usize,
    instruction: Instruction,
    mirror_horizontal: bool,
) -> (FunctionV, usize, Option<Variable16>) {
    let register = match instruction.operation.mnemonic {
        Mnemonic::Lda => Register8::A,
        Mnemonic::Ldx => Register8::X,
        _ => Register8::Y,
    };
    let (f, cur, result) = spec_read_operand_u8(f, cur, instruction, mirror_horizontal);
    let f = spec_store_8(f, cur as int, Destination8::Register(register), result);
    let f = spec_set_nz(f, cur, result);
    (f, cur, None)
}

/// What the STA, STX and STY emitter builds.
#[verifier::opaque]
pub open spec fn spec_emit_store(
    f: FunctionV,
    cur: usize,
    instruction: Instruction,
    mirror_horizontal: bool,
) -> (FunctionV, usize, Option<Variable16>) {
    let register = match instruction.operation.mnemonic {
        Mnemonic::Sta => Register8::A,
        Mnemonic::Stx => Register8::X,
        _ => Register8::Y,
    };
    let (f, value) = spec_define_8(f, cur as int, Definition8::Register(register));
    let (f, cur) = spec_write_operand_u8(f, cur, instruction, value, mirror_horizontal);
    (f, cur, None)
}

/// What the PHA emitter builds.
#[verifier::opaque]
pub open spec fn spec_emit_pha(f: FunctionV, cur: usize, mirror_horizontal: bool) -> (
    FunctionV,
    usize,
    Option<Variable16>,
) {
    let (f, a) = spec_define_8(f, cur as int, Definition8::Register(Register8::A));
    let (f, cur) = spec_push_u8(f, cur, a, mirror_horizontal);
    (f, cur, None)
}

/// What the PHP emitter builds.
#[verifier::opaque]
pub open spec fn spec_emit_php(f: FunctionV, cur: usize, mirror_horizontal: bool) -> (
    FunctionV,
    usize,
    Option<Variable16>,
) {
    let (f, mask) = spec_define_8(f, cur as int, Definition8::Immediate(0x30));
    let (f, p) = spec_define_8(f, cur as int, Definition8::Register(Register8::P));
    let (f, value) = spec_define_8(f, cur as int, Definition8::Or(p, mask));
    let (f, cur) = spec_push_u8(f, cur, value, mirror_horizontal);
    (f, cur, None)
}

/// What the PLA emitter builds.
#[verifier::opaque]
pub open spec fn spec_emit_pla(f: FunctionV, cur: usize, mirror_horizontal: bool) -> (
    FunctionV,
    usize,
    Option<Variable16>,
) {
    let (f, cur, value) = spec_pop_u8(f, cur, mirror_horizontal);
    let f = spec_store_8(f, cur as int, Destination8::Register(Register8::A), value);
    let f = spec_set_nz(f, cur, value);
    (f, cur, None)
}

/// What the PLP emitter builds.
#[verifier::opaque]
pub open spec fn spec_emit_plp(f: FunctionV, cur: usize, mirror_horizontal: bool) -> (
    FunctionV,
    usize,
    Option<Variable16>,
) {
    let (f, b) = spec_define_1(f, cur as int, Definition1::Flag(CpuFlag::Break));
    let (f, unused) = spec_define_1(f, cur as int, Definition1::Flag(CpuFlag::Unused));
    let (f, cur, value) = spec_pop_u8(f, cur, mirror_horizontal);
    let f = spec_store_8(f, cur as int, Destination8::Register(Register8::P), value);
    let f = spec_store_1(f, cur as int, Destination1::Flag(CpuFlag::Break), b);
    let f = spec_store_1(f, cur as int, Destination1::Flag(CpuFlag::Unused), unused);
    (f, cur, None)
}

/// What the RTI emitter builds.
#[verifier::opaque]
pub open spec fn spec_emit_rti(f: FunctionV, cur: usize, mirror_horizontal: bool) -> (
    FunctionV,
    usize,
    Option<Variable16>,
) {
    let (f, b) = spec_define_1(f, cur as int, Definition1::Flag(CpuFlag::Break));
    let (f, unused) = spec_define_1(f, cur as int, Definition1::Flag(CpuFlag::Unused));
    let (f, cur, p) = spec_pop_u8(f, cur, mirror_horizontal);
    let (f, cur, return_address) = spec_pop_u16(f, cur, mirror_horizontal);
    let f = spec_store_8(f, cur as int, Destination8::Register(Register8::P), p);
    let f = spec_store_1(f, cur as int, Destination1::Flag(CpuFlag::Break), b);
    let f = spec_store_1(f, cur as int, Destination1::Flag(CpuFlag::Unused), unused);
    (f, cur, Some(return_address))
}

/// What the RTS emitter builds.
#[verifier::opaque]
pub open spec fn spec_emit_rts(f: FunctionV, cur: usize, mirror_horizontal: bool) -> (
    FunctionV,
    usize,
    Option<Variable16>,
) {
    let (f, cur, return_address_minus_1) = spec_pop_u16(f, cur, mirror_horizontal);
    let (f, one) = spec_define_16(f, cur as int, Definition16::Immediate(1));
    let (f, return_address) = spec_define_16(
        f,
        cur as int,
        Definition16::Add(return_address_minus_1, one),
    );
    (f, cur, Some(return_address))
}

/// What the register-transfer emitter builds.
#[verifier::opaque]
pub open spec fn spec_emit_transfer(f: FunctionV, cur: usize, instruction: Instruction) -> (
    FunctionV,
    usize,
    Option<Variable16>,
) {
    let mnemonic = instruction.operation.mnemonic;
    let source = match mnemonic {
        Mnemonic::Tax | Mnemonic::Tay => Register8::A,
        Mnemonic::Tsx => Register8::S,
        Mnemonic::Txa | Mnemonic::Txs => Register8::X,
        _ => Register8::Y,
    };
    let target = match mnemonic {
        Mnemonic::Tax | Mnemonic::Tsx => Register8::X,
        Mnemonic::Tay => Register8::Y,
        Mnemonic::Txa | Mnemonic::Tya => Register8::A,
        _ => Register8::S,
    };
    let (f, value) = spec_define_8(f, cur as int, Definition8::Register(source));
    let f = spec_store_8(f, cur as int, Destination8::Register(target), value);
    let f = if mnemonic != Mnemonic::Txs {
        spec_set_nz(f, cur, value)
    } else {
        f
    };
    (f, cur, None)
}

/// The IR function the transpiler builds for one decoded instruction: the
/// whole output is a function of the instruction and the cartridge's fixed
/// mirroring flag alone.
#[verifier::opaque]
pub open spec fn spec_transpile(instruction: Instruction, mirror_horizontal: bool) -> FunctionV {
    let f = spec_new_function();
    let staged = match instruction.operation.mnemonic {
        Mnemonic::Adc => spec_emit_adc(f, 0, instruction, mirror_horizontal),
        Mnemonic::And => spec_emit_binary_logic(f, 0, instruction, mirror_horizontal),
        Mnemonic::Asl => spec_emit_shift(f, 0, instruction, mirror_horizontal),
        Mnemonic::Bcc => spec_emit_branch(f, 0, instruction, mirror_horizontal),
        Mnemonic::Bcs => spec_emit_branch(f, 0, instruction, mirror_horizontal),
        Mnemonic::Beq => spec_emit_branch(f, 0, instruction, mirror_horizontal),
        Mnemonic::Bit => spec_emit_bit(f, 0, instruction, mirror_horizontal),
        Mnemonic::Bmi => spec_emit_branch(f, 0, instruction, mirror_horizontal),
        Mnemonic::Bne => spec_emit_branch(f, 0, instruction, mirror_horizontal),
        Mnemonic::Bpl => spec_emit_branch(f, 0, instruction, mirror_horizontal),
        Mnemonic::Brk => spec_emit_brk(f, 0, mirror_horizontal),
        Mnemonic::Bvc => spec_emit_branch(f, 0, instruction, mirror_horizontal),
        Mnemonic::Bvs => spec_emit_branch(f, 0, instruction, mirror_horizontal),
        Mnemonic::Clc => spec_emit_flag_write(f, 0, instruction),
        Mnemonic::Cld => spec_emit_flag_write(f, 0, instruction),
        Mnemonic::Cli => spec_emit_flag_write(f, 0, instruction),
        Mnemonic::Clv => spec_emit_flag_write(f, 0, instruction),
        Mnemonic::Cmp => spec_emit_compare(f, 0, instruction, mirror_horizontal),
        Mnemonic::Cpx => spec_emit_compare(f, 0, instruction, mirror_horizontal),
        Mnemonic::Cpy => spec_emit_compare(f, 0, instruction, mirror_horizontal),
        Mnemonic::Dec => spec_emit_memory_step(f, 0, instruction, mirror_horizontal),
        Mnemonic::Dex => spec_emit_register_step(f, 0, instruction),
        Mnemonic::Dey => spec_emit_register_step(f, 0, instruction),
        Mnemonic::Eor => spec_emit_binary_logic(f, 0, instruction, mirror_horizontal),
        Mnemonic::Inc => spec_emit_memory_step(f, 0, instruction, mirror_horizontal),
        Mnemonic::Inx => spec_emit_register_step(f, 0, instruction),
        Mnemonic::Iny => spec_emit_register_step(f, 0, instruction),
        Mnemonic::Jmp => spec_emit_jmp(f, 0, instruction, mirror_horizontal),
        Mnemonic::Jsr => spec_emit_jsr(f, 0, instruction, mirror_horizontal),
        Mnemonic::Lda => spec_emit_load(f, 0, instruction, mirror_horizontal),
        Mnemonic::Ldx => spec_emit_load(f, 0, instruction, mirror_horizontal),
        Mnemonic::Ldy => spec_emit_load(f, 0, instruction, mirror_horizontal),
        Mnemonic::Lsr => spec_emit_shift(f, 0, instruction, mirror_horizontal),
        Mnemonic::Nop => (f, 0usize, None),
        Mnemonic::Ora => spec_emit_binary_logic(f, 0, instruction, mirror_horizontal),
        Mnemonic::Pha => spec_emit_pha(f, 0, mirror_horizontal),
        Mnemonic::Php => spec_emit_php(f, 0, mirror_horizontal),
        Mnemonic::Pla => spec_emit_pla(f, 0, mirror_horizontal),
        Mnemonic::Plp => spec_emit_plp(f, 0, mirror_horizontal),
        Mnemonic::Rol => spec_emit_shift(f, 0, instruction, mirror_horizontal),
        Mnemonic::Ror => spec_emit_shift(f, 0, instruction, mirror_horizontal),
        Mnemonic::Rti => spec_emit_rti(f, 0, mirror_horizontal),
        Mnemonic::Rts => spec_emit_rts(f, 0, mirror_horizontal),
        Mnemonic::Sbc => spec_emit_sbc(f, 0, instruction, mirror_horizontal),
        Mnemonic::Sec => spec_emit_flag_write(f, 0, instruction),
        Mnemonic::Sed => spec_emit_flag_write(f, 0, instruction),
        Mnemonic::Sei => spec_emit_flag_write(f, 0, instruction),
        Mnemonic::Sta => spec_emit_store(f, 0, instruction, mirror_horizontal),
        Mnemonic::Stx => spec_emit_store(f, 0, instruction, mirror_horizontal),
        Mnemonic::Sty => spec_emit_store(f, 0, instruction, mirror_horizontal),
        Mnemonic::Tax => spec_emit_transfer(f, 0, instruction),
        Mnemonic::Tay => spec_emit_transfer(f, 0, instruction),
        Mnemonic::Tsx => spec_emit_transfer(f, 0, instruction),
        Mnemonic::Txa => spec_emit_transfer(f, 0, instruction),
        Mnemonic::Txs => spec_emit_transfer(f, 0, instruction),
        Mnemonic::Tya => spec_emit_transfer(f, 0, instruction),
        Mnemonic::Unimplemented => (f, 0usize, None),
    };
    let f = staged.0;
    let cur = staged.1;
    let with_pc = match staged.2 {
        Some(v) => (f, v),
        None => spec_define_16(
            f,
            cur as int,
            Definition16::Immediate(instruction.spec_address_end()),
        ),
    };
    spec_store_16(with_pc.0, cur as int, Destination16::Pc, with_pc.1)
}

/// The IR fragment the whole front end produces at one guest address: the
/// transpilation of the instruction decoded there, specialized to the
/// cartridge's fixed mirroring flag.
pub open spec fn spec_compile_at(v: NesV, address: u16) -> FunctionV {
    spec_transpile(
        crate::instruction_decoder::spec_decode(v, address),
        v.mirror_horizontal,
    )
}

/// Every fragment ends the same way: its final block closes with a store of
/// the next program counter and a return.
pub open spec fn fragment_writes_pc_and_returns(f: crate::ir::FunctionV) -> bool {
    let last = f.basic_blocks[f.basic_blocks.len() - 1];
    &&& f.basic_blocks.len() >= 1
    &&& last.jump == Jump::Return
    &&& last.instructions.len() >= 1
    &&& last.instructions.last() matches crate::ir::Instruction::Store16 {
        destination: Destination16::Pc,
        ..
    }
}

/// ADC: carry-propagated sum into A; writes C, V, N and Z.
fn emit_adc(f: &mut Function, cur: usize, instruction: Instruction, mirror_horizontal: bool) -> (r: (usize, Option<Variable16>))
    requires
        old(f).wf(),
        cur == old(f)@.basic_blocks.len() - 1,
        old(f)@.basic_blocks[cur as int].jump == Jump::Return,
        instruction.operation.mnemonic == Mnemonic::Adc,
        readable_mode(instruction.operation.addressing_mode),
        old(f)@.variable_id_counter + 65536 <= usize::MAX,
    ensures
        final(f).wf(),
        old(f)@.variable_id_counter <= final(f)@.variable_id_counter,
        final(f)@.variable_id_counter <= old(f)@.variable_id_counter + 65536,
        r.0 == final(f)@.basic_blocks.len() - 1,
        final(f)@.basic_blocks[r.0 as int].jump == Jump::Return,
        (match r.1 {
            Some(v) => v.id < final(f)@.variable_id_counter,
            None => true,
        }),
        final(f)@ == spec_emit_adc(old(f)@, cur, instruction, mirror_horizontal).0,
        r.0 == spec_emit_adc(old(f)@, cur, instruction, mirror_horizontal).1,
        r.1 == spec_emit_adc(old(f)@, cur, instruction, mirror_horizontal).2,
        (match r.1 {
            Some(v) => forall|b2: int|
                r.0 as int <= b2 ==> #[trigger] defined_in_prefix(
                    final(f)@,
                    b2,
                    v.id as int,
                ),
            None => true,
        }),
        cur <= r.0,
{
    proof {
        reveal(spec_emit_adc);
    }
    let a = f.define_8(cur, Definition8::Register(Register8::A));
    let (cur, operand) = read_operand_u8(f, cur, instruction, mirror_horizontal);
    let carry = f.define_1(cur, Definition1::Flag(CpuFlag::Carry));
    let result = f.define_8(
        cur,
        Definition8::Sum { operand_0: a, operand_1: operand, operand_carry: carry },
    );
    let result_carry = f.define_1(
        cur,
        Definition1::SumCarry { operand_0: a, operand_1: operand, operand_carry: carry },
    );
    let result_overflow = f.define_1(
        cur,
        Definition1::SumOverflow { operand_0: a, operand_1: operand, operand_carry: carry },
    );
    f.store_8(cur, Destination8::Register(Register8::A), result);
    f.store_1(cur, Destination1::Flag(CpuFlag::Carry), result_carry);
    f.store_1(cur, Destination1::Flag(CpuFlag::Overflow), result_overflow);
    set_nz(f, cur, result);
    (cur, None)
}

/// SBC: borrow-propagated difference into A; writes C, V, N and Z.
fn emit_sbc(f: &mut Function, cur: usize, instruction: Instruction, mirror_horizontal: bool) -> (r: (usize, Option<Variable16>))
    requires
        old(f).wf(),
        cur == old(f)@.basic_blocks.len() - 1,
        old(f)@.basic_blocks[cur as int].jump == Jump::Return,
        instruction.operation.mnemonic == Mnemonic::Sbc,
        readable_mode(instruction.operation.addressing_mode),
        old(f)@.variable_id_counter + 65536 <= usize::MAX,
    ensures
        final(f).wf(),
        old(f)@.variable_id_counter <= final(f)@.variable_id_counter,
        final(f)@.variable_id_counter <= old(f)@.variable_id_counter + 65536,
        r.0 == final(f)@.basic_blocks.len() - 1,
        final(f)@.basic_blocks[r.0 as int].jump == Jump::Return,
        (match r.1 {
            Some(v) => v.id < final(f)@.variable_id_counter,
            None => true,
        }),
        final(f)@ == spec_emit_sbc(old(f)@, cur, instruction, mirror_horizontal).0,
        r.0 == spec_emit_sbc(old(f)@, cur, instruction, mirror_horizontal).1,
        r.1 == spec_emit_sbc(old(f)@, cur, instruction, mirror_horizontal).2,
        (match r.1 {
            Some(v) => forall|b2: int|
                r.0 as int <= b2 ==> #[trigger] defined_in_prefix(
                    final(f)@,
                    b2,
                    v.id as int,
                ),
            None => true,
        }),
        cur <= r.0,
{
    proof {
        reveal(spec_emit_sbc);
    }
    let a = f.define_8(cur, Definition8::Register(Register8::A));
    let (cur, operand) = read_operand_u8(f, cur, instruction, mirror_horizontal);
    let carry = f.define_1(cur, Definition1::Flag(CpuFlag::Carry));
    let borrow = f.define_1(cur, Definition1::Not(carry));
    let result = f.define_8(
        cur,
        Definition8::Difference { operand_0: a, operand_1: operand, operand_borrow: borrow },
    );
    let result_borrow = f.define_1(
        cur,
        Definition1::DifferenceBorrow { operand_0: a, operand_1: operand, operand_borrow: borrow },
    );
    let result_carry = f.define_1(cur, Definition1::Not(result_borrow));
    let result_overflow = f.define_1(
        cur,
        Definition1::DifferenceOverflow {
            operand_0: a,
            operand_1: operand,
            operand_borrow: borrow,
        },
    );
    f.store_8(cur, Destination8::Register(Register8::A), result);
    f.store_1(cur, Destination1::Flag(CpuFlag::Carry), result_carry);
    f.store_1(cur, Destination1::Flag(CpuFlag::Overflow), result_overflow);
    set_nz(f, cur, result);
    (cur, None)
}

/// AND, EOR and ORA: bitwise combination into A; updates N and Z.
fn emit_binary_logic(f: &mut Function, cur: usize, instruction: Instruction, mirror_horizontal: bool) -> (r: (usize, Option<Variable16>))
    requires
        old(f).wf(),
        cur == old(f)@.basic_blocks.len() - 1,
        old(f)@.basic_blocks[cur as int].jump == Jump::Return,
        instruction.operation.mnemonic == Mnemonic::And || instruction.operation.mnemonic == Mnemonic::Eor || instruction.operation.mnemonic == Mnemonic::Ora,
        readable_mode(instruction.operation.addressing_mode),
        old(f)@.variable_id_counter + 65536 <= usize::MAX,
    ensures
        final(f).wf(),
        old(f)@.variable_id_counter <= final(f)@.variable_id_counter,
        final(f)@.variable_id_counter <= old(f)@.variable_id_counter + 65536,
        r.0 == final(f)@.basic_blocks.len() - 1,
        final(f)@.basic_blocks[r.0 as int].jump == Jump::Return,
        (match r.1 {
            Some(v) => v.id < final(f)@.variable_id_counter,
            None => true,
        }),
        final(f)@ == spec_emit_binary_logic(old(f)@, cur, instruction, mirror_horizontal).0,
        r.0 == spec_emit_binary_logic(old(f)@, cur, instruction, mirror_horizontal).1,
        r.1 == spec_emit_binary_logic(old(f)@, cur, instruction, mirror_horizontal).2,
        (match r.1 {
            Some(v) => forall|b2: int|
                r.0 as int <= b2 ==> #[trigger] defined_in_prefix(
                    final(f)@,
                    b2,
                    v.id as int,
                ),
            None => true,
        }),
        cur <= r.0,
{
    proof {
        reveal(spec_emit_binary_logic);
    }
    let a = f.define_8(cur, Definition8::Register(Register8::A));
    let (cur, operand) = read_operand_u8(f, cur, instruction, mirror_horizontal);
    let definition = match instruction.operation().mnemonic() {
        Mnemonic::And => Definition8::And(a, operand),
        Mnemonic::Eor => Definition8::Xor(a, operand),
        _ => Definition8::Or(a, operand),
    };
    let result = f.define_8(cur, definition);
    f.store_8(cur, Destination8::Register(Register8::A), result);
    set_nz(f, cur, result);
    (cur, None)
}

/// ASL, LSR, ROL and ROR: shift or rotate the operand by one through the
/// carry; the shifted-out bit becomes C, and N and Z track the result.
fn emit_shift(f: &mut Function, cur: usize, instruction: Instruction, mirror_horizontal: bool) -> (r: (usize, Option<Variable16>))
    requires
        old(f).wf(),
        cur == old(f)@.basic_blocks.len() - 1,
        old(f)@.basic_blocks[cur as int].jump == Jump::Return,
        instruction.operation.mnemonic == Mnemonic::Asl || instruction.operation.mnemonic == Mnemonic::Lsr || instruction.operation.mnemonic == Mnemonic::Rol || instruction.operation.mnemonic == Mnemonic::Ror,
        readable_mode(instruction.operation.addressing_mode),
        writable_mode(instruction.operation.addressing_mode),
        old(f)@.variable_id_counter + 65536 <= usize::MAX,
    ensures
        final(f).wf(),
        old(f)@.variable_id_counter <= final(f)@.variable_id_counter,
        final(f)@.variable_id_counter <= old(f)@.variable_id_counter + 65536,
        r.0 == final(f)@.basic_blocks.len() - 1,
        final(f)@.basic_blocks[r.0 as int].jump == Jump::Return,
        (match r.1 {
            Some(v) => v.id < final(f)@.variable_id_counter,
            None => true,
        }),
        final(f)@ == spec_emit_shift(old(f)@, cur, instruction, mirror_horizontal).0,
        r.0 == spec_emit_shift(old(f)@, cur, instruction, mirror_horizontal).1,
        r.1 == spec_emit_shift(old(f)@, cur, instruction, mirror_horizontal).2,
        (match r.1 {
            Some(v) => forall|b2: int|
                r.0 as int <= b2 ==> #[trigger] defined_in_prefix(
                    final(f)@,
                    b2,
                    v.id as int,
                ),
            None => true,
        }),
        cur <= r.0,
{
    proof {
        reveal(spec_emit_shift);
    }
    let mnemonic = instruction.operation().mnemonic();
    let (cur, operand) = read_operand_u8(f, cur, instruction, mirror_horizontal);
    let carry_in = match mnemonic {
        Mnemonic::Rol | Mnemonic::Ror => f.define_1(cur, Definition1::Flag(CpuFlag::Carry)),
        _ => f.define_1(cur, Definition1::Immediate(false)),
    };
    let result = match mnemonic {
        Mnemonic::Asl | Mnemonic::Rol => f.define_8(
            cur,
            Definition8::RotateLeft { operand, operand_carry: carry_in },
        ),
        _ => f.define_8(cur, Definition8::RotateRight { operand, operand_carry: carry_in }),
    };
    let carry_bit: u8 = match mnemonic {
        Mnemonic::Asl | Mnemonic::Rol => 7,
        _ => 0,
    };
    let result_carry = f.define_1(cur, Definition1::U8Bit { operand, index: carry_bit });
    let cur = write_operand_u8(f, cur, instruction, result, mirror_horizontal);
    f.store_1(cur, Destination1::Flag(CpuFlag::Carry), result_carry);
    set_nz(f, cur, result);
    (cur, None)
}

/// The eight conditional branches: the next program counter is selected
/// between the relative target and the fall-through address.
fn emit_branch(f: &mut Function, cur: usize, instruction: Instruction, mirror_horizontal: bool) -> (r: (usize, Option<Variable16>))
    requires
        old(f).wf(),
        cur == old(f)@.basic_blocks.len() - 1,
        old(f)@.basic_blocks[cur as int].jump == Jump::Return,
        instruction.operation.mnemonic == Mnemonic::Bcc || instruction.operation.mnemonic == Mnemonic::Bcs || instruction.operation.mnemonic == Mnemonic::Beq || instruction.operation.mnemonic == Mnemonic::Bmi || instruction.operation.mnemonic == Mnemonic::Bne || instruction.operation.mnemonic == Mnemonic::Bpl || instruction.operation.mnemonic == Mnemonic::Bvc || instruction.operation.mnemonic == Mnemonic::Bvs,
        u16_operand_mode(instruction.operation.addressing_mode),
        old(f)@.variable_id_counter + 65536 <= usize::MAX,
    ensures
        final(f).wf(),
        old(f)@.variable_id_counter <= final(f)@.variable_id_counter,
        final(f)@.variable_id_counter <= old(f)@.variable_id_counter + 65536,
        r.0 == final(f)@.basic_blocks.len() - 1,
        final(f)@.basic_blocks[r.0 as int].jump == Jump::Return,
        (match r.1 {
            Some(v) => v.id < final(f)@.variable_id_counter,
            None => true,
        }),
        final(f)@ == spec_emit_branch(old(f)@, cur, instruction, mirror_horizontal).0,
        r.0 == spec_emit_branch(old(f)@, cur, instruction, mirror_horizontal).1,
        r.1 == spec_emit_branch(old(f)@, cur, instruction, mirror_horizontal).2,
        (match r.1 {
            Some(v) => forall|b2: int|
                r.0 as int <= b2 ==> #[trigger] defined_in_prefix(
                    final(f)@,
                    b2,
                    v.id as int,
                ),
            None => true,
        }),
        cur <= r.0,
{
    proof {
        reveal(spec_emit_branch);
    }
    let mnemonic = instruction.operation().mnemonic();
    let flag = match mnemonic {
        Mnemonic::Bcc | Mnemonic::Bcs => CpuFlag::Carry,
        Mnemonic::Beq | Mnemonic::Bne => CpuFlag::Zero,
        Mnemonic::Bmi | Mnemonic::Bpl => CpuFlag::Negative,
        _ => CpuFlag::Overflow,
    };
    let flag_value = f.define_1(cur, Definition1::Flag(flag));
    let condition = match mnemonic {
        Mnemonic::Bcc | Mnemonic::Bne | Mnemonic::Bpl | Mnemonic::Bvc => f.define_1(
            cur,
            Definition1::Not(flag_value),
        ),
        _ => flag_value,
    };
    let (cur, taken) = read_operand_u16(f, cur, instruction, mirror_horizontal);
    let not_taken = f.define_16(cur, Definition16::Immediate(instruction.address_end()));
    let target = f.define_16(
        cur,
        Definition16::Select {
            condition,
            result_if_true: taken,
            result_if_false: not_taken,
        },
    );
    (cur, Some(target))
}

/// BIT: N and V take bits 7 and 6 of memory, Z tests A AND memory.
fn emit_bit(f: &mut Function, cur: usize, instruction: Instruction, mirror_horizontal: bool) -> (r: (usize, Option<Variable16>))
    requires
        old(f).wf(),
        cur == old(f)@.basic_blocks.len() - 1,
        old(f)@.basic_blocks[cur as int].jump == Jump::Return,
        instruction.operation.mnemonic == Mnemonic::Bit,
        readable_mode(instruction.operation.addressing_mode),
        old(f)@.variable_id_counter + 65536 <= usize::MAX,
    ensures
        final(f).wf(),
        old(f)@.variable_id_counter <= final(f)@.variable_id_counter,
        final(f)@.variable_id_counter <= old(f)@.variable_id_counter + 65536,
        r.0 == final(f)@.basic_blocks.len() - 1,
        final(f)@.basic_blocks[r.0 as int].jump == Jump::Return,
        (match r.1 {
            Some(v) => v.id < final(f)@.variable_id_counter,
            None => true,
        }),
        final(f)@ == spec_emit_bit(old(f)@, cur, instruction, mirror_horizontal).0,
        r.0 == spec_emit_bit(old(f)@, cur, instruction, mirror_horizontal).1,
        r.1 == spec_emit_bit(old(f)@, cur, instruction, mirror_horizontal).2,
        (match r.1 {
            Some(v) => forall|b2: int|
                r.0 as int <= b2 ==> #[trigger] defined_in_prefix(
                    final(f)@,
                    b2,
                    v.id as int,
                ),
            None => true,
        }),
        cur <= r.0,
{
    proof {
        reveal(spec_emit_bit);
    }
    let (cur, operand) = read_operand_u8(f, cur, instruction, mirror_horizontal);
    let n = f.define_1(cur, Definition1::U8Bit { operand, index: 7 });
    let v = f.define_1(cur, Definition1::U8Bit { operand, index: 6 });
    let a = f.define_8(cur, Definition8::Register(Register8::A));
    let masked = f.define_8(cur, Definition8::And(a, operand));
    let z = f.define_1(cur, Definition1::EqualToZero(masked));
    f.store_1(cur, Destination1::Flag(CpuFlag::Negative), n);
    f.store_1(cur, Destination1::Flag(CpuFlag::Overflow), v);
    f.store_1(cur, Destination1::Flag(CpuFlag::Zero), z);
    (cur, None)
}

/// BRK: set I, push the address after the operand then P with B and Unused
/// forced set, and jump through the IRQ vector.
fn emit_brk(f: &mut Function, cur: usize, mirror_horizontal: bool) -> (r: (usize, Option<Variable16>))
    requires
        old(f).wf(),
        cur == old(f)@.basic_blocks.len() - 1,
        old(f)@.basic_blocks[cur as int].jump == Jump::Return,
        old(f)@.variable_id_counter + 65536 <= usize::MAX,
    ensures
        final(f).wf(),
        old(f)@.variable_id_counter <= final(f)@.variable_id_counter,
        final(f)@.variable_id_counter <= old(f)@.variable_id_counter + 65536,
        r.0 == final(f)@.basic_blocks.len() - 1,
        final(f)@.basic_blocks[r.0 as int].jump == Jump::Return,
        (match r.1 {
            Some(v) => v.id < final(f)@.variable_id_counter,
            None => true,
        }),
        final(f)@ == spec_emit_brk(old(f)@, cur, mirror_horizontal).0,
        r.0 == spec_emit_brk(old(f)@, cur, mirror_horizontal).1,
        r.1 == spec_emit_brk(old(f)@, cur, mirror_horizontal).2,
        (match r.1 {
            Some(v) => forall|b2: int|
                r.0 as int <= b2 ==> #[trigger] defined_in_prefix(
                    final(f)@,
                    b2,
                    v.id as int,
                ),
            None => true,
        }),
        cur <= r.0,
{
    proof {
        reveal(spec_emit_brk);
    }
    let always = f.define_1(cur, Definition1::Immediate(true));
    let pc = f.define_16(cur, Definition16::Pc);
    let two = f.define_16(cur, Definition16::Immediate(2));
    let pc_plus_two = f.define_16(cur, Definition16::Add(pc, two));
    let vector = f.define_16(cur, Definition16::Immediate(0xfffe));
    let (cur, handler) = read_u16_deref(f, cur, vector, mirror_horizontal);
    f.store_1(cur, Destination1::Flag(CpuFlag::Unused), always);
    f.store_1(cur, Destination1::Flag(CpuFlag::Break), always);
    let p = f.define_8(cur, Definition8::Register(Register8::P));
    f.store_1(cur, Destination1::Flag(CpuFlag::InterruptDisable), always);
    let cur = push_u16(f, cur, pc_plus_two, mirror_horizontal);
    let cur = push_u8(f, cur, p, mirror_horizontal);
    (cur, Some(handler))
}

/// CLC, CLD, CLI, CLV, SEC, SED and SEI: a direct flag write.
fn emit_flag_write(f: &mut Function, cur: usize, instruction: Instruction) -> (r: (usize, Option<Variable16>))
    requires
        old(f).wf(),
        cur == old(f)@.basic_blocks.len() - 1,
        old(f)@.basic_blocks[cur as int].jump == Jump::Return,
        instruction.operation.mnemonic == Mnemonic::Clc || instruction.operation.mnemonic == Mnemonic::Cld || instruction.operation.mnemonic == Mnemonic::Cli || instruction.operation.mnemonic == Mnemonic::Clv || instruction.operation.mnemonic == Mnemonic::Sec || instruction.operation.mnemonic == Mnemonic::Sed || instruction.operation.mnemonic == Mnemonic::Sei,
        old(f)@.variable_id_counter + 65536 <= usize::MAX,
    ensures
        final(f).wf(),
        old(f)@.variable_id_counter <= final(f)@.variable_id_counter,
        final(f)@.variable_id_counter <= old(f)@.variable_id_counter + 65536,
        r.0 == final(f)@.basic_blocks.len() - 1,
        final(f)@.basic_blocks[r.0 as int].jump == Jump::Return,
        (match r.1 {
            Some(v) => v.id < final(f)@.variable_id_counter,
            None => true,
        }),
        final(f)@ == spec_emit_flag_write(old(f)@, cur, instruction).0,
        r.0 == spec_emit_flag_write(old(f)@, cur, instruction).1,
        r.1 == spec_emit_flag_write(old(f)@, cur, instruction).2,
        (match r.1 {
            Some(v) => forall|b2: int|
                r.0 as int <= b2 ==> #[trigger] defined_in_prefix(
                    final(f)@,
                    b2,
                    v.id as int,
                ),
            None => true,
        }),
        cur <= r.0,
{
    proof {
        reveal(spec_emit_flag_write);
    }
    let mnemonic = instruction.operation().mnemonic();
    let flag = match mnemonic {
        Mnemonic::Clc | Mnemonic::Sec => CpuFlag::Carry,
        Mnemonic::Cld | Mnemonic::Sed => CpuFlag::Decimal,
        Mnemonic::Cli | Mnemonic::Sei => CpuFlag::InterruptDisable,
        _ => CpuFlag::Overflow,
    };
    let value = match mnemonic {
        Mnemonic::Sec | Mnemonic::Sed | Mnemonic::Sei => f.define_1(
            cur,
            Definition1::Immediate(true),
        ),
        _ => f.define_1(cur, Definition1::Immediate(false)),
    };
    f.store_1(cur, Destination1::Flag(flag), value);
    (cur, None)
}

/// CMP, CPX and CPY: subtract without writing the register; C is the
/// negated borrow, N and Z track the difference.
fn emit_compare(f: &mut Function, cur: usize, instruction: Instruction, mirror_horizontal: bool) -> (r: (usize, Option<Variable16>))
    requires
        old(f).wf(),
        cur == old(f)@.basic_blocks.len() - 1,
        old(f)@.basic_blocks[cur as int].jump == Jump::Return,
        instruction.operation.mnemonic == Mnemonic::Cmp || instruction.operation.mnemonic == Mnemonic::Cpx || instruction.operation.mnemonic == Mnemonic::Cpy,
        readable_mode(instruction.operation.addressing_mode),
        old(f)@.variable_id_counter + 65536 <= usize::MAX,
    ensures
        final(f).wf(),
        old(f)@.variable_id_counter <= final(f)@.variable_id_counter,
        final(f)@.variable_id_counter <= old(f)@.variable_id_counter + 65536,
        r.0 == final(f)@.basic_blocks.len() - 1,
        final(f)@.basic_blocks[r.0 as int].jump == Jump::Return,
        (match r.1 {
            Some(v) => v.id < final(f)@.variable_id_counter,
            None => true,
        }),
        final(f)@ == spec_emit_compare(old(f)@, cur, instruction, mirror_horizontal).0,
        r.0 == spec_emit_compare(old(f)@, cur, instruction, mirror_horizontal).1,
        r.1 == spec_emit_compare(old(f)@, cur, instruction, mirror_horizontal).2,
        (match r.1 {
            Some(v) => forall|b2: int|
                r.0 as int <= b2 ==> #[trigger] defined_in_prefix(
                    final(f)@,
                    b2,
                    v.id as int,
                ),
            None => true,
        }),
        cur <= r.0,
{
    proof {
        reveal(spec_emit_compare);
    }
    let register = match instruction.operation().mnemonic() {
        Mnemonic::Cmp => Register8::A,
        Mnemonic::Cpx => Register8::X,
        _ => Register8::Y,
    };
    let lhs = f.define_8(cur, Definition8::Register(register));
    let (cur, operand) = read_operand_u8(f, cur, instruction, mirror_horizontal);
    let no_borrow = f.define_1(cur, Definition1::Immediate(false));
    let result = f.define_8(
        cur,
        Definition8::Difference { operand_0: lhs, operand_1: operand, operand_borrow: no_borrow },
    );
    let borrow = f.define_1(
        cur,
        Definition1::DifferenceBorrow {
            operand_0: lhs,
            operand_1: operand,
            operand_borrow: no_borrow,
        },
    );
    let carry = f.define_1(cur, Definition1::Not(borrow));
    f.store_1(cur, Destination1::Flag(CpuFlag::Carry), carry);
    set_nz(f, cur, result);
    (cur, None)
}

/// INC and DEC: add or subtract one on the operand in place; updates N
/// and Z.
fn emit_memory_step(f: &mut Function, cur: usize, instruction: Instruction, mirror_horizontal: bool) -> (r: (usize, Option<Variable16>))
    requires
        old(f).wf(),
        cur == old(f)@.basic_blocks.len() - 1,
        old(f)@.basic_blocks[cur as int].jump == Jump::Return,
        instruction.operation.mnemonic == Mnemonic::Inc || instruction.operation.mnemonic == Mnemonic::Dec,
        readable_mode(instruction.operation.addressing_mode),
        writable_mode(instruction.operation.addressing_mode),
        old(f)@.variable_id_counter + 65536 <= usize::MAX,
    ensures
        final(f).wf(),
        old(f)@.variable_id_counter <= final(f)@.variable_id_counter,
        final(f)@.variable_id_counter <= old(f)@.variable_id_counter + 65536,
        r.0 == final(f)@.basic_blocks.len() - 1,
        final(f)@.basic_blocks[r.0 as int].jump == Jump::Return,
        (match r.1 {
            Some(v) => v.id < final(f)@.variable_id_counter,
            None => true,
        }),
        final(f)@ == spec_emit_memory_step(old(f)@, cur, instruction, mirror_horizontal).0,
        r.0 == spec_emit_memory_step(old(f)@, cur, instruction, mirror_horizontal).1,
        r.1 == spec_emit_memory_step(old(f)@, cur, instruction, mirror_horizontal).2,
        (match r.1 {
            Some(v) => forall|b2: int|
                r.0 as int <= b2 ==> #[trigger] defined_in_prefix(
                    final(f)@,
                    b2,
                    v.id as int,
                ),
            None => true,
        }),
        cur <= r.0,
{
    proof {
        reveal(spec_emit_memory_step);
    }
    let (cur, operand) = read_operand_u8(f, cur, instruction, mirror_horizontal);
    let one = f.define_8(cur, Definition8::Immediate(1));
    let no_carry = f.define_1(cur, Definition1::Immediate(false));
    let result = match instruction.operation().mnemonic() {
        Mnemonic::Inc => f.define_8(
            cur,
            Definition8::Sum { operand_0: operand, operand_1: one, operand_carry: no_carry },
        ),
        _ => f.define_8(
            cur,
            Definition8::Difference {
                operand_0: operand,
                operand_1: one,
                operand_borrow: no_carry,
            },
        ),
    };
    let cur = write_operand_u8(f, cur, instruction, result, mirror_horizontal);
    set_nz(f, cur, result);
    (cur, None)
}

/// INX, DEX, INY and DEY: add or subtract one on an index register;
/// updates N and Z.
fn emit_register_step(f: &mut Function, cur: usize, instruction: Instruction) -> (r: (usize, Option<Variable16>))
    requires
        old(f).wf(),
        cur == old(f)@.basic_blocks.len() - 1,
        old(f)@.basic_blocks[cur as int].jump == Jump::Return,
        instruction.operation.mnemonic == Mnemonic::Inx || instruction.operation.mnemonic == Mnemonic::Dex || instruction.operation.mnemonic == Mnemonic::Iny || instruction.operation.mnemonic == Mnemonic::Dey,
        old(f)@.variable_id_counter + 65536 <= usize::MAX,
    ensures
        final(f).wf(),
        old(f)@.variable_id_counter <= final(f)@.variable_id_counter,
        final(f)@.variable_id_counter <= old(f)@.variable_id_counter + 65536,
        r.0 == final(f)@.basic_blocks.len() - 1,
        final(f)@.basic_blocks[r.0 as int].jump == Jump::Return,
        (match r.1 {
            Some(v) => v.id < final(f)@.variable_id_counter,
            None => true,
        }),
        final(f)@ == spec_emit_register_step(old(f)@, cur, instruction).0,
        r.0 == spec_emit_register_step(old(f)@, cur, instruction).1,
        r.1 == spec_emit_register_step(old(f)@, cur, instruction).2,
        (match r.1 {
            Some(v) => forall|b2: int|
                r.0 as int <= b2 ==> #[trigger] defined_in_prefix(
                    final(f)@,
                    b2,
                    v.id as int,
                ),
            None => true,
        }),
        cur <= r.0,
{
    proof {
        reveal(spec_emit_register_step);
    }
    let mnemonic = instruction.operation().mnemonic();
    let register = match mnemonic {
        Mnemonic::Inx | Mnemonic::Dex => Register8::X,
        _ => Register8::Y,
    };
    let value = f.define_8(cur, Definition8::Register(register));
    let one = f.define_8(cur, Definition8::Immediate(1));
    let no_carry = f.define_1(cur, Definition1::Immediate(false));
    let result = match mnemonic {
        Mnemonic::Inx | Mnemonic::Iny => f.define_8(
            cur,
            Definition8::Sum { operand_0: value, operand_1: one, operand_carry: no_carry },
        ),
        _ => f.define_8(
            cur,
            Definition8::Difference { operand_0: value, operand_1: one, operand_borrow: no_carry },
        ),
    };
    f.store_8(cur, Destination8::Register(register), result);
    set_nz(f, cur, result);
    (cur, None)
}

/// JMP: absolute or indirect, the latter through the page-wrap bug.
fn emit_jmp(f: &mut Function, cur: usize, instruction: Instruction, mirror_horizontal: bool) -> (r: (usize, Option<Variable16>))
    requires
        old(f).wf(),
        cur == old(f)@.basic_blocks.len() - 1,
        old(f)@.basic_blocks[cur as int].jump == Jump::Return,
        instruction.operation.mnemonic == Mnemonic::Jmp,
        u16_operand_mode(instruction.operation.addressing_mode),
        old(f)@.variable_id_counter + 65536 <= usize::MAX,
    ensures
        final(f).wf(),
        old(f)@.variable_id_counter <= final(f)@.variable_id_counter,
        final(f)@.variable_id_counter <= old(f)@.variable_id_counter + 65536,
        r.0 == final(f)@.basic_blocks.len() - 1,
        final(f)@.basic_blocks[r.0 as int].jump == Jump::Return,
        (match r.1 {
            Some(v) => v.id < final(f)@.variable_id_counter,
            None => true,
        }),
        final(f)@ == spec_emit_jmp(old(f)@, cur, instruction, mirror_horizontal).0,
        r.0 == spec_emit_jmp(old(f)@, cur, instruction, mirror_horizontal).1,
        r.1 == spec_emit_jmp(old(f)@, cur, instruction, mirror_horizontal).2,
        (match r.1 {
            Some(v) => forall|b2: int|
                r.0 as int <= b2 ==> #[trigger] defined_in_prefix(
                    final(f)@,
                    b2,
                    v.id as int,
                ),
            None => true,
        }),
        cur <= r.0,
{
    proof {
        reveal(spec_emit_jmp);
    }
    let (cur, address) = read_operand_u16(f, cur, instruction, mirror_horizontal);
    (cur, Some(address))
}

/// JSR: push the address after the operand, high byte first, and jump.
fn emit_jsr(f: &mut Function, cur: usize, instruction: Instruction, mirror_horizontal: bool) -> (r: (usize, Option<Variable16>))
    requires
        old(f).wf(),
        cur == old(f)@.basic_blocks.len() - 1,
        old(f)@.basic_blocks[cur as int].jump == Jump::Return,
        instruction.operation.mnemonic == Mnemonic::Jsr,
        u16_operand_mode(instruction.operation.addressing_mode),
        old(f)@.variable_id_counter + 65536 <= usize::MAX,
    ensures
        final(f).wf(),
        old(f)@.variable_id_counter <= final(f)@.variable_id_counter,
        final(f)@.variable_id_counter <= old(f)@.variable_id_counter + 65536,
        r.0 == final(f)@.basic_blocks.len() - 1,
        final(f)@.basic_blocks[r.0 as int].jump == Jump::Return,
        (match r.1 {
            Some(v) => v.id < final(f)@.variable_id_counter,
            None => true,
        }),
        final(f)@ == spec_emit_jsr(old(f)@, cur, instruction, mirror_horizontal).0,
        r.0 == spec_emit_jsr(old(f)@, cur, instruction, mirror_horizontal).1,
        r.1 == spec_emit_jsr(old(f)@, cur, instruction, mirror_horizontal).2,
        (match r.1 {
            Some(v) => forall|b2: int|
                r.0 as int <= b2 ==> #[trigger] defined_in_prefix(
                    final(f)@,
                    b2,
                    v.id as int,
                ),
            None => true,
        }),
        cur <= r.0,
{
    proof {
        reveal(spec_emit_jsr);
    }
    let pc = f.define_16(cur, Definition16::Pc);
    let two = f.define_16(cur, Definition16::Immediate(2));
    let pc_plus_two = f.define_16(cur, Definition16::Add(pc, two));
    let (cur, address) = read_operand_u16(f, cur, instruction, mirror_horizontal);
    let cur = push_u16(f, cur, pc_plus_two, mirror_horizontal);
    (cur, Some(address))
}

/// LDA, LDX and LDY: load the operand into a register; updates N and Z.
fn emit_load(f: &mut Function, cur: usize, instruction: Instruction, mirror_horizontal: bool) -> (r: (usize, Option<Variable16>))
    requires
        old(f).wf(),
        cur == old(f)@.basic_blocks.len() - 1,
        old(f)@.basic_blocks[cur as int].jump == Jump::Return,
        instruction.operation.mnemonic == Mnemonic::Lda || instruction.operation.mnemonic == Mnemonic::Ldx || instruction.operation.mnemonic == Mnemonic::Ldy,
        readable_mode(instruction.operation.addressing_mode),
        old(f)@.variable_id_counter + 65536 <= usize::MAX,
    ensures
        final(f).wf(),
        old(f)@.variable_id_counter <= final(f)@.variable_id_counter,
        final(f)@.variable_id_counter <= old(f)@.variable_id_counter + 65536,
        r.0 == final(f)@.basic_blocks.len() - 1,
        final(f)@.basic_blocks[r.0 as int].jump == Jump::Return,
        (match r.1 {
            Some(v) => v.id < final(f)@.variable_id_counter,
            None => true,
        }),
        final(f)@ == spec_emit_load(old(f)@, cur, instruction, mirror_horizontal).0,
        r.0 == spec_emit_load(old(f)@, cur, instruction, mirror_horizontal).1,
        r.1 == spec_emit_load(old(f)@, cur, instruction, mirror_horizontal).2,
        (match r.1 {
            Some(v) => forall|b2: int|
                r.0 as int <= b2 ==> #[trigger] defined_in_prefix(
                    final(f)@,
                    b2,
                    v.id as int,
                ),
            None => true,
        }),
        cur <= r.0,
{
    proof {
        reveal(spec_emit_load);
    }
    let register = match instruction.operation().mnemonic() {
        Mnemonic::Lda => Register8::A,
        Mnemonic::Ldx => Register8::X,
        _ => Register8::Y,
    };
    let (cur, result) = read_operand_u8(f, cur, instruction, mirror_horizontal);
    f.store_8(cur, Destination8::Register(register), result);
    set_nz(f, cur, result);
    (cur, None)
}

/// STA, STX and STY: store a register through the operand; no flags.
fn emit_store(f: &mut Function, cur: usize, instruction: Instruction, mirror_horizontal: bool) -> (r: (usize, Option<Variable16>))
    requires
        old(f).wf(),
        cur == old(f)@.basic_blocks.len() - 1,
        old(f)@.basic_blocks[cur as int].jump == Jump::Return,
        instruction.operation.mnemonic == Mnemonic::Sta || instruction.operation.mnemonic == Mnemonic::Stx || instruction.operation.mnemonic == Mnemonic::Sty,
        writable_mode(instruction.operation.addressing_mode),
        old(f)@.variable_id_counter + 65536 <= usize::MAX,
    ensures
        final(f).wf(),
        old(f)@.variable_id_counter <= final(f)@.variable_id_counter,
        final(f)@.variable_id_counter <= old(f)@.variable_id_counter + 65536,
        r.0 == final(f)@.basic_blocks.len() - 1,
        final(f)@.basic_blocks[r.0 as int].jump == Jump::Return,
        (match r.1 {
            Some(v) => v.id < final(f)@.variable_id_counter,
            None => true,
        }),
        final(f)@ == spec_emit_store(old(f)@, cur, instruction, mirror_horizontal).0,
        r.0 == spec_emit_store(old(f)@, cur, instruction, mirror_horizontal).1,
        r.1 == spec_emit_store(old(f)@, cur, instruction, mirror_horizontal).2,
        (match r.1 {
            Some(v) => forall|b2: int|
                r.0 as int <= b2 ==> #[trigger] defined_in_prefix(
                    final(f)@,
                    b2,
                    v.id as int,
                ),
            None => true,
        }),
        cur <= r.0,
{
    proof {
        reveal(spec_emit_store);
    }
    let register = match instruction.operation().mnemonic() {
        Mnemonic::Sta => Register8::A,
        Mnemonic::Stx => Register8::X,
        _ => Register8::Y,
    };
    let value = f.define_8(cur, Definition8::Register(register));
    let cur = write_operand_u8(f, cur, instruction, value, mirror_horizontal);
    (cur, None)
}

/// PHA: push the accumulator.
fn emit_pha(f: &mut Function, cur: usize, mirror_horizontal: bool) -> (r: (usize, Option<Variable16>))
    requires
        old(f).wf(),
        cur == old(f)@.basic_blocks.len() - 1,
        old(f)@.basic_blocks[cur as int].jump == Jump::Return,
        old(f)@.variable_id_counter + 65536 <= usize::MAX,
    ensures
        final(f).wf(),
        old(f)@.variable_id_counter <= final(f)@.variable_id_counter,
        final(f)@.variable_id_counter <= old(f)@.variable_id_counter + 65536,
        r.0 == final(f)@.basic_blocks.len() - 1,
        final(f)@.basic_blocks[r.0 as int].jump == Jump::Return,
        (match r.1 {
            Some(v) => v.id < final(f)@.variable_id_counter,
            None => true,
        }),
        final(f)@ == spec_emit_pha(old(f)@, cur, mirror_horizontal).0,
        r.0 == spec_emit_pha(old(f)@, cur, mirror_horizontal).1,
        r.1 == spec_emit_pha(old(f)@, cur, mirror_horizontal).2,
        (match r.1 {
            Some(v) => forall|b2: int|
                r.0 as int <= b2 ==> #[trigger] defined_in_prefix(
                    final(f)@,
                    b2,
                    v.id as int,
                ),
            None => true,
        }),
        cur <= r.0,
{
    proof {
        reveal(spec_emit_pha);
    }
    let a = f.define_8(cur, Definition8::Register(Register8::A));
    let cur = push_u8(f, cur, a, mirror_horizontal);
    (cur, None)
}

/// PHP: push P with the Break and Unused bits forced set.
fn emit_php(f: &mut Function, cur: usize, mirror_horizontal: bool) -> (r: (usize, Option<Variable16>))
    requires
        old(f).wf(),
        cur == old(f)@.basic_blocks.len() - 1,
        old(f)@.basic_blocks[cur as int].jump == Jump::Return,
        old(f)@.variable_id_counter + 65536 <= usize::MAX,
    ensures
        final(f).wf(),
        old(f)@.variable_id_counter <= final(f)@.variable_id_counter,
        final(f)@.variable_id_counter <= old(f)@.variable_id_counter + 65536,
        r.0 == final(f)@.basic_blocks.len() - 1,
        final(f)@.basic_blocks[r.0 as int].jump == Jump::Return,
        (match r.1 {
            Some(v) => v.id < final(f)@.variable_id_counter,
            None => true,
        }),
        final(f)@ == spec_emit_php(old(f)@, cur, mirror_horizontal).0,
        r.0 == spec_emit_php(old(f)@, cur, mirror_horizontal).1,
        r.1 == spec_emit_php(old(f)@, cur, mirror_horizontal).2,
        (match r.1 {
            Some(v) => forall|b2: int|
                r.0 as int <= b2 ==> #[trigger] defined_in_prefix(
                    final(f)@,
                    b2,
                    v.id as int,
                ),
            None => true,
        }),
        cur <= r.0,
{
    proof {
        reveal(spec_emit_php);
    }
    let mask = f.define_8(cur, Definition8::Immediate(0x30));
    let p = f.define_8(cur, Definition8::Register(Register8::P));
    let value = f.define_8(cur, Definition8::Or(p, mask));
    let cur = push_u8(f, cur, value, mirror_horizontal);
    (cur, None)
}

/// PLA: pop into the accumulator; updates N and Z.
fn emit_pla(f: &mut Function, cur: usize, mirror_horizontal: bool) -> (r: (usize, Option<Variable16>))
    requires
        old(f).wf(),
        cur == old(f)@.basic_blocks.len() - 1,
        old(f)@.basic_blocks[cur as int].jump == Jump::Return,
        old(f)@.variable_id_counter + 65536 <= usize::MAX,
    ensures
        final(f).wf(),
        old(f)@.variable_id_counter <= final(f)@.variable_id_counter,
        final(f)@.variable_id_counter <= old(f)@.variable_id_counter + 65536,
        r.0 == final(f)@.basic_blocks.len() - 1,
        final(f)@.basic_blocks[r.0 as int].jump == Jump::Return,
        (match r.1 {
            Some(v) => v.id < final(f)@.variable_id_counter,
            None => true,
        }),
        final(f)@ == spec_emit_pla(old(f)@, cur, mirror_horizontal).0,
        r.0 == spec_emit_pla(old(f)@, cur, mirror_horizontal).1,
        r.1 == spec_emit_pla(old(f)@, cur, mirror_horizontal).2,
        (match r.1 {
            Some(v) => forall|b2: int|
                r.0 as int <= b2 ==> #[trigger] defined_in_prefix(
                    final(f)@,
                    b2,
                    v.id as int,
                ),
            None => true,
        }),
        cur <= r.0,
{
    proof {
        reveal(spec_emit_pla);
    }
    let (cur, value) = pop_u8(f, cur, mirror_horizontal);
    f.store_8(cur, Destination8::Register(Register8::A), value);
    set_nz(f, cur, value);
    (cur, None)
}

/// PLP: pop into P, preserving the current Break and Unused bits.
fn emit_plp(f: &mut Function, cur: usize, mirror_horizontal: bool) -> (r: (usize, Option<Variable16>))
    requires
        old(f).wf(),
        cur == old(f)@.basic_blocks.len() - 1,
        old(f)@.basic_blocks[cur as int].jump == Jump::Return,
        old(f)@.variable_id_counter + 65536 <= usize::MAX,
    ensures
        final(f).wf(),
        old(f)@.variable_id_counter <= final(f)@.variable_id_counter,
        final(f)@.variable_id_counter <= old(f)@.variable_id_counter + 65536,
        r.0 == final(f)@.basic_blocks.len() - 1,
        final(f)@.basic_blocks[r.0 as int].jump == Jump::Return,
        (match r.1 {
            Some(v) => v.id < final(f)@.variable_id_counter,
            None => true,
        }),
        final(f)@ == spec_emit_plp(old(f)@, cur, mirror_horizontal).0,
        r.0 == spec_emit_plp(old(f)@, cur, mirror_horizontal).1,
        r.1 == spec_emit_plp(old(f)@, cur, mirror_horizontal).2,
        (match r.1 {
            Some(v) => forall|b2: int|
                r.0 as int <= b2 ==> #[trigger] defined_in_prefix(
                    final(f)@,
                    b2,
                    v.id as int,
                ),
            None => true,
        }),
        cur <= r.0,
{
    proof {
        reveal(spec_emit_plp);
    }
    let b = f.define_1(cur, Definition1::Flag(CpuFlag::Break));
    let unused = f.define_1(cur, Definition1::Flag(CpuFlag::Unused));
    let (cur, value) = pop_u8(f, cur, mirror_horizontal);
    f.store_8(cur, Destination8::Register(Register8::P), value);
    f.store_1(cur, Destination1::Flag(CpuFlag::Break), b);
    f.store_1(cur, Destination1::Flag(CpuFlag::Unused), unused);
    (cur, None)
}

/// RTI: pop P preserving the current Break and Unused bits, then pop the
/// return address.
fn emit_rti(f: &mut Function, cur: usize, mirror_horizontal: bool) -> (r: (usize, Option<Variable16>))
    requires
        old(f).wf(),
        cur == old(f)@.basic_blocks.len() - 1,
        old(f)@.basic_blocks[cur as int].jump == Jump::Return,
        old(f)@.variable_id_counter + 65536 <= usize::MAX,
    ensures
        final(f).wf(),
        old(f)@.variable_id_counter <= final(f)@.variable_id_counter,
        final(f)@.variable_id_counter <= old(f)@.variable_id_counter + 65536,
        r.0 == final(f)@.basic_blocks.len() - 1,
        final(f)@.basic_blocks[r.0 as int].jump == Jump::Return,
        (match r.1 {
            Some(v) => v.id < final(f)@.variable_id_counter,
            None => true,
        }),
        final(f)@ == spec_emit_rti(old(f)@, cur, mirror_horizontal).0,
        r.0 == spec_emit_rti(old(f)@, cur, mirror_horizontal).1,
        r.1 == spec_emit_rti(old(f)@, cur, mirror_horizontal).2,
        (match r.1 {
            Some(v) => forall|b2: int|
                r.0 as int <= b2 ==> #[trigger] defined_in_prefix(
                    final(f)@,
                    b2,
                    v.id as int,
                ),
            None => true,
        }),
        cur <= r.0,
{
    proof {
        reveal(spec_emit_rti);
    }
    let b = f.define_1(cur, Definition1::Flag(CpuFlag::Break));
    let unused = f.define_1(cur, Definition1::Flag(CpuFlag::Unused));
    let (cur, p) = pop_u8(f, cur, mirror_horizontal);
    let (cur, return_address) = pop_u16(f, cur, mirror_horizontal);
    f.store_8(cur, Destination8::Register(Register8::P), p);
    f.store_1(cur, Destination1::Flag(CpuFlag::Break), b);
    f.store_1(cur, Destination1::Flag(CpuFlag::Unused), unused);
    (cur, Some(return_address))
}

/// RTS: pop the 16-bit return address and add one.
fn emit_rts(f: &mut Function, cur: usize, mirror_horizontal: bool) -> (r: (usize, Option<Variable16>))
    requires
        old(f).wf(),
        cur == old(f)@.basic_blocks.len() - 1,
        old(f)@.basic_blocks[cur as int].jump == Jump::Return,
        old(f)@.variable_id_counter + 65536 <= usize::MAX,
    ensures
        final(f).wf(),
        old(f)@.variable_id_counter <= final(f)@.variable_id_counter,
        final(f)@.variable_id_counter <= old(f)@.variable_id_counter + 65536,
        r.0 == final(f)@.basic_blocks.len() - 1,
        final(f)@.basic_blocks[r.0 as int].jump == Jump::Return,
        (match r.1 {
            Some(v) => v.id < final(f)@.variable_id_counter,
            None => true,
        }),
        final(f)@ == spec_emit_rts(old(f)@, cur, mirror_horizontal).0,
        r.0 == spec_emit_rts(old(f)@, cur, mirror_horizontal).1,
        r.1 == spec_emit_rts(old(f)@, cur, mirror_horizontal).2,
        (match r.1 {
            Some(v) => forall|b2: int|
                r.0 as int <= b2 ==> #[trigger] defined_in_prefix(
                    final(f)@,
                    b2,
                    v.id as int,
                ),
            None => true,
        }),
        cur <= r.0,
{
    proof {
        reveal(spec_emit_rts);
    }
    let (cur, return_address_minus_1) = pop_u16(f, cur, mirror_horizontal);
    let one = f.define_16(cur, Definition16::Immediate(1));
    let return_address = f.define_16(cur, Definition16::Add(return_address_minus_1, one));
    (cur, Some(return_address))
}

/// The register transfers TAX, TAY, TSX, TXA, TXS and TYA: copy one
/// register into another; all but TXS update N and Z.
fn emit_transfer(f: &mut Function, cur: usize, instruction: Instruction) -> (r: (usize, Option<Variable16>))
    requires
        old(f).wf(),
        cur == old(f)@.basic_blocks.len() - 1,
        old(f)@.basic_blocks[cur as int].jump == Jump::Return,
        instruction.operation.mnemonic == Mnemonic::Tax || instruction.operation.mnemonic == Mnemonic::Tay || instruction.operation.mnemonic == Mnemonic::Tsx || instruction.operation.mnemonic == Mnemonic::Txa || instruction.operation.mnemonic == Mnemonic::Txs || instruction.operation.mnemonic == Mnemonic::Tya,
        old(f)@.variable_id_counter + 65536 <= usize::MAX,
    ensures
        final(f).wf(),
        old(f)@.variable_id_counter <= final(f)@.variable_id_counter,
        final(f)@.variable_id_counter <= old(f)@.variable_id_counter + 65536,
        r.0 == final(f)@.basic_blocks.len() - 1,
        final(f)@.basic_blocks[r.0 as int].jump == Jump::Return,
        (match r.1 {
            Some(v) => v.id < final(f)@.variable_id_counter,
            None => true,
        }),
        final(f)@ == spec_emit_transfer(old(f)@, cur, instruction).0,
        r.0 == spec_emit_transfer(old(f)@, cur, instruction).1,
        r.1 == spec_emit_transfer(old(f)@, cur, instruction).2,
        (match r.1 {
            Some(v) => forall|b2: int|
                r.0 as int <= b2 ==> #[trigger] defined_in_prefix(
                    final(f)@,
                    b2,
                    v.id as int,
                ),
            None => true,
        }),
        cur <= r.0,
{
    proof {
        reveal(spec_emit_transfer);
    }
    let mnemonic = instruction.operation().mnemonic();
    let source = match mnemonic {
        Mnemonic::Tax | Mnemonic::Tay => Register8::A,
        Mnemonic::Tsx => Register8::S,
        Mnemonic::Txa | Mnemonic::Txs => Register8::X,
        _ => Register8::Y,
    };
    let target = match mnemonic {
        Mnemonic::Tax | Mnemonic::Tsx => Register8::X,
        Mnemonic::Tay => Register8::Y,
        Mnemonic::Txa | Mnemonic::Tya => Register8::A,
        _ => Register8::S,
    };
    let value = f.define_8(cur, Definition8::Register(source));
    f.store_8(cur, Destination8::Register(target), value);
    if !matches!(mnemonic, Mnemonic::Txs) {
        set_nz(f, cur, value);
    }
    (cur, None)
}

/// Expands one decoded instruction into a fresh, well-formed IR function.
/// The final block stores the next program counter - the fall-through
/// address, a branch target, or a computed jump address - and returns.
pub fn transpile(instruction: Instruction, mirror_horizontal: bool) -> (r: Function)
    requires
        table_operation(instruction.operation),
    ensures
        r.wf(),
        fragment_writes_pc_and_returns(r@),
        r@ == spec_transpile(instruction, mirror_horizontal),
{
    proof {
        reveal(spec_transpile);
    }
    let mut f = Function::new();
    proof {
        if instruction.operation.mnemonic != Mnemonic::Unimplemented {
            lemma_operand_mode_shapes(
                instruction.operation.mnemonic,
                instruction.operation.addressing_mode,
            );
        }
    }
    let (cur, jump_target): (usize, Option<Variable16>) = match instruction
        .operation()
        .mnemonic() {
        Mnemonic::Adc => emit_adc(&mut f, 0, instruction, mirror_horizontal),
        Mnemonic::And => emit_binary_logic(&mut f, 0, instruction, mirror_horizontal),
        Mnemonic::Asl => emit_shift(&mut f, 0, instruction, mirror_horizontal),
        Mnemonic::Bcc => emit_branch(&mut f, 0, instruction, mirror_horizontal),
        Mnemonic::Bcs => emit_branch(&mut f, 0, instruction, mirror_horizontal),
        Mnemonic::Beq => emit_branch(&mut f, 0, instruction, mirror_horizontal),
        Mnemonic::Bit => emit_bit(&mut f, 0, instruction, mirror_horizontal),
        Mnemonic::Bmi => emit_branch(&mut f, 0, instruction, mirror_horizontal),
        Mnemonic::Bne => emit_branch(&mut f, 0, instruction, mirror_horizontal),
        Mnemonic::Bpl => emit_branch(&mut f, 0, instruction, mirror_horizontal),
        Mnemonic::Brk => emit_brk(&mut f, 0, mirror_horizontal),
        Mnemonic::Bvc => emit_branch(&mut f, 0, instruction, mirror_horizontal),
        Mnemonic::Bvs => emit_branch(&mut f, 0, instruction, mirror_horizontal),
        Mnemonic::Clc => emit_flag_write(&mut f, 0, instruction),
        Mnemonic::Cld => emit_flag_write(&mut f, 0, instruction),
        Mnemonic::Cli => emit_flag_write(&mut f, 0, instruction),
        Mnemonic::Clv => emit_flag_write(&mut f, 0, instruction),
        Mnemonic::Cmp => emit_compare(&mut f, 0, instruction, mirror_horizontal),
        Mnemonic::Cpx => emit_compare(&mut f, 0, instruction, mirror_horizontal),
        Mnemonic::Cpy => emit_compare(&mut f, 0, instruction, mirror_horizontal),
        Mnemonic::Dec => emit_memory_step(&mut f, 0, instruction, mirror_horizontal),
        Mnemonic::Dex => emit_register_step(&mut f, 0, instruction),
        Mnemonic::Dey => emit_register_step(&mut f, 0, instruction),
        Mnemonic::Eor => emit_binary_logic(&mut f, 0, instruction, mirror_horizontal),
        Mnemonic::Inc => emit_memory_step(&mut f, 0, instruction, mirror_horizontal),
        Mnemonic::Inx => emit_register_step(&mut f, 0, instruction),
        Mnemonic::Iny => emit_register_step(&mut f, 0, instruction),
        Mnemonic::Jmp => emit_jmp(&mut f, 0, instruction, mirror_horizontal),
        Mnemonic::Jsr => emit_jsr(&mut f, 0, instruction, mirror_horizontal),
        Mnemonic::Lda => emit_load(&mut f, 0, instruction, mirror_horizontal),
        Mnemonic::Ldx => emit_load(&mut f, 0, instruction, mirror_horizontal),
        Mnemonic::Ldy => emit_load(&mut f, 0, instruction, mirror_horizontal),
        Mnemonic::Lsr => emit_shift(&mut f, 0, instruction, mirror_horizontal),
        Mnemonic::Nop => (0, None),
        Mnemonic::Ora => emit_binary_logic(&mut f, 0, instruction, mirror_horizontal),
        Mnemonic::Pha => emit_pha(&mut f, 0, mirror_horizontal),
        Mnemonic::Php => emit_php(&mut f, 0, mirror_horizontal),
        Mnemonic::Pla => emit_pla(&mut f, 0, mirror_horizontal),
        Mnemonic::Plp => emit_plp(&mut f, 0, mirror_horizontal),
        Mnemonic::Rol => emit_shift(&mut f, 0, instruction, mirror_horizontal),
        Mnemonic::Ror => emit_shift(&mut f, 0, instruction, mirror_horizontal),
        Mnemonic::Rti => emit_rti(&mut f, 0, mirror_horizontal),
        Mnemonic::Rts => emit_rts(&mut f, 0, mirror_horizontal),
        Mnemonic::Sbc => emit_sbc(&mut f, 0, instruction, mirror_horizontal),
        Mnemonic::Sec => emit_flag_write(&mut f, 0, instruction),
        Mnemonic::Sed => emit_flag_write(&mut f, 0, instruction),
        Mnemonic::Sei => emit_flag_write(&mut f, 0, instruction),
        Mnemonic::Sta => emit_store(&mut f, 0, instruction, mirror_horizontal),
        Mnemonic::Stx => emit_store(&mut f, 0, instruction, mirror_horizontal),
        Mnemonic::Sty => emit_store(&mut f, 0, instruction, mirror_horizontal),
        Mnemonic::Tax => emit_transfer(&mut f, 0, instruction),
        Mnemonic::Tay => emit_transfer(&mut f, 0, instruction),
        Mnemonic::Tsx => emit_transfer(&mut f, 0, instruction),
        Mnemonic::Txa => emit_transfer(&mut f, 0, instruction),
        Mnemonic::Txs => emit_transfer(&mut f, 0, instruction),
        Mnemonic::Tya => emit_transfer(&mut f, 0, instruction),
        Mnemonic::Unimplemented => {
            // Unknown opcodes compile to a no-op that still writes the next
            // program counter.
            (0, None)
        },
    };
    let pc_value = match jump_target {
        Some(v) => v,
        None => f.define_16(cur, Definition16::Immediate(instruction.address_end())),
    };
    f.store_16(cur, Destination16::Pc, pc_value);
    f
}

/// Law: idempotence of compilation. The fragment the pipeline builds is a
/// function of the immutable program bytes and the cartridge's fixed
/// mirroring flag alone: compiling an address whose decode stayed in PRG-ROM
/// again, whatever else changed in the machine, yields the identical IR, and
/// its decode stays in PRG-ROM.
pub proof fn lemma_compile_idempotent(v1: NesV, v2: NesV, address: u16)
    requires
        v1.prg_rom == v2.prg_rom,
        v1.mirror_horizontal == v2.mirror_horizontal,
        spec_prg_rom_only(v1, address),
    ensures
        spec_compile_at(v1, address) == spec_compile_at(v2, address),
        spec_prg_rom_only(v2, address),
{
    crate::instruction_decoder::lemma_decode_idempotent_on_rom(v1, v2, address);
}

/// Runs the front half of the pipeline at one guest address: decode, then
/// transpile. Returns the IR fragment and whether every decoded byte came
/// from PRG-ROM, the cache-admission predicate.
pub fn compile_instruction(nes: &Nes, address: u16) -> (r: (Function, bool))
    requires
        nes@.wf(),
        crate::instruction_decoder::decode_fetch_ok(nes@, address),
    ensures
        r.0.wf(),
        fragment_writes_pc_and_returns(r.0@),
        r.0@ == spec_compile_at(nes@, address),
        r.1 == spec_prg_rom_only(nes@, address),
{
    let (instruction, is_prg_rom_only) = decode_instruction(nes, address);
    proof {
        lemma_from_opcode_in_table(crate::nes::spec_peek(nes@, address));
    }
    let function = transpile(instruction, nes.cartridge.read_is_mirroring_horizontal());
    (function, is_prg_rom_only)
}

} // verus!
