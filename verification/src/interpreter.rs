//! The meaning of the IR, and its direct executor.
//!
//! The spec-level evaluator defines, once and for all, what running a
//! fragment does to the guest state; the executable interpreter is proved to
//! realize exactly that evaluation. Well-formed fragments only branch forward
//! through the block arena, so evaluation terminates.

use crate::cartridge::Cartridge;
use crate::ir::{
    CpuFlag, Definition1, Definition16, Definition8, Destination1, Destination16, Destination8,
    Function, FunctionV, Instruction, Jump, Region, Register8, Variable1, Variable16, Variable8,
    block_wf, instr_wf, jump_wf,
};
use crate::nes::{Nes, NesV};
use vstd::prelude::*;

verus! {

/// A boolean read as the integer 0 or 1.
pub open spec fn bool_int(b: bool) -> int {
    if b {
        1
    } else {
        0
    }
}

/// Total byte lookup: bytes outside the sequence read as zero.
pub open spec fn byte_at(s: Seq<u8>, i: int) -> u8 {
    if 0 <= i < s.len() {
        s[i]
    } else {
        0
    }
}

/// Total environment lookups: a variable outside the environment reads as the
/// width's zero. Well-formed fragments never reach the default.
pub open spec fn env_get1(env: Seq<bool>, v: Variable1) -> bool {
    if v.id < env.len() {
        env[v.id as int]
    } else {
        false
    }
}

pub open spec fn env_get8(env: Seq<u8>, v: Variable8) -> u8 {
    if v.id < env.len() {
        env[v.id as int]
    } else {
        0
    }
}

pub open spec fn env_get16(env: Seq<u16>, v: Variable16) -> u16 {
    if v.id < env.len() {
        env[v.id as int]
    } else {
        0
    }
}

pub open spec fn env_set1(env: Seq<bool>, v: Variable1, value: bool) -> Seq<bool> {
    if v.id < env.len() {
        env.update(v.id as int, value)
    } else {
        env
    }
}

pub open spec fn env_set8(env: Seq<u8>, v: Variable8, value: u8) -> Seq<u8> {
    if v.id < env.len() {
        env.update(v.id as int, value)
    } else {
        env
    }
}

pub open spec fn env_set16(env: Seq<u16>, v: Variable16, value: u16) -> Seq<u16> {
    if v.id < env.len() {
        env.update(v.id as int, value)
    } else {
        env
    }
}

/// Reading a flag is reading its architected bit of the P byte.
pub open spec fn spec_get_flag(p: u8, flag: CpuFlag) -> bool {
    (p >> flag.spec_bit_index()) & 1 == 1
}

/// Writing a flag is a read-modify-write of its architected bit of P.
pub open spec fn spec_set_flag(p: u8, flag: CpuFlag, value: bool) -> u8 {
    if value {
        p | (1u8 << flag.spec_bit_index())
    } else {
        p & !(1u8 << flag.spec_bit_index())
    }
}

/// The mirror period of each guest memory region; offsets are reduced modulo
/// this before indexing.
pub open spec fn region_len(region: Region) -> int {
    match region {
        Region::CpuRam => 0x800,
        Region::PrgRam => 0x2000,
        Region::PrgRom => 0x8000,
        Region::PpuRam => 0x800,
        Region::PaletteRam => 0x20,
    }
}

/// Reading one byte of a named region at a mirrored offset.
pub open spec fn spec_region_read(s: NesV, region: Region, offset: u16) -> u8 {
    let i = (offset as int) % region_len(region);
    match region {
        Region::CpuRam => byte_at(s.ram, i),
        Region::PrgRam => byte_at(s.prg_ram, i),
        Region::PrgRom => byte_at(s.prg_rom, i),
        Region::PpuRam => byte_at(s.ppu_ram, i),
        Region::PaletteRam => byte_at(s.palette_ram, i),
    }
}

/// Writing one byte of a named region at a mirrored offset. A write to the
/// PRG-ROM region is ignored: the program bytes are immutable.
pub open spec fn spec_region_write(s: NesV, region: Region, offset: u16, value: u8) -> NesV {
    let i = (offset as int) % region_len(region);
    match region {
        Region::CpuRam => if i < s.ram.len() {
            NesV { ram: s.ram.update(i, value), ..s }
        } else {
            s
        },
        Region::PrgRam => if i < s.prg_ram.len() {
            NesV { prg_ram: s.prg_ram.update(i, value), ..s }
        } else {
            s
        },
        Region::PrgRom => s,
        Region::PpuRam => if i < s.ppu_ram.len() {
            NesV { ppu_ram: s.ppu_ram.update(i, value), ..s }
        } else {
            s
        },
        Region::PaletteRam => if i < s.palette_ram.len() {
            NesV { palette_ram: s.palette_ram.update(i, value), ..s }
        } else {
            s
        },
    }
}

/// Reading a byte-wide guest register.
pub open spec fn spec_reg_read(s: NesV, r: Register8) -> u8 {
    match r {
        Register8::A => s.a,
        Register8::X => s.x,
        Register8::Y => s.y,
        Register8::S => s.s,
        Register8::P => s.p,
        Register8::PpuControl => s.control_register,
        Register8::PpuReadBuffer => s.read_buffer,
    }
}

/// Writing a byte-wide guest register.
pub open spec fn spec_reg_write(s: NesV, r: Register8, value: u8) -> NesV {
    match r {
        Register8::A => NesV { a: value, ..s },
        Register8::X => NesV { x: value, ..s },
        Register8::Y => NesV { y: value, ..s },
        Register8::S => NesV { s: value, ..s },
        Register8::P => NesV { p: value, ..s },
        Register8::PpuControl => NesV { control_register: value, ..s },
        Register8::PpuReadBuffer => NesV { read_buffer: value, ..s },
    }
}

/// A byte reinterpreted as a signed value in -128..=127.
pub open spec fn signed8(a: u8) -> int {
    if a < 0x80 {
        a as int
    } else {
        a - 0x100
    }
}

/// 8-bit carry-propagated sum, truncated.
pub open spec fn spec_sum8(a: u8, b: u8, c: bool) -> u8 {
    ((a + b + bool_int(c)) % 0x100) as u8
}

/// Carry out of the 8-bit sum.
pub open spec fn spec_sum_carry(a: u8, b: u8, c: bool) -> bool {
    a + b + bool_int(c) >= 0x100
}

/// Signed overflow of the 8-bit sum.
pub open spec fn spec_sum_overflow(a: u8, b: u8, c: bool) -> bool {
    signed8(a) + signed8(b) + bool_int(c) < -128 || signed8(a) + signed8(b) + bool_int(c) > 127
}

/// 8-bit borrow-propagated difference, truncated.
pub open spec fn spec_diff8(a: u8, b: u8, borrow: bool) -> u8 {
    ((a - b - bool_int(borrow) + 0x200) % 0x100) as u8
}

/// Borrow out of the 8-bit difference.
pub open spec fn spec_diff_borrow(a: u8, b: u8, borrow: bool) -> bool {
    a < b + bool_int(borrow)
}

/// Signed overflow of the 8-bit difference.
pub open spec fn spec_diff_overflow(a: u8, b: u8, borrow: bool) -> bool {
    signed8(a) - signed8(b) - bool_int(borrow) < -128 || signed8(a) - signed8(b) - bool_int(
        borrow,
    ) > 127
}

/// The value of a 1-bit definition.
pub open spec fn spec_eval_def1(
    s: NesV,
    e1: Seq<bool>,
    e8: Seq<u8>,
    e16: Seq<u16>,
    d: Definition1,
) -> bool {
    match d {
        Definition1::Immediate(b) => b,
        Definition1::Flag(flag) => spec_get_flag(s.p, flag),
        Definition1::Not(a) => !env_get1(e1, a),
        Definition1::And(a, b) => env_get1(e1, a) && env_get1(e1, b),
        Definition1::EqualToZero(a) => env_get8(e8, a) == 0,
        Definition1::U8Bit { operand, index } => (env_get8(e8, operand) >> index) & 1 == 1,
        Definition1::LessThanOrEqual16(a, b) => env_get16(e16, a) <= env_get16(e16, b),
        Definition1::SumCarry { operand_0, operand_1, operand_carry } => spec_sum_carry(
            env_get8(e8, operand_0),
            env_get8(e8, operand_1),
            env_get1(e1, operand_carry),
        ),
        Definition1::SumOverflow { operand_0, operand_1, operand_carry } => spec_sum_overflow(
            env_get8(e8, operand_0),
            env_get8(e8, operand_1),
            env_get1(e1, operand_carry),
        ),
        Definition1::DifferenceBorrow { operand_0, operand_1, operand_borrow } => spec_diff_borrow(
            env_get8(e8, operand_0),
            env_get8(e8, operand_1),
            env_get1(e1, operand_borrow),
        ),
        Definition1::DifferenceOverflow { operand_0, operand_1, operand_borrow } => spec_diff_overflow(
            env_get8(e8, operand_0),
            env_get8(e8, operand_1),
            env_get1(e1, operand_borrow),
        ),
    }
}

/// The value of an 8-bit definition; a block-parameter definition reads the
/// argument the incoming edge passed.
pub open spec fn spec_eval_def8(
    s: NesV,
    e1: Seq<bool>,
    e8: Seq<u8>,
    e16: Seq<u16>,
    arg: Option<u8>,
    d: Definition8,
) -> u8 {
    match d {
        Definition8::Immediate(v) => v,
        Definition8::BasicBlockArgument => match arg {
            Some(v) => v,
            None => 0,
        },
        Definition8::Register(r) => spec_reg_read(s, r),
        Definition8::Memory { region, offset } => spec_region_read(
            s,
            region,
            env_get16(e16, offset),
        ),
        Definition8::LowByte(a) => (env_get16(e16, a) % 0x100) as u8,
        Definition8::HighByte(a) => (env_get16(e16, a) / 0x100) as u8,
        Definition8::Or(a, b) => env_get8(e8, a) | env_get8(e8, b),
        Definition8::And(a, b) => env_get8(e8, a) & env_get8(e8, b),
        Definition8::Xor(a, b) => env_get8(e8, a) ^ env_get8(e8, b),
        Definition8::RotateLeft { operand, operand_carry } => ((env_get8(e8, operand) * 2
            + bool_int(env_get1(e1, operand_carry))) % 0x100) as u8,
        Definition8::RotateRight { operand, operand_carry } => (env_get8(e8, operand) / 2
            + bool_int(env_get1(e1, operand_carry)) * 0x80) as u8,
        Definition8::Sum { operand_0, operand_1, operand_carry } => spec_sum8(
            env_get8(e8, operand_0),
            env_get8(e8, operand_1),
            env_get1(e1, operand_carry),
        ),
        Definition8::Difference { operand_0, operand_1, operand_borrow } => spec_diff8(
            env_get8(e8, operand_0),
            env_get8(e8, operand_1),
            env_get1(e1, operand_borrow),
        ),
    }
}

/// The value of a 16-bit definition.
pub open spec fn spec_eval_def16(
    s: NesV,
    e1: Seq<bool>,
    e8: Seq<u8>,
    e16: Seq<u16>,
    d: Definition16,
) -> u16 {
    match d {
        Definition16::Immediate(v) => v,
        Definition16::Pc => s.pc,
        Definition16::PpuCurrentAddress => s.current_address,
        Definition16::FromU8s { high, low } => (env_get8(e8, high) * 0x100 + env_get8(
            e8,
            low,
        )) as u16,
        Definition16::Add(a, b) => ((env_get16(e16, a) + env_get16(e16, b)) % 0x10000) as u16,
        Definition16::Select { condition, result_if_true, result_if_false } => if env_get1(
            e1,
            condition,
        ) {
            env_get16(e16, result_if_true)
        } else {
            env_get16(e16, result_if_false)
        },
    }
}

/// The state after one store.
pub open spec fn spec_apply_store1(s: NesV, dest: Destination1, value: bool) -> NesV {
    match dest {
        Destination1::Flag(flag) => NesV { p: spec_set_flag(s.p, flag, value), ..s },
    }
}

pub open spec fn spec_apply_store8(
    s: NesV,
    e16: Seq<u16>,
    dest: Destination8,
    value: u8,
) -> NesV {
    match dest {
        Destination8::Register(r) => spec_reg_write(s, r, value),
        Destination8::Memory { region, offset } => spec_region_write(
            s,
            region,
            env_get16(e16, offset),
            value,
        ),
    }
}

pub open spec fn spec_apply_store16(s: NesV, dest: Destination16, value: u16) -> NesV {
    match dest {
        Destination16::Pc => NesV { pc: value, ..s },
        Destination16::PpuCurrentAddress => NesV { current_address: value, ..s },
    }
}

/// One IR instruction: either extends the environment with a freshly defined
/// value, or applies a store to the guest state.
pub open spec fn spec_step_instr(
    s: NesV,
    e1: Seq<bool>,
    e8: Seq<u8>,
    e16: Seq<u16>,
    arg: Option<u8>,
    i: Instruction,
) -> (NesV, Seq<bool>, Seq<u8>, Seq<u16>) {
    match i {
        Instruction::Define1 { variable, definition } => (
            s,
            env_set1(e1, variable, spec_eval_def1(s, e1, e8, e16, definition)),
            e8,
            e16,
        ),
        Instruction::Define8 { variable, definition } => (
            s,
            e1,
            env_set8(e8, variable, spec_eval_def8(s, e1, e8, e16, arg, definition)),
            e16,
        ),
        Instruction::Define16 { variable, definition } => (
            s,
            e1,
            e8,
            env_set16(e16, variable, spec_eval_def16(s, e1, e8, e16, definition)),
        ),
        Instruction::Store1 { destination, variable } => (
            spec_apply_store1(s, destination, env_get1(e1, variable)),
            e1,
            e8,
            e16,
        ),
        Instruction::Store8 { destination, variable } => (
            spec_apply_store8(s, e16, destination, env_get8(e8, variable)),
            e1,
            e8,
            e16,
        ),
        Instruction::Store16 { destination, variable } => (
            spec_apply_store16(s, destination, env_get16(e16, variable)),
            e1,
            e8,
            e16,
        ),
    }
}

/// Running a list of instructions in order.
pub open spec fn spec_run_instrs(
    s: NesV,
    e1: Seq<bool>,
    e8: Seq<u8>,
    e16: Seq<u16>,
    arg: Option<u8>,
    instrs: Seq<Instruction>,
) -> (NesV, Seq<bool>, Seq<u8>, Seq<u16>)
    decreases instrs.len(),
{
    if instrs.len() == 0 {
        (s, e1, e8, e16)
    } else {
        let prefix = spec_run_instrs(s, e1, e8, e16, arg, instrs.drop_last());
        spec_step_instr(prefix.0, prefix.1, prefix.2, prefix.3, arg, instrs.last())
    }
}

/// Running the function from block `k` with an incoming edge argument: run
/// the block's instructions, then return or follow the chosen branch edge.
/// Edges out of a well-formed function only point at later blocks, so the
/// recursion is bounded by the arena.
pub open spec fn spec_run_from(
    f: FunctionV,
    k: int,
    arg: Option<u8>,
    s: NesV,
    e1: Seq<bool>,
    e8: Seq<u8>,
    e16: Seq<u16>,
) -> NesV
    decreases f.basic_blocks.len() - k,
{
    if !(0 <= k < f.basic_blocks.len()) {
        s
    } else {
        let b = f.basic_blocks[k];
        let run = spec_run_instrs(s, e1, e8, e16, arg, b.instructions);
        match b.jump {
            Jump::Return => run.0,
            Jump::BasicBlock {
                condition,
                target_if_true,
                target_if_true_argument,
                target_if_false,
                target_if_false_argument,
            } => {
                let c = env_get1(run.1, condition);
                let target = if c {
                    target_if_true as int
                } else {
                    target_if_false as int
                };
                let argument = if c {
                    target_if_true_argument
                } else {
                    target_if_false_argument
                };
                let argument_value = match argument {
                    Some(v) => Some(env_get8(run.2, v)),
                    None => None,
                };
                if k < target < f.basic_blocks.len() {
                    spec_run_from(f, target, argument_value, run.0, run.1, run.2, run.3)
                } else {
                    run.0
                }
            },
        }
    }
}

/// What executing a whole fragment does to the guest state: run from the
/// entry block with fresh environments and no incoming argument.
pub open spec fn spec_eval_function(f: FunctionV, s: NesV) -> NesV {
    spec_run_from(
        f,
        0,
        None,
        s,
        Seq::new(f.variable_id_counter as nat, |i: int| false),
        Seq::new(f.variable_id_counter as nat, |i: int| 0u8),
        Seq::new(f.variable_id_counter as nat, |i: int| 0u16),
    )
}

/// No store changes the PRG-ROM bytes or the mirroring flag, and every store
/// keeps the memories at their architected sizes.
pub proof fn lemma_step_preserves_rom(
    s: NesV,
    e1: Seq<bool>,
    e8: Seq<u8>,
    e16: Seq<u16>,
    arg: Option<u8>,
    i: Instruction,
)
    ensures
        spec_step_instr(s, e1, e8, e16, arg, i).0.prg_rom == s.prg_rom,
        spec_step_instr(s, e1, e8, e16, arg, i).0.mirror_horizontal == s.mirror_horizontal,
        s.wf() ==> spec_step_instr(s, e1, e8, e16, arg, i).0.wf(),
{
}

pub proof fn lemma_run_instrs_preserves_rom(
    s: NesV,
    e1: Seq<bool>,
    e8: Seq<u8>,
    e16: Seq<u16>,
    arg: Option<u8>,
    instrs: Seq<Instruction>,
)
    ensures
        spec_run_instrs(s, e1, e8, e16, arg, instrs).0.prg_rom == s.prg_rom,
        spec_run_instrs(s, e1, e8, e16, arg, instrs).0.mirror_horizontal == s.mirror_horizontal,
        s.wf() ==> spec_run_instrs(s, e1, e8, e16, arg, instrs).0.wf(),
    decreases instrs.len(),
{
    if instrs.len() > 0 {
        lemma_run_instrs_preserves_rom(s, e1, e8, e16, arg, instrs.drop_last());
        let prefix = spec_run_instrs(s, e1, e8, e16, arg, instrs.drop_last());
        lemma_step_preserves_rom(prefix.0, prefix.1, prefix.2, prefix.3, arg, instrs.last());
    }
}

pub proof fn lemma_run_from_preserves_rom(
    f: FunctionV,
    k: int,
    arg: Option<u8>,
    s: NesV,
    e1: Seq<bool>,
    e8: Seq<u8>,
    e16: Seq<u16>,
)
    ensures
        spec_run_from(f, k, arg, s, e1, e8, e16).prg_rom == s.prg_rom,
        spec_run_from(f, k, arg, s, e1, e8, e16).mirror_horizontal == s.mirror_horizontal,
        s.wf() ==> spec_run_from(f, k, arg, s, e1, e8, e16).wf(),
    decreases f.basic_blocks.len() - k,
{
    if 0 <= k < f.basic_blocks.len() {
        let b = f.basic_blocks[k];
        lemma_run_instrs_preserves_rom(s, e1, e8, e16, arg, b.instructions);
        let run = spec_run_instrs(s, e1, e8, e16, arg, b.instructions);
        match b.jump {
            Jump::Return => {},
            Jump::BasicBlock {
                condition,
                target_if_true,
                target_if_true_argument,
                target_if_false,
                target_if_false_argument,
            } => {
                let c = env_get1(run.1, condition);
                let target = if c {
                    target_if_true as int
                } else {
                    target_if_false as int
                };
                let argument = if c {
                    target_if_true_argument
                } else {
                    target_if_false_argument
                };
                let argument_value = match argument {
                    Some(v) => Some(env_get8(run.2, v)),
                    None => None,
                };
                if k < target < f.basic_blocks.len() {
                    lemma_run_from_preserves_rom(f, target, argument_value, run.0, run.1, run.2, run.3);
                }
            },
        }
    }
}

/// Law: evaluating any fragment leaves the PRG-ROM bytes and the mirroring
/// flag unchanged, and preserves the state's well-formedness.
pub proof fn lemma_eval_preserves_rom(f: FunctionV, s: NesV)
    ensures
        spec_eval_function(f, s).prg_rom == s.prg_rom,
        spec_eval_function(f, s).mirror_horizontal == s.mirror_horizontal,
        s.wf() ==> spec_eval_function(f, s).wf(),
{
    lemma_run_from_preserves_rom(
        f,
        0,
        None,
        s,
        Seq::new(f.variable_id_counter as nat, |i: int| false),
        Seq::new(f.variable_id_counter as nat, |i: int| 0u8),
        Seq::new(f.variable_id_counter as nat, |i: int| 0u16),
    );
}

/// Law: the carry-propagated sum is exact. The 8-bit result and the carry
/// bit together recover the full integer sum of the operands.
pub proof fn lemma_sum8_exact(a: u8, b: u8, c: bool)
    ensures
        a + b + bool_int(c) == spec_sum8(a, b, c) + 0x100 * bool_int(spec_sum_carry(a, b, c)),
{
}

/// Law: the borrow-propagated difference is exact. The 8-bit result and the
/// borrow bit together recover the full integer difference of the operands.
pub proof fn lemma_diff8_exact(a: u8, b: u8, borrow: bool)
    ensures
        a - b - bool_int(borrow) == spec_diff8(a, b, borrow) - 0x100 * bool_int(
            spec_diff_borrow(a, b, borrow),
        ),
{
}

/// Law: the flag bit indices C=0, Z=1, I=2, D=3, B=4, Unused=5, V=6, N=7 are
/// the positions all compiled code reads and writes inside the P byte.
pub proof fn lemma_flag_bit_indices()
    ensures
        CpuFlag::Carry.spec_bit_index() == 0,
        CpuFlag::Zero.spec_bit_index() == 1,
        CpuFlag::InterruptDisable.spec_bit_index() == 2,
        CpuFlag::Decimal.spec_bit_index() == 3,
        CpuFlag::Break.spec_bit_index() == 4,
        CpuFlag::Unused.spec_bit_index() == 5,
        CpuFlag::Overflow.spec_bit_index() == 6,
        CpuFlag::Negative.spec_bit_index() == 7,
{
}

/// Law: compiled code touching P preserves the flag bit positions. A flag
/// store sets exactly its own architected bit of the P byte and leaves every
/// other flag's bit unchanged, and a flag read returns that same bit.
pub proof fn lemma_flag_store_preserves_indices(p: u8, flag: CpuFlag, value: bool, other: CpuFlag)
    ensures
        spec_get_flag(spec_set_flag(p, flag, value), flag) == value,
        other != flag ==> spec_get_flag(spec_set_flag(p, flag, value), other) == spec_get_flag(
            p,
            other,
        ),
{
    let i = flag.spec_bit_index();
    let j = other.spec_bit_index();
    assert(i < 8 && j < 8);
    assert(other != flag ==> i != j);
    if value {
        assert(((p | (1u8 << i)) >> i) & 1 == 1) by (bit_vector)
            requires
                i < 8,
        ;
        assert(i != j && j < 8 && i < 8 ==> ((p | (1u8 << i)) >> j) & 1 == (p >> j) & 1)
            by (bit_vector);
    } else {
        assert(((p & !(1u8 << i)) >> i) & 1 == 0) by (bit_vector)
            requires
                i < 8,
        ;
        assert(i != j && j < 8 && i < 8 ==> ((p & !(1u8 << i)) >> j) & 1 == (p >> j) & 1)
            by (bit_vector);
    }
}

/// A vector of `len` copies of one value.
pub fn filled_vec<T: Copy>(len: usize, value: T) -> (r: Vec<T>)
    ensures
        r@ =~= Seq::new(len as nat, |i: int| value),
{
    let mut v: Vec<T> = Vec::new();
    while v.len() < len
        invariant
            v@.len() <= len,
            forall|i: int| 0 <= i < v@.len() ==> v@[i] == value,
        decreases len - v@.len(),
    {
        v.push(value);
    }
    v
}

/// Executes one IR instruction against the guest state and the environments,
/// realizing exactly the spec-level step.
fn exec_instr(
    nes: &mut Nes,
    e1: &mut Vec<bool>,
    e8: &mut Vec<u8>,
    e16: &mut Vec<u16>,
    arg: Option<u8>,
    i: Instruction,
)
    requires
        old(nes)@.wf(),
        instr_wf(i, old(e1)@.len() as int),
        old(e1)@.len() == old(e8)@.len() && old(e8)@.len() == old(e16)@.len(),
    ensures
        (final(nes)@, final(e1)@, final(e8)@, final(e16)@) == spec_step_instr(
            old(nes)@,
            old(e1)@,
            old(e8)@,
            old(e16)@,
            arg,
            i,
        ),
        final(nes)@.wf(),
        final(e1)@.len() == old(e1)@.len(),
        final(e8)@.len() == old(e8)@.len(),
        final(e16)@.len() == old(e16)@.len(),
{
    let ghost s0 = nes@;
    match i {
        Instruction::Define1 { variable, definition } => {
            let value: bool = match definition {
                Definition1::Immediate(b) => b,
                Definition1::Flag(flag) => (nes.cpu.p >> flag.bit_index()) & 1 == 1,
                Definition1::Not(a) => !e1[a.id],
                Definition1::And(a, b) => e1[a.id] && e1[b.id],
                Definition1::EqualToZero(a) => e8[a.id] == 0,
                Definition1::U8Bit { operand, index } => (e8[operand.id] >> index) & 1 == 1,
                Definition1::LessThanOrEqual16(a, b) => e16[a.id] <= e16[b.id],
                Definition1::SumCarry { operand_0, operand_1, operand_carry } => {
                    let c: u16 = if e1[operand_carry.id] {
                        1
                    } else {
                        0
                    };
                    (e8[operand_0.id] as u16) + (e8[operand_1.id] as u16) + c >= 0x100
                },
                Definition1::SumOverflow { operand_0, operand_1, operand_carry } => {
                    let c: i32 = if e1[operand_carry.id] {
                        1
                    } else {
                        0
                    };
                    let a0 = signed8_exec(e8[operand_0.id]);
                    let a1 = signed8_exec(e8[operand_1.id]);
                    let total: i32 = a0 + a1 + c;
                    total < -128 || total > 127
                },
                Definition1::DifferenceBorrow { operand_0, operand_1, operand_borrow } => {
                    let c: u16 = if e1[operand_borrow.id] {
                        1
                    } else {
                        0
                    };
                    (e8[operand_0.id] as u16) < (e8[operand_1.id] as u16) + c
                },
                Definition1::DifferenceOverflow { operand_0, operand_1, operand_borrow } => {
                    let c: i32 = if e1[operand_borrow.id] {
                        1
                    } else {
                        0
                    };
                    let a0 = signed8_exec(e8[operand_0.id]);
                    let a1 = signed8_exec(e8[operand_1.id]);
                    let total: i32 = a0 - a1 - c;
                    total < -128 || total > 127
                },
            };
            e1[variable.id] = value;
        },
        Instruction::Define8 { variable, definition } => {
            let value: u8 = match definition {
                Definition8::Immediate(v) => v,
                Definition8::BasicBlockArgument => match arg {
                    Some(v) => v,
                    None => 0,
                },
                Definition8::Register(r) => read_register(nes, r),
                Definition8::Memory { region, offset } => region_read(nes, region, e16[offset.id]),
                Definition8::LowByte(a) => (e16[a.id] % 0x100) as u8,
                Definition8::HighByte(a) => (e16[a.id] / 0x100) as u8,
                Definition8::Or(a, b) => e8[a.id] | e8[b.id],
                Definition8::And(a, b) => e8[a.id] & e8[b.id],
                Definition8::Xor(a, b) => e8[a.id] ^ e8[b.id],
                Definition8::RotateLeft { operand, operand_carry } => {
                    let c: u16 = if e1[operand_carry.id] {
                        1
                    } else {
                        0
                    };
                    (((e8[operand.id] as u16) * 2 + c) % 0x100) as u8
                },
                Definition8::RotateRight { operand, operand_carry } => {
                    let c: u8 = if e1[operand_carry.id] {
                        1
                    } else {
                        0
                    };
                    e8[operand.id] / 2 + c * 0x80
                },
                Definition8::Sum { operand_0, operand_1, operand_carry } => {
                    let c: u16 = if e1[operand_carry.id] {
                        1
                    } else {
                        0
                    };
                    (((e8[operand_0.id] as u16) + (e8[operand_1.id] as u16) + c) % 0x100) as u8
                },
                Definition8::Difference { operand_0, operand_1, operand_borrow } => {
                    let c: u16 = if e1[operand_borrow.id] {
                        1
                    } else {
                        0
                    };
                    ((0x200 + (e8[operand_0.id] as u16) - (e8[operand_1.id] as u16) - c) % 0x100)
                        as u8
                },
            };
            e8[variable.id] = value;
        },
        Instruction::Define16 { variable, definition } => {
            let value: u16 = match definition {
                Definition16::Immediate(v) => v,
                Definition16::Pc => nes.cpu.pc,
                Definition16::PpuCurrentAddress => nes.ppu.current_address,
                Definition16::FromU8s { high, low } => (e8[high.id] as u16) * 0x100 + (e8[low.id]
                    as u16),
                Definition16::Add(a, b) => (((e16[a.id] as u32) + (e16[b.id] as u32)) % 0x10000)
                    as u16,
                Definition16::Select { condition, result_if_true, result_if_false } => {
                    if e1[condition.id] {
                        e16[result_if_true.id]
                    } else {
                        e16[result_if_false.id]
                    }
                },
            };
            e16[variable.id] = value;
        },
        Instruction::Store1 { destination, variable } => {
            let value = e1[variable.id];
            match destination {
                Destination1::Flag(flag) => {
                    let bit = flag.bit_index();
                    if value {
                        nes.cpu.p = nes.cpu.p | (1u8 << bit);
                    } else {
                        nes.cpu.p = nes.cpu.p & !(1u8 << bit);
                    }
                },
            }
            proof {
                assert(nes@ =~= spec_apply_store1(s0, destination, env_get1(old(e1)@, variable)));
            }
        },
        Instruction::Store8 { destination, variable } => {
            let value = e8[variable.id];
            match destination {
                Destination8::Register(r) => {
                    write_register(nes, r, value);
                },
                Destination8::Memory { region, offset } => {
                    region_write(nes, region, e16[offset.id], value);
                },
            }
        },
        Instruction::Store16 { destination, variable } => {
            let value = e16[variable.id];
            match destination {
                Destination16::Pc => {
                    nes.cpu.pc = value;
                    proof {
                        assert(nes@ =~= spec_apply_store16(s0, destination, value));
                    }
                },
                Destination16::PpuCurrentAddress => {
                    nes.ppu.current_address = value;
                    proof {
                        assert(nes@ =~= spec_apply_store16(s0, destination, value));
                    }
                },
            }
        },
    }
}

/// A byte reinterpreted as a signed value.
fn signed8_exec(a: u8) -> (r: i32)
    ensures
        r == signed8(a),
{
    if a < 0x80 {
        a as i32
    } else {
        (a as i32) - 0x100
    }
}

/// Reads one byte-wide guest register.
fn read_register(nes: &Nes, r: Register8) -> (value: u8)
    ensures
        value == spec_reg_read(nes@, r),
{
    match r {
        Register8::A => nes.cpu.a,
        Register8::X => nes.cpu.x,
        Register8::Y => nes.cpu.y,
        Register8::S => nes.cpu.s,
        Register8::P => nes.cpu.p,
        Register8::PpuControl => nes.ppu.control_register,
        Register8::PpuReadBuffer => nes.ppu.read_buffer,
    }
}

/// Writes one byte-wide guest register.
fn write_register(nes: &mut Nes, r: Register8, value: u8)
    requires
        old(nes)@.wf(),
    ensures
        final(nes)@ == spec_reg_write(old(nes)@, r, value),
        final(nes)@.wf(),
{
    let ghost s0 = nes@;
    match r {
        Register8::A => nes.cpu.a = value,
        Register8::X => nes.cpu.x = value,
        Register8::Y => nes.cpu.y = value,
        Register8::S => nes.cpu.s = value,
        Register8::P => nes.cpu.p = value,
        Register8::PpuControl => nes.ppu.control_register = value,
        Register8::PpuReadBuffer => nes.ppu.read_buffer = value,
    }
    proof {
        assert(nes@ =~= spec_reg_write(s0, r, value));
    }
}

/// Reads one byte of a named region at a mirrored offset.
fn region_read(nes: &Nes, region: Region, offset: u16) -> (value: u8)
    requires
        nes@.wf(),
    ensures
        value == spec_region_read(nes@, region, offset),
{
    match region {
        Region::CpuRam => nes.cpu.ram[(offset % 0x800) as usize],
        Region::PrgRam => nes.cartridge.peek_prg_ram(offset % 0x2000),
        Region::PrgRom => nes.cartridge.peek_prg_rom(offset % 0x8000),
        Region::PpuRam => nes.ppu.ram[(offset % 0x800) as usize],
        Region::PaletteRam => nes.ppu.palette_ram[(offset % 0x20) as usize],
    }
}

/// Writes one byte of a named region at a mirrored offset; writes to the
/// PRG-ROM region are ignored.
fn region_write(nes: &mut Nes, region: Region, offset: u16, value: u8)
    requires
        old(nes)@.wf(),
    ensures
        final(nes)@ == spec_region_write(old(nes)@, region, offset, value),
        final(nes)@.wf(),
{
    let ghost s0 = nes@;
    match region {
        Region::CpuRam => {
            nes.cpu.ram[(offset % 0x800) as usize] = value;
        },
        Region::PrgRam => {
            nes.cartridge.write_prg_ram(offset % 0x2000, value);
        },
        Region::PrgRom => {},
        Region::PpuRam => {
            nes.ppu.ram[(offset % 0x800) as usize] = value;
        },
        Region::PaletteRam => {
            nes.ppu.palette_ram[(offset % 0x20) as usize] = value;
        },
    }
    proof {
        assert(nes@ =~= spec_region_write(s0, region, offset, value));
    }
}

impl Function {
    /// Runs the fragment from block `k` with the given incoming argument,
    /// realizing exactly the spec-level evaluation.
    fn run_from(
        &self,
        k: usize,
        arg: Option<u8>,
        nes: &mut Nes,
        e1: &mut Vec<bool>,
        e8: &mut Vec<u8>,
        e16: &mut Vec<u16>,
    )
        requires
            self.wf(),
            k < self@.basic_blocks.len(),
            old(nes)@.wf(),
            old(e1)@.len() == self@.variable_id_counter,
            old(e8)@.len() == self@.variable_id_counter,
            old(e16)@.len() == self@.variable_id_counter,
        ensures
            final(nes)@ == spec_run_from(
                self@,
                k as int,
                arg,
                old(nes)@,
                old(e1)@,
                old(e8)@,
                old(e16)@,
            ),
            final(nes)@.wf(),
        decreases self@.basic_blocks.len() - k,
    {
        let ghost s0 = nes@;
        let ghost ee1 = e1@;
        let ghost ee8 = e8@;
        let ghost ee16 = e16@;
        proof {
            assert(block_wf(self@, k as int));
        }
        let block = &self.basic_blocks[k];
        let n = block.instructions.len();
        let mut i: usize = 0;
        while i < n
            invariant
                self.wf(),
                k < self@.basic_blocks.len(),
                block == &self.basic_blocks@[k as int],
                n == block.instructions.len(),
                i <= n,
                e1@.len() == self@.variable_id_counter,
                e8@.len() == self@.variable_id_counter,
                e16@.len() == self@.variable_id_counter,
                nes@.wf(),
                (nes@, e1@, e8@, e16@) == spec_run_instrs(
                    s0,
                    ee1,
                    ee8,
                    ee16,
                    arg,
                    self@.basic_blocks[k as int].instructions.take(i as int),
                ),
            decreases n - i,
        {
            let instr = block.instructions[i];
            proof {
                assert(block_wf(self@, k as int));
                assert(self@.basic_blocks[k as int].instructions[i as int] == instr);
                assert(instr_wf(instr, self@.variable_id_counter as int));
                assert(self@.basic_blocks[k as int].instructions.take(i + 1).drop_last()
                    =~= self@.basic_blocks[k as int].instructions.take(i as int));
                assert(self@.basic_blocks[k as int].instructions.take(i + 1).last() == instr);
            }
            exec_instr(nes, e1, e8, e16, arg, instr);
            i = i + 1;
        }
        proof {
            assert(self@.basic_blocks[k as int].instructions.take(n as int)
                =~= self@.basic_blocks[k as int].instructions);
        }
        match block.jump {
            Jump::Return => {},
            Jump::BasicBlock {
                condition,
                target_if_true,
                target_if_true_argument,
                target_if_false,
                target_if_false_argument,
            } => {
                proof {
                    assert(jump_wf(self@, k as int, self@.basic_blocks[k as int].jump));
                }
                let c = e1[condition.id];
                let target = if c {
                    target_if_true
                } else {
                    target_if_false
                };
                let argument = if c {
                    target_if_true_argument
                } else {
                    target_if_false_argument
                };
                let argument_value: Option<u8> = match argument {
                    Some(v) => Some(e8[v.id]),
                    None => None,
                };
                self.run_from(target, argument_value, nes, e1, e8, e16);
            },
        }
    }

    /// Executes the fragment against the guest state: the new state is
    /// exactly the spec-level evaluation of this function's view.
    pub fn execute(&self, nes: &mut Nes)
        requires
            self.wf(),
            old(nes)@.wf(),
        ensures
            final(nes)@ == spec_eval_function(self@, old(nes)@),
            final(nes)@.wf(),
    {
        let counter = self.variable_id_counter;
        let mut e1: Vec<bool> = filled_vec(counter, false);
        let mut e8: Vec<u8> = filled_vec(counter, 0u8);
        let mut e16: Vec<u16> = filled_vec(counter, 0u16);
        self.run_from(0, None, nes, &mut e1, &mut e8, &mut e16);
    }
}

} // verus!
