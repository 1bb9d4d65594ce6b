//! Lowering of guest bus accesses to IR: a chain of inclusive range tests,
//! each built from a pair of 16-bit comparisons AND-ed together, whose arms
//! perform the region-specific read or write. Read chains thread the final
//! byte to the caller through block parameters.

use crate::ir::{
    Definition1, Definition16, Definition8, Destination16, Destination8, Function, FunctionV, Jump,
    Region, Register8, Variable1, Variable16, Variable8, next_block, spec_define_1, spec_define_16,
    spec_define_8, spec_new_basic_block, spec_set_jump, spec_store_16, spec_store_8,
    defined_in_prefix,
};
use vstd::prelude::*;

verus! {

/// What `emit_range_guard` builds, as a function of the builder state.
#[verifier::opaque]
pub open spec fn spec_emit_range_guard(
    f: FunctionV,
    cur: usize,
    lo: u16,
    hi: u16,
    address: Variable16,
) -> (FunctionV, Variable1) {
    let (f, lo_value) = spec_define_16(f, cur as int, Definition16::Immediate(lo));
    let (f, lo_ok) = spec_define_1(f, cur as int, Definition1::LessThanOrEqual16(lo_value, address));
    let (f, hi_value) = spec_define_16(f, cur as int, Definition16::Immediate(hi));
    let (f, hi_ok) = spec_define_1(f, cur as int, Definition1::LessThanOrEqual16(address, hi_value));
    spec_define_1(f, cur as int, Definition1::And(lo_ok, hi_ok))
}

/// What `emit_goto` builds.
#[verifier::opaque]
pub open spec fn spec_emit_goto(
    f: FunctionV,
    from: usize,
    to: usize,
    argument: Option<Variable8>,
) -> FunctionV {
    let (f, condition) = spec_define_1(f, from as int, Definition1::Immediate(true));
    spec_set_jump(
        f,
        from as int,
        Jump::BasicBlock {
            condition,
            target_if_true: to,
            target_if_true_argument: argument,
            target_if_false: to,
            target_if_false_argument: argument,
        },
    )
}

/// What `emit_write_ppuaddr` builds.
#[verifier::opaque]
pub open spec fn spec_emit_write_ppuaddr(f: FunctionV, cur: usize, value: Variable8) -> FunctionV {
    let (f, old_address) = spec_define_16(f, cur as int, Definition16::PpuCurrentAddress);
    let (f, new_high) = spec_define_8(f, cur as int, Definition8::LowByte(old_address));
    let (f, new_address) = spec_define_16(
        f,
        cur as int,
        Definition16::FromU8s { high: new_high, low: value },
    );
    spec_store_16(f, cur as int, Destination16::PpuCurrentAddress, new_address)
}

/// What `emit_ppu_increment` builds.
#[verifier::opaque]
pub open spec fn spec_emit_ppu_increment(f: FunctionV, cur: usize) -> (FunctionV, usize) {
    let (f, address) = spec_define_16(f, cur as int, Definition16::PpuCurrentAddress);
    let (f, control) = spec_define_8(f, cur as int, Definition8::Register(Register8::PpuControl));
    let (f, increment_bit) = spec_define_1(
        f,
        cur as int,
        Definition1::U8Bit { operand: control, index: 2 },
    );
    let true_block = next_block(f);
    let f = spec_new_basic_block(f, false);
    let false_block = next_block(f);
    let f = spec_new_basic_block(f, false);
    let f = spec_set_jump(
        f,
        cur as int,
        Jump::BasicBlock {
            condition: increment_bit,
            target_if_true: true_block,
            target_if_true_argument: None,
            target_if_false: false_block,
            target_if_false_argument: None,
        },
    );
    let (f, by_32) = spec_define_8(f, true_block as int, Definition8::Immediate(32));
    let (f, by_1) = spec_define_8(f, false_block as int, Definition8::Immediate(1));
    let join = next_block(f);
    let f = spec_new_basic_block(f, true);
    let (f, increment) = spec_define_8(f, join as int, Definition8::BasicBlockArgument);
    let f = spec_emit_goto(f, true_block, join, Some(by_32));
    let f = spec_emit_goto(f, false_block, join, Some(by_1));
    let (f, zero) = spec_define_8(f, join as int, Definition8::Immediate(0));
    let (f, increment_16) = spec_define_16(
        f,
        join as int,
        Definition16::FromU8s { high: zero, low: increment },
    );
    let (f, incremented) = spec_define_16(f, join as int, Definition16::Add(address, increment_16));
    let f = spec_store_16(f, join as int, Destination16::PpuCurrentAddress, incremented);
    (f, join)
}

/// What `emit_vram_offset` builds.
#[verifier::opaque]
pub open spec fn spec_emit_vram_offset(
    f: FunctionV,
    cur: usize,
    address: Variable16,
    mirror_horizontal: bool,
) -> (FunctionV, Variable16) {
    let (f, low) = spec_define_8(f, cur as int, Definition8::LowByte(address));
    let (f, high) = spec_define_8(f, cur as int, Definition8::HighByte(address));
    if mirror_horizontal {
        let (f, low_mask) = spec_define_8(f, cur as int, Definition8::Immediate(0x07));
        let (f, high_low) = spec_define_8(f, cur as int, Definition8::And(high, low_mask));
        let (f, high_mask) = spec_define_8(f, cur as int, Definition8::Immediate(0x10));
        let (f, high_bit) = spec_define_8(f, cur as int, Definition8::And(high, high_mask));
        let (f, no_carry) = spec_define_1(f, cur as int, Definition1::Immediate(false));
        let (f, high_shifted) = spec_define_8(
            f,
            cur as int,
            Definition8::RotateRight { operand: high_bit, operand_carry: no_carry },
        );
        let (f, remapped) = spec_define_8(f, cur as int, Definition8::Or(high_low, high_shifted));
        spec_define_16(f, cur as int, Definition16::FromU8s { high: remapped, low })
    } else {
        spec_define_16(f, cur as int, Definition16::FromU8s { high, low })
    }
}

/// What `emit_ppu_read` builds.
#[verifier::opaque]
pub open spec fn spec_emit_ppu_read(
    f: FunctionV,
    cur: usize,
    address: Variable16,
    mirror_horizontal: bool,
) -> (FunctionV, usize, Variable8) {
    let (f, fallback) = spec_define_8(f, cur as int, Definition8::Immediate(0));
    let (f, guard) = spec_emit_range_guard(f, cur, 0x2000, 0x3eff, address);
    let vram_block = next_block(f);
    let f = spec_new_basic_block(f, false);
    let skip_block = next_block(f);
    let f = spec_new_basic_block(f, false);
    let f = spec_set_jump(
        f,
        cur as int,
        Jump::BasicBlock {
            condition: guard,
            target_if_true: vram_block,
            target_if_true_argument: None,
            target_if_false: skip_block,
            target_if_false_argument: None,
        },
    );
    let (f, previous) = spec_define_8(
        f,
        vram_block as int,
        Definition8::Register(Register8::PpuReadBuffer),
    );
    let (f, offset) = spec_emit_vram_offset(f, vram_block, address, mirror_horizontal);
    let (f, fresh) = spec_define_8(
        f,
        vram_block as int,
        Definition8::Memory { region: Region::PpuRam, offset },
    );
    let f = spec_store_8(
        f,
        vram_block as int,
        Destination8::Register(Register8::PpuReadBuffer),
        fresh,
    );
    let join = next_block(f);
    let f = spec_new_basic_block(f, true);
    let (f, buffered) = spec_define_8(f, join as int, Definition8::BasicBlockArgument);
    let f = spec_emit_goto(f, vram_block, join, Some(previous));
    let f = spec_emit_goto(f, skip_block, join, Some(fallback));
    let (f, palette_guard) = spec_emit_range_guard(f, join, 0x3f00, 0x3fff, address);
    let palette_block = next_block(f);
    let f = spec_new_basic_block(f, false);
    let skip_palette = next_block(f);
    let f = spec_new_basic_block(f, false);
    let f = spec_set_jump(
        f,
        join as int,
        Jump::BasicBlock {
            condition: palette_guard,
            target_if_true: palette_block,
            target_if_true_argument: None,
            target_if_false: skip_palette,
            target_if_false_argument: None,
        },
    );
    let (f, palette_value) = spec_define_8(
        f,
        palette_block as int,
        Definition8::Memory { region: Region::PaletteRam, offset: address },
    );
    let exit = next_block(f);
    let f = spec_new_basic_block(f, true);
    let (f, result) = spec_define_8(f, exit as int, Definition8::BasicBlockArgument);
    let f = spec_emit_goto(f, palette_block, exit, Some(palette_value));
    let f = spec_emit_goto(f, skip_palette, exit, Some(buffered));
    (f, exit, result)
}

/// What `emit_ppu_write` builds.
#[verifier::opaque]
pub open spec fn spec_emit_ppu_write(
    f: FunctionV,
    cur: usize,
    address: Variable16,
    value: Variable8,
    mirror_horizontal: bool,
) -> (FunctionV, usize) {
    let (f, guard) = spec_emit_range_guard(f, cur, 0x2000, 0x3eff, address);
    let vram_block = next_block(f);
    let f = spec_new_basic_block(f, false);
    let join = next_block(f);
    let f = spec_new_basic_block(f, false);
    let f = spec_set_jump(
        f,
        cur as int,
        Jump::BasicBlock {
            condition: guard,
            target_if_true: vram_block,
            target_if_true_argument: None,
            target_if_false: join,
            target_if_false_argument: None,
        },
    );
    let (f, offset) = spec_emit_vram_offset(f, vram_block, address, mirror_horizontal);
    let f = spec_store_8(
        f,
        vram_block as int,
        Destination8::Memory { region: Region::PpuRam, offset },
        value,
    );
    let f = spec_emit_goto(f, vram_block, join, None);
    let (f, palette_guard) = spec_emit_range_guard(f, join, 0x3f00, 0x3fff, address);
    let palette_block = next_block(f);
    let f = spec_new_basic_block(f, false);
    let exit = next_block(f);
    let f = spec_new_basic_block(f, false);
    let f = spec_set_jump(
        f,
        join as int,
        Jump::BasicBlock {
            condition: palette_guard,
            target_if_true: palette_block,
            target_if_true_argument: None,
            target_if_false: exit,
            target_if_false_argument: None,
        },
    );
    let f = spec_store_8(
        f,
        palette_block as int,
        Destination8::Memory { region: Region::PaletteRam, offset: address },
        value,
    );
    let f = spec_emit_goto(f, palette_block, exit, None);
    (f, exit)
}

/// What `emit_read_ppudata` builds.
#[verifier::opaque]
pub open spec fn spec_emit_read_ppudata(f: FunctionV, cur: usize, mirror_horizontal: bool) -> (
    FunctionV,
    usize,
    Variable8,
) {
    let (f, address) = spec_define_16(f, cur as int, Definition16::PpuCurrentAddress);
    let (f, cur) = spec_emit_ppu_increment(f, cur);
    spec_emit_ppu_read(f, cur, address, mirror_horizontal)
}

/// What `emit_write_ppudata` builds.
#[verifier::opaque]
pub open spec fn spec_emit_write_ppudata(
    f: FunctionV,
    cur: usize,
    value: Variable8,
    mirror_horizontal: bool,
) -> (FunctionV, usize) {
    let (f, address) = spec_define_16(f, cur as int, Definition16::PpuCurrentAddress);
    let (f, cur) = spec_emit_ppu_increment(f, cur);
    spec_emit_ppu_write(f, cur, address, value, mirror_horizontal)
}

/// What `compile_read` builds.
#[verifier::opaque]
pub open spec fn spec_compile_read(
    f: FunctionV,
    cur: usize,
    address: Variable16,
    mirror_horizontal: bool,
) -> (FunctionV, usize, Variable8) {
    let (f, fallback) = spec_define_8(f, cur as int, Definition8::Immediate(0));
    let (f, guard) = spec_emit_range_guard(f, cur, 0x0000, 0x1fff, address);
    let ram_block = next_block(f);
    let f = spec_new_basic_block(f, false);
    let skip_ram = next_block(f);
    let f = spec_new_basic_block(f, false);
    let f = spec_set_jump(
        f,
        cur as int,
        Jump::BasicBlock {
            condition: guard,
            target_if_true: ram_block,
            target_if_true_argument: None,
            target_if_false: skip_ram,
            target_if_false_argument: None,
        },
    );
    let (f, ram_value) = spec_define_8(
        f,
        ram_block as int,
        Definition8::Memory { region: Region::CpuRam, offset: address },
    );
    let join_ram = next_block(f);
    let f = spec_new_basic_block(f, true);
    let (f, value_1) = spec_define_8(f, join_ram as int, Definition8::BasicBlockArgument);
    let f = spec_emit_goto(f, ram_block, join_ram, Some(ram_value));
    let f = spec_emit_goto(f, skip_ram, join_ram, Some(fallback));
    let (f, guard) = spec_emit_range_guard(f, join_ram, 0x2007, 0x2007, address);
    let ppudata_block = next_block(f);
    let f = spec_new_basic_block(f, false);
    let skip_ppudata = next_block(f);
    let f = spec_new_basic_block(f, false);
    let f = spec_set_jump(
        f,
        join_ram as int,
        Jump::BasicBlock {
            condition: guard,
            target_if_true: ppudata_block,
            target_if_true_argument: None,
            target_if_false: skip_ppudata,
            target_if_false_argument: None,
        },
    );
    let (f, ppudata_end, ppudata_value) = spec_emit_read_ppudata(f, ppudata_block, mirror_horizontal);
    let join_ppudata = next_block(f);
    let f = spec_new_basic_block(f, true);
    let (f, value_2) = spec_define_8(f, join_ppudata as int, Definition8::BasicBlockArgument);
    let f = spec_emit_goto(f, ppudata_end, join_ppudata, Some(ppudata_value));
    let f = spec_emit_goto(f, skip_ppudata, join_ppudata, Some(value_1));
    let (f, guard) = spec_emit_range_guard(f, join_ppudata, 0x6000, 0x7fff, address);
    let prg_ram_block = next_block(f);
    let f = spec_new_basic_block(f, false);
    let skip_prg_ram = next_block(f);
    let f = spec_new_basic_block(f, false);
    let f = spec_set_jump(
        f,
        join_ppudata as int,
        Jump::BasicBlock {
            condition: guard,
            target_if_true: prg_ram_block,
            target_if_true_argument: None,
            target_if_false: skip_prg_ram,
            target_if_false_argument: None,
        },
    );
    let (f, prg_ram_value) = spec_define_8(
        f,
        prg_ram_block as int,
        Definition8::Memory { region: Region::PrgRam, offset: address },
    );
    let join_prg_ram = next_block(f);
    let f = spec_new_basic_block(f, true);
    let (f, value_3) = spec_define_8(f, join_prg_ram as int, Definition8::BasicBlockArgument);
    let f = spec_emit_goto(f, prg_ram_block, join_prg_ram, Some(prg_ram_value));
    let f = spec_emit_goto(f, skip_prg_ram, join_prg_ram, Some(value_2));
    let (f, guard) = spec_emit_range_guard(f, join_prg_ram, 0x8000, 0xffff, address);
    let prg_rom_block = next_block(f);
    let f = spec_new_basic_block(f, false);
    let skip_prg_rom = next_block(f);
    let f = spec_new_basic_block(f, false);
    let f = spec_set_jump(
        f,
        join_prg_ram as int,
        Jump::BasicBlock {
            condition: guard,
            target_if_true: prg_rom_block,
            target_if_true_argument: None,
            target_if_false: skip_prg_rom,
            target_if_false_argument: None,
        },
    );
    let (f, prg_rom_value) = spec_define_8(
        f,
        prg_rom_block as int,
        Definition8::Memory { region: Region::PrgRom, offset: address },
    );
    let exit = next_block(f);
    let f = spec_new_basic_block(f, true);
    let (f, result) = spec_define_8(f, exit as int, Definition8::BasicBlockArgument);
    let f = spec_emit_goto(f, prg_rom_block, exit, Some(prg_rom_value));
    let f = spec_emit_goto(f, skip_prg_rom, exit, Some(value_3));
    (f, exit, result)
}

/// What `compile_write` builds.
#[verifier::opaque]
pub open spec fn spec_compile_write(
    f: FunctionV,
    cur: usize,
    address: Variable16,
    value: Variable8,
    mirror_horizontal: bool,
) -> (FunctionV, usize) {
    let (f, guard) = spec_emit_range_guard(f, cur, 0x0000, 0x1fff, address);
    let ram_block = next_block(f);
    let f = spec_new_basic_block(f, false);
    let join_ram = next_block(f);
    let f = spec_new_basic_block(f, false);
    let f = spec_set_jump(
        f,
        cur as int,
        Jump::BasicBlock {
            condition: guard,
            target_if_true: ram_block,
            target_if_true_argument: None,
            target_if_false: join_ram,
            target_if_false_argument: None,
        },
    );
    let f = spec_store_8(
        f,
        ram_block as int,
        Destination8::Memory { region: Region::CpuRam, offset: address },
        value,
    );
    let f = spec_emit_goto(f, ram_block, join_ram, None);
    let (f, guard) = spec_emit_range_guard(f, join_ram, 0x2000, 0x2000, address);
    let control_block = next_block(f);
    let f = spec_new_basic_block(f, false);
    let join_control = next_block(f);
    let f = spec_new_basic_block(f, false);
    let f = spec_set_jump(
        f,
        join_ram as int,
        Jump::BasicBlock {
            condition: guard,
            target_if_true: control_block,
            target_if_true_argument: None,
            target_if_false: join_control,
            target_if_false_argument: None,
        },
    );
    let f = spec_store_8(
        f,
        control_block as int,
        Destination8::Register(Register8::PpuControl),
        value,
    );
    let f = spec_emit_goto(f, control_block, join_control, None);
    let (f, guard) = spec_emit_range_guard(f, join_control, 0x2006, 0x2006, address);
    let ppuaddr_block = next_block(f);
    let f = spec_new_basic_block(f, false);
    let join_ppuaddr = next_block(f);
    let f = spec_new_basic_block(f, false);
    let f = spec_set_jump(
        f,
        join_control as int,
        Jump::BasicBlock {
            condition: guard,
            target_if_true: ppuaddr_block,
            target_if_true_argument: None,
            target_if_false: join_ppuaddr,
            target_if_false_argument: None,
        },
    );
    let f = spec_emit_write_ppuaddr(f, ppuaddr_block, value);
    let f = spec_emit_goto(f, ppuaddr_block, join_ppuaddr, None);
    let (f, guard) = spec_emit_range_guard(f, join_ppuaddr, 0x2007, 0x2007, address);
    let ppudata_block = next_block(f);
    let f = spec_new_basic_block(f, false);
    let skip_ppudata = next_block(f);
    let f = spec_new_basic_block(f, false);
    let f = spec_set_jump(
        f,
        join_ppuaddr as int,
        Jump::BasicBlock {
            condition: guard,
            target_if_true: ppudata_block,
            target_if_true_argument: None,
            target_if_false: skip_ppudata,
            target_if_false_argument: None,
        },
    );
    let (f, ppudata_end) = spec_emit_write_ppudata(f, ppudata_block, value, mirror_horizontal);
    let join_ppudata = next_block(f);
    let f = spec_new_basic_block(f, false);
    let f = spec_emit_goto(f, ppudata_end, join_ppudata, None);
    let f = spec_emit_goto(f, skip_ppudata, join_ppudata, None);
    let (f, guard) = spec_emit_range_guard(f, join_ppudata, 0x6000, 0x7fff, address);
    let prg_ram_block = next_block(f);
    let f = spec_new_basic_block(f, false);
    let exit = next_block(f);
    let f = spec_new_basic_block(f, false);
    let f = spec_set_jump(
        f,
        join_ppudata as int,
        Jump::BasicBlock {
            condition: guard,
            target_if_true: prg_ram_block,
            target_if_true_argument: None,
            target_if_false: exit,
            target_if_false_argument: None,
        },
    );
    let f = spec_store_8(
        f,
        prg_ram_block as int,
        Destination8::Memory { region: Region::PrgRam, offset: address },
        value,
    );
    let f = spec_emit_goto(f, prg_ram_block, exit, None);
    (f, exit)
}

/// Emits the guard `lo <= address && address <= hi`.
pub fn emit_range_guard(f: &mut Function, cur: usize, lo: u16, hi: u16, address: Variable16) -> (r:
    Variable1)
    requires
        old(f).wf(),
        cur < old(f)@.basic_blocks.len(),
        address.id < old(f)@.variable_id_counter,
        old(f)@.variable_id_counter + 8 <= usize::MAX,
        forall|b2: int|
            cur as int <= b2 ==> #[trigger] defined_in_prefix(
                old(f)@,
                b2,
                address.id as int,
            ),
    ensures
        final(f).wf(),
        old(f)@.basic_blocks.len() == final(f)@.basic_blocks.len(),
        old(f)@.variable_id_counter <= final(f)@.variable_id_counter,
        final(f)@.variable_id_counter <= old(f)@.variable_id_counter + 8,
        forall|b: int|
            0 <= b < old(f)@.basic_blocks.len() ==> final(f)@.basic_blocks[b].has_argument == old(
                f,
            )@.basic_blocks[b].has_argument,
        forall|b: int|
            0 <= b < old(f)@.basic_blocks.len() ==> final(f)@.basic_blocks[b].jump == old(
                f,
            )@.basic_blocks[b].jump,
        r.id < final(f)@.variable_id_counter,
        final(f)@ == spec_emit_range_guard(old(f)@, cur, lo, hi, address).0,
        r == spec_emit_range_guard(old(f)@, cur, lo, hi, address).1,
        forall|b2: int, id: int|
            defined_in_prefix(old(f)@, b2, id) ==> #[trigger] defined_in_prefix(
                final(f)@,
                b2,
                id,
            ),
        forall|b2: int|
            cur as int <= b2 ==> #[trigger] defined_in_prefix(
                final(f)@,
                b2,
                r.id as int,
            ),
{
    proof {
        reveal(spec_emit_range_guard);
    }
    let lo_value = f.define_16(cur, Definition16::Immediate(lo));
    let lo_ok = f.define_1(cur, Definition1::LessThanOrEqual16(lo_value, address));
    let hi_value = f.define_16(cur, Definition16::Immediate(hi));
    let hi_ok = f.define_1(cur, Definition1::LessThanOrEqual16(address, hi_value));
    f.define_1(cur, Definition1::And(lo_ok, hi_ok))
}

/// Terminates `from` with an unconditional edge to `to`, passing an argument
/// exactly when `to` declares a parameter.
pub fn emit_goto(f: &mut Function, from: usize, to: usize, argument: Option<Variable8>)
    requires
        old(f).wf(),
        from < to < old(f)@.basic_blocks.len(),
        old(f)@.basic_blocks[to as int].has_argument <==> argument is Some,
        (match argument {
            Some(v) => v.id < old(f)@.variable_id_counter && defined_in_prefix(
                old(f)@,
                from as int,
                v.id as int,
            ),
            None => true,
        }),
        old(f)@.variable_id_counter + 2 <= usize::MAX,
    ensures
        final(f).wf(),
        old(f)@.basic_blocks.len() == final(f)@.basic_blocks.len(),
        old(f)@.variable_id_counter <= final(f)@.variable_id_counter,
        final(f)@.variable_id_counter <= old(f)@.variable_id_counter + 2,
        forall|b: int|
            0 <= b < old(f)@.basic_blocks.len() ==> final(f)@.basic_blocks[b].has_argument == old(
                f,
            )@.basic_blocks[b].has_argument,
        forall|b: int|
            0 <= b < old(f)@.basic_blocks.len() && b != from ==> final(f)@.basic_blocks[b].jump
                == old(f)@.basic_blocks[b].jump,
        final(f)@ == spec_emit_goto(old(f)@, from, to, argument),
        forall|b2: int, id: int|
            defined_in_prefix(old(f)@, b2, id) ==> #[trigger] defined_in_prefix(
                final(f)@,
                b2,
                id,
            ),
{
    proof {
        reveal(spec_emit_goto);
    }
    let condition = f.define_1(from, Definition1::Immediate(true));
    f.set_jump(
        from,
        Jump::BasicBlock {
            condition,
            target_if_true: to,
            target_if_true_argument: argument,
            target_if_false: to,
            target_if_false_argument: argument,
        },
    );
}

/// Emits the PPUADDR write: the new current address is the old one's low
/// byte shifted into the high position, with the written byte as low byte.
pub fn emit_write_ppuaddr(f: &mut Function, cur: usize, value: Variable8)
    requires
        old(f).wf(),
        cur < old(f)@.basic_blocks.len(),
        value.id < old(f)@.variable_id_counter,
        old(f)@.variable_id_counter + 16 <= usize::MAX,
        forall|b2: int|
            cur as int <= b2 ==> #[trigger] defined_in_prefix(
                old(f)@,
                b2,
                value.id as int,
            ),
    ensures
        final(f).wf(),
        old(f)@.basic_blocks.len() == final(f)@.basic_blocks.len(),
        old(f)@.variable_id_counter <= final(f)@.variable_id_counter,
        final(f)@.variable_id_counter <= old(f)@.variable_id_counter + 16,
        forall|b: int|
            0 <= b < old(f)@.basic_blocks.len() ==> final(f)@.basic_blocks[b].has_argument == old(
                f,
            )@.basic_blocks[b].has_argument,
        forall|b: int|
            0 <= b < old(f)@.basic_blocks.len() ==> final(f)@.basic_blocks[b].jump == old(
                f,
            )@.basic_blocks[b].jump,
        final(f)@ == spec_emit_write_ppuaddr(old(f)@, cur, value),
        forall|b2: int, id: int|
            defined_in_prefix(old(f)@, b2, id) ==> #[trigger] defined_in_prefix(
                final(f)@,
                b2,
                id,
            ),
{
    proof {
        reveal(spec_emit_write_ppuaddr);
    }
    let old_address = f.define_16(cur, Definition16::PpuCurrentAddress);
    let new_high = f.define_8(cur, Definition8::LowByte(old_address));
    let new_address = f.define_16(cur, Definition16::FromU8s { high: new_high, low: value });
    f.store_16(cur, Destination16::PpuCurrentAddress, new_address);
}

/// Emits the PPUDATA post-increment of the current address: by 32 when bit 2
/// of the control register is set, else by 1.
pub fn emit_ppu_increment(f: &mut Function, cur: usize) -> (r: usize)
    requires
        old(f).wf(),
        cur < old(f)@.basic_blocks.len(),
        old(f)@.variable_id_counter + 32 <= usize::MAX,
    ensures
        final(f).wf(),
        old(f)@.basic_blocks.len() <= final(f)@.basic_blocks.len(),
        old(f)@.variable_id_counter <= final(f)@.variable_id_counter,
        final(f)@.variable_id_counter <= old(f)@.variable_id_counter + 32,
        forall|b: int|
            0 <= b < old(f)@.basic_blocks.len() ==> final(f)@.basic_blocks[b].has_argument == old(
                f,
            )@.basic_blocks[b].has_argument,
        r == final(f)@.basic_blocks.len() - 1,
        final(f)@.basic_blocks[r as int].jump == Jump::Return,
        final(f)@ == spec_emit_ppu_increment(old(f)@, cur).0,
        r == spec_emit_ppu_increment(old(f)@, cur).1,
        forall|b2: int, id: int|
            defined_in_prefix(old(f)@, b2, id) ==> #[trigger] defined_in_prefix(
                final(f)@,
                b2,
                id,
            ),
        cur <= r,
{
    proof {
        reveal(spec_emit_ppu_increment);
    }
    let address = f.define_16(cur, Definition16::PpuCurrentAddress);
    let control = f.define_8(cur, Definition8::Register(Register8::PpuControl));
    let increment_bit = f.define_1(cur, Definition1::U8Bit { operand: control, index: 2 });
    let true_block = f.new_basic_block();
    let false_block = f.new_basic_block();
    f.set_jump(
        cur,
        Jump::BasicBlock {
            condition: increment_bit,
            target_if_true: true_block,
            target_if_true_argument: None,
            target_if_false: false_block,
            target_if_false_argument: None,
        },
    );
    let by_32 = f.define_8(true_block, Definition8::Immediate(32));
    let by_1 = f.define_8(false_block, Definition8::Immediate(1));
    let join = f.new_basic_block_with_argument();
    let increment = f.define_8(join, Definition8::BasicBlockArgument);
    emit_goto(f, true_block, join, Some(by_32));
    emit_goto(f, false_block, join, Some(by_1));
    let zero = f.define_8(join, Definition8::Immediate(0));
    let increment_16 = f.define_16(join, Definition16::FromU8s { high: zero, low: increment });
    let incremented = f.define_16(join, Definition16::Add(address, increment_16));
    f.store_16(join, Destination16::PpuCurrentAddress, incremented);
    join
}

/// Emits the horizontal-mirroring remap of a VRAM address's high byte:
/// `(high & 0x07) | ((high & 0x10) >> 1)`. Which remap is emitted is fixed at
/// compile time by the cartridge's mirroring flag.
fn emit_vram_offset(f: &mut Function, cur: usize, address: Variable16, mirror_horizontal: bool)
    -> (r: Variable16)
    requires
        old(f).wf(),
        cur < old(f)@.basic_blocks.len(),
        address.id < old(f)@.variable_id_counter,
        old(f)@.variable_id_counter + 16 <= usize::MAX,
        forall|b2: int|
            cur as int <= b2 ==> #[trigger] defined_in_prefix(
                old(f)@,
                b2,
                address.id as int,
            ),
    ensures
        final(f).wf(),
        old(f)@.basic_blocks.len() <= final(f)@.basic_blocks.len(),
        old(f)@.variable_id_counter <= final(f)@.variable_id_counter,
        final(f)@.variable_id_counter <= old(f)@.variable_id_counter + 16,
        forall|b: int|
            0 <= b < old(f)@.basic_blocks.len() ==> final(f)@.basic_blocks[b].has_argument == old(
                f,
            )@.basic_blocks[b].has_argument,
        r.id < final(f)@.variable_id_counter,
        final(f)@ == spec_emit_vram_offset(old(f)@, cur, address, mirror_horizontal).0,
        r == spec_emit_vram_offset(old(f)@, cur, address, mirror_horizontal).1,
        forall|b2: int, id: int|
            defined_in_prefix(old(f)@, b2, id) ==> #[trigger] defined_in_prefix(
                final(f)@,
                b2,
                id,
            ),
        forall|b2: int|
            cur as int <= b2 ==> #[trigger] defined_in_prefix(
                final(f)@,
                b2,
                r.id as int,
            ),
{
    proof {
        reveal(spec_emit_vram_offset);
    }
    let low = f.define_8(cur, Definition8::LowByte(address));
    let high = f.define_8(cur, Definition8::HighByte(address));
    if mirror_horizontal {
        let low_mask = f.define_8(cur, Definition8::Immediate(0x07));
        let high_low = f.define_8(cur, Definition8::And(high, low_mask));
        let high_mask = f.define_8(cur, Definition8::Immediate(0x10));
        let high_bit = f.define_8(cur, Definition8::And(high, high_mask));
        let no_carry = f.define_1(cur, Definition1::Immediate(false));
        let high_shifted = f.define_8(
            cur,
            Definition8::RotateRight { operand: high_bit, operand_carry: no_carry },
        );
        let remapped = f.define_8(cur, Definition8::Or(high_low, high_shifted));
        f.define_16(cur, Definition16::FromU8s { high: remapped, low })
    } else {
        f.define_16(cur, Definition16::FromU8s { high, low })
    }
}

/// Emits the PPU bus read dispatch: VRAM (through the read buffer) in
/// 0x2000-0x3eff, palette RAM in 0x3f00-0x3fff, zero elsewhere. Returns the
/// block to continue in and the byte read.
pub fn emit_ppu_read(
    f: &mut Function,
    cur: usize,
    address: Variable16,
    mirror_horizontal: bool,
) -> (r: (usize, Variable8))
    requires
        old(f).wf(),
        cur < old(f)@.basic_blocks.len(),
        address.id < old(f)@.variable_id_counter,
        old(f)@.variable_id_counter + 256 <= usize::MAX,
        forall|b2: int|
            cur as int <= b2 ==> #[trigger] defined_in_prefix(
                old(f)@,
                b2,
                address.id as int,
            ),
    ensures
        final(f).wf(),
        old(f)@.basic_blocks.len() <= final(f)@.basic_blocks.len(),
        old(f)@.variable_id_counter <= final(f)@.variable_id_counter,
        final(f)@.variable_id_counter <= old(f)@.variable_id_counter + 256,
        forall|b: int|
            0 <= b < old(f)@.basic_blocks.len() ==> final(f)@.basic_blocks[b].has_argument == old(
                f,
            )@.basic_blocks[b].has_argument,
        r.0 == final(f)@.basic_blocks.len() - 1,
        final(f)@.basic_blocks[r.0 as int].jump == Jump::Return,
        r.1.id < final(f)@.variable_id_counter,
        final(f)@ == spec_emit_ppu_read(old(f)@, cur, address, mirror_horizontal).0,
        r.0 == spec_emit_ppu_read(old(f)@, cur, address, mirror_horizontal).1,
        r.1 == spec_emit_ppu_read(old(f)@, cur, address, mirror_horizontal).2,
        forall|b2: int, id: int|
            defined_in_prefix(old(f)@, b2, id) ==> #[trigger] defined_in_prefix(
                final(f)@,
                b2,
                id,
            ),
        forall|b2: int|
            r.0 as int <= b2 ==> #[trigger] defined_in_prefix(
                final(f)@,
                b2,
                r.1.id as int,
            ),
        cur <= r.0,
{
    proof {
        reveal(spec_emit_ppu_read);
    }
    let fallback = f.define_8(cur, Definition8::Immediate(0));

    // 0x2000-0x3eff: the buffered VRAM read; the returned byte is the prior
    // buffer value, and the buffer takes the fresh VRAM byte.
    let guard = emit_range_guard(f, cur, 0x2000, 0x3eff, address);
    let vram_block = f.new_basic_block();
    let skip_block = f.new_basic_block();
    f.set_jump(
        cur,
        Jump::BasicBlock {
            condition: guard,
            target_if_true: vram_block,
            target_if_true_argument: None,
            target_if_false: skip_block,
            target_if_false_argument: None,
        },
    );
    let previous = f.define_8(vram_block, Definition8::Register(Register8::PpuReadBuffer));
    let offset = emit_vram_offset(f, vram_block, address, mirror_horizontal);
    let fresh = f.define_8(vram_block, Definition8::Memory { region: Region::PpuRam, offset });
    f.store_8(vram_block, Destination8::Register(Register8::PpuReadBuffer), fresh);
    let join = f.new_basic_block_with_argument();
    let buffered = f.define_8(join, Definition8::BasicBlockArgument);
    emit_goto(f, vram_block, join, Some(previous));
    emit_goto(f, skip_block, join, Some(fallback));

    // 0x3f00-0x3fff: palette RAM reads bypass the buffer.
    let palette_guard = emit_range_guard(f, join, 0x3f00, 0x3fff, address);
    let palette_block = f.new_basic_block();
    let skip_palette = f.new_basic_block();
    f.set_jump(
        join,
        Jump::BasicBlock {
            condition: palette_guard,
            target_if_true: palette_block,
            target_if_true_argument: None,
            target_if_false: skip_palette,
            target_if_false_argument: None,
        },
    );
    let palette_value = f.define_8(
        palette_block,
        Definition8::Memory { region: Region::PaletteRam, offset: address },
    );
    let exit = f.new_basic_block_with_argument();
    let result = f.define_8(exit, Definition8::BasicBlockArgument);
    emit_goto(f, palette_block, exit, Some(palette_value));
    emit_goto(f, skip_palette, exit, Some(buffered));
    (exit, result)
}

/// Emits the PPU bus write dispatch: VRAM in 0x2000-0x3eff, palette RAM in
/// 0x3f00-0x3fff, ignored elsewhere. Returns the block to continue in.
pub fn emit_ppu_write(
    f: &mut Function,
    cur: usize,
    address: Variable16,
    value: Variable8,
    mirror_horizontal: bool,
) -> (r: usize)
    requires
        old(f).wf(),
        cur < old(f)@.basic_blocks.len(),
        address.id < old(f)@.variable_id_counter,
        value.id < old(f)@.variable_id_counter,
        old(f)@.variable_id_counter + 256 <= usize::MAX,
        forall|b2: int|
            cur as int <= b2 ==> #[trigger] defined_in_prefix(
                old(f)@,
                b2,
                address.id as int,
            ),
        forall|b2: int|
            cur as int <= b2 ==> #[trigger] defined_in_prefix(
                old(f)@,
                b2,
                value.id as int,
            ),
    ensures
        final(f).wf(),
        old(f)@.basic_blocks.len() <= final(f)@.basic_blocks.len(),
        old(f)@.variable_id_counter <= final(f)@.variable_id_counter,
        final(f)@.variable_id_counter <= old(f)@.variable_id_counter + 256,
        forall|b: int|
            0 <= b < old(f)@.basic_blocks.len() ==> final(f)@.basic_blocks[b].has_argument == old(
                f,
            )@.basic_blocks[b].has_argument,
        r == final(f)@.basic_blocks.len() - 1,
        final(f)@.basic_blocks[r as int].jump == Jump::Return,
        final(f)@ == spec_emit_ppu_write(old(f)@, cur, address, value, mirror_horizontal).0,
        r == spec_emit_ppu_write(old(f)@, cur, address, value, mirror_horizontal).1,
        forall|b2: int, id: int|
            defined_in_prefix(old(f)@, b2, id) ==> #[trigger] defined_in_prefix(
                final(f)@,
                b2,
                id,
            ),
        cur <= r,
{
    proof {
        reveal(spec_emit_ppu_write);
    }
    let guard = emit_range_guard(f, cur, 0x2000, 0x3eff, address);
    let vram_block = f.new_basic_block();
    let join = f.new_basic_block();
    f.set_jump(
        cur,
        Jump::BasicBlock {
            condition: guard,
            target_if_true: vram_block,
            target_if_true_argument: None,
            target_if_false: join,
            target_if_false_argument: None,
        },
    );
    let offset = emit_vram_offset(f, vram_block, address, mirror_horizontal);
    f.store_8(vram_block, Destination8::Memory { region: Region::PpuRam, offset }, value);
    emit_goto(f, vram_block, join, None);

    let palette_guard = emit_range_guard(f, join, 0x3f00, 0x3fff, address);
    let palette_block = f.new_basic_block();
    let exit = f.new_basic_block();
    f.set_jump(
        join,
        Jump::BasicBlock {
            condition: palette_guard,
            target_if_true: palette_block,
            target_if_true_argument: None,
            target_if_false: exit,
            target_if_false_argument: None,
        },
    );
    f.store_8(
        palette_block,
        Destination8::Memory { region: Region::PaletteRam, offset: address },
        value,
    );
    emit_goto(f, palette_block, exit, None);
    exit
}

/// Emits the PPUDATA read: the current address is captured, post-incremented,
/// and the PPU bus is read at the captured address.
pub fn emit_read_ppudata(f: &mut Function, cur: usize, mirror_horizontal: bool) -> (r: (
    usize,
    Variable8,
))
    requires
        old(f).wf(),
        cur < old(f)@.basic_blocks.len(),
        old(f)@.variable_id_counter + 512 <= usize::MAX,
    ensures
        final(f).wf(),
        old(f)@.basic_blocks.len() <= final(f)@.basic_blocks.len(),
        old(f)@.variable_id_counter <= final(f)@.variable_id_counter,
        final(f)@.variable_id_counter <= old(f)@.variable_id_counter + 512,
        forall|b: int|
            0 <= b < old(f)@.basic_blocks.len() ==> final(f)@.basic_blocks[b].has_argument == old(
                f,
            )@.basic_blocks[b].has_argument,
        r.0 == final(f)@.basic_blocks.len() - 1,
        final(f)@.basic_blocks[r.0 as int].jump == Jump::Return,
        r.1.id < final(f)@.variable_id_counter,
        final(f)@ == spec_emit_read_ppudata(old(f)@, cur, mirror_horizontal).0,
        r.0 == spec_emit_read_ppudata(old(f)@, cur, mirror_horizontal).1,
        r.1 == spec_emit_read_ppudata(old(f)@, cur, mirror_horizontal).2,
        forall|b2: int, id: int|
            defined_in_prefix(old(f)@, b2, id) ==> #[trigger] defined_in_prefix(
                final(f)@,
                b2,
                id,
            ),
        forall|b2: int|
            r.0 as int <= b2 ==> #[trigger] defined_in_prefix(
                final(f)@,
                b2,
                r.1.id as int,
            ),
        cur <= r.0,
{
    proof {
        reveal(spec_emit_read_ppudata);
    }
    let address = f.define_16(cur, Definition16::PpuCurrentAddress);
    let cur = emit_ppu_increment(f, cur);
    emit_ppu_read(f, cur, address, mirror_horizontal)
}

/// Emits the PPUDATA write: the current address is captured, post-incremented,
/// and the PPU bus is written at the captured address.
pub fn emit_write_ppudata(
    f: &mut Function,
    cur: usize,
    value: Variable8,
    mirror_horizontal: bool,
) -> (r: usize)
    requires
        old(f).wf(),
        cur < old(f)@.basic_blocks.len(),
        value.id < old(f)@.variable_id_counter,
        old(f)@.variable_id_counter + 512 <= usize::MAX,
        forall|b2: int|
            cur as int <= b2 ==> #[trigger] defined_in_prefix(
                old(f)@,
                b2,
                value.id as int,
            ),
    ensures
        final(f).wf(),
        old(f)@.basic_blocks.len() <= final(f)@.basic_blocks.len(),
        old(f)@.variable_id_counter <= final(f)@.variable_id_counter,
        final(f)@.variable_id_counter <= old(f)@.variable_id_counter + 512,
        forall|b: int|
            0 <= b < old(f)@.basic_blocks.len() ==> final(f)@.basic_blocks[b].has_argument == old(
                f,
            )@.basic_blocks[b].has_argument,
        r == final(f)@.basic_blocks.len() - 1,
        final(f)@.basic_blocks[r as int].jump == Jump::Return,
        final(f)@ == spec_emit_write_ppudata(old(f)@, cur, value, mirror_horizontal).0,
        r == spec_emit_write_ppudata(old(f)@, cur, value, mirror_horizontal).1,
        forall|b2: int, id: int|
            defined_in_prefix(old(f)@, b2, id) ==> #[trigger] defined_in_prefix(
                final(f)@,
                b2,
                id,
            ),
        cur <= r,
{
    proof {
        reveal(spec_emit_write_ppudata);
    }
    let address = f.define_16(cur, Definition16::PpuCurrentAddress);
    let cur = emit_ppu_increment(f, cur);
    emit_ppu_write(f, cur, address, value, mirror_horizontal)
}

/// Emits the CPU bus read dispatch of the guest memory map: CPU RAM below
/// 0x2000, the PPU data port at 0x2007, PRG-RAM in 0x6000-0x7fff, PRG-ROM in
/// 0x8000-0xffff, and the fallback value zero elsewhere. Returns the block to
/// continue in and the byte read.
#[verifier::rlimit(100)]
#[verifier::spinoff_prover]
pub fn compile_read(
    f: &mut Function,
    cur: usize,
    address: Variable16,
    mirror_horizontal: bool,
) -> (r: (usize, Variable8))
    requires
        old(f).wf(),
        cur < old(f)@.basic_blocks.len(),
        address.id < old(f)@.variable_id_counter,
        old(f)@.variable_id_counter + 1024 <= usize::MAX,
        forall|b2: int|
            cur as int <= b2 ==> #[trigger] defined_in_prefix(
                old(f)@,
                b2,
                address.id as int,
            ),
    ensures
        final(f).wf(),
        old(f)@.basic_blocks.len() <= final(f)@.basic_blocks.len(),
        old(f)@.variable_id_counter <= final(f)@.variable_id_counter,
        final(f)@.variable_id_counter <= old(f)@.variable_id_counter + 1024,
        forall|b: int|
            0 <= b < old(f)@.basic_blocks.len() ==> final(f)@.basic_blocks[b].has_argument == old(
                f,
            )@.basic_blocks[b].has_argument,
        r.0 == final(f)@.basic_blocks.len() - 1,
        final(f)@.basic_blocks[r.0 as int].jump == Jump::Return,
        r.1.id < final(f)@.variable_id_counter,
        final(f)@ == spec_compile_read(old(f)@, cur, address, mirror_horizontal).0,
        r.0 == spec_compile_read(old(f)@, cur, address, mirror_horizontal).1,
        r.1 == spec_compile_read(old(f)@, cur, address, mirror_horizontal).2,
        forall|b2: int, id: int|
            defined_in_prefix(old(f)@, b2, id) ==> #[trigger] defined_in_prefix(
                final(f)@,
                b2,
                id,
            ),
        forall|b2: int|
            r.0 as int <= b2 ==> #[trigger] defined_in_prefix(
                final(f)@,
                b2,
                r.1.id as int,
            ),
        cur <= r.0,
{
    proof {
        reveal(spec_compile_read);
    }
    let fallback = f.define_8(cur, Definition8::Immediate(0));

    // 0x0000-0x1fff: CPU RAM, mirrored every 2 KiB.
    let guard = emit_range_guard(f, cur, 0x0000, 0x1fff, address);
    let ram_block = f.new_basic_block();
    let skip_ram = f.new_basic_block();
    f.set_jump(
        cur,
        Jump::BasicBlock {
            condition: guard,
            target_if_true: ram_block,
            target_if_true_argument: None,
            target_if_false: skip_ram,
            target_if_false_argument: None,
        },
    );
    let ram_value = f.define_8(
        ram_block,
        Definition8::Memory { region: Region::CpuRam, offset: address },
    );
    let join_ram = f.new_basic_block_with_argument();
    let value_1 = f.define_8(join_ram, Definition8::BasicBlockArgument);
    emit_goto(f, ram_block, join_ram, Some(ram_value));
    emit_goto(f, skip_ram, join_ram, Some(fallback));

    // 0x2007: the PPU data port.
    let guard = emit_range_guard(f, join_ram, 0x2007, 0x2007, address);
    let ppudata_block = f.new_basic_block();
    let skip_ppudata = f.new_basic_block();
    f.set_jump(
        join_ram,
        Jump::BasicBlock {
            condition: guard,
            target_if_true: ppudata_block,
            target_if_true_argument: None,
            target_if_false: skip_ppudata,
            target_if_false_argument: None,
        },
    );
    let (ppudata_end, ppudata_value) = emit_read_ppudata(f, ppudata_block, mirror_horizontal);
    let join_ppudata = f.new_basic_block_with_argument();
    let value_2 = f.define_8(join_ppudata, Definition8::BasicBlockArgument);
    emit_goto(f, ppudata_end, join_ppudata, Some(ppudata_value));
    emit_goto(f, skip_ppudata, join_ppudata, Some(value_1));

    // 0x6000-0x7fff: PRG-RAM.
    let guard = emit_range_guard(f, join_ppudata, 0x6000, 0x7fff, address);
    let prg_ram_block = f.new_basic_block();
    let skip_prg_ram = f.new_basic_block();
    f.set_jump(
        join_ppudata,
        Jump::BasicBlock {
            condition: guard,
            target_if_true: prg_ram_block,
            target_if_true_argument: None,
            target_if_false: skip_prg_ram,
            target_if_false_argument: None,
        },
    );
    let prg_ram_value = f.define_8(
        prg_ram_block,
        Definition8::Memory { region: Region::PrgRam, offset: address },
    );
    let join_prg_ram = f.new_basic_block_with_argument();
    let value_3 = f.define_8(join_prg_ram, Definition8::BasicBlockArgument);
    emit_goto(f, prg_ram_block, join_prg_ram, Some(prg_ram_value));
    emit_goto(f, skip_prg_ram, join_prg_ram, Some(value_2));

    // 0x8000-0xffff: PRG-ROM.
    let guard = emit_range_guard(f, join_prg_ram, 0x8000, 0xffff, address);
    let prg_rom_block = f.new_basic_block();
    let skip_prg_rom = f.new_basic_block();
    f.set_jump(
        join_prg_ram,
        Jump::BasicBlock {
            condition: guard,
            target_if_true: prg_rom_block,
            target_if_true_argument: None,
            target_if_false: skip_prg_rom,
            target_if_false_argument: None,
        },
    );
    let prg_rom_value = f.define_8(
        prg_rom_block,
        Definition8::Memory { region: Region::PrgRom, offset: address },
    );
    let exit = f.new_basic_block_with_argument();
    let result = f.define_8(exit, Definition8::BasicBlockArgument);
    emit_goto(f, prg_rom_block, exit, Some(prg_rom_value));
    emit_goto(f, skip_prg_rom, exit, Some(value_3));
    (exit, result)
}

/// Emits the CPU bus write dispatch of the guest memory map: CPU RAM below
/// 0x2000, the PPU control register at 0x2000, the PPU address latch at
/// 0x2006, the PPU data port at 0x2007, PRG-RAM in 0x6000-0x7fff; writes
/// anywhere else, PRG-ROM included, are ignored. Returns the block to
/// continue in.
#[verifier::rlimit(100)]
#[verifier::spinoff_prover]
pub fn compile_write(
    f: &mut Function,
    cur: usize,
    address: Variable16,
    value: Variable8,
    mirror_horizontal: bool,
) -> (r: usize)
    requires
        old(f).wf(),
        cur < old(f)@.basic_blocks.len(),
        address.id < old(f)@.variable_id_counter,
        value.id < old(f)@.variable_id_counter,
        old(f)@.variable_id_counter + 1024 <= usize::MAX,
        forall|b2: int|
            cur as int <= b2 ==> #[trigger] defined_in_prefix(
                old(f)@,
                b2,
                address.id as int,
            ),
        forall|b2: int|
            cur as int <= b2 ==> #[trigger] defined_in_prefix(
                old(f)@,
                b2,
                value.id as int,
            ),
    ensures
        final(f).wf(),
        old(f)@.basic_blocks.len() <= final(f)@.basic_blocks.len(),
        old(f)@.variable_id_counter <= final(f)@.variable_id_counter,
        final(f)@.variable_id_counter <= old(f)@.variable_id_counter + 1024,
        forall|b: int|
            0 <= b < old(f)@.basic_blocks.len() ==> final(f)@.basic_blocks[b].has_argument == old(
                f,
            )@.basic_blocks[b].has_argument,
        r == final(f)@.basic_blocks.len() - 1,
        final(f)@.basic_blocks[r as int].jump == Jump::Return,
        final(f)@ == spec_compile_write(old(f)@, cur, address, value, mirror_horizontal).0,
        r == spec_compile_write(old(f)@, cur, address, value, mirror_horizontal).1,
        forall|b2: int, id: int|
            defined_in_prefix(old(f)@, b2, id) ==> #[trigger] defined_in_prefix(
                final(f)@,
                b2,
                id,
            ),
        cur <= r,
{
    proof {
        reveal(spec_compile_write);
    }
    // 0x0000-0x1fff: CPU RAM.
    let guard = emit_range_guard(f, cur, 0x0000, 0x1fff, address);
    let ram_block = f.new_basic_block();
    let join_ram = f.new_basic_block();
    f.set_jump(
        cur,
        Jump::BasicBlock {
            condition: guard,
            target_if_true: ram_block,
            target_if_true_argument: None,
            target_if_false: join_ram,
            target_if_false_argument: None,
        },
    );
    f.store_8(ram_block, Destination8::Memory { region: Region::CpuRam, offset: address }, value);
    emit_goto(f, ram_block, join_ram, None);

    // 0x2000: the PPU control register.
    let guard = emit_range_guard(f, join_ram, 0x2000, 0x2000, address);
    let control_block = f.new_basic_block();
    let join_control = f.new_basic_block();
    f.set_jump(
        join_ram,
        Jump::BasicBlock {
            condition: guard,
            target_if_true: control_block,
            target_if_true_argument: None,
            target_if_false: join_control,
            target_if_false_argument: None,
        },
    );
    f.store_8(control_block, Destination8::Register(Register8::PpuControl), value);
    emit_goto(f, control_block, join_control, None);

    // 0x2006: the PPU address latch.
    let guard = emit_range_guard(f, join_control, 0x2006, 0x2006, address);
    let ppuaddr_block = f.new_basic_block();
    let join_ppuaddr = f.new_basic_block();
    f.set_jump(
        join_control,
        Jump::BasicBlock {
            condition: guard,
            target_if_true: ppuaddr_block,
            target_if_true_argument: None,
            target_if_false: join_ppuaddr,
            target_if_false_argument: None,
        },
    );
    emit_write_ppuaddr(f, ppuaddr_block, value);
    emit_goto(f, ppuaddr_block, join_ppuaddr, None);

    // 0x2007: the PPU data port.
    let guard = emit_range_guard(f, join_ppuaddr, 0x2007, 0x2007, address);
    let ppudata_block = f.new_basic_block();
    let skip_ppudata = f.new_basic_block();
    f.set_jump(
        join_ppuaddr,
        Jump::BasicBlock {
            condition: guard,
            target_if_true: ppudata_block,
            target_if_true_argument: None,
            target_if_false: skip_ppudata,
            target_if_false_argument: None,
        },
    );
    let ppudata_end = emit_write_ppudata(f, ppudata_block, value, mirror_horizontal);
    let join_ppudata = f.new_basic_block();
    emit_goto(f, ppudata_end, join_ppudata, None);
    emit_goto(f, skip_ppudata, join_ppudata, None);

    // 0x6000-0x7fff: PRG-RAM.
    let guard = emit_range_guard(f, join_ppudata, 0x6000, 0x7fff, address);
    let prg_ram_block = f.new_basic_block();
    let exit = f.new_basic_block();
    f.set_jump(
        join_ppudata,
        Jump::BasicBlock {
            condition: guard,
            target_if_true: prg_ram_block,
            target_if_true_argument: None,
            target_if_false: exit,
            target_if_false_argument: None,
        },
    );
    f.store_8(
        prg_ram_block,
        Destination8::Memory { region: Region::PrgRam, offset: address },
        value,
    );
    emit_goto(f, prg_ram_block, exit, None);
    exit
}

} // verus!
