//! IR builder and interpreter tests: fragments built by hand and executed
//! directly.

use nopt::cartridge::{AnyCartridge, Nrom};
use nopt::ir::{
    CpuFlag, Definition1, Definition16, Definition8, Destination1, Destination16, Destination8,
    Function, Jump, Region, Register8,
};
use nopt::nes::Nes;

fn blank_nes() -> Nes {
    let rom = vec![0u8; 0x8000];
    Nes::new(AnyCartridge::Nrom(Nrom::new(&rom, false)))
}

#[test]
fn straight_line_fragment_writes_a_register() {
    let mut f = Function::new();
    let value = f.define_8(0, Definition8::Immediate(0x5a));
    f.store_8(0, Destination8::Register(Register8::A), value);
    let mut nes = blank_nes();
    f.execute(&mut nes);
    assert_eq!(nes.cpu.a, 0x5a);
}

#[test]
fn flag_stores_touch_only_their_own_bit() {
    let mut f = Function::new();
    let on = f.define_1(0, Definition1::Immediate(true));
    f.store_1(0, Destination1::Flag(CpuFlag::Overflow), on);
    let mut nes = blank_nes();
    nes.cpu.p = 0b1000_0001;
    f.execute(&mut nes);
    assert_eq!(nes.cpu.p, 0b1100_0001);
}

#[test]
fn branches_pass_arguments_to_block_parameters() {
    // if C { 7 } else { 9 } stored to X, with C set.
    let mut f = Function::new();
    let c = f.define_1(0, Definition1::Flag(CpuFlag::Carry));
    let seven = f.define_8(0, Definition8::Immediate(7));
    let nine = f.define_8(0, Definition8::Immediate(9));
    let join = f.new_basic_block_with_argument();
    let chosen = f.define_8(join, Definition8::BasicBlockArgument);
    f.store_8(join, Destination8::Register(Register8::X), chosen);
    f.set_jump(
        0,
        Jump::BasicBlock {
            condition: c,
            target_if_true: join,
            target_if_true_argument: Some(seven),
            target_if_false: join,
            target_if_false_argument: Some(nine),
        },
    );
    let mut nes = blank_nes();
    nes.cpu.p = 0b0000_0001;
    f.execute(&mut nes);
    assert_eq!(nes.cpu.x, 7);

    let mut nes = blank_nes();
    f.execute(&mut nes);
    assert_eq!(nes.cpu.x, 9);
}

#[test]
fn region_stores_apply_the_mirror_masks() {
    let mut f = Function::new();
    let offset = f.define_16(0, Definition16::Immediate(0x0923));
    let value = f.define_8(0, Definition8::Immediate(0x31));
    f.store_8(0, Destination8::Memory { region: Region::CpuRam, offset }, value);
    let mut nes = blank_nes();
    f.execute(&mut nes);
    assert_eq!(nes.cpu.ram[0x123], 0x31, "offset masked to 11 bits");
}

#[test]
fn pc_stores_set_the_program_counter() {
    let mut f = Function::new();
    let target = f.define_16(0, Definition16::Immediate(0xbeef));
    f.store_16(0, Destination16::Pc, target);
    let mut nes = blank_nes();
    f.execute(&mut nes);
    assert_eq!(nes.cpu.pc, 0xbeef);
}

#[test]
fn sum_and_difference_track_carries() {
    let mut f = Function::new();
    let a = f.define_8(0, Definition8::Immediate(0xf0));
    let b = f.define_8(0, Definition8::Immediate(0x20));
    let no_carry = f.define_1(0, Definition1::Immediate(false));
    let sum = f.define_8(
        0,
        Definition8::Sum { operand_0: a, operand_1: b, operand_carry: no_carry },
    );
    let carry = f.define_1(
        0,
        Definition1::SumCarry { operand_0: a, operand_1: b, operand_carry: no_carry },
    );
    f.store_8(0, Destination8::Register(Register8::A), sum);
    f.store_1(0, Destination1::Flag(CpuFlag::Carry), carry);
    let mut nes = blank_nes();
    f.execute(&mut nes);
    assert_eq!(nes.cpu.a, 0x10, "0xf0 + 0x20 wraps to 0x10");
    assert_eq!(nes.cpu.p & 1, 1, "carry out");
}

#[test]
fn rotates_go_through_the_carry() {
    let mut f = Function::new();
    let v = f.define_8(0, Definition8::Immediate(0b1000_0001));
    let carry_in = f.define_1(0, Definition1::Immediate(true));
    let left = f.define_8(0, Definition8::RotateLeft { operand: v, operand_carry: carry_in });
    let right = f.define_8(0, Definition8::RotateRight { operand: v, operand_carry: carry_in });
    f.store_8(0, Destination8::Register(Register8::X), left);
    f.store_8(0, Destination8::Register(Register8::Y), right);
    let mut nes = blank_nes();
    f.execute(&mut nes);
    assert_eq!(nes.cpu.x, 0b0000_0011);
    assert_eq!(nes.cpu.y, 0b1100_0000);
}
