//! End-to-end executor scenarios: each runs whole compiled fragments against
//! the guest state through `step()`.

use nopt::Nopt;
use nopt::cartridge::{AnyCartridge, Nrom};

fn runtime_with(program: &[u8], offset: usize, entry: u16) -> Nopt {
    let mut rom = vec![0u8; 0x8000];
    rom[offset..offset + program.len()].copy_from_slice(program);
    rom[0x7ffc] = (entry % 0x100) as u8;
    rom[0x7ffd] = (entry / 0x100) as u8;
    Nopt::new(AnyCartridge::Nrom(Nrom::new(&rom, false)))
}

fn flag(p: u8, index: u8) -> bool {
    (p >> index) & 1 == 1
}

#[test]
fn lda_immediate_sets_zero_flag() {
    let mut runtime = runtime_with(&[0xa9, 0x00, 0x00], 0, 0x8000);
    runtime.step();
    let cpu = &runtime.nes().cpu;
    assert_eq!(cpu.a, 0x00);
    assert!(flag(cpu.p, 1), "Z set");
    assert!(!flag(cpu.p, 7), "N clear");
    assert_eq!(cpu.pc, 0x8002);
}

#[test]
fn adc_sets_carry_and_overflow_flags() {
    let mut runtime = runtime_with(&[0x69, 0x01], 0, 0x8000);
    runtime.nes_mut().cpu.a = 0x7f;
    runtime.step();
    let cpu = &runtime.nes().cpu;
    assert_eq!(cpu.a, 0x80);
    assert!(flag(cpu.p, 7), "N set");
    assert!(flag(cpu.p, 6), "V set");
    assert!(!flag(cpu.p, 0), "C clear");
    assert!(!flag(cpu.p, 1), "Z clear");
    assert_eq!(cpu.pc, 0x8002);
}

#[test]
fn jmp_indirect_reproduces_the_page_wrap_bug() {
    let mut rom = vec![0u8; 0x8000];
    rom[0x00ff] = 0x00; // 0x80ff: low byte of the pointer target
    rom[0x0000] = 0x90; // 0x8000: high byte fetched from the wrapped page
    rom[0x0100] = 0x80; // 0x8100: the byte a bug-free fetch would read
    rom[0x4000] = 0x6c; // 0xc000: JMP ($80ff)
    rom[0x4001] = 0xff;
    rom[0x4002] = 0x80;
    rom[0x7ffc] = 0x00;
    rom[0x7ffd] = 0xc0;
    let mut runtime = Nopt::new(AnyCartridge::Nrom(Nrom::new(&rom, false)));
    runtime.step();
    assert_eq!(runtime.nes().cpu.pc, 0x9000);
}

#[test]
fn branch_taken_and_not_taken() {
    let mut taken = runtime_with(&[0xd0, 0x02], 0x4000, 0xc000);
    taken.nes_mut().cpu.p = 0; // Z clear: BNE taken
    taken.step();
    assert_eq!(taken.nes().cpu.pc, 0xc004);

    let mut not_taken = runtime_with(&[0xd0, 0x02], 0x4000, 0xc000);
    not_taken.nes_mut().cpu.p = 0b0000_0010; // Z set: fall through
    not_taken.step();
    assert_eq!(not_taken.nes().cpu.pc, 0xc002);
}

#[test]
fn jsr_rts_round_trip() {
    let mut rom = vec![0u8; 0x8000];
    rom[0x4000] = 0x20; // 0xc000: JSR $d000
    rom[0x4001] = 0x00;
    rom[0x4002] = 0xd0;
    rom[0x5000] = 0x60; // 0xd000: RTS
    rom[0x7ffc] = 0x00;
    rom[0x7ffd] = 0xc0;
    let mut runtime = Nopt::new(AnyCartridge::Nrom(Nrom::new(&rom, false)));
    let initial_s = runtime.nes().cpu.s;
    runtime.step();
    assert_eq!(runtime.nes().cpu.pc, 0xd000);
    runtime.step();
    assert_eq!(runtime.nes().cpu.pc, 0xc003);
    assert_eq!(runtime.nes().cpu.s, initial_s);
}

#[test]
fn prg_rom_fragments_are_cached_and_ram_fragments_are_not() {
    let mut runtime = runtime_with(&[0xa9, 0x00, 0x00], 0, 0x8000);
    runtime.step();
    assert!(runtime.prg_rom_functions[0].is_some(), "fragment admitted");

    // The same program decoded from RAM is executed but never admitted.
    let mut ram_runtime = runtime_with(&[], 0, 0x8000);
    {
        let nes = ram_runtime.nes_mut();
        nes.cpu.ram[0x200] = 0xa9;
        nes.cpu.ram[0x201] = 0x55;
        nes.cpu.pc = 0x0200;
    }
    ram_runtime.step();
    assert_eq!(ram_runtime.nes().cpu.a, 0x55);
    assert_eq!(ram_runtime.nes().cpu.pc, 0x0202);
    for entry in &ram_runtime.prg_rom_functions {
        assert!(entry.is_none());
    }
}

#[test]
fn cached_fragment_is_reused_across_a_loop() {
    // An infinite loop: JMP $c000 at 0xc000. The second step dispatches the
    // cached fragment and reaches the same program counter.
    let mut runtime = runtime_with(&[0x4c, 0x00, 0xc0], 0x4000, 0xc000);
    runtime.step();
    assert_eq!(runtime.nes().cpu.pc, 0xc000);
    assert!(runtime.prg_rom_functions[0x4000].is_some());
    runtime.step();
    assert_eq!(runtime.nes().cpu.pc, 0xc000);
}

#[test]
fn compiling_the_same_address_twice_yields_identical_ir() {
    let runtime = runtime_with(&[0x69, 0x01], 0, 0x8000);
    let (first, first_rom_only) =
        nopt::instruction_compiler::compile_instruction(runtime.nes(), 0x8000);
    let (second, second_rom_only) =
        nopt::instruction_compiler::compile_instruction(runtime.nes(), 0x8000);
    assert_eq!(first, second);
    assert_eq!(first_rom_only, second_rom_only);
}

#[test]
fn stack_push_and_pull_round_trip() {
    // LDA #$3c; PHA; LDA #$00; PLA
    let mut runtime = runtime_with(&[0xa9, 0x3c, 0x48, 0xa9, 0x00, 0x68], 0, 0x8000);
    let initial_s = runtime.nes().cpu.s;
    runtime.step();
    runtime.step();
    assert_eq!(runtime.nes().cpu.s, initial_s.wrapping_sub(1));
    runtime.step();
    assert_eq!(runtime.nes().cpu.a, 0x00);
    runtime.step();
    let cpu = &runtime.nes().cpu;
    assert_eq!(cpu.a, 0x3c);
    assert_eq!(cpu.s, initial_s);
    assert_eq!(cpu.pc, 0x8006);
}

#[test]
fn cmp_sets_carry_when_no_borrow() {
    let mut runtime = runtime_with(&[0xc9, 0x10], 0, 0x8000);
    runtime.nes_mut().cpu.a = 0x20;
    runtime.step();
    let cpu = &runtime.nes().cpu;
    assert!(flag(cpu.p, 0), "C set");
    assert!(!flag(cpu.p, 1), "Z clear");
    assert!(!flag(cpu.p, 7), "N clear");
    assert_eq!(cpu.a, 0x20, "CMP leaves A unchanged");
}

#[test]
fn sbc_subtracts_with_borrow() {
    // SEC; SBC #$01 with A=0x00 gives 0xff, C clear, N set.
    let mut runtime = runtime_with(&[0x38, 0xe9, 0x01], 0, 0x8000);
    runtime.step();
    runtime.step();
    let cpu = &runtime.nes().cpu;
    assert_eq!(cpu.a, 0xff);
    assert!(!flag(cpu.p, 0), "C clear: borrow happened");
    assert!(flag(cpu.p, 7), "N set");
    assert!(!flag(cpu.p, 6), "V clear");
}

#[test]
fn stores_reach_ram_and_prg_ram() {
    // LDA #$77; STA $0123; STA $6042
    let mut runtime = runtime_with(
        &[0xa9, 0x77, 0x8d, 0x23, 0x01, 0x8d, 0x42, 0x60],
        0,
        0x8000,
    );
    runtime.step();
    runtime.step();
    runtime.step();
    assert_eq!(runtime.nes().cpu.ram[0x123], 0x77);
    assert_eq!(runtime.nes().peek(0x6042), 0x77);
    // A store into the ROM window is ignored.
    let mut rom_store = runtime_with(&[0xa9, 0x66, 0x8d, 0x00, 0x90], 0, 0x8000);
    rom_store.step();
    rom_store.step();
    assert_eq!(rom_store.nes().peek(0x9000), 0x00);
}

#[test]
fn ppu_data_reads_go_through_the_read_buffer() {
    // LDA $2007 returns the previous buffer contents, refills the buffer from
    // VRAM, and post-increments the current address.
    let mut runtime = runtime_with(&[0xad, 0x07, 0x20], 0, 0x8000);
    {
        let nes = runtime.nes_mut();
        nes.ppu.current_address = 0x2005;
        nes.ppu.ram[0x005] = 0x42;
        nes.ppu.read_buffer = 0x10;
    }
    runtime.step();
    let nes = runtime.nes();
    assert_eq!(nes.cpu.a, 0x10, "the stale buffer value is returned");
    assert_eq!(nes.ppu.read_buffer, 0x42, "the buffer takes the VRAM byte");
    assert_eq!(nes.ppu.current_address, 0x2006, "post-increment by one");
}

#[test]
fn ppu_address_increments_by_32_when_control_bit_2_is_set() {
    let mut runtime = runtime_with(&[0xad, 0x07, 0x20], 0, 0x8000);
    {
        let nes = runtime.nes_mut();
        nes.ppu.current_address = 0x2000;
        nes.ppu.control_register = 0b0000_0100;
    }
    runtime.step();
    assert_eq!(runtime.nes().ppu.current_address, 0x2020);
}

#[test]
fn ppu_address_latch_shifts_the_low_byte_up() {
    // LDA #$21; STA $2006; LDA #$08; STA $2006
    let mut runtime = runtime_with(
        &[0xa9, 0x21, 0x8d, 0x06, 0x20, 0xa9, 0x08, 0x8d, 0x06, 0x20],
        0,
        0x8000,
    );
    runtime.step();
    runtime.step();
    assert_eq!(runtime.nes().ppu.current_address, 0x0021);
    runtime.step();
    runtime.step();
    assert_eq!(runtime.nes().ppu.current_address, 0x2108);
}

#[test]
fn brk_pushes_state_and_jumps_through_the_irq_vector() {
    let mut rom = vec![0u8; 0x8000];
    rom[0x0000] = 0x00; // BRK at 0x8000
    rom[0x7ffe] = 0x34; // IRQ vector 0x9034
    rom[0x7fff] = 0x90;
    rom[0x7ffc] = 0x00;
    rom[0x7ffd] = 0x80;
    let mut runtime = Nopt::new(AnyCartridge::Nrom(Nrom::new(&rom, false)));
    runtime.nes_mut().cpu.s = 0xfd;
    runtime.step();
    let nes = runtime.nes();
    assert_eq!(nes.cpu.pc, 0x9034);
    assert_eq!(nes.cpu.s, 0xfa);
    assert_eq!(nes.cpu.ram[0x1fd], 0x80, "PC+2 high byte");
    assert_eq!(nes.cpu.ram[0x1fc], 0x02, "PC+2 low byte");
    let pushed_p = nes.cpu.ram[0x1fb];
    assert_eq!(pushed_p & 0x30, 0x30, "B and Unused forced set");
    assert!((nes.cpu.p >> 2) & 1 == 1, "I set");
}

#[test]
fn decoding_wraps_past_the_top_of_the_address_space() {
    // The opcode sits in the last ROM byte; its operand byte is fetched from
    // the wrapped address 0x0000, which is RAM, so the fragment is executed
    // once and never admitted.
    let mut runtime = runtime_with(&[], 0, 0xffff);
    {
        let nes = runtime.nes_mut();
        nes.cpu.ram[0] = 0x42;
    }
    // 0xffff holds the reset vector high byte 0xff; place LDA immediate there
    // instead via a fresh image.
    let mut rom = vec![0u8; 0x8000];
    rom[0x7fff] = 0xa9; // LDA immediate as the very last ROM byte
    rom[0x7ffc] = 0xff;
    rom[0x7ffd] = 0xff;
    let mut runtime = nopt::Nopt::new(AnyCartridge::Nrom(Nrom::new(&rom, false)));
    runtime.nes_mut().cpu.ram[0] = 0x42;
    runtime.step();
    let nes = runtime.nes();
    assert_eq!(nes.cpu.a, 0x42, "operand fetched from the wrapped address");
    assert_eq!(nes.cpu.pc, 0x0001, "the next PC wraps too");
    for entry in &runtime.prg_rom_functions {
        assert!(entry.is_none(), "a wrapped fetch leaves PRG-ROM");
    }
}

#[test]
fn read_modify_write_reaches_memory() {
    // LDA #$81; STA $10; ASL $10: memory holds 0x02, C takes the shifted-out
    // bit, and A is untouched by the shift.
    let mut runtime = runtime_with(&[0xa9, 0x81, 0x85, 0x10, 0x06, 0x10], 0, 0x8000);
    runtime.step();
    runtime.step();
    runtime.step();
    let nes = runtime.nes();
    assert_eq!(nes.cpu.ram[0x10], 0x02);
    assert_eq!(nes.cpu.p & 1, 1, "C takes bit 7 of the old value");
    assert_eq!(nes.cpu.a, 0x81);
}

#[test]
fn transfers_copy_registers_and_update_flags() {
    // LDA #$80; TAX; TXS; TSX-equivalent checks through the packed P byte.
    let mut runtime = runtime_with(&[0xa9, 0x80, 0xaa, 0x9a], 0, 0x8000);
    runtime.step();
    runtime.step();
    let nes = runtime.nes();
    assert_eq!(nes.cpu.x, 0x80);
    assert!(flag(nes.cpu.p, 7), "TAX sets N");
    let p_before_txs = runtime.nes().cpu.p;
    runtime.step();
    let nes = runtime.nes();
    assert_eq!(nes.cpu.s, 0x80);
    assert_eq!(nes.cpu.p, p_before_txs, "TXS writes no flags");
}

#[test]
fn indexed_and_indirect_addressing_modes_resolve() {
    // Zero page pointer at 0x20/0x21 -> 0x0300; LDA ($1b,X) with X=5 reads
    // through it.
    let mut runtime = runtime_with(&[0xa1, 0x1b], 0, 0x8000);
    {
        let nes = runtime.nes_mut();
        nes.cpu.x = 5;
        nes.cpu.ram[0x20] = 0x00;
        nes.cpu.ram[0x21] = 0x03;
        nes.cpu.ram[0x300] = 0x5d;
    }
    runtime.step();
    assert_eq!(runtime.nes().cpu.a, 0x5d);

    // LDA ($40),Y with the pointer at 0x40 -> 0x0280 and Y=3.
    let mut runtime = runtime_with(&[0xb1, 0x40], 0, 0x8000);
    {
        let nes = runtime.nes_mut();
        nes.cpu.y = 3;
        nes.cpu.ram[0x40] = 0x80;
        nes.cpu.ram[0x41] = 0x02;
        nes.cpu.ram[0x283] = 0x77;
    }
    runtime.step();
    assert_eq!(runtime.nes().cpu.a, 0x77);
}
