//! A dynamic recompiler core for the 6502-family CPU of the NES.
//!
//! The pipeline decodes one guest instruction at the current program counter,
//! expands it into a typed single-assignment intermediate representation,
//! executes the fragment against the guest state, and caches fragments whose
//! bytes all came from immutable PRG-ROM.

pub mod cartridge;
pub mod instruction_compiler;
pub mod instruction_decoder;
pub mod interpreter;
pub mod ir;
pub mod memory_compiler;
pub mod nes;
pub mod nes_assembly;
pub mod rom;

use crate::cartridge::Cartridge;
use vstd::prelude::*;

verus! {

/// Fills a new byte vector of the given length with zeroes.
pub fn zeroed_bytes(len: usize) -> (r: Vec<u8>)
    ensures
        r@.len() == len,
        forall|i: int| 0 <= i < len ==> r@[i] == 0u8,
{
    let mut v: Vec<u8> = Vec::new();
    while v.len() < len
        invariant
            v@.len() <= len,
            forall|i: int| 0 <= i < v@.len() ==> v@[i] == 0u8,
        decreases len - v@.len(),
    {
        v.push(0u8);
    }
    v
}

/// The recompiler runtime: the guest machine together with the per-PC cache
/// of compiled fragments for the PRG-ROM window.
pub struct Nopt {
    pub nes: crate::nes::Nes,
    pub prg_rom_functions: Vec<Option<crate::ir::Function>>,
}

impl Nopt {
    /// Whether one cache slot is sound: a cached fragment is well-formed,
    /// ends by writing the next program counter, was decoded from PRG-ROM
    /// bytes only, and is exactly what the pipeline builds at its address
    /// against the current guest state.
    pub open spec fn cache_entry_ok(self, i: int) -> bool {
        match self.prg_rom_functions@[i] {
            Some(g) => g.wf() && crate::instruction_compiler::fragment_writes_pc_and_returns(g@)
                && crate::instruction_decoder::spec_prg_rom_only(self.nes@, (0x8000 + i) as u16)
                && g@ == crate::instruction_compiler::spec_compile_at(
                self.nes@,
                (0x8000 + i) as u16,
            ),
            None => true,
        }
    }

    /// The runtime invariant: a well-formed guest, one cache slot per
    /// PRG-ROM byte, and every occupied slot sound.
    pub open spec fn wf(self) -> bool {
        &&& self.nes@.wf()
        &&& self.prg_rom_functions@.len() == 0x8000
        &&& forall|i: int| 0 <= i < 0x8000 ==> #[trigger] self.cache_entry_ok(i)
    }

    /// The cached fragment dispatched at a program counter, if any; addresses
    /// below the PRG-ROM window are never cached.
    pub open spec fn cached_at(self, pc: u16) -> Option<crate::ir::Function> {
        if 0x8000 <= pc {
            self.prg_rom_functions@[pc - 0x8000]
        } else {
            None
        }
    }

    /// Builds the runtime around a cartridge: a freshly reset guest machine
    /// and an empty fragment cache.
    pub fn new(cartridge: crate::cartridge::AnyCartridge) -> (r: Nopt)
        requires
            cartridge.inv(),
        ensures
            r.wf(),
            r.nes@.pc == crate::cartridge::spec_reset_vector(cartridge.prg_rom_v()),
            r.nes@.prg_rom == cartridge.prg_rom_v(),
            r.nes@.prg_ram == cartridge.prg_ram_v(),
            r.nes@.mirror_horizontal == cartridge.mirror_h(),
            r.nes@.a == 0 && r.nes@.x == 0 && r.nes@.y == 0 && r.nes@.p == 0 && r.nes@.s == 0,
            forall|i: int| 0 <= i < 0x800 ==> r.nes@.ram[i] == 0u8,
            forall|i: int| 0 <= i < 0x8000 ==> #[trigger] r.prg_rom_functions@[i] is None,
    {
        let nes = crate::nes::Nes::new(cartridge);
        let mut functions: Vec<Option<crate::ir::Function>> = Vec::new();
        while functions.len() < 0x8000
            invariant
                functions@.len() <= 0x8000,
                forall|i: int| 0 <= i < functions@.len() ==> #[trigger] functions@[i] is None,
            decreases 0x8000 - functions@.len(),
        {
            functions.push(None);
        }
        Nopt { nes, prg_rom_functions: functions }
    }

    pub fn nes(&self) -> (r: &crate::nes::Nes)
        ensures
            r == &self.nes,
    {
        &self.nes
    }

    pub fn nes_mut(&mut self) -> (r: &mut crate::nes::Nes)
        ensures
            *r == old(self).nes,
            *final(self) == (Nopt {
                nes: *final(r),
                prg_rom_functions: old(self).prg_rom_functions,
            }),
    {
        &mut self.nes
    }

    /// One executor step: look the current program counter up in the cache
    /// and run the fragment; on a miss, run the pipeline - decode, transpile -
    /// execute the fresh fragment, and admit it to the cache exactly when the
    /// decoder consumed PRG-ROM bytes only.
    ///
    /// On either path the new guest state is exactly `spec_step` of the old
    /// one: the evaluation of the fragment the pipeline builds at the current
    /// program counter (a cached fragment is that same fragment, by the
    /// invariant). PRG-ROM and the mirroring flag never change.
    pub fn step(&mut self)
        requires
            old(self).wf(),
            old(self).cached_at(old(self).nes@.pc) is Some
                || crate::instruction_decoder::decode_fetch_ok(old(self).nes@, old(self).nes@.pc),
        ensures
            final(self).wf(),
            final(self).nes@ == spec_step(old(self).nes@),
            final(self).nes@.prg_rom == old(self).nes@.prg_rom,
            final(self).nes@.mirror_horizontal == old(self).nes@.mirror_horizontal,
            match old(self).cached_at(old(self).nes@.pc) {
                Some(_) => final(self).prg_rom_functions@ == old(self).prg_rom_functions@,
                None => if old(self).nes@.pc >= 0x8000
                    && crate::instruction_decoder::spec_prg_rom_only(
                    old(self).nes@,
                    old(self).nes@.pc,
                ) {
                    &&& match final(self).cached_at(old(self).nes@.pc) {
                        Some(g) => g@ == crate::instruction_compiler::spec_compile_at(
                            old(self).nes@,
                            old(self).nes@.pc,
                        ),
                        None => false,
                    }
                    &&& forall|j: int|
                        0 <= j < 0x8000 && j != old(self).nes@.pc - 0x8000
                            ==> final(self).prg_rom_functions@[j]
                            == #[trigger] old(self).prg_rom_functions@[j]
                } else {
                    final(self).prg_rom_functions@ == old(self).prg_rom_functions@
                },
            },
    {
        let ghost pre = *self;
        let pc = self.nes.cpu.pc;
        if pc >= 0x8000 {
            let index = (pc - 0x8000) as usize;
            let is_hit = self.prg_rom_functions[index].is_some();
            if is_hit {
                proof {
                    assert(pre.cache_entry_ok(index as int));
                    assert((0x8000 + index as int) as u16 == pc);
                }
                match &self.prg_rom_functions[index] {
                    Some(function) => {
                        function.execute(&mut self.nes);
                    },
                    None => {},
                }
                proof {
                    self.lemma_wf_after_eval(pre);
                    assert(self.nes@ == spec_step(pre.nes@));
                }
                return ;
            }
            proof {
                crate::instruction_decoder::lemma_rom_window_fetch_ok(self.nes@, pc);
            }
            let (function, is_prg_rom_only) = crate::instruction_compiler::compile_instruction(
                &self.nes,
                pc,
            );
            let ghost witness = function;
            function.execute(&mut self.nes);
            if is_prg_rom_only {
                self.prg_rom_functions[index] = Some(function);
            }
            proof {
                assert((0x8000 + index as int) as u16 == pc);
                assert(witness.wf() && crate::instruction_compiler::fragment_writes_pc_and_returns(
                    witness@,
                ) && self.nes@ == crate::interpreter::spec_eval_function(witness@, pre.nes@));
                crate::interpreter::lemma_eval_preserves_rom(witness@, pre.nes@);
                self.lemma_wf_after_eval_miss(pre, witness, index as int, is_prg_rom_only);
                assert(self.nes@ == spec_step(pre.nes@));
            }
        } else {
            let (function, _is_prg_rom_only) = crate::instruction_compiler::compile_instruction(
                &self.nes,
                pc,
            );
            let ghost witness = function;
            function.execute(&mut self.nes);
            proof {
                assert(witness.wf() && self.nes@
                    == crate::interpreter::spec_eval_function(witness@, pre.nes@));
                self.lemma_wf_after_eval(pre);
                assert(self.nes@ == spec_step(pre.nes@));
            }
        }
    }

    /// Running any fragment keeps the runtime invariant when the cache is
    /// unchanged: PRG-ROM is unchanged, so every cached fragment's admission
    /// predicate still holds.
    proof fn lemma_wf_after_eval(&self, pre: Nopt)
        requires
            pre.wf(),
            self.prg_rom_functions@ == pre.prg_rom_functions@,
            exists|g: crate::ir::FunctionV|
                self.nes@ == #[trigger] crate::interpreter::spec_eval_function(g, pre.nes@),
        ensures
            self.wf(),
            self.nes@.prg_rom == pre.nes@.prg_rom,
            self.nes@.mirror_horizontal == pre.nes@.mirror_horizontal,
    {
        let g = choose|g: crate::ir::FunctionV|
            self.nes@ == #[trigger] crate::interpreter::spec_eval_function(g, pre.nes@);
        crate::interpreter::lemma_eval_preserves_rom(g, pre.nes@);
        assert forall|i: int| 0 <= i < 0x8000 implies #[trigger] self.cache_entry_ok(i) by {
            assert(pre.cache_entry_ok(i));
            match self.prg_rom_functions@[i] {
                Some(entry) => {
                    crate::instruction_decoder::lemma_prg_only_depends_on_rom(
                        pre.nes@,
                        self.nes@,
                        (0x8000 + i) as u16,
                    );
                    crate::instruction_decoder::lemma_decode_idempotent_on_rom(
                        pre.nes@,
                        self.nes@,
                        (0x8000 + i) as u16,
                    );
                },
                None => {},
            }
        }
    }

    /// The miss path keeps the runtime invariant: the possibly-admitted new
    /// fragment is well-formed and was decoded from PRG-ROM bytes only.
    proof fn lemma_wf_after_eval_miss(
        &self,
        pre: Nopt,
        fresh: crate::ir::Function,
        index: int,
        admitted: bool,
    )
        requires
            pre.wf(),
            0 <= index < 0x8000,
            fresh.wf(),
            crate::instruction_compiler::fragment_writes_pc_and_returns(fresh@),
            admitted ==> crate::instruction_decoder::spec_prg_rom_only(
                pre.nes@,
                (0x8000 + index) as u16,
            ),
            admitted ==> fresh@ == crate::instruction_compiler::spec_compile_at(
                pre.nes@,
                (0x8000 + index) as u16,
            ),
            self.prg_rom_functions@ == if admitted {
                pre.prg_rom_functions@.update(index, Some(fresh))
            } else {
                pre.prg_rom_functions@
            },
            self.nes@ == crate::interpreter::spec_eval_function(fresh@, pre.nes@),
        ensures
            self.wf(),
    {
        crate::interpreter::lemma_eval_preserves_rom(fresh@, pre.nes@);
        assert forall|i: int| 0 <= i < 0x8000 implies #[trigger] self.cache_entry_ok(i) by {
            if i == index && admitted {
                crate::instruction_decoder::lemma_prg_only_depends_on_rom(
                    pre.nes@,
                    self.nes@,
                    (0x8000 + i) as u16,
                );
                crate::instruction_decoder::lemma_decode_idempotent_on_rom(
                    pre.nes@,
                    self.nes@,
                    (0x8000 + i) as u16,
                );
            } else {
                assert(pre.cache_entry_ok(i));
                match self.prg_rom_functions@[i] {
                    Some(entry) => {
                        crate::instruction_decoder::lemma_prg_only_depends_on_rom(
                            pre.nes@,
                            self.nes@,
                            (0x8000 + i) as u16,
                        );
                        crate::instruction_decoder::lemma_decode_idempotent_on_rom(
                            pre.nes@,
                            self.nes@,
                            (0x8000 + i) as u16,
                        );
                    },
                    None => {},
                }
            }
        }
    }
}

/// What one executor step does to the guest state: evaluate, against the
/// state, the fragment the pipeline builds at the current program counter.
pub open spec fn spec_step(v: crate::nes::NesV) -> crate::nes::NesV {
    crate::interpreter::spec_eval_function(
        crate::instruction_compiler::spec_compile_at(v, v.pc),
        v,
    )
}

/// Law: one end-to-end step, worked through the whole pipeline. A state
/// whose current instruction bytes are the load-accumulator-immediate opcode
/// with a zero operand steps to A == 0 with Z set and N clear, and the
/// program counter lands just past the two instruction bytes.
pub proof fn lemma_step_load_immediate_zero(v: crate::nes::NesV)
    requires
        v.wf(),
        crate::nes::spec_peek(v, v.pc) == 0xa9,
        crate::nes::spec_peek(v, wrap_add16_spec(v.pc, 1)) == 0x00,
    ensures
        spec_step(v).a == 0,
        crate::interpreter::spec_get_flag(spec_step(v).p, crate::ir::CpuFlag::Zero),
        !crate::interpreter::spec_get_flag(spec_step(v).p, crate::ir::CpuFlag::Negative),
        spec_step(v).pc == wrap_add16_spec(v.pc, 2),
{
    reveal(crate::instruction_compiler::spec_transpile);
    reveal(crate::instruction_compiler::spec_emit_load);
    reveal(crate::instruction_compiler::spec_read_operand_u8);
    reveal(crate::instruction_compiler::spec_set_nz);
    let i = crate::instruction_decoder::spec_decode(v, v.pc);
    assert(i.operation == crate::nes_assembly::spec_from_opcode(0xa9));
    assert(i.operation.mnemonic == crate::nes_assembly::Mnemonic::Lda);
    assert(i.operation.addressing_mode == crate::nes_assembly::AddressingMode::Immediate);
    assert(i.operand == 0);
    assert(i.spec_address_end() == wrap_add16_spec(v.pc, 2));
    let g = crate::instruction_compiler::spec_compile_at(v, v.pc);
    let value = crate::ir::Variable8 { id: 0 };
    let n = crate::ir::Variable1 { id: 1 };
    let z = crate::ir::Variable1 { id: 2 };
    let target = crate::ir::Variable16 { id: 3 };
    let instrs = seq![
        crate::ir::Instruction::Define8 {
            variable: value,
            definition: crate::ir::Definition8::Immediate(0),
        },
        crate::ir::Instruction::Store8 {
            destination: crate::ir::Destination8::Register(crate::ir::Register8::A),
            variable: value,
        },
        crate::ir::Instruction::Define1 {
            variable: n,
            definition: crate::ir::Definition1::U8Bit { operand: value, index: 7 },
        },
        crate::ir::Instruction::Define1 {
            variable: z,
            definition: crate::ir::Definition1::EqualToZero(value),
        },
        crate::ir::Instruction::Store1 {
            destination: crate::ir::Destination1::Flag(crate::ir::CpuFlag::Negative),
            variable: n,
        },
        crate::ir::Instruction::Store1 {
            destination: crate::ir::Destination1::Flag(crate::ir::CpuFlag::Zero),
            variable: z,
        },
        crate::ir::Instruction::Define16 {
            variable: target,
            definition: crate::ir::Definition16::Immediate(wrap_add16_spec(v.pc, 2)),
        },
        crate::ir::Instruction::Store16 {
            destination: crate::ir::Destination16::Pc,
            variable: target,
        },
    ];
    assert(g.basic_blocks.len() == 1);
    assert(g.basic_blocks[0].instructions =~= instrs);
    assert(g.basic_blocks[0].jump == crate::ir::Jump::Return);
    assert(g.variable_id_counter == 4);
    let e1 = Seq::new(4, |k: int| false);
    let e8 = Seq::new(4, |k: int| 0u8);
    let e16 = Seq::new(4, |k: int| 0u16);
    reveal_with_fuel(crate::interpreter::spec_run_instrs, 10);
    assert(instrs.drop_last() =~= instrs.take(7));
    assert(instrs.take(7).drop_last() =~= instrs.take(6));
    assert(instrs.take(6).drop_last() =~= instrs.take(5));
    assert(instrs.take(5).drop_last() =~= instrs.take(4));
    assert(instrs.take(4).drop_last() =~= instrs.take(3));
    assert(instrs.take(3).drop_last() =~= instrs.take(2));
    assert(instrs.take(2).drop_last() =~= instrs.take(1));
    assert(instrs.take(1).drop_last() =~= instrs.take(0));
    assert(instrs.take(0) =~= Seq::empty());
    assert((0u8 >> 7) & 1 == 0) by (bit_vector);
    let run = crate::interpreter::spec_run_instrs(v, e1, e8, e16, None, instrs);
    let stepped = spec_step(v);
    assert(stepped == run.0);
    let p_after_n = crate::interpreter::spec_set_flag(v.p, crate::ir::CpuFlag::Negative, false);
    let p_after_z = crate::interpreter::spec_set_flag(
        p_after_n,
        crate::ir::CpuFlag::Zero,
        true,
    );
    assert(stepped.p == p_after_z);
    crate::interpreter::lemma_flag_store_preserves_indices(
        p_after_n,
        crate::ir::CpuFlag::Zero,
        true,
        crate::ir::CpuFlag::Negative,
    );
    crate::interpreter::lemma_flag_store_preserves_indices(
        v.p,
        crate::ir::CpuFlag::Negative,
        false,
        crate::ir::CpuFlag::Negative,
    );
}

/// Law: a conditional branch steps the program counter to the relative
/// target when its condition holds and to the fall-through address when it
/// does not, worked through the whole pipeline for branch-if-not-equal: with
/// Z clear the branch is taken, with Z set execution falls through.
pub proof fn lemma_step_branch_not_equal(v: crate::nes::NesV, displacement: u8)
    requires
        v.wf(),
        crate::nes::spec_peek(v, v.pc) == 0xd0,
        crate::nes::spec_peek(v, wrap_add16_spec(v.pc, 1)) == displacement,
        displacement < 0x80,
    ensures
        spec_step(v).pc == if crate::interpreter::spec_get_flag(v.p, crate::ir::CpuFlag::Zero) {
            wrap_add16_spec(v.pc, 2)
        } else {
            wrap_add16_spec(wrap_add16_spec(v.pc, 2), displacement as u16)
        },
{
    reveal(crate::instruction_compiler::spec_transpile);
    reveal(crate::instruction_compiler::spec_emit_branch);
    reveal(crate::instruction_compiler::spec_read_operand_u16);
    let i = crate::instruction_decoder::spec_decode(v, v.pc);
    assert(i.operation == crate::nes_assembly::spec_from_opcode(0xd0));
    assert(i.operation.mnemonic == crate::nes_assembly::Mnemonic::Bne);
    assert(i.operation.addressing_mode == crate::nes_assembly::AddressingMode::Relative);
    assert(i.operand == displacement);
    assert(i.spec_address_end() == wrap_add16_spec(v.pc, 2));
    assert(i.spec_branch_target() == wrap_add16_spec(wrap_add16_spec(v.pc, 2), displacement as u16));
    let g = crate::instruction_compiler::spec_compile_at(v, v.pc);
    let z_flag = crate::ir::Variable1 { id: 0 };
    let not_z = crate::ir::Variable1 { id: 1 };
    let taken = crate::ir::Variable16 { id: 2 };
    let not_taken = crate::ir::Variable16 { id: 3 };
    let target = crate::ir::Variable16 { id: 4 };
    let instrs = seq![
        crate::ir::Instruction::Define1 {
            variable: z_flag,
            definition: crate::ir::Definition1::Flag(crate::ir::CpuFlag::Zero),
        },
        crate::ir::Instruction::Define1 {
            variable: not_z,
            definition: crate::ir::Definition1::Not(z_flag),
        },
        crate::ir::Instruction::Define16 {
            variable: taken,
            definition: crate::ir::Definition16::Immediate(i.spec_branch_target()),
        },
        crate::ir::Instruction::Define16 {
            variable: not_taken,
            definition: crate::ir::Definition16::Immediate(wrap_add16_spec(v.pc, 2)),
        },
        crate::ir::Instruction::Define16 {
            variable: target,
            definition: crate::ir::Definition16::Select {
                condition: not_z,
                result_if_true: taken,
                result_if_false: not_taken,
            },
        },
        crate::ir::Instruction::Store16 {
            destination: crate::ir::Destination16::Pc,
            variable: target,
        },
    ];
    assert(g.basic_blocks.len() == 1);
    assert(g.basic_blocks[0].instructions =~= instrs);
    assert(g.basic_blocks[0].jump == crate::ir::Jump::Return);
    assert(g.variable_id_counter == 5);
    reveal_with_fuel(crate::interpreter::spec_run_instrs, 10);
    assert(instrs.drop_last() =~= instrs.take(5));
    assert(instrs.take(5).drop_last() =~= instrs.take(4));
    assert(instrs.take(4).drop_last() =~= instrs.take(3));
    assert(instrs.take(3).drop_last() =~= instrs.take(2));
    assert(instrs.take(2).drop_last() =~= instrs.take(1));
    assert(instrs.take(1).drop_last() =~= instrs.take(0));
    assert(instrs.take(0) =~= Seq::empty());
}

/// Law: cache admission implies PRG-ROM-only. A fragment present in the
/// persistent cache was produced from a decoder run whose fetched addresses
/// all lay in the 0x8000-0xffff window.
pub proof fn lemma_cache_admission_implies_prg_rom_only(runtime: Nopt, pc: u16)
    requires
        runtime.wf(),
        runtime.cached_at(pc) is Some,
    ensures
        0x8000 <= pc,
        crate::instruction_decoder::spec_prg_rom_only(runtime.nes@, pc),
{
    assert(runtime.cache_entry_ok(pc - 0x8000));
}

/// Addition of two 16-bit values modulo 2^16, the guest address arithmetic.
pub open spec fn wrap_add16_spec(a: u16, b: u16) -> u16 {
    (((a as int) + (b as int)) % 0x10000) as u16
}

/// 16-bit wrapping addition; guest addresses wrap around the address space.
pub fn wrap_add16(a: u16, b: u16) -> (r: u16)
    ensures
        r == wrap_add16_spec(a, b),
{
    (((a as u32) + (b as u32)) % 0x10000) as u16
}

} // verus!
