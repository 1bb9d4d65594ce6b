//! The typed single-assignment intermediate representation: one function per
//! compiled 6502 instruction, made of basic blocks in an arena, with typed
//! variables over three widths.
//!
//! Well-formedness is enforced by construction: variable ids are allocated
//! from a function-wide monotonic counter, each id is defined exactly once, a
//! definition only refers to variables allocated before it, every use names a
//! definition in its own block or an earlier one, branches only point at
//! later blocks of the arena, and an edge passes an argument exactly when its
//! target declares a block parameter.

use vstd::prelude::*;

verus! {

/// A 1-bit variable, identified by its function-wide id.
#[derive(Clone, Copy, Debug, PartialEq, Eq, Structural)]
pub struct Variable1 {
    pub id: usize,
}

/// An 8-bit variable, identified by its function-wide id.
#[derive(Clone, Copy, Debug, PartialEq, Eq, Structural)]
pub struct Variable8 {
    pub id: usize,
}

/// A 16-bit variable, identified by its function-wide id.
#[derive(Clone, Copy, Debug, PartialEq, Eq, Structural)]
pub struct Variable16 {
    pub id: usize,
}

/// The byte-wide guest state cells compiled code can address directly.
#[derive(Clone, Copy, Debug, PartialEq, Eq, Structural)]
pub enum Register8 {
    A,
    X,
    Y,
    S,
    P,
    PpuControl,
    PpuReadBuffer,
}

/// The eight CPU status flags, packed into the P register at fixed bit
/// positions.
#[derive(Clone, Copy, Debug, PartialEq, Eq, Structural)]
pub enum CpuFlag {
    Carry,
    Zero,
    InterruptDisable,
    Decimal,
    Break,
    Unused,
    Overflow,
    Negative,
}

impl CpuFlag {
    /// The architected bit index of each flag inside the P byte. These
    /// indices are an ABI observable to compiled code and never change.
    pub open spec fn spec_bit_index(self) -> u8 {
        match self {
            CpuFlag::Carry => 0,
            CpuFlag::Zero => 1,
            CpuFlag::InterruptDisable => 2,
            CpuFlag::Decimal => 3,
            CpuFlag::Break => 4,
            CpuFlag::Unused => 5,
            CpuFlag::Overflow => 6,
            CpuFlag::Negative => 7,
        }
    }

    pub fn bit_index(self) -> (r: u8)
        ensures
            r == self.spec_bit_index(),
            r < 8,
    {
        match self {
            CpuFlag::Carry => 0,
            CpuFlag::Zero => 1,
            CpuFlag::InterruptDisable => 2,
            CpuFlag::Decimal => 3,
            CpuFlag::Break => 4,
            CpuFlag::Unused => 5,
            CpuFlag::Overflow => 6,
            CpuFlag::Negative => 7,
        }
    }
}

/// The named guest memory regions compiled code can address at a 16-bit
/// offset; each region is read or written behind its own mirror mask.
#[derive(Clone, Copy, Debug, PartialEq, Eq, Structural)]
pub enum Region {
    CpuRam,
    PrgRam,
    PrgRom,
    PpuRam,
    PaletteRam,
}

/// Ways to define a 1-bit variable.
#[derive(Clone, Copy, Debug, PartialEq, Eq, Structural)]
pub enum Definition1 {
    Immediate(bool),
    Flag(CpuFlag),
    Not(Variable1),
    And(Variable1, Variable1),
    EqualToZero(Variable8),
    U8Bit { operand: Variable8, index: u8 },
    LessThanOrEqual16(Variable16, Variable16),
    SumCarry { operand_0: Variable8, operand_1: Variable8, operand_carry: Variable1 },
    SumOverflow { operand_0: Variable8, operand_1: Variable8, operand_carry: Variable1 },
    DifferenceBorrow { operand_0: Variable8, operand_1: Variable8, operand_borrow: Variable1 },
    DifferenceOverflow { operand_0: Variable8, operand_1: Variable8, operand_borrow: Variable1 },
}

/// Ways to define an 8-bit variable.
#[derive(Clone, Copy, Debug, PartialEq, Eq, Structural)]
pub enum Definition8 {
    Immediate(u8),
    BasicBlockArgument,
    Register(Register8),
    Memory { region: Region, offset: Variable16 },
    LowByte(Variable16),
    HighByte(Variable16),
    Or(Variable8, Variable8),
    And(Variable8, Variable8),
    Xor(Variable8, Variable8),
    RotateLeft { operand: Variable8, operand_carry: Variable1 },
    RotateRight { operand: Variable8, operand_carry: Variable1 },
    Sum { operand_0: Variable8, operand_1: Variable8, operand_carry: Variable1 },
    Difference { operand_0: Variable8, operand_1: Variable8, operand_borrow: Variable1 },
}

/// Ways to define a 16-bit variable.
#[derive(Clone, Copy, Debug, PartialEq, Eq, Structural)]
pub enum Definition16 {
    Immediate(u16),
    Pc,
    PpuCurrentAddress,
    FromU8s { high: Variable8, low: Variable8 },
    Add(Variable16, Variable16),
    Select { condition: Variable1, result_if_true: Variable16, result_if_false: Variable16 },
}

/// Where a 1-bit variable can be stored: a named CPU flag.
#[derive(Clone, Copy, Debug, PartialEq, Eq, Structural)]
pub enum Destination1 {
    Flag(CpuFlag),
}

/// Where an 8-bit variable can be stored: a register or a guest memory
/// region at a 16-bit offset.
#[derive(Clone, Copy, Debug, PartialEq, Eq, Structural)]
pub enum Destination8 {
    Register(Register8),
    Memory { region: Region, offset: Variable16 },
}

/// Where a 16-bit variable can be stored: the program counter or the PPU
/// current address.
#[derive(Clone, Copy, Debug, PartialEq, Eq, Structural)]
pub enum Destination16 {
    Pc,
    PpuCurrentAddress,
}

/// One IR instruction: a typed definition or a typed store.
#[derive(Clone, Copy, Debug, PartialEq, Eq, Structural)]
pub enum Instruction {
    Define1 { variable: Variable1, definition: Definition1 },
    Define8 { variable: Variable8, definition: Definition8 },
    Define16 { variable: Variable16, definition: Definition16 },
    Store1 { destination: Destination1, variable: Variable1 },
    Store8 { destination: Destination8, variable: Variable8 },
    Store16 { destination: Destination16, variable: Variable16 },
}

/// A block terminator: return from the fragment, or a conditional branch
/// whose edges carry an argument when the target declares a parameter.
#[derive(Clone, Copy, Debug, PartialEq, Eq, Structural)]
pub enum Jump {
    BasicBlock {
        condition: Variable1,
        target_if_true: usize,
        target_if_true_argument: Option<Variable8>,
        target_if_false: usize,
        target_if_false_argument: Option<Variable8>,
    },
    Return,
}

/// A basic block: an optional byte-wide parameter, an ordered instruction
/// list, and a terminator.
#[derive(Clone, Debug, PartialEq, Eq)]
pub struct BasicBlock {
    pub has_argument: bool,
    pub instructions: Vec<Instruction>,
    pub jump: Jump,
}

/// The view of a basic block, with the instruction list as a sequence.
#[verifier::ext_equal]
pub struct BasicBlockV {
    pub has_argument: bool,
    pub instructions: Seq<Instruction>,
    pub jump: Jump,
}

impl View for BasicBlock {
    type V = BasicBlockV;

    open spec fn view(&self) -> BasicBlockV {
        BasicBlockV {
            has_argument: self.has_argument,
            instructions: self.instructions@,
            jump: self.jump,
        }
    }
}

/// One IR function: the arena of its basic blocks (block 0 is the entry) and
/// the monotonic counter its variable ids were allocated from.
#[derive(Clone, Debug, PartialEq, Eq)]
pub struct Function {
    pub basic_blocks: Vec<BasicBlock>,
    pub variable_id_counter: usize,
}

/// The view of a function: its blocks as a sequence of block views.
#[verifier::ext_equal]
pub struct FunctionV {
    pub basic_blocks: Seq<BasicBlockV>,
    pub variable_id_counter: usize,
}

impl View for Function {
    type V = FunctionV;

    open spec fn view(&self) -> FunctionV {
        FunctionV {
            basic_blocks: self.basic_blocks@.map_values(|b: BasicBlock| b@),
            variable_id_counter: self.variable_id_counter,
        }
    }
}

/// Every variable a 1-bit definition reads was allocated before `bound`.
pub open spec fn def1_uses_ok(d: Definition1, bound: int) -> bool {
    match d {
        Definition1::Immediate(_) => true,
        Definition1::Flag(_) => true,
        Definition1::Not(a) => a.id < bound,
        Definition1::And(a, b) => a.id < bound && b.id < bound,
        Definition1::EqualToZero(a) => a.id < bound,
        Definition1::U8Bit { operand, index } => operand.id < bound && index < 8,
        Definition1::LessThanOrEqual16(a, b) => a.id < bound && b.id < bound,
        Definition1::SumCarry { operand_0, operand_1, operand_carry } => operand_0.id < bound
            && operand_1.id < bound && operand_carry.id < bound,
        Definition1::SumOverflow { operand_0, operand_1, operand_carry } => operand_0.id < bound
            && operand_1.id < bound && operand_carry.id < bound,
        Definition1::DifferenceBorrow { operand_0, operand_1, operand_borrow } => operand_0.id
            < bound && operand_1.id < bound && operand_borrow.id < bound,
        Definition1::DifferenceOverflow { operand_0, operand_1, operand_borrow } => operand_0.id
            < bound && operand_1.id < bound && operand_borrow.id < bound,
    }
}

/// Every variable an 8-bit definition reads was allocated before `bound`.
pub open spec fn def8_uses_ok(d: Definition8, bound: int) -> bool {
    match d {
        Definition8::Immediate(_) => true,
        Definition8::BasicBlockArgument => true,
        Definition8::Register(_) => true,
        Definition8::Memory { region, offset } => offset.id < bound,
        Definition8::LowByte(a) => a.id < bound,
        Definition8::HighByte(a) => a.id < bound,
        Definition8::Or(a, b) => a.id < bound && b.id < bound,
        Definition8::And(a, b) => a.id < bound && b.id < bound,
        Definition8::Xor(a, b) => a.id < bound && b.id < bound,
        Definition8::RotateLeft { operand, operand_carry } => operand.id < bound
            && operand_carry.id < bound,
        Definition8::RotateRight { operand, operand_carry } => operand.id < bound
            && operand_carry.id < bound,
        Definition8::Sum { operand_0, operand_1, operand_carry } => operand_0.id < bound
            && operand_1.id < bound && operand_carry.id < bound,
        Definition8::Difference { operand_0, operand_1, operand_borrow } => operand_0.id < bound
            && operand_1.id < bound && operand_borrow.id < bound,
    }
}

/// Every variable a 16-bit definition reads was allocated before `bound`.
pub open spec fn def16_uses_ok(d: Definition16, bound: int) -> bool {
    match d {
        Definition16::Immediate(_) => true,
        Definition16::Pc => true,
        Definition16::PpuCurrentAddress => true,
        Definition16::FromU8s { high, low } => high.id < bound && low.id < bound,
        Definition16::Add(a, b) => a.id < bound && b.id < bound,
        Definition16::Select { condition, result_if_true, result_if_false } => condition.id < bound
            && result_if_true.id < bound && result_if_false.id < bound,
    }
}

/// Every variable a store destination reads was allocated before `bound`.
pub open spec fn dest8_uses_ok(d: Destination8, bound: int) -> bool {
    match d {
        Destination8::Register(_) => true,
        Destination8::Memory { region, offset } => offset.id < bound,
    }
}

/// The id an instruction defines, or none for a store.
pub open spec fn instr_def_id(i: Instruction) -> Option<int> {
    match i {
        Instruction::Define1 { variable, .. } => Some(variable.id as int),
        Instruction::Define8 { variable, .. } => Some(variable.id as int),
        Instruction::Define16 { variable, .. } => Some(variable.id as int),
        _ => None,
    }
}

/// Instruction-local well-formedness against the function-wide counter: a
/// definition's id is fresh relative to its operands, and every use was
/// allocated before the counter.
pub open spec fn instr_wf(i: Instruction, counter: int) -> bool {
    match i {
        Instruction::Define1 { variable, definition } => variable.id < counter && def1_uses_ok(
            definition,
            variable.id as int,
        ),
        Instruction::Define8 { variable, definition } => variable.id < counter && def8_uses_ok(
            definition,
            variable.id as int,
        ),
        Instruction::Define16 { variable, definition } => variable.id < counter && def16_uses_ok(
            definition,
            variable.id as int,
        ),
        Instruction::Store1 { destination, variable } => variable.id < counter,
        Instruction::Store8 { destination, variable } => variable.id < counter && dest8_uses_ok(
            destination,
            counter,
        ),
        Instruction::Store16 { destination, variable } => variable.id < counter,
    }
}

/// Whether the instruction at position `(b2, i2)` defines variable id `id`.
pub open spec fn defines_at(f: FunctionV, b2: int, i2: int, id: int) -> bool {
    &&& 0 <= b2 < f.basic_blocks.len()
    &&& 0 <= i2 < f.basic_blocks[b2].instructions.len()
    &&& instr_def_id(f.basic_blocks[b2].instructions[i2]) == Some(id)
}

/// Variable id `id` is defined somewhere in block `b` or an earlier block.
pub open spec fn defined_in_prefix(f: FunctionV, b: int, id: int) -> bool {
    exists|b2: int, i2: int| b2 <= b && #[trigger] defines_at(f, b2, i2, id)
}

/// Every variable a 1-bit definition reads is defined in block `b` or before.
pub open spec fn def1_uses_placed(f: FunctionV, b: int, d: Definition1) -> bool {
    match d {
        Definition1::Immediate(_) => true,
        Definition1::Flag(_) => true,
        Definition1::Not(a) => defined_in_prefix(f, b, a.id as int),
        Definition1::And(a, c) => defined_in_prefix(f, b, a.id as int) && defined_in_prefix(
            f,
            b,
            c.id as int,
        ),
        Definition1::EqualToZero(a) => defined_in_prefix(f, b, a.id as int),
        Definition1::U8Bit { operand, index } => defined_in_prefix(f, b, operand.id as int),
        Definition1::LessThanOrEqual16(a, c) => defined_in_prefix(f, b, a.id as int)
            && defined_in_prefix(f, b, c.id as int),
        Definition1::SumCarry { operand_0, operand_1, operand_carry } => defined_in_prefix(
            f,
            b,
            operand_0.id as int,
        ) && defined_in_prefix(f, b, operand_1.id as int) && defined_in_prefix(
            f,
            b,
            operand_carry.id as int,
        ),
        Definition1::SumOverflow { operand_0, operand_1, operand_carry } => defined_in_prefix(
            f,
            b,
            operand_0.id as int,
        ) && defined_in_prefix(f, b, operand_1.id as int) && defined_in_prefix(
            f,
            b,
            operand_carry.id as int,
        ),
        Definition1::DifferenceBorrow { operand_0, operand_1, operand_borrow } => defined_in_prefix(
            f,
            b,
            operand_0.id as int,
        ) && defined_in_prefix(f, b, operand_1.id as int) && defined_in_prefix(
            f,
            b,
            operand_borrow.id as int,
        ),
        Definition1::DifferenceOverflow {
            operand_0,
            operand_1,
            operand_borrow,
        } => defined_in_prefix(f, b, operand_0.id as int) && defined_in_prefix(
            f,
            b,
            operand_1.id as int,
        ) && defined_in_prefix(f, b, operand_borrow.id as int),
    }
}

/// Every variable an 8-bit definition reads is defined in block `b` or
/// before.
pub open spec fn def8_uses_placed(f: FunctionV, b: int, d: Definition8) -> bool {
    match d {
        Definition8::Immediate(_) => true,
        Definition8::BasicBlockArgument => true,
        Definition8::Register(_) => true,
        Definition8::Memory { region, offset } => defined_in_prefix(f, b, offset.id as int),
        Definition8::LowByte(a) => defined_in_prefix(f, b, a.id as int),
        Definition8::HighByte(a) => defined_in_prefix(f, b, a.id as int),
        Definition8::Or(a, c) => defined_in_prefix(f, b, a.id as int) && defined_in_prefix(
            f,
            b,
            c.id as int,
        ),
        Definition8::And(a, c) => defined_in_prefix(f, b, a.id as int) && defined_in_prefix(
            f,
            b,
            c.id as int,
        ),
        Definition8::Xor(a, c) => defined_in_prefix(f, b, a.id as int) && defined_in_prefix(
            f,
            b,
            c.id as int,
        ),
        Definition8::RotateLeft { operand, operand_carry } => defined_in_prefix(
            f,
            b,
            operand.id as int,
        ) && defined_in_prefix(f, b, operand_carry.id as int),
        Definition8::RotateRight { operand, operand_carry } => defined_in_prefix(
            f,
            b,
            operand.id as int,
        ) && defined_in_prefix(f, b, operand_carry.id as int),
        Definition8::Sum { operand_0, operand_1, operand_carry } => defined_in_prefix(
            f,
            b,
            operand_0.id as int,
        ) && defined_in_prefix(f, b, operand_1.id as int) && defined_in_prefix(
            f,
            b,
            operand_carry.id as int,
        ),
        Definition8::Difference { operand_0, operand_1, operand_borrow } => defined_in_prefix(
            f,
            b,
            operand_0.id as int,
        ) && defined_in_prefix(f, b, operand_1.id as int) && defined_in_prefix(
            f,
            b,
            operand_borrow.id as int,
        ),
    }
}

/// Every variable a 16-bit definition reads is defined in block `b` or
/// before.
pub open spec fn def16_uses_placed(f: FunctionV, b: int, d: Definition16) -> bool {
    match d {
        Definition16::Immediate(_) => true,
        Definition16::Pc => true,
        Definition16::PpuCurrentAddress => true,
        Definition16::FromU8s { high, low } => defined_in_prefix(f, b, high.id as int)
            && defined_in_prefix(f, b, low.id as int),
        Definition16::Add(a, c) => defined_in_prefix(f, b, a.id as int) && defined_in_prefix(
            f,
            b,
            c.id as int,
        ),
        Definition16::Select { condition, result_if_true, result_if_false } => defined_in_prefix(
            f,
            b,
            condition.id as int,
        ) && defined_in_prefix(f, b, result_if_true.id as int) && defined_in_prefix(
            f,
            b,
            result_if_false.id as int,
        ),
    }
}

/// Every variable an instruction uses is defined in block `b` or before.
pub open spec fn instr_uses_placed(f: FunctionV, b: int, i: Instruction) -> bool {
    match i {
        Instruction::Define1 { variable, definition } => def1_uses_placed(f, b, definition),
        Instruction::Define8 { variable, definition } => def8_uses_placed(f, b, definition),
        Instruction::Define16 { variable, definition } => def16_uses_placed(f, b, definition),
        Instruction::Store1 { destination, variable } => defined_in_prefix(f, b, variable.id as int),
        Instruction::Store8 { destination, variable } => defined_in_prefix(f, b, variable.id as int)
            && match destination {
            Destination8::Register(_) => true,
            Destination8::Memory { region, offset } => defined_in_prefix(f, b, offset.id as int),
        },
        Instruction::Store16 { destination, variable } => defined_in_prefix(
            f,
            b,
            variable.id as int,
        ),
    }
}

/// Every variable a terminator uses is defined in block `b` or before.
pub open spec fn jump_uses_placed(f: FunctionV, b: int, j: Jump) -> bool {
    match j {
        Jump::Return => true,
        Jump::BasicBlock {
            condition,
            target_if_true,
            target_if_true_argument,
            target_if_false,
            target_if_false_argument,
        } => {
            &&& defined_in_prefix(f, b, condition.id as int)
            &&& match target_if_true_argument {
                Some(v) => defined_in_prefix(f, b, v.id as int),
                None => true,
            }
            &&& match target_if_false_argument {
                Some(v) => defined_in_prefix(f, b, v.id as int),
                None => true,
            }
        },
    }
}

/// Def-before-use across the arena: every variable an instruction or a
/// terminator uses is defined in its own block or an earlier one. Together
/// with the per-block clauses of `block_wf` - definitions read only
/// earlier-allocated ids and stand in allocation order - and the uniqueness
/// of definitions, every use is preceded in program order by its unique
/// definition.
pub open spec fn fn_uses_placed(f: FunctionV) -> bool {
    &&& forall|b: int, i: int|
        0 <= b < f.basic_blocks.len() && 0 <= i < f.basic_blocks[b].instructions.len()
            ==> #[trigger] instr_uses_placed(f, b, f.basic_blocks[b].instructions[i])
    &&& forall|b: int|
        0 <= b < f.basic_blocks.len() ==> #[trigger] jump_uses_placed(
            f,
            b,
            f.basic_blocks[b].jump,
        )
}

/// A terminator's well-formedness at block `at`: targets lie strictly later
/// in the arena, every used variable was allocated, and an edge carries an
/// argument exactly when its target declares a parameter.
pub open spec fn jump_wf(f: FunctionV, at: int, j: Jump) -> bool {
    match j {
        Jump::Return => true,
        Jump::BasicBlock {
            condition,
            target_if_true,
            target_if_true_argument,
            target_if_false,
            target_if_false_argument,
        } => {
            &&& condition.id < f.variable_id_counter
            &&& at < target_if_true < f.basic_blocks.len()
            &&& at < target_if_false < f.basic_blocks.len()
            &&& f.basic_blocks[target_if_true as int].has_argument
                <==> target_if_true_argument is Some
            &&& f.basic_blocks[target_if_false as int].has_argument
                <==> target_if_false_argument is Some
            &&& match target_if_true_argument {
                Some(v) => v.id < f.variable_id_counter,
                None => true,
            }
            &&& match target_if_false_argument {
                Some(v) => v.id < f.variable_id_counter,
                None => true,
            }
        },
    }
}

/// Block-level well-formedness inside a function.
pub open spec fn block_wf(f: FunctionV, at: int) -> bool {
    let b = f.basic_blocks[at];
    &&& forall|i: int|
        0 <= i < b.instructions.len() ==> instr_wf(
            #[trigger] b.instructions[i],
            f.variable_id_counter as int,
        )
    &&& forall|i: int, j: int|
        0 <= i < j < b.instructions.len() && instr_def_id(b.instructions[i]) is Some
            && instr_def_id(b.instructions[j]) is Some ==> instr_def_id(
            b.instructions[i],
        )->Some_0 < instr_def_id(b.instructions[j])->Some_0
    &&& jump_wf(f, at, b.jump)
}

/// Function-level well-formedness: a non-empty arena whose entry block has
/// no parameter, every block well-formed, and definitions unique across the
/// whole function.
pub open spec fn fn_wf(f: FunctionV) -> bool {
    &&& 1 <= f.basic_blocks.len()
    &&& !f.basic_blocks[0].has_argument
    &&& forall|b: int| 0 <= b < f.basic_blocks.len() ==> #[trigger] block_wf(f, b)
    &&& fn_unique_defs(f)
    &&& fn_uses_placed(f)
}

/// No two instructions of the function define the same variable id.
pub open spec fn fn_unique_defs(f: FunctionV) -> bool {
    forall|b1: int, i1: int, b2: int, i2: int|
        0 <= b1 < f.basic_blocks.len() && 0 <= i1 < f.basic_blocks[b1].instructions.len() && 0 <= b2
            < f.basic_blocks.len() && 0 <= i2 < f.basic_blocks[b2].instructions.len() && (b1 != b2
            || i1 != i2) && #[trigger] instr_def_id(f.basic_blocks[b1].instructions[i1]) is Some
            ==> instr_def_id(f.basic_blocks[b1].instructions[i1]) != #[trigger] instr_def_id(
            f.basic_blocks[b2].instructions[i2],
        )
}

/// A block view equal to `b` with one more instruction appended.
pub open spec fn block_with_instr(b: BasicBlockV, i: Instruction) -> BasicBlockV {
    BasicBlockV { has_argument: b.has_argument, instructions: b.instructions.push(i), jump: b.jump }
}

/// A block view equal to `b` with its terminator replaced.
pub open spec fn block_with_jump(b: BasicBlockV, j: Jump) -> BasicBlockV {
    BasicBlockV { has_argument: b.has_argument, instructions: b.instructions, jump: j }
}

/// An empty block view.
pub open spec fn empty_block(has_argument: bool) -> BasicBlockV {
    BasicBlockV { has_argument, instructions: Seq::empty(), jump: Jump::Return }
}

/// The view a fresh function starts from: one empty entry block and no
/// variables allocated.
pub open spec fn spec_new_function() -> FunctionV {
    FunctionV { basic_blocks: seq![empty_block(false)], variable_id_counter: 0 }
}

/// The view after appending a fresh empty block.
pub open spec fn spec_new_basic_block(f: FunctionV, has_argument: bool) -> FunctionV {
    FunctionV {
        basic_blocks: f.basic_blocks.push(empty_block(has_argument)),
        variable_id_counter: f.variable_id_counter,
    }
}

/// The view and fresh variable after allocating a 1-bit definition.
pub open spec fn spec_define_1(f: FunctionV, block: int, definition: Definition1) -> (
    FunctionV,
    Variable1,
) {
    let variable = Variable1 { id: f.variable_id_counter };
    (
        FunctionV {
            basic_blocks: f.basic_blocks.update(
                block,
                block_with_instr(
                    f.basic_blocks[block],
                    Instruction::Define1 { variable, definition },
                ),
            ),
            variable_id_counter: (f.variable_id_counter + 1) as usize,
        },
        variable,
    )
}

/// The view and fresh variable after allocating an 8-bit definition.
pub open spec fn spec_define_8(f: FunctionV, block: int, definition: Definition8) -> (
    FunctionV,
    Variable8,
) {
    let variable = Variable8 { id: f.variable_id_counter };
    (
        FunctionV {
            basic_blocks: f.basic_blocks.update(
                block,
                block_with_instr(
                    f.basic_blocks[block],
                    Instruction::Define8 { variable, definition },
                ),
            ),
            variable_id_counter: (f.variable_id_counter + 1) as usize,
        },
        variable,
    )
}

/// The view and fresh variable after allocating a 16-bit definition.
pub open spec fn spec_define_16(f: FunctionV, block: int, definition: Definition16) -> (
    FunctionV,
    Variable16,
) {
    let variable = Variable16 { id: f.variable_id_counter };
    (
        FunctionV {
            basic_blocks: f.basic_blocks.update(
                block,
                block_with_instr(
                    f.basic_blocks[block],
                    Instruction::Define16 { variable, definition },
                ),
            ),
            variable_id_counter: (f.variable_id_counter + 1) as usize,
        },
        variable,
    )
}

/// The view after appending a 1-bit store.
pub open spec fn spec_store_1(
    f: FunctionV,
    block: int,
    destination: Destination1,
    variable: Variable1,
) -> FunctionV {
    FunctionV {
        basic_blocks: f.basic_blocks.update(
            block,
            block_with_instr(f.basic_blocks[block], Instruction::Store1 { destination, variable }),
        ),
        variable_id_counter: f.variable_id_counter,
    }
}

/// The view after appending an 8-bit store.
pub open spec fn spec_store_8(
    f: FunctionV,
    block: int,
    destination: Destination8,
    variable: Variable8,
) -> FunctionV {
    FunctionV {
        basic_blocks: f.basic_blocks.update(
            block,
            block_with_instr(f.basic_blocks[block], Instruction::Store8 { destination, variable }),
        ),
        variable_id_counter: f.variable_id_counter,
    }
}

/// The view after appending a 16-bit store.
pub open spec fn spec_store_16(
    f: FunctionV,
    block: int,
    destination: Destination16,
    variable: Variable16,
) -> FunctionV {
    FunctionV {
        basic_blocks: f.basic_blocks.update(
            block,
            block_with_instr(f.basic_blocks[block], Instruction::Store16 { destination, variable }),
        ),
        variable_id_counter: f.variable_id_counter,
    }
}

/// The index the next appended block will take.
pub open spec fn next_block(f: FunctionV) -> usize {
    f.basic_blocks.len() as usize
}

/// The view after replacing a block's terminator.
pub open spec fn spec_set_jump(f: FunctionV, block: int, jump: Jump) -> FunctionV {
    FunctionV {
        basic_blocks: f.basic_blocks.update(
            block,
            block_with_jump(f.basic_blocks[block], jump),
        ),
        variable_id_counter: f.variable_id_counter,
    }
}

/// Appending an instruction to a block preserves every definedness fact.
proof fn lemma_prefix_preserved_instr_push(
    pre: FunctionV,
    post: FunctionV,
    block: int,
    instr: Instruction,
)
    requires
        0 <= block < pre.basic_blocks.len(),
        post.basic_blocks =~= pre.basic_blocks.update(
            block,
            block_with_instr(pre.basic_blocks[block], instr),
        ),
    ensures
        forall|b2: int, id: int|
            defined_in_prefix(pre, b2, id) ==> #[trigger] defined_in_prefix(post, b2, id),
{
    assert forall|b2: int, id: int|
        defined_in_prefix(pre, b2, id) implies #[trigger] defined_in_prefix(post, b2, id) by {
        let (ba, ia): (int, int) = choose|ba: int, ia: int|
            ba <= b2 && #[trigger] defines_at(pre, ba, ia, id);
        assert(defines_at(post, ba, ia, id));
    }
}

/// Replacing a terminator or appending a block preserves every definedness
/// fact: no instruction moves.
proof fn lemma_prefix_preserved_same_instrs(pre: FunctionV, post: FunctionV)
    requires
        pre.basic_blocks.len() <= post.basic_blocks.len(),
        forall|b: int|
            0 <= b < pre.basic_blocks.len() ==> #[trigger] post.basic_blocks[b].instructions
                == pre.basic_blocks[b].instructions,
    ensures
        forall|b2: int, id: int|
            defined_in_prefix(pre, b2, id) ==> #[trigger] defined_in_prefix(post, b2, id),
{
    assert forall|b2: int, id: int|
        defined_in_prefix(pre, b2, id) implies #[trigger] defined_in_prefix(post, b2, id) by {
        let (ba, ia): (int, int) = choose|ba: int, ia: int|
            ba <= b2 && #[trigger] defines_at(pre, ba, ia, id);
        assert(defines_at(post, ba, ia, id));
    }
}

impl Function {
    /// The builder invariant every construction step preserves.
    pub open spec fn wf(self) -> bool {
        fn_wf(self@)
    }

    /// A fresh function: one empty entry block, no variables allocated yet.
    pub fn new() -> (r: Function)
        ensures
            r.wf(),
            r@ == spec_new_function(),
            r@.basic_blocks =~= seq![empty_block(false)],
            r@.variable_id_counter == 0,
    {
        let mut basic_blocks: Vec<BasicBlock> = Vec::new();
        basic_blocks.push(
            BasicBlock { has_argument: false, instructions: Vec::new(), jump: Jump::Return },
        );
        let r = Function { basic_blocks, variable_id_counter: 0 };
        proof {
            assert(r@.basic_blocks =~= seq![empty_block(false)]);
            assert(r@ =~= spec_new_function());
            assert(forall|b: int| 0 <= b < r@.basic_blocks.len() ==> #[trigger] block_wf(r@, b));
        }
        r
    }

    /// Appends a fresh empty block without a parameter to the arena.
    pub fn new_basic_block(&mut self) -> (r: usize)
        requires
            old(self).wf(),
        ensures
            final(self).wf(),
            forall|b: int|
                0 <= b < old(self)@.basic_blocks.len() ==> final(self)@.basic_blocks[b].has_argument
                    == old(self)@.basic_blocks[b].has_argument,
            r == old(self)@.basic_blocks.len(),
            final(self)@ == spec_new_basic_block(old(self)@, false),
            forall|b2: int, id: int|
                defined_in_prefix(old(self)@, b2, id) ==> #[trigger] defined_in_prefix(
                    final(self)@,
                    b2,
                    id,
                ),
            final(self)@.basic_blocks =~= old(self)@.basic_blocks.push(empty_block(false)),
            final(self)@.variable_id_counter == old(self)@.variable_id_counter,
    {
        let r = self.basic_blocks.len();
        self.basic_blocks.push(
            BasicBlock { has_argument: false, instructions: Vec::new(), jump: Jump::Return },
        );
        proof {
            assert(self@.basic_blocks =~= old(self)@.basic_blocks.push(empty_block(false)));
            assert(self@ =~= spec_new_basic_block(old(self)@, false));
            lemma_prefix_preserved_same_instrs(old(self)@, self@);
            assert(fn_uses_placed(self@)) by {
                assert forall|b: int, i: int|
                    0 <= b < self@.basic_blocks.len() && 0 <= i
                        < self@.basic_blocks[b].instructions.len() implies #[trigger] instr_uses_placed(
                    self@,
                    b,
                    self@.basic_blocks[b].instructions[i],
                ) by {
                    assert(b < old(self)@.basic_blocks.len());
                    assert(instr_uses_placed(
                        old(self)@,
                        b,
                        old(self)@.basic_blocks[b].instructions[i],
                    ));
                }
                assert forall|b: int|
                    0 <= b < self@.basic_blocks.len() implies #[trigger] jump_uses_placed(
                    self@,
                    b,
                    self@.basic_blocks[b].jump,
                ) by {
                    if b < old(self)@.basic_blocks.len() {
                        assert(jump_uses_placed(
                            old(self)@,
                            b,
                            old(self)@.basic_blocks[b].jump,
                        ));
                    }
                }
            }
            assert forall|b: int| 0 <= b < self@.basic_blocks.len() implies #[trigger] block_wf(
                self@,
                b,
            ) by {
                if b < r {
                    assert(block_wf(old(self)@, b));
                    assert(self@.basic_blocks[b] == old(self)@.basic_blocks[b]);
                }
            }
        }
        r
    }

    /// Appends a fresh empty block that declares a byte-wide parameter.
    pub fn new_basic_block_with_argument(&mut self) -> (r: usize)
        requires
            old(self).wf(),
        ensures
            final(self).wf(),
            forall|b: int|
                0 <= b < old(self)@.basic_blocks.len() ==> final(self)@.basic_blocks[b].has_argument
                    == old(self)@.basic_blocks[b].has_argument,
            r == old(self)@.basic_blocks.len(),
            1 <= r,
            final(self)@ == spec_new_basic_block(old(self)@, true),
            forall|b2: int, id: int|
                defined_in_prefix(old(self)@, b2, id) ==> #[trigger] defined_in_prefix(
                    final(self)@,
                    b2,
                    id,
                ),
            final(self)@.basic_blocks =~= old(self)@.basic_blocks.push(empty_block(true)),
            final(self)@.variable_id_counter == old(self)@.variable_id_counter,
    {
        let r = self.basic_blocks.len();
        self.basic_blocks.push(
            BasicBlock { has_argument: true, instructions: Vec::new(), jump: Jump::Return },
        );
        proof {
            assert(self@.basic_blocks =~= old(self)@.basic_blocks.push(empty_block(true)));
            assert(self@ =~= spec_new_basic_block(old(self)@, true));
            lemma_prefix_preserved_same_instrs(old(self)@, self@);
            assert(fn_uses_placed(self@)) by {
                assert forall|b: int, i: int|
                    0 <= b < self@.basic_blocks.len() && 0 <= i
                        < self@.basic_blocks[b].instructions.len() implies #[trigger] instr_uses_placed(
                    self@,
                    b,
                    self@.basic_blocks[b].instructions[i],
                ) by {
                    assert(b < old(self)@.basic_blocks.len());
                    assert(instr_uses_placed(
                        old(self)@,
                        b,
                        old(self)@.basic_blocks[b].instructions[i],
                    ));
                }
                assert forall|b: int|
                    0 <= b < self@.basic_blocks.len() implies #[trigger] jump_uses_placed(
                    self@,
                    b,
                    self@.basic_blocks[b].jump,
                ) by {
                    if b < old(self)@.basic_blocks.len() {
                        assert(jump_uses_placed(
                            old(self)@,
                            b,
                            old(self)@.basic_blocks[b].jump,
                        ));
                    }
                }
            }
            assert forall|b: int| 0 <= b < self@.basic_blocks.len() implies #[trigger] block_wf(
                self@,
                b,
            ) by {
                if b < r {
                    assert(block_wf(old(self)@, b));
                    assert(self@.basic_blocks[b] == old(self)@.basic_blocks[b]);
                }
            }
        }
        r
    }

    /// Allocates a fresh 1-bit variable defined by `definition` at the end of
    /// block `block`.
    pub fn define_1(&mut self, block: usize, definition: Definition1) -> (r: Variable1)
        requires
            old(self).wf(),
            block < old(self)@.basic_blocks.len(),
            def1_uses_ok(definition, old(self)@.variable_id_counter as int),
            def1_uses_placed(old(self)@, block as int, definition),
            old(self)@.variable_id_counter < usize::MAX,
        ensures
            final(self).wf(),
            forall|b: int|
                0 <= b < old(self)@.basic_blocks.len() ==> final(self)@.basic_blocks[b].has_argument
                    == old(self)@.basic_blocks[b].has_argument,
            r.id == old(self)@.variable_id_counter,
            forall|b2: int|
                block as int <= b2 ==> #[trigger] defined_in_prefix(
                    final(self)@,
                    b2,
                    r.id as int,
                ),
            forall|b2: int, id: int|
                defined_in_prefix(old(self)@, b2, id) ==> #[trigger] defined_in_prefix(
                    final(self)@,
                    b2,
                    id,
                ),
            final(self)@ == spec_define_1(old(self)@, block as int, definition).0,
            r == spec_define_1(old(self)@, block as int, definition).1,
            final(self)@.variable_id_counter == old(self)@.variable_id_counter + 1,
            final(self)@.basic_blocks =~= old(self)@.basic_blocks.update(
                block as int,
                block_with_instr(
                    old(self)@.basic_blocks[block as int],
                    Instruction::Define1 { variable: r, definition },
                ),
            ),
    {
        let variable = Variable1 { id: self.variable_id_counter };
        self.variable_id_counter = self.variable_id_counter + 1;
        let instr = Instruction::Define1 { variable, definition };
        self.basic_blocks[block].instructions.push(instr);
        proof {
            self.lemma_push_wf(*old(self), block as int, instr);
            assert(self@ =~= spec_define_1(old(self)@, block as int, definition).0);
            lemma_prefix_preserved_instr_push(old(self)@, self@, block as int, instr);
            assert(defines_at(
                self@,
                block as int,
                old(self)@.basic_blocks[block as int].instructions.len() as int,
                variable.id as int,
            ));
        }
        variable
    }

    /// Allocates a fresh 8-bit variable defined by `definition` at the end of
    /// block `block`. A block-parameter definition is only placed in a block
    /// that declares a parameter.
    pub fn define_8(&mut self, block: usize, definition: Definition8) -> (r: Variable8)
        requires
            old(self).wf(),
            block < old(self)@.basic_blocks.len(),
            def8_uses_ok(definition, old(self)@.variable_id_counter as int),
            def8_uses_placed(old(self)@, block as int, definition),
            old(self)@.variable_id_counter < usize::MAX,
        ensures
            final(self).wf(),
            forall|b: int|
                0 <= b < old(self)@.basic_blocks.len() ==> final(self)@.basic_blocks[b].has_argument
                    == old(self)@.basic_blocks[b].has_argument,
            r.id == old(self)@.variable_id_counter,
            forall|b2: int|
                block as int <= b2 ==> #[trigger] defined_in_prefix(
                    final(self)@,
                    b2,
                    r.id as int,
                ),
            forall|b2: int, id: int|
                defined_in_prefix(old(self)@, b2, id) ==> #[trigger] defined_in_prefix(
                    final(self)@,
                    b2,
                    id,
                ),
            final(self)@ == spec_define_8(old(self)@, block as int, definition).0,
            r == spec_define_8(old(self)@, block as int, definition).1,
            final(self)@.variable_id_counter == old(self)@.variable_id_counter + 1,
            final(self)@.basic_blocks =~= old(self)@.basic_blocks.update(
                block as int,
                block_with_instr(
                    old(self)@.basic_blocks[block as int],
                    Instruction::Define8 { variable: r, definition },
                ),
            ),
    {
        let variable = Variable8 { id: self.variable_id_counter };
        self.variable_id_counter = self.variable_id_counter + 1;
        let instr = Instruction::Define8 { variable, definition };
        self.basic_blocks[block].instructions.push(instr);
        proof {
            self.lemma_push_wf(*old(self), block as int, instr);
            assert(self@ =~= spec_define_8(old(self)@, block as int, definition).0);
            lemma_prefix_preserved_instr_push(old(self)@, self@, block as int, instr);
            assert(defines_at(
                self@,
                block as int,
                old(self)@.basic_blocks[block as int].instructions.len() as int,
                variable.id as int,
            ));
        }
        variable
    }

    /// Allocates a fresh 16-bit variable defined by `definition` at the end
    /// of block `block`.
    pub fn define_16(&mut self, block: usize, definition: Definition16) -> (r: Variable16)
        requires
            old(self).wf(),
            block < old(self)@.basic_blocks.len(),
            def16_uses_ok(definition, old(self)@.variable_id_counter as int),
            def16_uses_placed(old(self)@, block as int, definition),
            old(self)@.variable_id_counter < usize::MAX,
        ensures
            final(self).wf(),
            forall|b: int|
                0 <= b < old(self)@.basic_blocks.len() ==> final(self)@.basic_blocks[b].has_argument
                    == old(self)@.basic_blocks[b].has_argument,
            r.id == old(self)@.variable_id_counter,
            forall|b2: int|
                block as int <= b2 ==> #[trigger] defined_in_prefix(
                    final(self)@,
                    b2,
                    r.id as int,
                ),
            forall|b2: int, id: int|
                defined_in_prefix(old(self)@, b2, id) ==> #[trigger] defined_in_prefix(
                    final(self)@,
                    b2,
                    id,
                ),
            final(self)@ == spec_define_16(old(self)@, block as int, definition).0,
            r == spec_define_16(old(self)@, block as int, definition).1,
            final(self)@.variable_id_counter == old(self)@.variable_id_counter + 1,
            final(self)@.basic_blocks =~= old(self)@.basic_blocks.update(
                block as int,
                block_with_instr(
                    old(self)@.basic_blocks[block as int],
                    Instruction::Define16 { variable: r, definition },
                ),
            ),
    {
        let variable = Variable16 { id: self.variable_id_counter };
        self.variable_id_counter = self.variable_id_counter + 1;
        let instr = Instruction::Define16 { variable, definition };
        self.basic_blocks[block].instructions.push(instr);
        proof {
            self.lemma_push_wf(*old(self), block as int, instr);
            assert(self@ =~= spec_define_16(old(self)@, block as int, definition).0);
            lemma_prefix_preserved_instr_push(old(self)@, self@, block as int, instr);
            assert(defines_at(
                self@,
                block as int,
                old(self)@.basic_blocks[block as int].instructions.len() as int,
                variable.id as int,
            ));
        }
        variable
    }

    /// Appends a store of a 1-bit variable to a flag.
    pub fn store_1(&mut self, block: usize, destination: Destination1, variable: Variable1)
        requires
            old(self).wf(),
            block < old(self)@.basic_blocks.len(),
            variable.id < old(self)@.variable_id_counter,
            defined_in_prefix(old(self)@, block as int, variable.id as int),
        ensures
            final(self).wf(),
            forall|b: int|
                0 <= b < old(self)@.basic_blocks.len() ==> final(self)@.basic_blocks[b].has_argument
                    == old(self)@.basic_blocks[b].has_argument,
            forall|b2: int, id: int|
                defined_in_prefix(old(self)@, b2, id) ==> #[trigger] defined_in_prefix(
                    final(self)@,
                    b2,
                    id,
                ),
            final(self)@ == spec_store_1(old(self)@, block as int, destination, variable),
            final(self)@.variable_id_counter == old(self)@.variable_id_counter,
            final(self)@.basic_blocks =~= old(self)@.basic_blocks.update(
                block as int,
                block_with_instr(
                    old(self)@.basic_blocks[block as int],
                    Instruction::Store1 { destination, variable },
                ),
            ),
    {
        let instr = Instruction::Store1 { destination, variable };
        self.basic_blocks[block].instructions.push(instr);
        proof {
            self.lemma_push_store_wf(*old(self), block as int, instr);
            assert(self@ =~= spec_store_1(old(self)@, block as int, destination, variable));
            lemma_prefix_preserved_instr_push(old(self)@, self@, block as int, instr);
        }
    }

    /// Appends a store of an 8-bit variable to a register or a memory region.
    pub fn store_8(&mut self, block: usize, destination: Destination8, variable: Variable8)
        requires
            old(self).wf(),
            block < old(self)@.basic_blocks.len(),
            variable.id < old(self)@.variable_id_counter,
            dest8_uses_ok(destination, old(self)@.variable_id_counter as int),
            instr_uses_placed(
                old(self)@,
                block as int,
                Instruction::Store8 { destination, variable },
            ),
        ensures
            final(self).wf(),
            forall|b: int|
                0 <= b < old(self)@.basic_blocks.len() ==> final(self)@.basic_blocks[b].has_argument
                    == old(self)@.basic_blocks[b].has_argument,
            forall|b2: int, id: int|
                defined_in_prefix(old(self)@, b2, id) ==> #[trigger] defined_in_prefix(
                    final(self)@,
                    b2,
                    id,
                ),
            final(self)@ == spec_store_8(old(self)@, block as int, destination, variable),
            final(self)@.variable_id_counter == old(self)@.variable_id_counter,
            final(self)@.basic_blocks =~= old(self)@.basic_blocks.update(
                block as int,
                block_with_instr(
                    old(self)@.basic_blocks[block as int],
                    Instruction::Store8 { destination, variable },
                ),
            ),
    {
        let instr = Instruction::Store8 { destination, variable };
        self.basic_blocks[block].instructions.push(instr);
        proof {
            self.lemma_push_store_wf(*old(self), block as int, instr);
            assert(self@ =~= spec_store_8(old(self)@, block as int, destination, variable));
            lemma_prefix_preserved_instr_push(old(self)@, self@, block as int, instr);
        }
    }

    /// Appends a store of a 16-bit variable to the PC or the PPU current
    /// address.
    pub fn store_16(&mut self, block: usize, destination: Destination16, variable: Variable16)
        requires
            old(self).wf(),
            block < old(self)@.basic_blocks.len(),
            variable.id < old(self)@.variable_id_counter,
            defined_in_prefix(old(self)@, block as int, variable.id as int),
        ensures
            final(self).wf(),
            forall|b: int|
                0 <= b < old(self)@.basic_blocks.len() ==> final(self)@.basic_blocks[b].has_argument
                    == old(self)@.basic_blocks[b].has_argument,
            forall|b2: int, id: int|
                defined_in_prefix(old(self)@, b2, id) ==> #[trigger] defined_in_prefix(
                    final(self)@,
                    b2,
                    id,
                ),
            final(self)@ == spec_store_16(old(self)@, block as int, destination, variable),
            final(self)@.variable_id_counter == old(self)@.variable_id_counter,
            final(self)@.basic_blocks =~= old(self)@.basic_blocks.update(
                block as int,
                block_with_instr(
                    old(self)@.basic_blocks[block as int],
                    Instruction::Store16 { destination, variable },
                ),
            ),
    {
        let instr = Instruction::Store16 { destination, variable };
        self.basic_blocks[block].instructions.push(instr);
        proof {
            self.lemma_push_store_wf(*old(self), block as int, instr);
            assert(self@ =~= spec_store_16(old(self)@, block as int, destination, variable));
            lemma_prefix_preserved_instr_push(old(self)@, self@, block as int, instr);
        }
    }

    /// Replaces the terminator of block `block`; the terminator must be
    /// well-formed at that block.
    pub fn set_jump(&mut self, block: usize, jump: Jump)
        requires
            old(self).wf(),
            block < old(self)@.basic_blocks.len(),
            jump_wf(old(self)@, block as int, jump),
            jump_uses_placed(old(self)@, block as int, jump),
        ensures
            final(self).wf(),
            forall|b: int|
                0 <= b < old(self)@.basic_blocks.len() ==> final(self)@.basic_blocks[b].has_argument
                    == old(self)@.basic_blocks[b].has_argument,
            final(self)@ == spec_set_jump(old(self)@, block as int, jump),
            forall|b2: int, id: int|
                defined_in_prefix(old(self)@, b2, id) ==> #[trigger] defined_in_prefix(
                    final(self)@,
                    b2,
                    id,
                ),
            final(self)@.variable_id_counter == old(self)@.variable_id_counter,
            final(self)@.basic_blocks =~= old(self)@.basic_blocks.update(
                block as int,
                block_with_jump(old(self)@.basic_blocks[block as int], jump),
            ),
    {
        self.basic_blocks[block].jump = jump;
        proof {
            let pre = old(self)@;
            let post = self@;
            assert(post.basic_blocks =~= pre.basic_blocks.update(
                block as int,
                block_with_jump(pre.basic_blocks[block as int], jump),
            ));
            assert forall|b: int| 0 <= b < post.basic_blocks.len() implies #[trigger] block_wf(
                post,
                b,
            ) by {
                assert(block_wf(pre, b));
                assert(post.basic_blocks[b].instructions == pre.basic_blocks[b].instructions);
                assert(post.basic_blocks[b].has_argument == pre.basic_blocks[b].has_argument);
                if b != block {
                    assert(post.basic_blocks[b].jump == pre.basic_blocks[b].jump);
                }
            }
            assert(fn_unique_defs(post));
            assert(self@ =~= spec_set_jump(old(self)@, block as int, jump));
            lemma_prefix_preserved_same_instrs(old(self)@, self@);
            assert(fn_uses_placed(self@)) by {
                lemma_prefix_preserved_same_instrs(old(self)@, self@);
                assert forall|b: int, i: int|
                    0 <= b < self@.basic_blocks.len() && 0 <= i
                        < self@.basic_blocks[b].instructions.len() implies #[trigger] instr_uses_placed(
                    self@,
                    b,
                    self@.basic_blocks[b].instructions[i],
                ) by {
                    assert(instr_uses_placed(
                        old(self)@,
                        b,
                        old(self)@.basic_blocks[b].instructions[i],
                    ));
                }
                assert forall|b: int|
                    0 <= b < self@.basic_blocks.len() implies #[trigger] jump_uses_placed(
                    self@,
                    b,
                    self@.basic_blocks[b].jump,
                ) by {
                    if b != block {
                        assert(jump_uses_placed(
                            old(self)@,
                            b,
                            old(self)@.basic_blocks[b].jump,
                        ));
                    }
                }
            }
        }
    }

    /// Pushing a well-formed definition with a fresh id preserves the builder
    /// invariant.
    proof fn lemma_push_wf(&self, pre: Function, block: int, instr: Instruction)
        requires
            pre.wf(),
            0 <= block < pre@.basic_blocks.len(),
            self@.variable_id_counter == pre@.variable_id_counter + 1,
            instr_def_id(instr) == Some(pre@.variable_id_counter as int),
            instr_wf(instr, self@.variable_id_counter as int),
            instr_uses_placed(pre@, block, instr),
            self@.basic_blocks =~= pre@.basic_blocks.update(
                block,
                block_with_instr(pre@.basic_blocks[block], instr),
            ),
        ensures
            self.wf(),
    {
        let prev = pre@;
        let post = self@;
        assert forall|b: int| 0 <= b < post.basic_blocks.len() implies #[trigger] block_wf(
            post,
            b,
        ) by {
            assert(block_wf(prev, b));
            assert forall|i: int|
                0 <= i < post.basic_blocks[b].instructions.len() implies instr_wf(
                #[trigger] post.basic_blocks[b].instructions[i],
                post.variable_id_counter as int,
            ) by {
                if b == block && i == post.basic_blocks[b].instructions.len() - 1 {
                } else {
                    assert(post.basic_blocks[b].instructions[i]
                        == prev.basic_blocks[b].instructions[i]);
                    assert(instr_wf(
                        prev.basic_blocks[b].instructions[i],
                        prev.variable_id_counter as int,
                    ));
                }
            }
            assert forall|i: int, j: int|
                0 <= i < j < post.basic_blocks[b].instructions.len() && instr_def_id(
                    post.basic_blocks[b].instructions[i],
                ) is Some && instr_def_id(post.basic_blocks[b].instructions[j]) is Some implies
                instr_def_id(post.basic_blocks[b].instructions[i])->Some_0 < instr_def_id(
                post.basic_blocks[b].instructions[j],
            )->Some_0 by {
                if b == block && j == post.basic_blocks[b].instructions.len() - 1 {
                    assert(post.basic_blocks[b].instructions[i]
                        == prev.basic_blocks[b].instructions[i]);
                    assert(instr_wf(
                        prev.basic_blocks[b].instructions[i],
                        prev.variable_id_counter as int,
                    ));
                } else {
                    assert(post.basic_blocks[b].instructions[i]
                        == prev.basic_blocks[b].instructions[i]);
                    assert(post.basic_blocks[b].instructions[j]
                        == prev.basic_blocks[b].instructions[j]);
                }
            }
            assert(jump_wf(prev, b, prev.basic_blocks[b].jump));
            assert(post.basic_blocks[b].jump == prev.basic_blocks[b].jump);
        }
        assert forall|b1: int, i1: int, b2: int, i2: int|
            0 <= b1 < post.basic_blocks.len() && 0 <= i1 < post.basic_blocks[b1].instructions.len()
                && 0 <= b2 < post.basic_blocks.len() && 0 <= i2
                < post.basic_blocks[b2].instructions.len() && (b1 != b2 || i1 != i2)
                && #[trigger] instr_def_id(post.basic_blocks[b1].instructions[i1]) is Some implies
            instr_def_id(post.basic_blocks[b1].instructions[i1]) != #[trigger] instr_def_id(
            post.basic_blocks[b2].instructions[i2],
        ) by {
            let new1 = b1 == block && i1 == post.basic_blocks[b1].instructions.len() - 1;
            let new2 = b2 == block && i2 == post.basic_blocks[b2].instructions.len() - 1;
            assert(block_wf(prev, b1));
            assert(block_wf(prev, b2));
            if !new1 {
                assert(post.basic_blocks[b1].instructions[i1]
                    == prev.basic_blocks[b1].instructions[i1]);
                assert(instr_wf(
                    prev.basic_blocks[b1].instructions[i1],
                    prev.variable_id_counter as int,
                ));
            }
            if !new2 {
                assert(post.basic_blocks[b2].instructions[i2]
                    == prev.basic_blocks[b2].instructions[i2]);
                assert(instr_wf(
                    prev.basic_blocks[b2].instructions[i2],
                    prev.variable_id_counter as int,
                ));
            }
        }
            lemma_prefix_preserved_instr_push(prev, post, block, instr);
        assert(fn_uses_placed(post)) by {
            assert forall|b: int, i: int|
                0 <= b < post.basic_blocks.len() && 0 <= i
                    < post.basic_blocks[b].instructions.len() implies #[trigger] instr_uses_placed(
                post,
                b,
                post.basic_blocks[b].instructions[i],
            ) by {
                if b == block && i == post.basic_blocks[b].instructions.len() - 1 {
                    assert(instr_uses_placed(prev, b, instr));
                } else {
                    assert(post.basic_blocks[b].instructions[i]
                        == prev.basic_blocks[b].instructions[i]);
                    assert(instr_uses_placed(prev, b, prev.basic_blocks[b].instructions[i]));
                }
            }
            assert forall|b: int|
                0 <= b < post.basic_blocks.len() implies #[trigger] jump_uses_placed(
                post,
                b,
                post.basic_blocks[b].jump,
            ) by {
                assert(post.basic_blocks[b].jump == prev.basic_blocks[b].jump);
                assert(jump_uses_placed(prev, b, prev.basic_blocks[b].jump));
            }
        }
    }

    /// Pushing a well-formed store preserves the builder invariant.
    proof fn lemma_push_store_wf(&self, pre: Function, block: int, instr: Instruction)
        requires
            pre.wf(),
            0 <= block < pre@.basic_blocks.len(),
            self@.variable_id_counter == pre@.variable_id_counter,
            instr_def_id(instr) is None,
            instr_wf(instr, self@.variable_id_counter as int),
            instr_uses_placed(pre@, block, instr),
            self@.basic_blocks =~= pre@.basic_blocks.update(
                block,
                block_with_instr(pre@.basic_blocks[block], instr),
            ),
        ensures
            self.wf(),
    {
        let prev = pre@;
        let post = self@;
        assert forall|b: int| 0 <= b < post.basic_blocks.len() implies #[trigger] block_wf(
            post,
            b,
        ) by {
            assert(block_wf(prev, b));
            assert forall|i: int|
                0 <= i < post.basic_blocks[b].instructions.len() implies instr_wf(
                #[trigger] post.basic_blocks[b].instructions[i],
                post.variable_id_counter as int,
            ) by {
                if b == block && i == post.basic_blocks[b].instructions.len() - 1 {
                } else {
                    assert(post.basic_blocks[b].instructions[i]
                        == prev.basic_blocks[b].instructions[i]);
                }
            }
            assert forall|i: int, j: int|
                0 <= i < j < post.basic_blocks[b].instructions.len() && instr_def_id(
                    post.basic_blocks[b].instructions[i],
                ) is Some && instr_def_id(post.basic_blocks[b].instructions[j]) is Some implies
                instr_def_id(post.basic_blocks[b].instructions[i])->Some_0 < instr_def_id(
                post.basic_blocks[b].instructions[j],
            )->Some_0 by {
                if b == block && j == post.basic_blocks[b].instructions.len() - 1 {
                } else {
                    assert(post.basic_blocks[b].instructions[i]
                        == prev.basic_blocks[b].instructions[i]);
                    assert(post.basic_blocks[b].instructions[j]
                        == prev.basic_blocks[b].instructions[j]);
                }
            }
            assert(jump_wf(prev, b, prev.basic_blocks[b].jump));
            assert(post.basic_blocks[b].jump == prev.basic_blocks[b].jump);
        }
        assert forall|b1: int, i1: int, b2: int, i2: int|
            0 <= b1 < post.basic_blocks.len() && 0 <= i1 < post.basic_blocks[b1].instructions.len()
                && 0 <= b2 < post.basic_blocks.len() && 0 <= i2
                < post.basic_blocks[b2].instructions.len() && (b1 != b2 || i1 != i2)
                && #[trigger] instr_def_id(post.basic_blocks[b1].instructions[i1]) is Some implies
            instr_def_id(post.basic_blocks[b1].instructions[i1]) != #[trigger] instr_def_id(
            post.basic_blocks[b2].instructions[i2],
        ) by {
            let new1 = b1 == block && i1 == post.basic_blocks[b1].instructions.len() - 1;
            let new2 = b2 == block && i2 == post.basic_blocks[b2].instructions.len() - 1;
            if !new1 && !new2 {
                assert(post.basic_blocks[b1].instructions[i1]
                    == prev.basic_blocks[b1].instructions[i1]);
                assert(post.basic_blocks[b2].instructions[i2]
                    == prev.basic_blocks[b2].instructions[i2]);
            }
        }
            lemma_prefix_preserved_instr_push(prev, post, block, instr);
        assert(fn_uses_placed(post)) by {
            assert forall|b: int, i: int|
                0 <= b < post.basic_blocks.len() && 0 <= i
                    < post.basic_blocks[b].instructions.len() implies #[trigger] instr_uses_placed(
                post,
                b,
                post.basic_blocks[b].instructions[i],
            ) by {
                if b == block && i == post.basic_blocks[b].instructions.len() - 1 {
                    assert(instr_uses_placed(prev, b, instr));
                } else {
                    assert(post.basic_blocks[b].instructions[i]
                        == prev.basic_blocks[b].instructions[i]);
                    assert(instr_uses_placed(prev, b, prev.basic_blocks[b].instructions[i]));
                }
            }
            assert forall|b: int|
                0 <= b < post.basic_blocks.len() implies #[trigger] jump_uses_placed(
                post,
                b,
                post.basic_blocks[b].jump,
            ) by {
                assert(post.basic_blocks[b].jump == prev.basic_blocks[b].jump);
                assert(jump_uses_placed(prev, b, prev.basic_blocks[b].jump));
            }
        }
    }
}

} // verus!
