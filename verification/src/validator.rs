//! The operand-stack depth that the emitter simulates, held against the
//! depth that a WebAssembly validator computes.
//!
//! The validator keeps one stack of operands for the whole function and, for
//! each open block, the height at which the block started. The emitter keeps
//! a stack of symbols per block. This module shows that both give every open
//! block the same number of operands, along any sequence of instructions
//! that the validator accepts and that stays in reachable code.

use crate::effects::{
    declared_pops, declared_push, lemma_declared_net_change, wasm_operands, wasm_results,
    wasm_signature,
};
use crate::model::{
    blocks_after_else, blocks_after_end, blocks_after_enter, blocks_after_inst, BlockModel,
    CodeBuilderView,
};
use crate::opcodes::{BLOCK, ELSE, IF, LOOP};
use vstd::prelude::*;

verus! {

/// One call of an instruction method, without its immediates.
pub enum Instruction {
    /// An instruction whose opcode fixes how many operands it takes and
    /// leaves.
    Plain { opcode: u8 },
    /// A call of a function with `n_args` parameters.
    Call { n_args: nat, has_return_val: bool },
    Block { has_result: bool },
    Loop { has_result: bool },
    If { has_result: bool },
    Else,
    End,
}

/// What the emitter asks of its simulated stack before an instruction.
pub open spec fn emitter_admits(blocks: Seq<BlockModel>, instruction: Instruction) -> bool {
    let depth = blocks.last().value_stack.len();
    match instruction {
        Instruction::Plain { opcode } => declared_pops(opcode) <= depth,
        Instruction::Call { n_args, .. } => n_args <= depth,
        Instruction::Block { .. } => true,
        Instruction::Loop { .. } => true,
        Instruction::If { .. } => 1 <= depth,
        Instruction::Else => blocks.last().opcode == IF,
        Instruction::End => blocks.len() >= 2 && (blocks.last().has_result ==> depth > 0),
    }
}

/// The simulated stack of the emitter after an instruction.
pub open spec fn emitter_step(blocks: Seq<BlockModel>, instruction: Instruction) -> Seq<
    BlockModel,
> {
    match instruction {
        Instruction::Plain { opcode } => blocks_after_inst(
            blocks,
            declared_pops(opcode),
            declared_push(opcode),
        ),
        Instruction::Call { n_args, has_return_val } => blocks_after_inst(
            blocks,
            n_args,
            has_return_val,
        ),
        Instruction::Block { has_result } => blocks_after_enter(blocks, BLOCK, 0, has_result),
        Instruction::Loop { has_result } => blocks_after_enter(blocks, LOOP, 0, has_result),
        Instruction::If { has_result } => blocks_after_enter(blocks, IF, 1, has_result),
        Instruction::Else => blocks_after_else(blocks),
        Instruction::End => blocks_after_end(blocks),
    }
}

/// The simulated stack of the emitter after a sequence of instructions.
pub open spec fn emitter_run(blocks: Seq<BlockModel>, instructions: Seq<Instruction>) -> Seq<
    BlockModel,
>
    decreases instructions.len(),
{
    if instructions.len() == 0 {
        blocks
    } else {
        emitter_step(emitter_run(blocks, instructions.drop_last()), instructions.last())
    }
}

/// Whether the emitter admits each instruction of a sequence in its turn.
pub open spec fn emitter_admits_all(blocks: Seq<BlockModel>, instructions: Seq<Instruction>) -> bool
    decreases instructions.len(),
{
    if instructions.len() == 0 {
        true
    } else {
        emitter_admits_all(blocks, instructions.drop_last()) && emitter_admits(
            emitter_run(blocks, instructions.drop_last()),
            instructions.last(),
        )
    }
}

/// A control frame of the validator.
pub struct Frame {
    /// The opcode that opened the frame, or `else` in the second branch of
    /// an `if`.
    pub opcode: u8,
    /// How many operands the function had when the frame was opened.
    pub height: nat,
    /// Whether the block leaves one value.
    pub has_result: bool,
}

/// What a validator knows of the depth of the stack: the number of operands
/// of the function, and the open frames, outermost first.
pub struct ValidatorState {
    pub operands: nat,
    pub frames: Seq<Frame>,
}

impl ValidatorState {
    /// The number of operands of the innermost frame.
    pub open spec fn depth(self) -> int {
        self.operands - self.frames.last().height
    }

    /// The number of values that the innermost frame leaves.
    pub open spec fn results(self) -> nat {
        if self.frames.last().has_result {
            1
        } else {
            0
        }
    }
}

/// The validator at the start of a function body: no operands, and the frame
/// of the function itself.
pub open spec fn validator_start() -> ValidatorState {
    ValidatorState {
        operands: 0,
        frames: seq![Frame { opcode: BLOCK, height: 0, has_result: true }],
    }
}

/// The validator after an instruction, or nothing where it rejects the
/// instruction. It follows reachable code only: it has no step for a
/// stack-polymorphic instruction, after which the depth is no longer that of
/// any execution.
pub open spec fn validator_step(s: ValidatorState, instruction: Instruction) -> Option<
    ValidatorState,
> {
    match instruction {
        Instruction::Plain { opcode } => {
            if wasm_signature(opcode) is Some && opcode != BLOCK && opcode != LOOP && opcode != IF
                && s.depth() >= wasm_operands(opcode) {
                Some(
                    ValidatorState {
                        operands: (s.operands - wasm_operands(opcode) + wasm_results(
                            opcode,
                        )) as nat,
                        frames: s.frames,
                    },
                )
            } else {
                None
            }
        },
        Instruction::Call { n_args, has_return_val } => {
            if s.depth() >= n_args {
                Some(
                    ValidatorState {
                        operands: (s.operands - n_args + if has_return_val {
                            1int
                        } else {
                            0int
                        }) as nat,
                        frames: s.frames,
                    },
                )
            } else {
                None
            }
        },
        Instruction::Block { has_result } => Some(
            ValidatorState {
                operands: s.operands,
                frames: s.frames.push(Frame { opcode: BLOCK, height: s.operands, has_result }),
            },
        ),
        Instruction::Loop { has_result } => Some(
            ValidatorState {
                operands: s.operands,
                frames: s.frames.push(Frame { opcode: LOOP, height: s.operands, has_result }),
            },
        ),
        Instruction::If { has_result } => {
            if s.depth() >= 1 {
                Some(
                    ValidatorState {
                        operands: (s.operands - 1) as nat,
                        frames: s.frames.push(
                            Frame { opcode: IF, height: (s.operands - 1) as nat, has_result },
                        ),
                    },
                )
            } else {
                None
            }
        },
        Instruction::Else => {
            if s.frames.len() >= 2 && s.frames.last().opcode == IF && s.depth() == s.results() {
                Some(
                    ValidatorState {
                        operands: s.frames.last().height,
                        frames: s.frames.update(
                            s.frames.len() - 1,
                            Frame {
                                opcode: ELSE,
                                height: s.frames.last().height,
                                has_result: s.frames.last().has_result,
                            },
                        ),
                    },
                )
            } else {
                None
            }
        },
        Instruction::End => {
            if s.frames.len() >= 2 && s.depth() == s.results() {
                Some(ValidatorState { operands: s.operands, frames: s.frames.drop_last() })
            } else {
                None
            }
        },
    }
}

/// The validator after a sequence of instructions, or nothing where it
/// rejects one of them.
pub open spec fn validator_run(s: ValidatorState, instructions: Seq<Instruction>) -> Option<
    ValidatorState,
>
    decreases instructions.len(),
{
    if instructions.len() == 0 {
        Some(s)
    } else {
        match validator_run(s, instructions.drop_last()) {
            Some(before) => validator_step(before, instructions.last()),
            None => None,
        }
    }
}

/// The number of operands on all the simulated stacks together.
pub open spec fn total_operands(blocks: Seq<BlockModel>) -> nat
    decreases blocks.len(),
{
    if blocks.len() == 0 {
        0
    } else {
        total_operands(blocks.drop_last()) + blocks.last().value_stack.len()
    }
}

/// Whether the emitter and the validator see the same stack: the same open
/// blocks, each with the same number of operands.
pub open spec fn agrees(blocks: Seq<BlockModel>, s: ValidatorState) -> bool {
    &&& blocks.len() > 0
    &&& blocks.len() == s.frames.len()
    &&& s.operands == total_operands(blocks)
    &&& forall|i: int|
        0 <= i < blocks.len() ==> (#[trigger] s.frames[i]).height == total_operands(
            blocks.take(i),
        )
    &&& forall|i: int|
        0 <= i < blocks.len() ==> (#[trigger] s.frames[i]).has_result == blocks[i].has_result
    &&& forall|i: int|
        0 <= i < blocks.len() ==> blocks[i].opcode == opened_by(#[trigger] s.frames[i])
}

/// The opcode that opened a frame: in the second branch of an `if` the
/// emitter still holds the block as the `if` that it was opened by.
pub open spec fn opened_by(frame: Frame) -> u8 {
    if frame.opcode == ELSE {
        IF
    } else {
        frame.opcode
    }
}

/// Where both see the same stack, the innermost block has as many operands
/// for the one as for the other.
pub proof fn lemma_agrees_depth(blocks: Seq<BlockModel>, s: ValidatorState)
    requires
        agrees(blocks, s),
    ensures
        s.depth() == blocks.last().value_stack.len(),
{
    assert(blocks.take(blocks.len() - 1) =~= blocks.drop_last());
    assert(s.frames[blocks.len() - 1].height == total_operands(blocks.take(blocks.len() - 1)));
}

/// A new builder and the validator at the start of a function body see the
/// same stack.
pub proof fn lemma_start_agrees(blocks: Seq<BlockModel>)
    requires
        blocks.len() == 1,
        blocks[0].opcode == BLOCK,
        blocks[0].value_stack.len() == 0,
        blocks[0].has_result,
    ensures
        agrees(blocks, validator_start()),
{
    assert(blocks.drop_last() =~= Seq::empty());
    assert(blocks.take(0) =~= Seq::empty());
    assert(total_operands(blocks.drop_last()) == 0);
}

/// Two block stacks that differ in the innermost block only have the same
/// blocks around it.
proof fn lemma_same_outer(blocks: Seq<BlockModel>, changed: Seq<BlockModel>)
    requires
        blocks.len() > 0,
        changed.len() == blocks.len(),
        forall|i: int| 0 <= i < blocks.len() - 1 ==> changed[i] == blocks[i],
    ensures
        forall|i: int| 0 <= i < blocks.len() ==> #[trigger] changed.take(i) == blocks.take(i),
        total_operands(changed) == total_operands(blocks) - blocks.last().value_stack.len()
            + changed.last().value_stack.len(),
{
    assert forall|i: int| 0 <= i < blocks.len() implies #[trigger] changed.take(i) == blocks.take(
        i,
    ) by {
        assert(changed.take(i) =~= blocks.take(i));
    }
    assert(changed.drop_last() =~= blocks.drop_last());
}

/// One instruction that the validator accepts is one that the emitter
/// admits, and after it both still see the same stack.
pub proof fn lemma_step_agrees(blocks: Seq<BlockModel>, s: ValidatorState, instruction: Instruction)
    requires
        agrees(blocks, s),
        validator_step(s, instruction) is Some,
    ensures
        emitter_admits(blocks, instruction),
        agrees(emitter_step(blocks, instruction), validator_step(s, instruction).unwrap()),
{
    lemma_agrees_depth(blocks, s);
    let after = emitter_step(blocks, instruction);
    let t = validator_step(s, instruction).unwrap();
    let n = blocks.len() as int;
    match instruction {
        Instruction::Plain { opcode } => {
            lemma_declared_net_change(opcode);
            lemma_same_outer(blocks, after);
        },
        Instruction::Call { n_args, has_return_val } => {
            lemma_same_outer(blocks, after);
        },
        Instruction::Block { has_result } => {
            lemma_enter_agrees(blocks, s, BLOCK, 0, has_result);
        },
        Instruction::Loop { has_result } => {
            lemma_enter_agrees(blocks, s, LOOP, 0, has_result);
        },
        Instruction::If { has_result } => {
            lemma_enter_agrees(blocks, s, IF, 1, has_result);
        },
        Instruction::Else => {
            lemma_same_outer(blocks, after);
        },
        Instruction::End => {
            let outer = blocks.drop_last();
            assert(outer.take(n - 2) =~= outer.drop_last());
            assert(blocks.take(n - 2) =~= outer.drop_last());
            assert(blocks.take(n - 1) =~= outer);
            assert(s.frames[n - 1].height == total_operands(blocks.take(n - 1)));
            if blocks.last().has_result {
                lemma_same_outer(outer, after);
                assert forall|i: int| 0 <= i < n - 1 implies (#[trigger] t.frames[i]).height
                    == total_operands(after.take(i)) by {
                    assert(after.take(i) == outer.take(i));
                    assert(outer.take(i) =~= blocks.take(i));
                    assert(t.frames[i] == s.frames[i]);
                }
            } else {
                assert forall|i: int| 0 <= i < n - 1 implies (#[trigger] t.frames[i]).height
                    == total_operands(after.take(i)) by {
                    assert(outer.take(i) =~= blocks.take(i));
                    assert(t.frames[i] == s.frames[i]);
                }
            }
            assert forall|i: int| 0 <= i < n - 1 implies (#[trigger] t.frames[i]).has_result
                == after[i].has_result by {
                assert(t.frames[i] == s.frames[i]);
            }
        },
    }
}

/// Opening a block keeps the agreement: the new frame starts at the height
/// that the operands have once the instruction has taken its own.
proof fn lemma_enter_agrees(
    blocks: Seq<BlockModel>,
    s: ValidatorState,
    opcode: u8,
    pops: nat,
    has_result: bool,
)
    requires
        agrees(blocks, s),
        pops <= blocks.last().value_stack.len(),
        opcode != ELSE,
    ensures
        agrees(
            blocks_after_enter(blocks, opcode, pops, has_result),
            ValidatorState {
                operands: (s.operands - pops) as nat,
                frames: s.frames.push(
                    Frame { opcode, height: (s.operands - pops) as nat, has_result },
                ),
            },
        ),
{
    let n = blocks.len() as int;
    let taken = blocks_after_inst(blocks, pops, false);
    let after = blocks_after_enter(blocks, opcode, pops, has_result);
    let t = ValidatorState {
        operands: (s.operands - pops) as nat,
        frames: s.frames.push(Frame { opcode, height: (s.operands - pops) as nat, has_result }),
    };
    lemma_same_outer(blocks, taken);
    assert(after.drop_last() =~= taken);
    assert(after.take(n) =~= taken);
    assert forall|i: int| 0 <= i < n + 1 implies (#[trigger] t.frames[i]).height == total_operands(
        after.take(i),
    ) by {
        if i < n {
            assert(after.take(i) =~= taken.take(i));
            assert(taken.take(i) == blocks.take(i));
            assert(t.frames[i] == s.frames[i]);
        }
    }
    assert forall|i: int| 0 <= i < n + 1 implies (#[trigger] t.frames[i]).has_result
        == after[i].has_result by {
        if i < n {
            assert(t.frames[i] == s.frames[i]);
        }
    }
    assert forall|i: int| 0 <= i < n + 1 implies after[i].opcode == opened_by(
        #[trigger] t.frames[i],
    ) by {
        if i < n {
            assert(t.frames[i] == s.frames[i]);
        }
    }
}

/// Along any sequence of instructions that the validator accepts, the
/// emitter admits every instruction, and after the sequence the innermost
/// block, like every open block, has as many operands on the emitter's
/// simulated stack as the validator counts.
pub proof fn lemma_simulated_depth_matches_validator(
    blocks: Seq<BlockModel>,
    s: ValidatorState,
    instructions: Seq<Instruction>,
)
    requires
        agrees(blocks, s),
        validator_run(s, instructions) is Some,
    ensures
        emitter_admits_all(blocks, instructions),
        agrees(emitter_run(blocks, instructions), validator_run(s, instructions).unwrap()),
        emitter_run(blocks, instructions).last().value_stack.len() == validator_run(
            s,
            instructions,
        ).unwrap().depth(),
    decreases instructions.len(),
{
    if instructions.len() > 0 {
        lemma_simulated_depth_matches_validator(blocks, s, instructions.drop_last());
        lemma_step_agrees(
            emitter_run(blocks, instructions.drop_last()),
            validator_run(s, instructions.drop_last()).unwrap(),
            instructions.last(),
        );
    }
    lemma_agrees_depth(
        emitter_run(blocks, instructions),
        validator_run(s, instructions).unwrap(),
    );
}

/// Each instruction method moves the simulated stack by one step of the
/// emitter: whatever the immediates, the blocks of the builder after the
/// method are those of `emitter_step`.
pub proof fn lemma_methods_step(b: CodeBuilderView, opcode: u8, immediates: Seq<u8>)
    ensures
        b.emit(opcode).append_code(immediates).blocks == emitter_step(
            b.blocks,
            Instruction::Plain { opcode },
        ),
        forall|n_args: nat, has_return_val: bool|
            #![trigger b.inst(crate::opcodes::CALL, n_args, has_return_val)]
            b.inst(crate::opcodes::CALL, n_args, has_return_val).blocks == emitter_step(
                b.blocks,
                Instruction::Call { n_args, has_return_val },
            ),
        forall|block_type: u8, has_result: bool|
            #![trigger b.enter_block(BLOCK, 0, block_type, has_result)]
            b.enter_block(BLOCK, 0, block_type, has_result).blocks == emitter_step(
                b.blocks,
                Instruction::Block { has_result },
            ),
        forall|block_type: u8, has_result: bool|
            #![trigger b.enter_block(LOOP, 0, block_type, has_result)]
            b.enter_block(LOOP, 0, block_type, has_result).blocks == emitter_step(
                b.blocks,
                Instruction::Loop { has_result },
            ),
        forall|block_type: u8, has_result: bool|
            #![trigger b.enter_block(IF, 1, block_type, has_result)]
            b.enter_block(IF, 1, block_type, has_result).blocks == emitter_step(
                b.blocks,
                Instruction::If { has_result },
            ),
        b.else_().blocks == emitter_step(b.blocks, Instruction::Else),
        b.end().blocks == emitter_step(b.blocks, Instruction::End),
{
}

} // verus!
