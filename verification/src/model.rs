//! The mathematical model of a function under construction.

use crate::code_builder::{LocalId, ValueType};
use crate::effects::{declared_pops, declared_push};
use crate::header::{fn_epilogue, fn_preamble};
use crate::leb128::uleb128;
use crate::linking::RelocationEntry;
use crate::opcodes::{END, GETLOCAL, SETLOCAL, TEELOCAL};
use crate::symbol::{wasm_tmp, Symbol};
use vstd::prelude::*;

verus! {

/// Bytes to splice into the code when the function is serialized: the bytes
/// `start..end` of the insertion buffer go in front of the code byte at `at`.
#[derive(Clone, Copy, Debug, PartialEq, Eq, Structural)]
pub struct Insertion {
    pub at: usize,
    pub start: usize,
    pub end: usize,
}

/// Whether `after` is `before` sorted by place, with insertions at one place
/// left in the order in which they stood.
pub open spec fn is_stable_sort_by_at(before: Seq<Insertion>, after: Seq<Insertion>) -> bool {
    &&& after.len() == before.len()
    &&& sorted_by_at(after)
    &&& forall|at: usize|
        #![trigger insertions_at(after, at)]
        insertions_at(after, at) == insertions_at(before, at)
}

/// Whether the places of the insertions ascend.
pub open spec fn sorted_by_at(insertions: Seq<Insertion>) -> bool {
    forall|i: int, j: int|
        0 <= i <= j < insertions.len() ==> (#[trigger] insertions[i]).at <= (
        #[trigger] insertions[j]).at
}

/// The insertions that go to the place `at`, in the order in which they stand.
pub open spec fn insertions_at(insertions: Seq<Insertion>, at: usize) -> Seq<Insertion> {
    insertions.filter(|insertion: Insertion| insertion.at == at)
}

/// One control block of the simulated machine. A block sees its own operands
/// only, never those of the block around it.
#[verifier::ext_equal]
pub struct BlockModel {
    /// The opcode that opened the block.
    pub opcode: u8,
    /// The symbols on the block's operand stack, bottom to top.
    pub value_stack: Seq<Symbol>,
    /// Whether the block hands one value to its parent when it ends.
    pub has_result: bool,
}

/// What an operand stack holds after an instruction has taken `pops` values
/// from it and, if `push` is set, left an anonymous one.
pub open spec fn stack_after(stack: Seq<Symbol>, pops: nat, push: bool) -> Seq<Symbol> {
    let kept = stack.take(stack.len() - pops);
    if push {
        kept.push(wasm_tmp())
    } else {
        kept
    }
}

/// The stack without the lowest occurrence of `symbol`.
pub open spec fn without_first(stack: Seq<Symbol>, symbol: Symbol) -> Seq<Symbol>
    decreases stack.len(),
{
    if stack.len() == 0 {
        stack
    } else if stack[0] == symbol {
        stack.drop_first()
    } else {
        seq![stack[0]] + without_first(stack.drop_first(), symbol)
    }
}

/// The innermost block with another operand stack.
pub open spec fn with_top_stack(blocks: Seq<BlockModel>, stack: Seq<Symbol>) -> Seq<BlockModel> {
    blocks.update(
        blocks.len() - 1,
        BlockModel {
            opcode: blocks.last().opcode,
            value_stack: stack,
            has_result: blocks.last().has_result,
        },
    )
}

/// The blocks after an instruction that takes `pops` operands of the innermost
/// block and, if `push` is set, leaves one.
pub open spec fn blocks_after_inst(blocks: Seq<BlockModel>, pops: nat, push: bool) -> Seq<
    BlockModel,
> {
    with_top_stack(blocks, stack_after(blocks.last().value_stack, pops, push))
}

/// The blocks after an instruction that takes `pops` operands and opens a block.
pub open spec fn blocks_after_enter(
    blocks: Seq<BlockModel>,
    opcode: u8,
    pops: nat,
    has_result: bool,
) -> Seq<BlockModel> {
    blocks_after_inst(blocks, pops, false).push(
        BlockModel { opcode, value_stack: Seq::empty(), has_result },
    )
}

/// The blocks after `else`: what the first branch left is gone.
pub open spec fn blocks_after_else(blocks: Seq<BlockModel>) -> Seq<BlockModel> {
    with_top_stack(blocks, Seq::empty())
}

/// The blocks after `end`: the innermost block is gone, and its top operand
/// has moved to its parent if the block has a result.
pub open spec fn blocks_after_end(blocks: Seq<BlockModel>) -> Seq<BlockModel> {
    let ended = blocks.last();
    let outer = blocks.drop_last();
    if ended.has_result {
        with_top_stack(outer, outer.last().value_stack.push(ended.value_stack.last()))
    } else {
        outer
    }
}

/// The blocks with the lowest occurrence of `symbol` taken out of each
/// operand stack.
pub open spec fn blocks_without(blocks: Seq<BlockModel>, symbol: Symbol) -> Seq<BlockModel> {
    Seq::new(
        blocks.len(),
        |i: int|
            BlockModel {
                opcode: blocks[i].opcode,
                value_stack: without_first(blocks[i].value_stack, symbol),
                has_result: blocks[i].has_result,
            },
    )
}

/// Whether some block has `symbol` on its operand stack.
pub open spec fn blocks_hold(blocks: Seq<BlockModel>, symbol: Symbol) -> bool {
    exists|i: int| 0 <= i < blocks.len() && (#[trigger] blocks[i]).value_stack.contains(symbol)
}

/// Everything a `CodeBuilder` holds.
#[verifier::ext_equal]
pub struct CodeBuilderView {
    /// The instruction bytes written so far, without the insertions.
    pub code: Seq<u8>,
    /// The bytes of all insertions, in the order in which they were made.
    pub insert_bytes: Seq<u8>,
    /// Where each insertion goes.
    pub insertions: Seq<Insertion>,
    /// Local declarations and frame set-up, which go in front of the code.
    pub preamble: Seq<u8>,
    /// The encoded length of all that follows it in the function body.
    pub inner_length: Seq<u8>,
    /// The open control blocks, outermost first.
    pub blocks: Seq<BlockModel>,
    /// The places that the linker rewrites, by offset into `code`.
    pub relocations: Seq<RelocationEntry>,
}

impl CodeBuilderView {
    /// The invariant of a builder: a block is open, every insertion lies
    /// within the buffers, and the relocations lie within the code in the
    /// order in which the code was written.
    pub open spec fn wf(self) -> bool {
        &&& self.blocks.len() > 0
        &&& forall|i: int|
            0 <= i < self.insertions.len() ==> {
                &&& (#[trigger] self.insertions[i]).at <= self.code.len()
                &&& self.insertions[i].start <= self.insertions[i].end
                &&& self.insertions[i].end <= self.insert_bytes.len()
            }
        &&& forall|i: int|
            0 <= i < self.relocations.len() ==> (#[trigger] self.relocations[i]).spec_offset()
                <= self.code.len()
        &&& forall|i: int, j: int|
            0 <= i <= j < self.relocations.len() ==> (#[trigger] self.relocations[i]).spec_offset()
                <= (#[trigger] self.relocations[j]).spec_offset()
    }

    /// The operand stack of the innermost block.
    pub open spec fn current_stack(self) -> Seq<Symbol> {
        self.blocks.last().value_stack
    }

    /// The number of operands of the innermost block.
    pub open spec fn depth(self) -> nat {
        self.blocks.last().value_stack.len()
    }

    /// The same builder with other blocks.
    pub open spec fn with_blocks(self, blocks: Seq<BlockModel>) -> CodeBuilderView {
        CodeBuilderView { blocks, ..self }
    }

    /// The same builder with other insertions.
    pub open spec fn with_insertions(self, insertions: Seq<Insertion>) -> CodeBuilderView {
        CodeBuilderView { insertions, ..self }
    }

    /// The same builder with another preamble.
    pub open spec fn with_preamble(self, preamble: Seq<u8>) -> CodeBuilderView {
        CodeBuilderView { preamble, ..self }
    }

    /// The number of bytes of the function body that follow its length.
    pub open spec fn inner_len(self) -> nat {
        self.preamble.len() + self.code.len() + self.insert_bytes.len()
    }

    /// The builder of a function that is complete but for the order of its
    /// insertions: the preamble is written, the code ends, and the length
    /// of all three buffers is encoded.
    pub open spec fn finished(
        self,
        local_types: Seq<ValueType>,
        frame_size: i32,
        frame_pointer: Option<LocalId>,
    ) -> CodeBuilderView {
        let preamble = fn_preamble(local_types, frame_size, frame_pointer);
        let code = self.code + fn_epilogue(frame_size, frame_pointer);
        CodeBuilderView {
            preamble,
            code,
            inner_length: uleb128(preamble.len() + code.len() + self.insert_bytes.len()),
            ..self
        }
    }

    /// The same builder with `bytes` appended to the code.
    pub open spec fn append_code(self, bytes: Seq<u8>) -> CodeBuilderView {
        CodeBuilderView { code: self.code + bytes, ..self }
    }

    /// The builder after an instruction that takes `pops` operands and, if
    /// `push` is set, leaves one: the opcode is appended to the code.
    pub open spec fn inst(self, opcode: u8, pops: nat, push: bool) -> CodeBuilderView {
        CodeBuilderView {
            code: self.code.push(opcode),
            blocks: blocks_after_inst(self.blocks, pops, push),
            ..self
        }
    }

    /// Whether the builder can write the instruction: it is well formed and
    /// the innermost block has the operands that the instruction takes.
    pub open spec fn admits(self, opcode: u8) -> bool {
        self.wf() && declared_pops(opcode) <= self.depth()
    }

    /// The builder after the instruction `opcode`, before its immediates.
    pub open spec fn emit(self, opcode: u8) -> CodeBuilderView {
        self.inst(opcode, declared_pops(opcode), declared_push(opcode))
    }

    /// The builder after an instruction that opens a block: the opcode and the
    /// block type are appended to the code.
    pub open spec fn enter_block(
        self,
        opcode: u8,
        pops: nat,
        block_type: u8,
        has_result: bool,
    ) -> CodeBuilderView {
        CodeBuilderView {
            code: self.code.push(opcode).push(block_type),
            blocks: blocks_after_enter(self.blocks, opcode, pops, has_result),
            ..self
        }
    }

    /// The builder with one more insertion, of `bytes`, in front of the code
    /// byte at `at`.
    pub open spec fn insert(self, at: usize, bytes: Seq<u8>) -> CodeBuilderView {
        CodeBuilderView {
            insert_bytes: self.insert_bytes + bytes,
            insertions: self.insertions.push(
                Insertion {
                    at,
                    start: self.insert_bytes.len() as usize,
                    end: (self.insert_bytes.len() + bytes.len()) as usize,
                },
            ),
            ..self
        }
    }

    /// The builder with one more relocation.
    pub open spec fn relocate(self, entry: RelocationEntry) -> CodeBuilderView {
        CodeBuilderView { relocations: self.relocations.push(entry), ..self }
    }

    /// The builder with `symbol` tied to the top operand of the innermost
    /// block.
    pub open spec fn tag_top(self, symbol: Symbol) -> CodeBuilderView {
        self.with_blocks(
            with_top_stack(self.blocks, self.current_stack().update(self.depth() - 1, symbol)),
        )
    }

    /// The builder after `else`.
    pub open spec fn else_(self) -> CodeBuilderView {
        CodeBuilderView {
            code: self.code.push(crate::opcodes::ELSE),
            blocks: blocks_after_else(self.blocks),
            ..self
        }
    }

    /// The builder after `end`.
    pub open spec fn end(self) -> CodeBuilderView {
        CodeBuilderView { code: self.code.push(END), blocks: blocks_after_end(self.blocks), ..self }
    }

    /// Whether `symbol` is the top operand of the innermost block.
    pub open spec fn on_top(self, symbol: Symbol) -> bool {
        self.depth() > 0 && self.current_stack().last() == symbol
    }

    /// The builder after a value has been given a local: `opcode`, a
    /// `local.set` or `local.tee`, is inserted where the value was produced,
    /// and a `local.get` is written here and tied to `symbol`.
    pub open spec fn promote(
        self,
        symbol: Symbol,
        pushed_at: usize,
        opcode: u8,
        local: u32,
    ) -> CodeBuilderView {
        let inserted = self.insert(pushed_at, seq![opcode] + uleb128(local as nat));
        inserted.inst(GETLOCAL, 0, true).append_code(uleb128(local as nat)).tag_top(symbol)
    }

    /// The builder after the value of `symbol` has been made the top operand.
    /// `pushed` says whether the driver holds the value as still on the
    /// stack; where it does not, the value was consumed before.
    pub open spec fn load_symbol(
        self,
        symbol: Symbol,
        pushed: bool,
        pushed_at: usize,
        local: u32,
    ) -> CodeBuilderView {
        if pushed && self.on_top(symbol) {
            self
        } else if pushed && blocks_hold(self.blocks, symbol) {
            self.with_blocks(blocks_without(self.blocks, symbol)).promote(
                symbol,
                pushed_at,
                SETLOCAL,
                local,
            )
        } else {
            self.promote(symbol, pushed_at, TEELOCAL, local)
        }
    }
}

/// Taking out the lowest occurrence of a symbol, where it stands at `index`,
/// is removing what stands at `index`.
pub proof fn lemma_without_first_at(stack: Seq<Symbol>, symbol: Symbol, index: int)
    requires
        0 <= index < stack.len(),
        stack[index] == symbol,
        forall|k: int| 0 <= k < index ==> stack[k] != symbol,
    ensures
        without_first(stack, symbol) == stack.remove(index),
    decreases stack.len(),
{
    if index == 0 {
        assert(stack.drop_first() =~= stack.remove(0));
    } else {
        lemma_without_first_at(stack.drop_first(), symbol, index - 1);
        assert(seq![stack[0]] + stack.drop_first().remove(index - 1) =~= stack.remove(index));
    }
}

/// A stack that does not hold a symbol stays as it is.
pub proof fn lemma_without_first_absent(stack: Seq<Symbol>, symbol: Symbol)
    requires
        !stack.contains(symbol),
    ensures
        without_first(stack, symbol) == stack,
    decreases stack.len(),
{
    if stack.len() > 0 {
        assert(stack[0] != symbol);
        assert forall|k: int| 0 <= k < stack.drop_first().len() implies stack.drop_first()[k]
            != symbol by {
            assert(stack.drop_first()[k] == stack[k + 1]);
        }
        lemma_without_first_absent(stack.drop_first(), symbol);
        assert(seq![stack[0]] + stack.drop_first() =~= stack);
    }
}

} // verus!
