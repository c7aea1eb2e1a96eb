//! The function-body builder and its simulated operand stack.

use crate::arena::{
    arena_blocks, arena_bytes, arena_insertions, arena_relocations, arena_symbols, blocks_get,
    blocks_get_mut, blocks_len, blocks_new, blocks_pop, blocks_push, bytes_as_slice, bytes_new,
    bytes_push, bytes_set, insertions_as_slice, insertions_new, insertions_push,
    insertions_sort_by_at, relocations_as_slice, relocations_new, relocations_push,
    symbols_as_slice, symbols_new, symbols_push, symbols_remove, symbols_set, symbols_truncate,
};
use crate::header::{
    batches_bytes, frame_pop_bytes, frame_push_bytes, lemma_filter_subset, local_batches,
    local_declarations, LocalBatch,
};
use crate::leb128::{le_bytes, padded_uleb128, sleb128, uleb128};
use crate::linking::{IndexRelocType, OffsetRelocType, RelocationEntry};
use crate::model::{
    blocks_after_else, blocks_without, insertions_at, is_stable_sort_by_at,
    lemma_without_first_absent, lemma_without_first_at, sorted_by_at, with_top_stack,
    without_first, BlockModel, CodeBuilderView, Insertion,
};
use crate::opcodes::{
    BLOCK, CALL, ELSE, END, GETGLOBAL, GETLOCAL, I32CONST, I32SUB, IF, SETGLOBAL, SETLOCAL,
    TEELOCAL,
};
use crate::serialize::{
    encode_i32, encode_i64, encode_padded_u32, encode_u32, overwrite_padded_u32,
    write_unencoded_u32, write_unencoded_u64, SerialBuffer,
};
use crate::splice::{
    inserted_len, lemma_inserted_before_is_prefix, lemma_inserted_len_take, rewritten,
    serialized, serialized_len, spliced_from,
};
use crate::symbol::Symbol;
use crate::{round_up_to_alignment, FRAME_ALIGNMENT_BYTES, STACK_POINTER_GLOBAL_ID};
use bumpalo::collections::Vec as ArenaVec;
use bumpalo::Bump;
use vstd::prelude::*;
use vstd::slice::slice_subrange;

verus! {

/// The index of a local variable of the function.
#[derive(Clone, Copy, Debug, PartialEq, Eq, Structural)]
pub struct LocalId(pub u32);

/// The type of a Wasm value.
#[derive(Clone, Copy, Debug, PartialEq, Eq, Structural)]
pub enum ValueType {
    I32,
    I64,
    F32,
    F64,
}

impl ValueType {
    /// The byte that stands for the type in the binary format.
    pub open spec fn byte(self) -> u8 {
        match self {
            ValueType::I32 => 0x7f,
            ValueType::I64 => 0x7e,
            ValueType::F32 => 0x7d,
            ValueType::F64 => 0x7c,
        }
    }

    /// The byte that stands for the type in the binary format.
    pub fn as_byte(&self) -> (b: u8)
        ensures
            b == self.byte(),
    {
        match self {
            ValueType::I32 => 0x7f,
            ValueType::I64 => 0x7e,
            ValueType::F32 => 0x7d,
            ValueType::F64 => 0x7c,
        }
    }

    /// Appends the type's byte to `buffer`.
    pub fn serialize<T: SerialBuffer>(&self, buffer: &mut T)
        ensures
            final(buffer).bytes() == old(buffer).bytes().push(self.byte()),
    {
        buffer.append_u8(self.as_byte());
    }
}

/// What a control block leaves on the stack of its parent.
#[derive(Clone, Copy, Debug, PartialEq, Eq, Structural)]
pub enum BlockType {
    NoResult,
    Value(ValueType),
}

impl BlockType {
    /// The byte that stands for the block type in the binary format.
    pub open spec fn byte(self) -> u8 {
        match self {
            BlockType::NoResult => 0x40,
            BlockType::Value(t) => t.byte(),
        }
    }

    /// Whether a block of this type hands a value to its parent.
    pub open spec fn has_result(self) -> bool {
        self != BlockType::NoResult
    }

    /// The byte that stands for the block type in the binary format.
    pub fn as_byte(&self) -> (b: u8)
        ensures
            b == self.byte(),
    {
        match self {
            BlockType::NoResult => 0x40,
            BlockType::Value(t) => t.as_byte(),
        }
    }
}

/// The alignment hint of a memory access.
#[derive(Clone, Copy, Debug, PartialEq, Eq, Structural)]
pub enum Align {
    Bytes1,
    Bytes2,
    Bytes4,
    Bytes8,
    Bytes16,
    Bytes32,
    Bytes64,
}

impl Align {
    /// The number of bytes that an access is aligned to.
    pub open spec fn bytes(self) -> u32 {
        match self {
            Align::Bytes1 => 1,
            Align::Bytes2 => 2,
            Align::Bytes4 => 4,
            Align::Bytes8 => 8,
            Align::Bytes16 => 16,
            Align::Bytes32 => 32,
            Align::Bytes64 => 64,
        }
    }

    /// The byte that stands for the alignment in the binary format: the
    /// binary logarithm of the number of bytes.
    pub open spec fn byte(self) -> u8 {
        match self {
            Align::Bytes1 => 0,
            Align::Bytes2 => 1,
            Align::Bytes4 => 2,
            Align::Bytes8 => 3,
            Align::Bytes16 => 4,
            Align::Bytes32 => 5,
            Align::Bytes64 => 6,
        }
    }

    /// Whether `x` bytes is an alignment that can be encoded: a power of two
    /// up to 64.
    pub open spec fn supported(x: u32) -> bool {
        x == 1 || x == 2 || x == 4 || x == 8 || x == 16 || x == 32 || x == 64
    }

    /// The alignment of `x` bytes.
    pub fn from_u32(x: u32) -> (align: Align)
        requires
            Align::supported(x),
        ensures
            align.bytes() == x,
    {
        if x == 1 {
            Align::Bytes1
        } else if x == 2 {
            Align::Bytes2
        } else if x == 4 {
            Align::Bytes4
        } else if x == 8 {
            Align::Bytes8
        } else if x == 16 {
            Align::Bytes16
        } else if x == 32 {
            Align::Bytes32
        } else {
            Align::Bytes64
        }
    }

    /// The alignment of `x` bytes, if it can be encoded.
    pub fn checked_from_u32(x: u32) -> (align: Option<Align>)
        ensures
            align is Some <==> Align::supported(x),
            align is Some ==> align->0.bytes() == x,
    {
        if x == 1 || x == 2 || x == 4 || x == 8 || x == 16 || x == 32 || x == 64 {
            Some(Align::from_u32(x))
        } else {
            None
        }
    }

    /// The byte that stands for the alignment in the binary format.
    pub fn as_byte(&self) -> (b: u8)
        ensures
            b == self.byte(),
    {
        match self {
            Align::Bytes1 => 0,
            Align::Bytes2 => 1,
            Align::Bytes4 => 2,
            Align::Bytes8 => 3,
            Align::Bytes16 => 4,
            Align::Bytes32 => 5,
            Align::Bytes64 => 6,
        }
    }
}

/// What the driver knows of the value of one symbol.
#[derive(Clone, Copy, Debug, PartialEq, Eq, Structural)]
pub enum VmSymbolState {
    /// No instruction has produced the value yet.
    NotYetPushed,
    /// The value is on the simulated stack. The instruction that produced it
    /// ends at byte `pushed_at` of the code, where a `local.set` or
    /// `local.tee` can still be inserted.
    Pushed { pushed_at: usize },
    /// The value has been consumed. To use it again it needs a local, set by
    /// a `local.tee` inserted at `pushed_at`.
    Popped { pushed_at: usize },
}

/// A control block of the simulated machine.
pub struct VmBlock<'a> {
    /// The opcode that opened the block.
    pub(crate) opcode: u8,
    /// The symbols on the block's operand stack, bottom to top.
    pub(crate) value_stack: ArenaVec<'a, Symbol>,
    /// Whether the block hands one value to its parent when it ends.
    pub(crate) has_result: bool,
}

impl<'a> VmBlock<'a> {
    /// The block as a mathematical value.
    pub closed spec fn model(&self) -> BlockModel {
        BlockModel {
            opcode: self.opcode,
            value_stack: arena_symbols(&self.value_stack),
            has_result: self.has_result,
        }
    }
}

/// Builds the body of one function: its instruction bytes, the insertions
/// that promote values to locals after the fact, its local declarations and
/// its relocations.
pub struct CodeBuilder<'a> {
    arena: &'a Bump,
    /// The instruction bytes.
    code: ArenaVec<'a, u8>,
    /// The bytes of the instructions to insert when the function is
    /// serialized.
    insert_bytes: ArenaVec<'a, u8>,
    /// Where the inserted instructions go.
    insertions: ArenaVec<'a, Insertion>,
    /// Local declarations and stack-frame set-up. Written after the code,
    /// serialized before it.
    preamble: ArenaVec<'a, u8>,
    /// The encoded length of preamble, code and insertions together. Written
    /// last, serialized first.
    inner_length: ArenaVec<'a, u8>,
    /// The open control blocks, each with its own operand stack.
    vm_block_stack: ArenaVec<'a, VmBlock<'a>>,
    /// The places that the linker rewrites.
    relocations: ArenaVec<'a, RelocationEntry>,
}

impl<'a> View for CodeBuilder<'a> {
    type V = CodeBuilderView;

    closed spec fn view(&self) -> CodeBuilderView {
        CodeBuilderView {
            code: arena_bytes(&self.code),
            insert_bytes: arena_bytes(&self.insert_bytes),
            insertions: arena_insertions(&self.insertions),
            preamble: arena_bytes(&self.preamble),
            inner_length: arena_bytes(&self.inner_length),
            blocks: arena_blocks(&self.vm_block_stack),
            relocations: arena_relocations(&self.relocations),
        }
    }
}

/// A builder that has written nothing: one block, that of the function
/// itself, with no operands.
pub open spec fn new_builder() -> CodeBuilderView {
    CodeBuilderView {
        code: Seq::empty(),
        insert_bytes: Seq::empty(),
        insertions: Seq::empty(),
        preamble: Seq::empty(),
        inner_length: Seq::empty(),
        blocks: seq![BlockModel { opcode: BLOCK, value_stack: Seq::empty(), has_result: true }],
        relocations: Seq::empty(),
    }
}

impl<'a> CodeBuilder<'a> {
    /// A builder for a new function, whose buffers live in `arena`.
    pub fn new(arena: &'a Bump) -> (builder: Self)
        ensures
            builder@ == new_builder(),
            builder@.wf(),
    {
        let mut vm_block_stack = blocks_new(8, arena);
        let function_block = VmBlock {
            opcode: BLOCK,
            has_result: true,
            value_stack: symbols_new(8, arena),
        };
        blocks_push(&mut vm_block_stack, function_block);
        CodeBuilder {
            arena,
            code: bytes_new(1024, arena),
            insertions: insertions_new(32, arena),
            insert_bytes: bytes_new(64, arena),
            preamble: bytes_new(32, arena),
            inner_length: bytes_new(5, arena),
            vm_block_stack,
            relocations: relocations_new(32, arena),
        }
    }

    /// Ties `sym` to the value on top of the stack, and says where the
    /// instruction that produced it ends.
    pub fn set_top_symbol(&mut self, sym: Symbol) -> (state: VmSymbolState)
        requires
            old(self)@.wf(),
            old(self)@.depth() > 0,
        ensures
            state == (VmSymbolState::Pushed { pushed_at: old(self)@.code.len() as usize }),
            old(self)@.code.len() <= usize::MAX,
            final(self)@ == old(self)@.with_blocks(
                with_top_stack(
                    old(self)@.blocks,
                    old(self)@.current_stack().update(old(self)@.depth() - 1, sym),
                ),
            ),
            final(self)@.wf(),
    {
        let n = blocks_len(&self.vm_block_stack);
        let block = blocks_get_mut(&mut self.vm_block_stack, n - 1);
        let depth = symbols_as_slice(&block.value_stack).len();
        symbols_set(&mut block.value_stack, depth - 1, sym);
        let pushed_at = bytes_as_slice(&self.code).len();
        assert(self@ =~= old(self)@.with_blocks(
            with_top_stack(
                old(self)@.blocks,
                old(self)@.current_stack().update(old(self)@.depth() - 1, sym),
            ),
        ));
        VmSymbolState::Pushed { pushed_at }
    }

    /// Whether `symbols` are the topmost operands of the innermost block, in
    /// order, the last on top.
    pub fn verify_stack_match(&self, symbols: &[Symbol]) -> (matches: bool)
        requires
            self@.wf(),
        ensures
            matches <==> symbols@.len() <= self@.depth() && self@.current_stack().skip(
                self@.depth() - symbols@.len(),
            ) == symbols@,
    {
        let n = blocks_len(&self.vm_block_stack);
        let block = blocks_get(&self.vm_block_stack, n - 1);
        let current_stack = symbols_as_slice(&block.value_stack);
        let n_symbols = symbols.len();
        let stack_depth = current_stack.len();
        if n_symbols > stack_depth {
            return false;
        }
        let offset = stack_depth - n_symbols;
        let ghost top = current_stack@.skip(offset as int);
        let mut i: usize = 0;
        while i < n_symbols
            invariant
                i <= n_symbols,
                current_stack@ == self@.current_stack(),
                n_symbols == symbols@.len(),
                stack_depth == current_stack@.len(),
                offset + n_symbols == stack_depth,
                top == current_stack@.skip(offset as int),
                forall|k: int| 0 <= k < i ==> top[k] == symbols@[k],
            decreases n_symbols - i,
        {
            if current_stack[offset + i] != symbols[i] {
                assert(top[i as int] != symbols@[i as int]);
                return false;
            }
            i += 1;
        }
        assert(top =~= symbols@);
        true
    }

    /// Writes one opcode and moves the simulated stack: `pops` operands go
    /// and, if `push` is set, an anonymous one comes.
    pub(crate) fn inst_base(&mut self, opcode: u8, pops: usize, push: bool)
        requires
            old(self)@.wf(),
            pops <= old(self)@.depth(),
        ensures
            final(self)@ == old(self)@.inst(opcode, pops as nat, push),
            final(self)@.wf(),
    {
        let n = blocks_len(&self.vm_block_stack);
        let block = blocks_get_mut(&mut self.vm_block_stack, n - 1);
        let depth = symbols_as_slice(&block.value_stack).len();
        symbols_truncate(&mut block.value_stack, depth - pops);
        if push {
            symbols_push(&mut block.value_stack, Symbol::wasm_tmp());
        }
        bytes_push(&mut self.code, opcode);
        assert(self@ =~= old(self)@.inst(opcode, pops as nat, push));
    }

    /// Writes an instruction without immediates.
    pub(crate) fn inst(&mut self, opcode: u8, pops: usize, push: bool)
        requires
            old(self)@.wf(),
            pops <= old(self)@.depth(),
        ensures
            final(self)@ == old(self)@.inst(opcode, pops as nat, push),
            final(self)@.wf(),
    {
        self.inst_base(opcode, pops, push);
    }

    /// Writes an instruction that opens a control block, which starts with
    /// an operand stack of its own.
    pub(crate) fn inst_block(&mut self, opcode: u8, pops: usize, block_type: BlockType)
        requires
            old(self)@.wf(),
            pops <= old(self)@.depth(),
        ensures
            final(self)@ == old(self)@.enter_block(
                opcode,
                pops as nat,
                block_type.byte(),
                block_type.has_result(),
            ),
            final(self)@.wf(),
    {
        self.inst_base(opcode, pops, false);
        bytes_push(&mut self.code, block_type.as_byte());
        let has_result = match block_type {
            BlockType::NoResult => false,
            BlockType::Value(_) => true,
        };
        blocks_push(
            &mut self.vm_block_stack,
            VmBlock { opcode, value_stack: symbols_new(8, self.arena), has_result },
        );
        assert(self@ =~= old(self)@.enter_block(
            opcode,
            pops as nat,
            block_type.byte(),
            block_type.has_result(),
        ));
    }

    /// Writes an instruction whose immediate is one unsigned 32-bit number.
    pub(crate) fn inst_imm32(&mut self, opcode: u8, pops: usize, push: bool, immediate: u32)
        requires
            old(self)@.wf(),
            pops <= old(self)@.depth(),
        ensures
            final(self)@ == old(self)@.inst(opcode, pops as nat, push).append_code(
                uleb128(immediate as nat),
            ),
            final(self)@.wf(),
    {
        self.inst_base(opcode, pops, push);
        encode_u32(&mut self.code, immediate);
        assert(self@ =~= old(self)@.inst(opcode, pops as nat, push).append_code(
            uleb128(immediate as nat),
        ));
    }

    /// Writes a memory instruction: the alignment hint, then the offset.
    pub(crate) fn inst_mem(
        &mut self,
        opcode: u8,
        pops: usize,
        push: bool,
        align: Align,
        offset: u32,
    )
        requires
            old(self)@.wf(),
            pops <= old(self)@.depth(),
        ensures
            final(self)@ == old(self)@.inst(opcode, pops as nat, push).append_code(
                seq![align.byte()] + uleb128(offset as nat),
            ),
            final(self)@.wf(),
    {
        self.inst_base(opcode, pops, push);
        bytes_push(&mut self.code, align.as_byte());
        encode_u32(&mut self.code, offset);
        assert(self@ =~= old(self)@.inst(opcode, pops as nat, push).append_code(
            seq![align.byte()] + uleb128(offset as nat),
        ));
    }

    /// Writes one byte of an immediate.
    pub(crate) fn append_byte(&mut self, byte: u8)
        requires
            old(self)@.wf(),
        ensures
            final(self)@ == old(self)@.append_code(seq![byte]),
            final(self)@.wf(),
    {
        bytes_push(&mut self.code, byte);
        assert(self@ =~= old(self)@.append_code(seq![byte]));
    }

    /// Writes a signed immediate.
    pub(crate) fn append_sleb128(&mut self, value: i64)
        requires
            old(self)@.wf(),
        ensures
            final(self)@ == old(self)@.append_code(sleb128(value as int)),
            final(self)@.wf(),
    {
        encode_i64(&mut self.code, value);
        assert(self@ =~= old(self)@.append_code(sleb128(value as int)));
    }

    /// Writes an immediate of four plain bytes.
    pub(crate) fn append_u32(&mut self, value: u32)
        requires
            old(self)@.wf(),
        ensures
            final(self)@ == old(self)@.append_code(le_bytes(value as nat, 4)),
            final(self)@.wf(),
    {
        write_unencoded_u32(&mut self.code, value);
        assert(self@ =~= old(self)@.append_code(le_bytes(value as nat, 4)));
    }

    /// Writes an immediate of eight plain bytes.
    pub(crate) fn append_u64(&mut self, value: u64)
        requires
            old(self)@.wf(),
        ensures
            final(self)@ == old(self)@.append_code(le_bytes(value as nat, 8)),
            final(self)@.wf(),
    {
        write_unencoded_u64(&mut self.code, value);
        assert(self@ =~= old(self)@.append_code(le_bytes(value as nat, 8)));
    }

    /// Records that the bytes which come next in the code hold a memory
    /// address for the linker to fill in.
    pub fn insert_memory_relocation(&mut self, symbol_index: u32)
        requires
            old(self)@.wf(),
            old(self)@.code.len() <= u32::MAX,
        ensures
            final(self)@ == old(self)@.relocate(
                RelocationEntry::Offset {
                    type_id: OffsetRelocType::MemoryAddrLeb,
                    offset: old(self)@.code.len() as u32,
                    symbol_index,
                    addend: 0,
                },
            ),
            final(self)@.wf(),
    {
        let offset = bytes_as_slice(&self.code).len() as u32;
        relocations_push(
            &mut self.relocations,
            RelocationEntry::Offset {
                type_id: OffsetRelocType::MemoryAddrLeb,
                offset,
                symbol_index,
                addend: 0,
            },
        );
        assert(self@ =~= old(self)@.relocate(
            RelocationEntry::Offset {
                type_id: OffsetRelocType::MemoryAddrLeb,
                offset: old(self)@.code.len() as u32,
                symbol_index,
                addend: 0,
            },
        ));
    }

    /// Records bytes to be inserted in front of the code byte at `insert_at`:
    /// an opcode and its immediate.
    fn add_insertion(&mut self, insert_at: usize, opcode: u8, immediate: u32)
        requires
            old(self)@.wf(),
            insert_at <= old(self)@.code.len(),
        ensures
            final(self)@ == old(self)@.insert(insert_at, seq![opcode] + uleb128(immediate as nat)),
            final(self)@.wf(),
    {
        let start = bytes_as_slice(&self.insert_bytes).len();
        bytes_push(&mut self.insert_bytes, opcode);
        encode_u32(&mut self.insert_bytes, immediate);
        let end = bytes_as_slice(&self.insert_bytes).len();
        insertions_push(&mut self.insertions, Insertion { at: insert_at, start, end });
        assert(self@ =~= old(self)@.insert(insert_at, seq![opcode] + uleb128(immediate as nat)));
    }

    /// Takes the lowest occurrence of `symbol` out of an operand stack, and
    /// says whether there was one.
    fn remove_first(stack: &mut ArenaVec<'a, Symbol>, symbol: Symbol) -> (found: bool)
        ensures
            found == arena_symbols(old(stack)).contains(symbol),
            arena_symbols(final(stack)) == without_first(arena_symbols(old(stack)), symbol),
    {
        let mut position: Option<usize> = None;
        let items = symbols_as_slice(stack);
        let mut j: usize = 0;
        while j < items.len()
            invariant_except_break
                position is None,
            invariant
                j <= items.len(),
                items@ == arena_symbols(stack),
                forall|k: int| 0 <= k < j ==> items@[k] != symbol,
            ensures
                match position {
                    Some(index) => index < items.len() && items@[index as int] == symbol
                        && forall|k: int| 0 <= k < index ==> items@[k] != symbol,
                    None => forall|k: int| 0 <= k < items.len() ==> items@[k] != symbol,
                },
            decreases items.len() - j,
        {
            if items[j] == symbol {
                position = Some(j);
                break ;
            }
            j += 1;
        }
        match position {
            Some(index) => {
                proof {
                    lemma_without_first_at(arena_symbols(stack), symbol, index as int);
                }
                symbols_remove(stack, index);
                true
            },
            None => {
                proof {
                    lemma_without_first_absent(arena_symbols(stack), symbol);
                }
                false
            },
        }
    }

    /// Writes a `local.get` and ties its value to `symbol`, after `opcode`, a
    /// `local.set` or `local.tee`, has been recorded for insertion at
    /// `pushed_at`.
    fn promote(&mut self, symbol: Symbol, pushed_at: usize, opcode: u8, local: LocalId)
        requires
            old(self)@.wf(),
            pushed_at <= old(self)@.code.len(),
        ensures
            final(self)@ == old(self)@.promote(symbol, pushed_at, opcode, local.0),
            final(self)@.wf(),
    {
        self.add_insertion(pushed_at, opcode, local.0);
        self.get_local(local);
        self.set_top_symbol(symbol);
    }

    /// Makes the value of `symbol` the top operand of the innermost block.
    ///
    /// Where the driver holds the value as pushed and it is on top already,
    /// nothing is written, and the state to keep is returned. Otherwise the
    /// value gets the local `next_local_id`: if it is still on some stack it is
    /// taken off, and a `local.set` is inserted where it was pushed; if it is
    /// on none, or was consumed before, a `local.tee` is inserted there. A
    /// `local.get` is then written here, and nothing is returned: the driver
    /// declares the local and forgets the state.
    pub fn load_symbol(
        &mut self,
        symbol: Symbol,
        vm_state: VmSymbolState,
        next_local_id: LocalId,
    ) -> (next: Option<VmSymbolState>)
        requires
            old(self)@.wf(),
            vm_state matches VmSymbolState::Pushed { pushed_at } ==> pushed_at <= old(
                self,
            )@.code.len(),
            vm_state matches VmSymbolState::Popped { pushed_at } ==> pushed_at <= old(
                self,
            )@.code.len(),
            vm_state != VmSymbolState::NotYetPushed,
        ensures
            vm_state matches VmSymbolState::Pushed { pushed_at } ==> {
                &&& final(self)@ == old(self)@.load_symbol(symbol, true, pushed_at, next_local_id.0)
                &&& next == if old(self)@.on_top(symbol) {
                    Some(VmSymbolState::Popped { pushed_at })
                } else {
                    None
                }
            },
            vm_state matches VmSymbolState::Popped { pushed_at } ==> {
                &&& final(self)@ == old(self)@.load_symbol(
                    symbol,
                    false,
                    pushed_at,
                    next_local_id.0,
                )
                &&& next is None
            },
            final(self)@.wf(),
    {
        match vm_state {
            VmSymbolState::NotYetPushed => None,
            VmSymbolState::Pushed { pushed_at } => {
                let n = blocks_len(&self.vm_block_stack);
                let top_block = blocks_get(&self.vm_block_stack, n - 1);
                let top_stack = symbols_as_slice(&top_block.value_stack);
                if top_stack.len() > 0 && top_stack[top_stack.len() - 1] == symbol {
                    return Some(VmSymbolState::Popped { pushed_at });
                }
                let mut found = false;
                let mut i: usize = 0;
                while i < n
                    invariant
                        i <= n,
                        n == old(self)@.blocks.len(),
                        self@.blocks.len() == n,
                        forall|k: int|
                            0 <= k < i ==> self@.blocks[k] == blocks_without(
                                old(self)@.blocks,
                                symbol,
                            )[k],
                        forall|k: int| i <= k < n ==> self@.blocks[k] == old(self)@.blocks[k],
                        found <==> exists|k: int|
                            0 <= k < i && (#[trigger] old(self)@.blocks[k]).value_stack.contains(
                                symbol,
                            ),
                        self@.with_blocks(old(self)@.blocks) == old(self)@,
                    decreases n - i,
                {
                    let block = blocks_get_mut(&mut self.vm_block_stack, i);
                    if Self::remove_first(&mut block.value_stack, symbol) {
                        found = true;
                    }
                    i += 1;
                }
                assert(self@.blocks =~= blocks_without(old(self)@.blocks, symbol));
                assert(self@ =~= old(self)@.with_blocks(blocks_without(old(self)@.blocks, symbol)));
                if found {
                    self.promote(symbol, pushed_at, SETLOCAL, next_local_id);
                } else {
                    proof {
                        assert forall|k: int| 0 <= k < n implies blocks_without(
                            old(self)@.blocks,
                            symbol,
                        )[k] =~= old(self)@.blocks[k] by {
                            lemma_without_first_absent(old(self)@.blocks[k].value_stack, symbol);
                        }
                        assert(self@ =~= old(self)@);
                    }
                    self.promote(symbol, pushed_at, TEELOCAL, next_local_id);
                }
                None
            },
            VmSymbolState::Popped { pushed_at } => {
                self.promote(symbol, pushed_at, TEELOCAL, next_local_id);
                None
            },
        }
    }

    /// Writes the declarations of the locals into the empty preamble: runs of
    /// equal types, and in front of them their number.
    fn build_local_declarations(&mut self, local_types: &[ValueType])
        requires
            old(self)@.wf(),
            old(self)@.preamble.len() == 0,
            local_types@.len() <= u32::MAX,
        ensures
            final(self)@ == old(self)@.with_preamble(local_declarations(local_types@)),
            final(self)@.wf(),
    {
        // One byte is kept free for the number of runs.
        bytes_push(&mut self.preamble, 0);
        assert(arena_bytes(&self.preamble) =~= seq![0u8]);
        if local_types.len() == 0 {
            assert(batches_bytes(local_batches(local_types@)) =~= Seq::empty());
            assert(self@ =~= old(self)@.with_preamble(local_declarations(local_types@)));
            return ;
        }
        let ghost types = local_types@;
        let ghost mut completed: Seq<LocalBatch> = Seq::empty();
        let mut num_batches: u32 = 0;
        let mut batch_type = local_types[0];
        let mut batch_size: u32 = 0;
        let mut i: usize = 0;
        while i < local_types.len()
            invariant
                i <= local_types@.len() <= u32::MAX,
                types == local_types@,
                num_batches + batch_size <= i,
                num_batches == completed.len(),
                arena_bytes(&self.preamble) == seq![0u8] + batches_bytes(completed),
                self@ == old(self)@.with_preamble(arena_bytes(&self.preamble)),
                i == 0 ==> batch_size == 0 && completed.len() == 0 && batch_type == types[0],
                i > 0 ==> batch_size > 0 && local_batches(types.take(i as int)) == completed.push(
                    LocalBatch { count: batch_size as nat, ty: batch_type },
                ),
            decreases local_types.len() - i,
        {
            let t = local_types[i];
            proof {
                assert(types.take(i + 1).drop_last() =~= types.take(i as int));
                assert(types.take(i + 1).last() == t);
                assert(types.take(0) =~= Seq::empty());
                assert(local_batches(types.take(0)) =~= Seq::empty());
            }
            if t == batch_type {
                batch_size += 1;
                assert(local_batches(types.take(i + 1)) =~= completed.push(
                    LocalBatch { count: batch_size as nat, ty: batch_type },
                ));
            } else {
                let ghost batch = LocalBatch { count: batch_size as nat, ty: batch_type };
                encode_u32(&mut self.preamble, batch_size);
                bytes_push(&mut self.preamble, batch_type.as_byte());
                proof {
                    assert(completed.push(batch).drop_last() =~= completed);
                    assert(arena_bytes(&self.preamble) =~= seq![0u8] + batches_bytes(
                        completed.push(batch),
                    ));
                    completed = completed.push(batch);
                }
                batch_type = t;
                batch_size = 1;
                num_batches += 1;
                assert(self@ =~= old(self)@.with_preamble(arena_bytes(&self.preamble)));
            }
            i += 1;
        }
        let ghost batch = LocalBatch { count: batch_size as nat, ty: batch_type };
        encode_u32(&mut self.preamble, batch_size);
        bytes_push(&mut self.preamble, batch_type.as_byte());
        num_batches += 1;
        proof {
            assert(types.take(i as int) =~= types);
            assert(completed.push(batch).drop_last() =~= completed);
            assert(arena_bytes(&self.preamble) =~= seq![0u8] + batches_bytes(
                local_batches(types),
            ));
        }
        let ghost batches = batches_bytes(local_batches(types));
        assert(self@ =~= old(self)@.with_preamble(arena_bytes(&self.preamble)));
        if num_batches < 128 {
            bytes_set(&mut self.preamble, 0, num_batches as u8);
            assert(arena_bytes(&self.preamble) =~= local_declarations(types));
        } else {
            // The number takes five bytes: what follows the byte that was
            // kept free moves four places up.
            bytes_push(&mut self.preamble, 0);
            bytes_push(&mut self.preamble, 0);
            bytes_push(&mut self.preamble, 0);
            bytes_push(&mut self.preamble, 0);
            assert(self@ =~= old(self)@.with_preamble(arena_bytes(&self.preamble)));
            let new_len = bytes_as_slice(&self.preamble).len();
            let mut k: usize = new_len - 4;
            while k > 1
                invariant
                    1 <= k <= new_len - 4,
                    self@ == old(self)@.with_preamble(arena_bytes(&self.preamble)),
                    new_len == batches.len() + 5,
                    arena_bytes(&self.preamble).len() == new_len,
                    forall|p: int| 1 <= p < k ==> arena_bytes(&self.preamble)[p] == batches[p - 1],
                    forall|p: int|
                        k + 4 <= p < new_len ==> arena_bytes(&self.preamble)[p] == batches[p - 5],
                decreases k,
            {
                k -= 1;
                let byte = bytes_as_slice(&self.preamble)[k];
                bytes_set(&mut self.preamble, k + 4, byte);
                assert(self@ =~= old(self)@.with_preamble(arena_bytes(&self.preamble)));
            }
            overwrite_padded_u32(&mut self.preamble, 0, num_batches);
            assert(arena_bytes(&self.preamble) =~= local_declarations(types));
        }
        assert(self@ =~= old(self)@.with_preamble(local_declarations(local_types@)));
    }

    /// Writes into the preamble the instructions that take a frame from the
    /// shadow stack when the function is entered.
    fn build_stack_frame_push(&mut self, frame_size: i32, frame_pointer: LocalId)
        requires
            old(self)@.wf(),
        ensures
            final(self)@ == old(self)@.with_preamble(
                old(self)@.preamble + frame_push_bytes(frame_size, frame_pointer.0),
            ),
            final(self)@.wf(),
    {
        // These instructions go to the preamble, not to the code, so the
        // instruction methods cannot write them.
        bytes_push(&mut self.preamble, GETGLOBAL);
        encode_u32(&mut self.preamble, STACK_POINTER_GLOBAL_ID);
        bytes_push(&mut self.preamble, I32CONST);
        encode_i32(&mut self.preamble, frame_size);
        bytes_push(&mut self.preamble, I32SUB);
        bytes_push(&mut self.preamble, TEELOCAL);
        encode_u32(&mut self.preamble, frame_pointer.0);
        bytes_push(&mut self.preamble, SETGLOBAL);
        encode_u32(&mut self.preamble, STACK_POINTER_GLOBAL_ID);
        assert(self@ =~= old(self)@.with_preamble(
            old(self)@.preamble + frame_push_bytes(frame_size, frame_pointer.0),
        ));
    }

    /// Writes the instructions that give the frame back when the function is
    /// left. They leave the simulated stack as they found it.
    fn build_stack_frame_pop(&mut self, frame_size: i32, frame_pointer: LocalId)
        requires
            old(self)@.wf(),
        ensures
            final(self)@ == old(self)@.append_code(frame_pop_bytes(frame_size, frame_pointer.0)),
            final(self)@.wf(),
    {
        self.get_local(frame_pointer);
        self.i32_const(frame_size);
        self.i32_add();
        self.set_global(STACK_POINTER_GLOBAL_ID);
        assert(self@ =~~= old(self)@.append_code(frame_pop_bytes(frame_size, frame_pointer.0)));
    }

    /// Completes the function: writes the declarations of the locals, the
    /// code that takes the stack frame and gives it back if there is a
    /// `frame_pointer`, the closing `end` and the length of the body, and
    /// puts the insertions in the order of their places.
    pub fn build_fn_header(
        &mut self,
        local_types: &[ValueType],
        frame_size: i32,
        frame_pointer: Option<LocalId>,
    )
        requires
            old(self)@.wf(),
            old(self)@.preamble.len() == 0,
            old(self)@.inner_length.len() == 0,
            local_types@.len() <= u32::MAX,
            frame_pointer is Some ==> frame_size + FRAME_ALIGNMENT_BYTES - 1 <= i32::MAX,
            old(self)@.finished(local_types@, frame_size, frame_pointer).inner_len() <= u32::MAX,
        ensures
            final(self)@ == old(self)@.finished(
                local_types@,
                frame_size,
                frame_pointer,
            ).with_insertions(final(self)@.insertions),
            is_stable_sort_by_at(old(self)@.insertions, final(self)@.insertions),
            final(self)@.code.last() == END,
            sorted_by_at(final(self)@.insertions),
            final(self)@.wf(),
    {
        self.build_local_declarations(local_types);
        match frame_pointer {
            Some(frame_ptr_id) => {
                let aligned_size = round_up_to_alignment(frame_size, FRAME_ALIGNMENT_BYTES);
                self.build_stack_frame_push(aligned_size, frame_ptr_id);
                self.build_stack_frame_pop(aligned_size, frame_ptr_id);
            },
            None => {},
        }
        self.append_byte(END);
        let ghost finished = old(self)@.finished(local_types@, frame_size, frame_pointer);
        assert(self@.preamble =~= finished.preamble);
        assert(self@.code =~= finished.code);
        let inner_len = bytes_as_slice(&self.preamble).len() + bytes_as_slice(&self.code).len()
            + bytes_as_slice(&self.insert_bytes).len();
        encode_u32(&mut self.inner_length, inner_len as u32);
        assert(self@ =~= finished);
        let ghost unsorted = self@.insertions;
        insertions_sort_by_at(&mut self.insertions);
        proof {
            let sorted = self@.insertions;
            assert forall|i: int| 0 <= i < sorted.len() implies unsorted.contains(
                #[trigger] sorted[i],
            ) by {
                let at = sorted[i].at;
                let pred = |insertion: Insertion| insertion.at == at;
                sorted.lemma_filter_contains(pred, i);
                assert(insertions_at(sorted, at) == insertions_at(unsorted, at));
                lemma_filter_subset(unsorted, pred, sorted[i]);
            }
            assert(self@ =~= finished.with_insertions(sorted));
        }
    }

    /// Writes the function body to the end of `buffer`: the length, the
    /// preamble, and the code with each insertion in front of the code byte
    /// at its place. Appends the relocations to `final_relocs`, each moved
    /// to where its bytes now stand, counted from `reloc_base_offset`: the
    /// place in `buffer` where the body of the code section starts.
    pub fn serialize_with_relocs<T: SerialBuffer>(
        &self,
        buffer: &mut T,
        final_relocs: &mut ArenaVec<'a, RelocationEntry>,
        reloc_base_offset: usize,
    )
        requires
            self@.wf(),
            sorted_by_at(self@.insertions),
            reloc_base_offset <= old(buffer).bytes().len(),
            old(buffer).bytes().len() - reloc_base_offset + serialized_len(self@) <= u32::MAX,
        ensures
            final(buffer).bytes() == old(buffer).bytes() + serialized(self@),
            arena_relocations(final(final_relocs)) == arena_relocations(old(final_relocs))
                + rewritten(self@, old(buffer).bytes().len() - reloc_base_offset),
    {
        let ghost b = self@;
        let ghost before = buffer.bytes();
        let ghost relocs_before = arena_relocations(final_relocs);
        let ghost section_pos = before.len() - reloc_base_offset;
        let ghost header_len = b.inner_length.len() + b.preamble.len();
        let ghost moved = rewritten(b, section_pos);

        buffer.append_slice(bytes_as_slice(&self.inner_length));
        buffer.append_slice(bytes_as_slice(&self.preamble));

        let code = bytes_as_slice(&self.code);
        let insert_bytes = bytes_as_slice(&self.insert_bytes);
        let insertions = insertions_as_slice(&self.insertions);
        let relocations = relocations_as_slice(&self.relocations);

        let mut reloc_index: usize = 0;
        let mut code_pos: usize = 0;
        let mut k: usize = 0;
        proof {
            assert(b.insertions.take(0) =~= Seq::empty());
            assert(before + serialized(b) =~= buffer.bytes() + spliced_from(
                b.code,
                b.insert_bytes,
                b.insertions,
                0,
                0,
            ));
            assert(moved.take(0) =~= Seq::empty());
            assert(arena_relocations(final_relocs) =~= relocs_before + moved.take(0));
        }
        loop
            invariant_except_break
                before + serialized(b) == buffer.bytes() + spliced_from(
                    b.code,
                    b.insert_bytes,
                    b.insertions,
                    k as int,
                    code_pos as int,
                ),
                buffer.bytes().len() == before.len() + header_len + code_pos + inserted_len(
                    b.insertions.take(k as int),
                ),
            invariant
                b.wf(),
                sorted_by_at(b.insertions),
                code@ == b.code,
                insert_bytes@ == b.insert_bytes,
                insertions@ == b.insertions,
                relocations@ == b.relocations,
                moved == rewritten(b, section_pos),
                section_pos == before.len() - reloc_base_offset,
                header_len == b.inner_length.len() + b.preamble.len(),
                reloc_base_offset <= before.len(),
                section_pos + serialized_len(b) <= u32::MAX,
                k <= insertions@.len(),
                code_pos <= code@.len(),
                k == 0 ==> code_pos == 0,
                k > 0 ==> code_pos == insertions@[k - 1].at,
                reloc_index <= relocations@.len(),
                reloc_index < relocations@.len() ==> code_pos
                    <= relocations@[reloc_index as int].spec_offset(),
                arena_relocations(final_relocs) == relocs_before + moved.take(reloc_index as int),
            ensures
                buffer.bytes() == before + serialized(b),
                arena_relocations(final_relocs) == relocs_before + moved,
            decreases insertions@.len() - k,
        {
            let last = k >= insertions.len();
            let next_pos = if last {
                code.len()
            } else {
                insertions[k].at
            };
            proof {
                lemma_inserted_len_take(b.insertions, k as int);
                if k > 0 && !last {
                    assert(b.insertions[k - 1].at <= b.insertions[k as int].at);
                }
            }
            // A relocation counts from the start of the code section's body,
            // so it moves by all that stands there in front of its segment.
            let section_body_pos = buffer.size() - reloc_base_offset;
            let shift = (section_body_pos - code_pos) as u32;
            // The last segment takes the relocations at the end of the code too.
            while reloc_index < relocations.len() && (relocations[reloc_index].offset()
                < next_pos as u32 || (last && relocations[reloc_index].offset() == next_pos as u32))
                invariant
                    b.wf(),
                    sorted_by_at(b.insertions),
                    relocations@ == b.relocations,
                    insertions@ == b.insertions,
                    code@ == b.code,
                    moved == rewritten(b, section_pos),
                    section_pos + serialized_len(b) <= u32::MAX,
                    header_len == b.inner_length.len() + b.preamble.len(),
                    k <= insertions@.len(),
                    last == (k >= insertions@.len()),
                    last ==> next_pos == code@.len(),
                    !last ==> next_pos == insertions@[k as int].at,
                    k == 0 ==> code_pos == 0,
                    k > 0 ==> code_pos == insertions@[k - 1].at,
                    code_pos <= next_pos <= code@.len(),
                    shift == section_pos + header_len + inserted_len(b.insertions.take(k as int)),
                    inserted_len(b.insertions.take(k as int)) <= inserted_len(b.insertions),
                    reloc_index <= relocations@.len(),
                    reloc_index < relocations@.len() ==> code_pos
                        <= relocations@[reloc_index as int].spec_offset(),
                    arena_relocations(final_relocs) == relocs_before + moved.take(
                        reloc_index as int,
                    ),
                decreases relocations@.len() - reloc_index,
            {
                let entry = relocations[reloc_index];
                proof {
                    lemma_inserted_before_is_prefix(
                        b.insertions,
                        k as int,
                        entry.spec_offset() as int,
                    );
                    if reloc_index + 1 < relocations@.len() {
                        assert(b.relocations[reloc_index as int].spec_offset()
                            <= b.relocations[reloc_index + 1].spec_offset());
                    }
                }
                let moved_entry = entry.with_offset(entry.offset() + shift);
                relocations_push(final_relocs, moved_entry);
                assert(moved.take(reloc_index + 1) =~= moved.take(reloc_index as int).push(
                    moved_entry,
                ));
                reloc_index += 1;
            }
            let ghost written = buffer.bytes();
            buffer.append_slice(slice_subrange(code, code_pos, next_pos));
            if last {
                proof {
                    assert(written + spliced_from(
                        b.code,
                        b.insert_bytes,
                        b.insertions,
                        k as int,
                        code_pos as int,
                    ) =~= buffer.bytes());
                    assert(moved.take(reloc_index as int) =~= moved);
                }
                break ;
            }
            let insertion = insertions[k];
            buffer.append_slice(slice_subrange(insert_bytes, insertion.start, insertion.end));
            proof {
                assert(written + spliced_from(
                    b.code,
                    b.insert_bytes,
                    b.insertions,
                    k as int,
                    code_pos as int,
                ) =~= buffer.bytes() + spliced_from(
                    b.code,
                    b.insert_bytes,
                    b.insertions,
                    k + 1,
                    insertion.at as int,
                ));
            }
            code_pos = insertion.at;
            k += 1;
        }
    }

    /// `block`: opens a block.
    pub fn block(&mut self, ty: BlockType)
        requires
            old(self)@.wf(),
        ensures
            final(self)@ == old(self)@.enter_block(BLOCK, 0, ty.byte(), ty.has_result()),
            final(self)@.wf(),
    {
        self.inst_block(BLOCK, 0, ty);
    }

    /// `else`: starts the second branch of an `if`, with an empty stack.
    pub fn else_(&mut self)
        requires
            old(self)@.wf(),
            old(self)@.blocks.last().opcode == IF,
        ensures
            final(self)@ == old(self)@.else_(),
            final(self)@.wf(),
    {
        let n = blocks_len(&self.vm_block_stack);
        let block = blocks_get_mut(&mut self.vm_block_stack, n - 1);
        symbols_truncate(&mut block.value_stack, 0);
        assert(old(self)@.current_stack().take(0) =~= Seq::empty());
        assert(self@ =~= old(self)@.with_blocks(blocks_after_else(old(self)@.blocks)));
        self.inst(ELSE, 0, false);
        assert(self@ =~~= old(self)@.else_());
    }

    /// `end`: closes the innermost block. If the block has a result, its top
    /// operand becomes the top operand of the block around it.
    pub fn end(&mut self)
        requires
            old(self)@.wf(),
            old(self)@.blocks.len() >= 2,
            old(self)@.blocks.last().has_result ==> old(self)@.depth() > 0,
        ensures
            final(self)@ == old(self)@.end(),
            final(self)@.wf(),
    {
        self.inst_base(END, 0, false);
        assert(self@.blocks =~~= old(self)@.blocks);
        let ended_block = blocks_pop(&mut self.vm_block_stack).unwrap();
        if ended_block.has_result {
            let ended_stack = symbols_as_slice(&ended_block.value_stack);
            let result = ended_stack[ended_stack.len() - 1];
            let n = blocks_len(&self.vm_block_stack);
            let parent = blocks_get_mut(&mut self.vm_block_stack, n - 1);
            symbols_push(&mut parent.value_stack, result);
        }
        assert(self@ =~= old(self)@.end());
    }

    /// `call`: takes `n_args` operands and leaves the function's result, if it
    /// has one. The function index is written on five bytes, and a relocation
    /// points at the first of them.
    pub fn call(
        &mut self,
        function_index: u32,
        symbol_index: u32,
        n_args: usize,
        has_return_val: bool,
    )
        requires
            old(self)@.wf(),
            n_args <= old(self)@.depth(),
            old(self)@.code.len() < u32::MAX,
        ensures
            final(self)@ == old(self)@.inst(CALL, n_args as nat, has_return_val).append_code(
                padded_uleb128(function_index),
            ).relocate(
                RelocationEntry::Index {
                    type_id: IndexRelocType::FunctionIndexLeb,
                    offset: (old(self)@.code.len() + 1) as u32,
                    symbol_index,
                },
            ),
            final(self)@.wf(),
    {
        self.inst_base(CALL, n_args, has_return_val);
        let offset = bytes_as_slice(&self.code).len() as u32;
        encode_padded_u32(&mut self.code, function_index);
        relocations_push(
            &mut self.relocations,
            RelocationEntry::Index {
                type_id: IndexRelocType::FunctionIndexLeb,
                offset,
                symbol_index,
            },
        );
        assert(self@ =~= old(self)@.inst(CALL, n_args as nat, has_return_val).append_code(
            padded_uleb128(function_index),
        ).relocate(
            RelocationEntry::Index {
                type_id: IndexRelocType::FunctionIndexLeb,
                offset: (old(self)@.code.len() + 1) as u32,
                symbol_index,
            },
        ));
    }

    /// `local.get`.
    pub fn get_local(&mut self, id: LocalId)
        requires
            old(self)@.wf(),
        ensures
            final(self)@ == old(self)@.inst(GETLOCAL, 0, true).append_code(uleb128(id.0 as nat)),
            final(self)@.wf(),
    {
        self.inst_imm32(GETLOCAL, 0, true, id.0);
    }
}

} // verus!
