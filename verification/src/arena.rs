//! Arena-backed vectors.
//!
//! Every buffer of the emitter lives in a `bumpalo` arena. The arena vector is
//! opaque to the verifier: this module names what each vector holds and states,
//! without proof, what each of its methods does to that content. As for the
//! vector of the standard library, running out of memory is not modelled.

use crate::code_builder::VmBlock;
use crate::linking::RelocationEntry;
use crate::model::{is_stable_sort_by_at, BlockModel, Insertion};
use crate::symbol::Symbol;
use bumpalo::collections::Vec as ArenaVec;
use bumpalo::Bump;
use vstd::prelude::*;

verus! {

/// `bumpalo::Bump`, the arena. Nothing is said of what is inside it.
#[verifier::external_type_specification]
#[verifier::external_body]
pub struct ExBump<const MIN_ALIGN: usize>(bumpalo::Bump<MIN_ALIGN>);

/// `bumpalo::collections::Vec`, a vector whose storage lies in an arena.
/// What one holds is named below, for each type of item that is kept in one.
#[verifier::external_type_specification]
#[verifier::external_body]
#[verifier::reject_recursive_types(T)]
pub struct ExArenaVec<'bump, T>(bumpalo::collections::Vec<'bump, T>);

/// The largest capacity that a vector is made with.
pub const MAX_INITIAL_CAPACITY: usize = 0x1_0000;

/// The bytes that an arena vector of bytes holds, first to last.
pub uninterp spec fn arena_bytes(v: &ArenaVec<'_, u8>) -> Seq<u8>;

/// The symbols that an arena vector of symbols holds, bottom to top.
pub uninterp spec fn arena_symbols(v: &ArenaVec<'_, Symbol>) -> Seq<Symbol>;

/// The insertions that an arena vector of insertions holds, first to last.
pub uninterp spec fn arena_insertions(v: &ArenaVec<'_, Insertion>) -> Seq<Insertion>;

/// The entries that an arena vector of relocations holds, first to last.
pub uninterp spec fn arena_relocations(v: &ArenaVec<'_, RelocationEntry>) -> Seq<RelocationEntry>;

/// The blocks that an arena vector of control blocks holds, outermost first,
/// each as its model.
pub uninterp spec fn arena_blocks(v: &ArenaVec<'_, VmBlock<'_>>) -> Seq<BlockModel>;

/// `bumpalo::collections::Vec::with_capacity_in`, for a capacity whose size in
/// bytes cannot overflow: the new vector is empty.
#[verifier::external_body]
pub(crate) fn bytes_new<'a>(capacity: usize, arena: &'a Bump) -> (v: ArenaVec<'a, u8>)
    requires
        capacity <= MAX_INITIAL_CAPACITY,
    ensures
        arena_bytes(&v) == Seq::<u8>::empty(),
{
    ArenaVec::with_capacity_in(capacity, arena)
}

/// `bumpalo::collections::Vec::push`: the byte is appended.
#[verifier::external_body]
pub(crate) fn bytes_push(v: &mut ArenaVec<'_, u8>, byte: u8)
    ensures
        arena_bytes(final(v)) == arena_bytes(old(v)).push(byte),
{
    v.push(byte)
}

/// `bumpalo::collections::Vec::as_slice`: the slice shows the whole content.
#[verifier::external_body]
pub(crate) fn bytes_as_slice<'v>(v: &'v ArenaVec<'_, u8>) -> (s: &'v [u8])
    ensures
        s@ == arena_bytes(v),
{
    v.as_slice()
}

/// `IndexMut::index_mut` of the arena vector, in an assignment: the byte at
/// `index` is replaced and no other.
#[verifier::external_body]
pub(crate) fn bytes_set(v: &mut ArenaVec<'_, u8>, index: usize, byte: u8)
    requires
        index < arena_bytes(old(v)).len(),
    ensures
        arena_bytes(final(v)) == arena_bytes(old(v)).update(index as int, byte),
{
    v[index] = byte;
}

/// `bumpalo::collections::Vec::with_capacity_in`, for a capacity whose size in
/// bytes cannot overflow: the new vector is empty.
#[verifier::external_body]
pub(crate) fn symbols_new<'a>(capacity: usize, arena: &'a Bump) -> (v: ArenaVec<'a, Symbol>)
    requires
        capacity <= MAX_INITIAL_CAPACITY,
    ensures
        arena_symbols(&v) == Seq::<Symbol>::empty(),
{
    ArenaVec::with_capacity_in(capacity, arena)
}

/// `bumpalo::collections::Vec::push`: the symbol is appended.
#[verifier::external_body]
pub(crate) fn symbols_push(v: &mut ArenaVec<'_, Symbol>, symbol: Symbol)
    ensures
        arena_symbols(final(v)) == arena_symbols(old(v)).push(symbol),
{
    v.push(symbol)
}

/// `bumpalo::collections::Vec::as_slice`: the slice shows the whole content.
#[verifier::external_body]
pub(crate) fn symbols_as_slice<'v>(v: &'v ArenaVec<'_, Symbol>) -> (s: &'v [Symbol])
    ensures
        s@ == arena_symbols(v),
{
    v.as_slice()
}

/// `IndexMut::index_mut` of the arena vector, in an assignment: the symbol at
/// `index` is replaced and no other.
#[verifier::external_body]
pub(crate) fn symbols_set(v: &mut ArenaVec<'_, Symbol>, index: usize, symbol: Symbol)
    requires
        index < arena_symbols(old(v)).len(),
    ensures
        arena_symbols(final(v)) == arena_symbols(old(v)).update(index as int, symbol),
{
    v[index] = symbol;
}

/// `bumpalo::collections::Vec::truncate`: the first `len` symbols stay; a
/// `len` beyond the end changes nothing.
#[verifier::external_body]
pub(crate) fn symbols_truncate(v: &mut ArenaVec<'_, Symbol>, len: usize)
    ensures
        arena_symbols(final(v)) == if len <= arena_symbols(old(v)).len() {
            arena_symbols(old(v)).take(len as int)
        } else {
            arena_symbols(old(v))
        },
{
    v.truncate(len)
}

/// `bumpalo::collections::Vec::remove`: the symbol at `index` is taken out and
/// returned, and those behind it move down by one.
#[verifier::external_body]
pub(crate) fn symbols_remove(v: &mut ArenaVec<'_, Symbol>, index: usize) -> (removed: Symbol)
    requires
        index < arena_symbols(old(v)).len(),
    ensures
        removed == arena_symbols(old(v))[index as int],
        arena_symbols(final(v)) == arena_symbols(old(v)).remove(index as int),
{
    v.remove(index)
}

/// `bumpalo::collections::Vec::with_capacity_in`, for a capacity whose size in
/// bytes cannot overflow: the new vector is empty.
#[verifier::external_body]
pub(crate) fn insertions_new<'a>(capacity: usize, arena: &'a Bump) -> (v: ArenaVec<'a, Insertion>)
    requires
        capacity <= MAX_INITIAL_CAPACITY,
    ensures
        arena_insertions(&v) == Seq::<Insertion>::empty(),
{
    ArenaVec::with_capacity_in(capacity, arena)
}

/// `bumpalo::collections::Vec::push`: the insertion is appended.
#[verifier::external_body]
pub(crate) fn insertions_push(v: &mut ArenaVec<'_, Insertion>, insertion: Insertion)
    ensures
        arena_insertions(final(v)) == arena_insertions(old(v)).push(insertion),
{
    v.push(insertion)
}

/// `bumpalo::collections::Vec::as_slice`: the slice shows the whole content.
#[verifier::external_body]
pub(crate) fn insertions_as_slice<'v>(v: &'v ArenaVec<'_, Insertion>) -> (s: &'v [Insertion])
    ensures
        s@ == arena_insertions(v),
{
    v.as_slice()
}

/// `slice::sort_by_key` on the content of the arena vector, with the place of
/// an insertion as its key: afterwards the places ascend, and insertions at
/// one place stand in the order in which they stood before.
#[verifier::external_body]
pub(crate) fn insertions_sort_by_at(v: &mut ArenaVec<'_, Insertion>)
    ensures
        is_stable_sort_by_at(arena_insertions(old(v)), arena_insertions(final(v))),
{
    v.sort_by_key(|insertion| insertion.at)
}

/// `bumpalo::collections::Vec::with_capacity_in`, for a capacity whose size in
/// bytes cannot overflow: the new vector is empty.
#[verifier::external_body]
pub(crate) fn relocations_new<'a>(capacity: usize, arena: &'a Bump) -> (v: ArenaVec<
    'a,
    RelocationEntry,
>)
    requires
        capacity <= MAX_INITIAL_CAPACITY,
    ensures
        arena_relocations(&v) == Seq::<RelocationEntry>::empty(),
{
    ArenaVec::with_capacity_in(capacity, arena)
}

/// `bumpalo::collections::Vec::push`: the entry is appended.
#[verifier::external_body]
pub(crate) fn relocations_push(v: &mut ArenaVec<'_, RelocationEntry>, entry: RelocationEntry)
    ensures
        arena_relocations(final(v)) == arena_relocations(old(v)).push(entry),
{
    v.push(entry)
}

/// `bumpalo::collections::Vec::as_slice`: the slice shows the whole content.
#[verifier::external_body]
pub(crate) fn relocations_as_slice<'v>(v: &'v ArenaVec<'_, RelocationEntry>) -> (s: &'v [
    RelocationEntry
])
    ensures
        s@ == arena_relocations(v),
{
    v.as_slice()
}

/// `bumpalo::collections::Vec::with_capacity_in`, for a capacity whose size in
/// bytes cannot overflow: the new vector is empty.
#[verifier::external_body]
pub(crate) fn blocks_new<'a>(capacity: usize, arena: &'a Bump) -> (v: ArenaVec<'a, VmBlock<'a>>)
    requires
        capacity <= MAX_INITIAL_CAPACITY,
    ensures
        arena_blocks(&v) == Seq::<BlockModel>::empty(),
{
    ArenaVec::with_capacity_in(capacity, arena)
}

/// `bumpalo::collections::Vec::push`: the block is appended.
#[verifier::external_body]
pub(crate) fn blocks_push<'a>(v: &mut ArenaVec<'a, VmBlock<'a>>, block: VmBlock<'a>)
    ensures
        arena_blocks(final(v)) == arena_blocks(old(v)).push(block.model()),
{
    v.push(block)
}

/// `bumpalo::collections::Vec::len`: the number of blocks held.
#[verifier::external_body]
pub(crate) fn blocks_len(v: &ArenaVec<'_, VmBlock<'_>>) -> (n: usize)
    ensures
        n == arena_blocks(v).len(),
{
    v.len()
}

/// `Index::index` of the arena vector: the block at `index`.
#[verifier::external_body]
pub(crate) fn blocks_get<'v, 'a>(v: &'v ArenaVec<'a, VmBlock<'a>>, index: usize) -> (block: &'v VmBlock<
    'a,
>)
    requires
        index < arena_blocks(v).len(),
    ensures
        block.model() == arena_blocks(v)[index as int],
{
    &v[index]
}

/// `IndexMut::index_mut` of the arena vector: the block at `index`, to be
/// changed in place; whatever it becomes, the other blocks stay.
#[verifier::external_body]
pub(crate) fn blocks_get_mut<'v, 'a>(
    v: &'v mut ArenaVec<'a, VmBlock<'a>>,
    index: usize,
) -> (block: &'v mut VmBlock<'a>)
    requires
        index < arena_blocks(old(v)).len(),
    ensures
        block.model() == arena_blocks(old(v))[index as int],
        arena_blocks(final(v)) == arena_blocks(old(v)).update(index as int, final(block).model()),
{
    &mut v[index]
}

/// `bumpalo::collections::Vec::pop`: the last block is taken off and returned,
/// or nothing happens where there is none.
#[verifier::external_body]
pub(crate) fn blocks_pop<'a>(v: &mut ArenaVec<'a, VmBlock<'a>>) -> (popped: Option<VmBlock<'a>>)
    ensures
        match popped {
            Some(block) => arena_blocks(old(v)).len() > 0 && block.model() == arena_blocks(
                old(v),
            ).last() && arena_blocks(final(v)) == arena_blocks(old(v)).drop_last(),
            None => arena_blocks(old(v)).len() == 0 && arena_blocks(final(v)) == arena_blocks(
                old(v),
            ),
        },
{
    v.pop()
}

} // verus!
