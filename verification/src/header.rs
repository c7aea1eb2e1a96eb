//! The layout of what stands in front of a function's instructions: the
//! declarations of its locals and the code that sets up its stack frame.

use crate::code_builder::{LocalId, ValueType};
use crate::leb128::{padded_uleb128, sleb128, uleb128};
use crate::model::Insertion;
use crate::opcodes::{END, GETGLOBAL, GETLOCAL, I32ADD, I32CONST, I32SUB, SETGLOBAL, TEELOCAL};
use crate::{FRAME_ALIGNMENT_BYTES, STACK_POINTER_GLOBAL_ID};
use vstd::prelude::*;

verus! {

/// A run of consecutive locals of one type.
pub struct LocalBatch {
    pub count: nat,
    pub ty: ValueType,
}

/// The locals as runs of equal types, in order: no two neighbouring runs have
/// the same type.
pub open spec fn local_batches(types: Seq<ValueType>) -> Seq<LocalBatch>
    decreases types.len(),
{
    if types.len() == 0 {
        Seq::empty()
    } else {
        let before = local_batches(types.drop_last());
        if before.len() > 0 && before.last().ty == types.last() {
            before.update(
                before.len() - 1,
                LocalBatch { count: before.last().count + 1, ty: types.last() },
            )
        } else {
            before.push(LocalBatch { count: 1, ty: types.last() })
        }
    }
}

/// The runs as bytes: for each, its length and the byte of its type.
pub open spec fn batches_bytes(batches: Seq<LocalBatch>) -> Seq<u8>
    decreases batches.len(),
{
    if batches.len() == 0 {
        Seq::empty()
    } else {
        batches_bytes(batches.drop_last()) + uleb128(batches.last().count) + seq![
            batches.last().ty.byte(),
        ]
    }
}

/// The declaration of the locals: the number of runs, then the runs. The
/// number takes one byte where it is below 128 and five otherwise.
pub open spec fn local_declarations(types: Seq<ValueType>) -> Seq<u8> {
    let batches = local_batches(types);
    if batches.len() < 128 {
        seq![batches.len() as u8] + batches_bytes(batches)
    } else {
        padded_uleb128(batches.len() as u32) + batches_bytes(batches)
    }
}

/// The least multiple of `alignment` that is not below `unaligned`.
pub open spec fn round_up(unaligned: int, alignment: int) -> int {
    if unaligned % alignment == 0 {
        unaligned
    } else {
        unaligned + alignment - unaligned % alignment
    }
}

/// The instructions that take a frame of `frame_size` bytes from the shadow
/// stack on entry and keep its address in the local `frame_pointer`.
pub open spec fn frame_push_bytes(frame_size: i32, frame_pointer: u32) -> Seq<u8> {
    seq![GETGLOBAL] + uleb128(STACK_POINTER_GLOBAL_ID as nat) + seq![I32CONST] + sleb128(
        frame_size as int,
    ) + seq![I32SUB, TEELOCAL] + uleb128(frame_pointer as nat) + seq![SETGLOBAL] + uleb128(
        STACK_POINTER_GLOBAL_ID as nat,
    )
}

/// The instructions that give the frame back on exit.
pub open spec fn frame_pop_bytes(frame_size: i32, frame_pointer: u32) -> Seq<u8> {
    seq![GETLOCAL] + uleb128(frame_pointer as nat) + seq![I32CONST] + sleb128(frame_size as int)
        + seq![I32ADD, SETGLOBAL] + uleb128(STACK_POINTER_GLOBAL_ID as nat)
}

/// The size of the frame that is taken for a request of `frame_size` bytes.
pub open spec fn aligned_frame_size(frame_size: i32) -> i32 {
    round_up(frame_size as int, FRAME_ALIGNMENT_BYTES as int) as i32
}

/// What stands in front of the instructions of a function: the declarations
/// of its locals and, if it has a frame, the code that takes it.
pub open spec fn fn_preamble(
    local_types: Seq<ValueType>,
    frame_size: i32,
    frame_pointer: Option<LocalId>,
) -> Seq<u8> {
    match frame_pointer {
        Some(id) => local_declarations(local_types) + frame_push_bytes(
            aligned_frame_size(frame_size),
            id.0,
        ),
        None => local_declarations(local_types),
    }
}

/// What stands behind the instructions of a function: if it has a frame, the
/// code that gives it back, and then `end`.
pub open spec fn fn_epilogue(frame_size: i32, frame_pointer: Option<LocalId>) -> Seq<u8> {
    match frame_pointer {
        Some(id) => frame_pop_bytes(aligned_frame_size(frame_size), id.0) + seq![END],
        None => seq![END],
    }
}

/// What is in a filtered sequence is in the sequence.
pub proof fn lemma_filter_subset(s: Seq<Insertion>, pred: spec_fn(Insertion) -> bool, x: Insertion)
    requires
        s.filter(pred).contains(x),
    ensures
        s.contains(x),
    decreases s.len(),
{
    reveal(Seq::filter);
    if s.len() > 0 {
        let rest = s.drop_last().filter(pred);
        if rest.contains(x) {
            lemma_filter_subset(s.drop_last(), pred, x);
            let j = choose|j: int| 0 <= j < s.drop_last().len() && s.drop_last()[j] == x;
            assert(s[j] == x);
        } else {
            assert(pred(s.last()));
            let i = choose|i: int| 0 <= i < s.filter(pred).len() && s.filter(pred)[i] == x;
            if i < rest.len() {
                assert(rest[i] == x);
            }
            assert(s[s.len() - 1] == x);
        }
    }
}

} // verus!
