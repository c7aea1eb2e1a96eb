use bumpalo::collections::Vec as ArenaVec;
use bumpalo::Bump;
use wasm_code_builder::code_builder::{
    Align, BlockType, CodeBuilder, LocalId, ValueType, VmSymbolState,
};
use wasm_code_builder::linking::{IndexRelocType, OffsetRelocType, RelocationEntry};
use wasm_code_builder::symbol::Symbol;

const A: Symbol = Symbol(1);
const B: Symbol = Symbol(2);
const X: Symbol = Symbol(3);

fn tmp() -> Symbol {
    Symbol::wasm_tmp()
}

/// Serializes into an empty buffer, with the code section starting at 0.
fn output(builder: &CodeBuilder) -> (Vec<u8>, Vec<RelocationEntry>) {
    output_behind(builder, Vec::new(), 0)
}

/// Serializes behind `buffer`, with the code section starting at `base`.
fn output_behind(
    builder: &CodeBuilder,
    mut buffer: Vec<u8>,
    base: usize,
) -> (Vec<u8>, Vec<RelocationEntry>) {
    let arena = Bump::new();
    let mut relocs = ArenaVec::new_in(&arena);
    builder.serialize_with_relocs(&mut buffer, &mut relocs, base);
    let moved = relocs.iter().copied().collect();
    (buffer, moved)
}

#[test]
fn a_new_builder_has_an_empty_stack() {
    let arena = Bump::new();
    let builder = CodeBuilder::new(&arena);
    assert!(builder.verify_stack_match(&[]));
    assert!(!builder.verify_stack_match(&[tmp()]));
}

#[test]
fn value_on_top_needs_no_local() {
    let arena = Bump::new();
    let mut builder = CodeBuilder::new(&arena);
    builder.i32_const(3);
    let state = builder.set_top_symbol(A);
    assert_eq!(state, VmSymbolState::Pushed { pushed_at: 2 });

    let next = builder.load_symbol(A, state, LocalId(0));
    assert_eq!(next, Some(VmSymbolState::Popped { pushed_at: 2 }));

    builder.build_fn_header(&[], 0, None);
    let (bytes, relocs) = output(&builder);
    assert_eq!(bytes, vec![0x04, 0x00, 0x41, 0x03, 0x0b]);
    assert!(relocs.is_empty());
}

#[test]
fn value_beneath_the_top_is_set_to_a_local() {
    let arena = Bump::new();
    let mut builder = CodeBuilder::new(&arena);
    builder.i32_const(3);
    let state_a = builder.set_top_symbol(A);
    builder.i32_const(4);
    let state_b = builder.set_top_symbol(B);
    assert_eq!(state_a, VmSymbolState::Pushed { pushed_at: 2 });
    assert_eq!(state_b, VmSymbolState::Pushed { pushed_at: 4 });
    assert!(builder.verify_stack_match(&[A, B]));

    // A lies beneath B: it is taken off the stack and read back from a local.
    assert_eq!(builder.load_symbol(A, state_a, LocalId(0)), None);
    assert!(builder.verify_stack_match(&[B, A]));
    assert_eq!(builder.load_symbol(B, state_b, LocalId(1)), None);
    assert!(builder.verify_stack_match(&[A, B]));
    assert!(!builder.verify_stack_match(&[B, A, B]));

    builder.i32_add();
    assert!(builder.verify_stack_match(&[tmp()]));
    builder.build_fn_header(&[ValueType::I32, ValueType::I32], 0, None);

    let (bytes, _) = output(&builder);
    assert_eq!(
        bytes,
        vec![
            0x11, // length of what follows
            0x01, 0x02, 0x7f, // one run of two i32 locals
            0x41, 0x03, // i32.const 3
            0x21, 0x00, // inserted: local.set 0
            0x41, 0x04, // i32.const 4
            0x21, 0x01, // inserted: local.set 1
            0x20, 0x00, // local.get 0
            0x20, 0x01, // local.get 1
            0x6a, // i32.add
            0x0b, // end
        ]
    );
}

#[test]
fn stack_frame_prologue_and_epilogue() {
    let arena = Bump::new();
    let mut builder = CodeBuilder::new(&arena);
    builder.build_fn_header(
        &[ValueType::I32, ValueType::I32, ValueType::I64],
        32,
        Some(LocalId(0)),
    );
    let (bytes, _) = output(&builder);
    assert_eq!(
        bytes,
        vec![
            0x16, // length of what follows
            0x02, // two runs of locals
            0x02, 0x7f, // two i32
            0x01, 0x7e, // one i64
            0x23, 0x00, // global.get SP
            0x41, 0x20, // i32.const 32
            0x6b, // i32.sub
            0x22, 0x00, // local.tee 0
            0x24, 0x00, // global.set SP
            0x20, 0x00, // local.get 0
            0x41, 0x20, // i32.const 32
            0x6a, // i32.add
            0x24, 0x00, // global.set SP
            0x0b, // end
        ]
    );
}

#[test]
fn frame_size_is_rounded_up_to_the_alignment() {
    let arena = Bump::new();
    let mut rounded = CodeBuilder::new(&arena);
    rounded.build_fn_header(&[], 20, Some(LocalId(2)));
    let mut exact = CodeBuilder::new(&arena);
    exact.build_fn_header(&[], 32, Some(LocalId(2)));
    assert_eq!(output(&rounded), output(&exact));

    let mut larger = CodeBuilder::new(&arena);
    larger.build_fn_header(&[], 33, Some(LocalId(2)));
    let (bytes, _) = output(&larger);
    // 48 needs no second byte; 64 would.
    assert_eq!(
        bytes,
        vec![
            0x12, 0x00, 0x23, 0x00, 0x41, 0x30, 0x6b, 0x22, 0x02, 0x24, 0x00, 0x20, 0x02, 0x41,
            0x30, 0x6a, 0x24, 0x00, 0x0b
        ]
    );
}

#[test]
fn the_frame_code_leaves_the_stack_as_it_was() {
    let arena = Bump::new();
    let mut builder = CodeBuilder::new(&arena);
    builder.i32_const(1);
    builder.set_top_symbol(A);
    builder.build_fn_header(&[], 16, Some(LocalId(0)));
    assert!(builder.verify_stack_match(&[A]));
    assert!(!builder.verify_stack_match(&[tmp(), A]));
}

#[test]
fn no_frame_pointer_means_no_frame_code() {
    let arena = Bump::new();
    let mut builder = CodeBuilder::new(&arena);
    builder.nop();
    builder.build_fn_header(&[ValueType::F64], 1000, None);
    let (bytes, _) = output(&builder);
    assert_eq!(bytes, vec![0x05, 0x01, 0x01, 0x7c, 0x01, 0x0b]);
}

#[test]
fn insertion_is_spliced_in_and_moves_the_relocation() {
    let arena = Bump::new();
    let mut builder = CodeBuilder::new(&arena);
    builder.i32_const(1);
    builder.nop();
    builder.nop();
    let state = builder.set_top_symbol(X);
    assert_eq!(state, VmSymbolState::Pushed { pushed_at: 4 });
    builder.i32_const(2);
    builder.insert_memory_relocation(77);
    assert_eq!(builder.load_symbol(X, state, LocalId(133)), None);
    builder.build_fn_header(&[], 0, None);

    let code = [0x41, 0x01, 0x01, 0x01, 0x41, 0x02, 0x20, 0x85, 0x01, 0x0b];
    let inserted = [0x21, 0x85, 0x01];
    let mut expected = vec![0x0e, 0x00];
    expected.extend_from_slice(&code[0..4]);
    expected.extend_from_slice(&inserted);
    expected.extend_from_slice(&code[4..10]);

    let (bytes, relocs) = output(&builder);
    assert_eq!(bytes, expected);
    // Moved by the length, the preamble and the three inserted bytes.
    assert_eq!(
        relocs,
        vec![RelocationEntry::Offset {
            type_id: OffsetRelocType::MemoryAddrLeb,
            offset: 1 + 1 + 3 + 6,
            symbol_index: 77,
            addend: 0,
        }]
    );
    assert_eq!(bytes[11], code[6]);
}

#[test]
fn second_use_of_a_value_inserts_a_tee() {
    let arena = Bump::new();
    let mut builder = CodeBuilder::new(&arena);
    builder.i32_const(5);
    let pushed = builder.set_top_symbol(X);
    let popped = builder.load_symbol(X, pushed, LocalId(3));
    assert_eq!(popped, Some(VmSymbolState::Popped { pushed_at: 2 }));
    builder.drop_();
    assert!(builder.verify_stack_match(&[]));

    assert_eq!(builder.load_symbol(X, popped.unwrap(), LocalId(3)), None);
    assert!(builder.verify_stack_match(&[X]));
    assert!(!builder.verify_stack_match(&[tmp()]));

    builder.build_fn_header(&[ValueType::I32], 0, None);
    let (bytes, _) = output(&builder);
    assert_eq!(
        bytes,
        vec![
            0x0b, // length of what follows
            0x01, 0x01, 0x7f, // one i32 local
            0x41, 0x05, // i32.const 5
            0x22, 0x03, // inserted: local.tee 3
            0x1a, // drop
            0x20, 0x03, // local.get 3
            0x0b, // end
        ]
    );
}

#[test]
fn block_result_moves_to_the_parent() {
    let arena = Bump::new();
    let mut builder = CodeBuilder::new(&arena);
    builder.block(BlockType::Value(ValueType::I32));
    assert!(builder.verify_stack_match(&[]));
    builder.i32_const(7);
    builder.end();
    assert!(builder.verify_stack_match(&[tmp()]));
    assert!(!builder.verify_stack_match(&[tmp(), tmp()]));
    builder.drop_();
    assert!(builder.verify_stack_match(&[]));
    assert!(!builder.verify_stack_match(&[tmp()]));

    builder.build_fn_header(&[], 0, None);
    let (bytes, _) = output(&builder);
    assert_eq!(bytes, vec![0x08, 0x00, 0x02, 0x7f, 0x41, 0x07, 0x0b, 0x1a, 0x0b]);
}

#[test]
fn block_result_keeps_its_symbol() {
    let arena = Bump::new();
    let mut builder = CodeBuilder::new(&arena);
    builder.i64_const(1);
    builder.set_top_symbol(A);
    builder.loop_(BlockType::Value(ValueType::I64));
    builder.i64_const(2);
    builder.i64_const(3);
    builder.set_top_symbol(B);
    builder.end();
    assert!(builder.verify_stack_match(&[A, B]));
}

#[test]
fn block_without_result_hands_nothing_on() {
    let arena = Bump::new();
    let mut builder = CodeBuilder::new(&arena);
    builder.i32_const(1);
    builder.if_(BlockType::NoResult);
    assert!(builder.verify_stack_match(&[]));
    builder.i32_const(2);
    builder.end();
    assert!(builder.verify_stack_match(&[]));
    assert!(!builder.verify_stack_match(&[tmp()]));
}

#[test]
fn child_block_does_not_see_the_parent_stack() {
    let arena = Bump::new();
    let mut builder = CodeBuilder::new(&arena);
    builder.i32_const(1);
    builder.set_top_symbol(A);
    builder.block(BlockType::NoResult);
    assert!(!builder.verify_stack_match(&[A]));
    builder.end();
    assert!(builder.verify_stack_match(&[A]));
}

#[test]
fn else_clears_the_stack_of_the_block() {
    let arena = Bump::new();
    let mut builder = CodeBuilder::new(&arena);
    builder.i32_const(1);
    builder.if_(BlockType::Value(ValueType::I32));
    builder.i32_const(10);
    assert!(builder.verify_stack_match(&[tmp()]));
    builder.else_();
    assert!(builder.verify_stack_match(&[]));
    assert!(!builder.verify_stack_match(&[tmp()]));
    builder.i32_const(20);
    builder.end();
    assert!(builder.verify_stack_match(&[tmp()]));

    builder.build_fn_header(&[], 0, None);
    let (bytes, _) = output(&builder);
    assert_eq!(
        bytes,
        vec![0x0c, 0x00, 0x41, 0x01, 0x04, 0x7f, 0x41, 0x0a, 0x05, 0x41, 0x14, 0x0b, 0x0b]
    );
}

#[test]
fn call_writes_a_padded_index_and_a_relocation() {
    let arena = Bump::new();
    let mut builder = CodeBuilder::new(&arena);
    builder.call(1, 7, 0, false);
    assert!(builder.verify_stack_match(&[]));
    builder.build_fn_header(&[], 0, None);
    let (bytes, relocs) = output(&builder);
    assert_eq!(bytes, vec![0x08, 0x00, 0x10, 0x81, 0x80, 0x80, 0x80, 0x00, 0x0b]);
    assert_eq!(
        relocs,
        vec![RelocationEntry::Index {
            type_id: IndexRelocType::FunctionIndexLeb,
            offset: 3,
            symbol_index: 7,
        }]
    );
    assert_eq!(&bytes[3..8], &[0x81, 0x80, 0x80, 0x80, 0x00]);
}

#[test]
fn call_takes_its_arguments_and_leaves_its_result() {
    let arena = Bump::new();
    let mut builder = CodeBuilder::new(&arena);
    builder.i32_const(1);
    builder.set_top_symbol(A);
    builder.i32_const(2);
    builder.i32_const(3);
    builder.call(0x1234_5678, 0, 2, true);
    assert!(builder.verify_stack_match(&[A, tmp()]));
    builder.call(0, 1, 2, false);
    assert!(builder.verify_stack_match(&[]));

    builder.build_fn_header(&[], 0, None);
    let (bytes, relocs) = output(&builder);
    // 0x12345678 on five bytes
    assert_eq!(&bytes[9..14], &[0xf8, 0xac, 0xd1, 0x91, 0x01]);
    assert_eq!(relocs.len(), 2);
    assert_eq!(relocs[0].offset(), 9);
    assert_eq!(relocs[1].offset(), 15);
    assert_eq!(&bytes[15..20], &[0x80, 0x80, 0x80, 0x80, 0x00]);
}

#[test]
fn value_dropped_by_a_block_exit_gets_a_tee() {
    let arena = Bump::new();
    let mut builder = CodeBuilder::new(&arena);
    builder.block(BlockType::NoResult);
    builder.i32_const(9);
    let state = builder.set_top_symbol(X);
    assert_eq!(state, VmSymbolState::Pushed { pushed_at: 4 });
    builder.end();

    // X is on no stack any more.
    assert_eq!(builder.load_symbol(X, state, LocalId(0)), None);
    assert!(builder.verify_stack_match(&[X]));
    builder.build_fn_header(&[ValueType::I32], 0, None);
    let (bytes, _) = output(&builder);
    assert_eq!(
        bytes,
        vec![
            0x0d, 0x01, 0x01, 0x7f, // length and locals
            0x02, 0x40, // block
            0x41, 0x09, // i32.const 9
            0x22, 0x00, // inserted: local.tee 0
            0x0b, // end
            0x20, 0x00, // local.get 0
            0x0b, // end
        ]
    );
}

#[test]
fn value_in_an_outer_block_is_taken_off_there() {
    let arena = Bump::new();
    let mut builder = CodeBuilder::new(&arena);
    builder.i32_const(1);
    let state = builder.set_top_symbol(X);
    builder.block(BlockType::NoResult);
    assert_eq!(builder.load_symbol(X, state, LocalId(4)), None);
    assert!(builder.verify_stack_match(&[X]));
    builder.drop_();
    builder.end();
    // The outer block no longer holds it.
    assert!(builder.verify_stack_match(&[]));
    assert!(!builder.verify_stack_match(&[X]));

    builder.build_fn_header(&[], 0, None);
    let (bytes, _) = output(&builder);
    assert_eq!(
        bytes,
        vec![0x0c, 0x00, 0x41, 0x01, 0x21, 0x04, 0x02, 0x40, 0x20, 0x04, 0x1a, 0x0b, 0x0b]
    );
}

#[test]
fn only_the_lowest_occurrence_is_taken_off() {
    let arena = Bump::new();
    let mut builder = CodeBuilder::new(&arena);
    builder.i32_const(1);
    let state = builder.set_top_symbol(X);
    builder.i32_const(2);
    builder.set_top_symbol(A);
    builder.i32_const(3);
    builder.set_top_symbol(X);
    builder.i32_const(4);
    builder.set_top_symbol(B);
    assert_eq!(builder.load_symbol(X, state, LocalId(0)), None);
    assert!(builder.verify_stack_match(&[A, X, B, X]));
}

#[test]
fn insertions_are_sorted_by_place_and_keep_their_order_at_one_place() {
    let arena = Bump::new();
    let mut builder = CodeBuilder::new(&arena);
    builder.i32_const(1);
    builder.i32_const(2);
    builder.drop_();
    builder.drop_();
    // Made for the later place first, then twice for the earlier one.
    let late = VmSymbolState::Popped { pushed_at: 4 };
    let early = VmSymbolState::Popped { pushed_at: 2 };
    assert_eq!(builder.load_symbol(B, late, LocalId(9)), None);
    assert_eq!(builder.load_symbol(A, early, LocalId(7)), None);
    assert_eq!(builder.load_symbol(A, early, LocalId(8)), None);
    builder.build_fn_header(&[], 0, None);
    let (bytes, _) = output(&builder);
    assert_eq!(
        bytes,
        vec![
            0x14, 0x00, // length, no locals
            0x41, 0x01, // i32.const 1
            0x22, 0x07, 0x22, 0x08, // inserted at 2, in the order made
            0x41, 0x02, // i32.const 2
            0x22, 0x09, // inserted at 4
            0x1a, 0x1a, // drop, drop
            0x20, 0x09, 0x20, 0x07, 0x20, 0x08, // local.get 9, 7, 8
            0x0b, // end
        ]
    );
}

#[test]
fn insertion_at_the_start_and_at_the_end_of_the_code() {
    let arena = Bump::new();
    let mut builder = CodeBuilder::new(&arena);
    builder.nop();
    builder.load_symbol(A, VmSymbolState::Popped { pushed_at: 0 }, LocalId(1));
    // code is now: nop, local.get 1
    builder.load_symbol(B, VmSymbolState::Popped { pushed_at: 3 }, LocalId(2));
    builder.build_fn_header(&[], 0, None);
    let (bytes, _) = output(&builder);
    assert_eq!(
        bytes,
        vec![
            0x0b, 0x00, // length, no locals
            0x22, 0x01, // inserted at 0
            0x01, 0x20, 0x01, // nop, local.get 1
            0x22, 0x02, // inserted at 3
            0x20, 0x02, // local.get 2
            0x0b, // end
        ]
    );
}

#[test]
fn relocations_count_from_the_start_of_the_code_section() {
    let arena = Bump::new();
    let mut builder = CodeBuilder::new(&arena);
    builder.i32_const(0);
    builder.insert_memory_relocation(5);
    builder.i32_load(Align::Bytes4, 0);
    builder.call(3, 6, 1, false);
    builder.build_fn_header(&[], 0, None);

    // Ten bytes are in the buffer already; the code section starts at the fourth.
    let (bytes, relocs) = output_behind(&builder, vec![0xaa; 10], 4);
    assert_eq!(bytes.len(), 10 + 14);
    assert_eq!(
        relocs,
        vec![
            RelocationEntry::Offset {
                type_id: OffsetRelocType::MemoryAddrLeb,
                offset: 6 + 1 + 1 + 2,
                symbol_index: 5,
                addend: 0,
            },
            RelocationEntry::Index {
                type_id: IndexRelocType::FunctionIndexLeb,
                offset: 6 + 1 + 1 + 6,
                symbol_index: 6,
            },
        ]
    );
    // Each points at the byte it was made for.
    assert_eq!(bytes[4 + 10], 0x28);
    assert_eq!(&bytes[4 + 14..4 + 19], &[0x83, 0x80, 0x80, 0x80, 0x00]);
}

#[test]
fn relocation_is_moved_by_the_insertions_in_front_of_it_only() {
    let arena = Bump::new();
    let mut builder = CodeBuilder::new(&arena);
    builder.i32_const(1);
    builder.drop_();
    builder.call(0, 1, 0, false); // index at 4
    builder.nop();
    builder.call(0, 2, 0, false); // index at 11
    builder.load_symbol(A, VmSymbolState::Popped { pushed_at: 4 }, LocalId(0));
    builder.load_symbol(A, VmSymbolState::Popped { pushed_at: 9 }, LocalId(1));
    builder.load_symbol(A, VmSymbolState::Popped { pushed_at: 16 }, LocalId(2));
    builder.build_fn_header(&[], 0, None);
    let (bytes, relocs) = output(&builder);
    assert_eq!(relocs.len(), 2);
    // An insertion at the place of a relocation stands in front of it.
    assert_eq!(relocs[0].offset(), 2 + 2 + 4);
    assert_eq!(relocs[1].offset(), 2 + 4 + 11);
    assert_eq!(bytes[relocs[0].offset() as usize], 0x80);
    assert_eq!(bytes[relocs[0].offset() as usize - 1], 0x00);
    assert_eq!(bytes[relocs[0].offset() as usize - 2], 0x22);
    assert_eq!(bytes[relocs[0].offset() as usize - 3], 0x10);
    assert_eq!(bytes[relocs[1].offset() as usize - 1], 0x10);
}

#[test]
fn relocation_at_the_end_of_the_code_is_kept() {
    let arena = Bump::new();
    let mut builder = CodeBuilder::new(&arena);
    builder.nop();
    builder.build_fn_header(&[], 0, None);
    builder.insert_memory_relocation(1);
    let (_, relocs) = output(&builder);
    assert_eq!(relocs.len(), 1);
    assert_eq!(relocs[0].offset(), 2 + 2);
}

#[test]
fn serializing_twice_gives_the_same() {
    let arena = Bump::new();
    let mut builder = CodeBuilder::new(&arena);
    builder.i32_const(1);
    let state = builder.set_top_symbol(A);
    builder.i32_const(2);
    builder.call(9, 9, 1, true);
    builder.load_symbol(A, state, LocalId(0));
    builder.build_fn_header(&[ValueType::I32], 8, Some(LocalId(1)));
    let first = output_behind(&builder, vec![1, 2, 3], 1);
    let second = output_behind(&builder, vec![1, 2, 3], 1);
    assert_eq!(first, second);
    assert_eq!(&first.0[0..3], &[1, 2, 3]);
}

#[test]
fn serializing_appends_to_the_relocations_that_are_there() {
    let arena = Bump::new();
    let mut builder = CodeBuilder::new(&arena);
    builder.call(0, 1, 0, false);
    builder.build_fn_header(&[], 0, None);
    let mut buffer = Vec::new();
    let mut relocs = ArenaVec::new_in(&arena);
    builder.serialize_with_relocs(&mut buffer, &mut relocs, 0);
    let len = buffer.len();
    builder.serialize_with_relocs(&mut buffer, &mut relocs, 0);
    assert_eq!(buffer.len(), 2 * len);
    assert_eq!(&buffer[..len], &buffer[len..]);
    assert_eq!(relocs.len(), 2);
    assert_eq!(relocs[0].offset(), 3);
    assert_eq!(relocs[1].offset(), len as u32 + 3);
}

#[test]
fn serializing_into_an_arena_buffer() {
    let arena = Bump::new();
    let mut builder = CodeBuilder::new(&arena);
    builder.i32_const(-1);
    builder.build_fn_header(&[], 0, None);
    let mut buffer: ArenaVec<u8> = ArenaVec::new_in(&arena);
    let mut relocs = ArenaVec::new_in(&arena);
    builder.serialize_with_relocs(&mut buffer, &mut relocs, 0);
    assert_eq!(buffer.as_slice(), &[0x04, 0x00, 0x41, 0x7f, 0x0b]);
}

#[test]
fn stack_match_looks_at_the_top_only() {
    let arena = Bump::new();
    let mut builder = CodeBuilder::new(&arena);
    builder.i32_const(1);
    builder.set_top_symbol(A);
    builder.i32_const(2);
    builder.set_top_symbol(B);
    builder.i32_const(3);
    assert!(builder.verify_stack_match(&[]));
    assert!(builder.verify_stack_match(&[tmp()]));
    assert!(builder.verify_stack_match(&[B, tmp()]));
    assert!(builder.verify_stack_match(&[A, B, tmp()]));
    assert!(!builder.verify_stack_match(&[A, tmp()]));
    assert!(!builder.verify_stack_match(&[A, B]));
    assert!(!builder.verify_stack_match(&[X, A, B, tmp()]));
}

#[test]
fn local_declarations_run_length() {
    let arena = Bump::new();
    let mut builder = CodeBuilder::new(&arena);
    builder.build_fn_header(
        &[
            ValueType::I32,
            ValueType::I64,
            ValueType::I64,
            ValueType::I32,
            ValueType::F32,
            ValueType::F64,
            ValueType::F64,
            ValueType::F64,
        ],
        0,
        None,
    );
    let (bytes, _) = output(&builder);
    assert_eq!(
        bytes,
        vec![
            0x0c, 0x05, 0x01, 0x7f, 0x02, 0x7e, 0x01, 0x7f, 0x01, 0x7d, 0x03, 0x7c, 0x0b
        ]
    );
}

#[test]
fn long_run_of_locals_has_a_two_byte_count() {
    let arena = Bump::new();
    let mut builder = CodeBuilder::new(&arena);
    let types = vec![ValueType::I64; 300];
    builder.build_fn_header(&types, 0, None);
    let (bytes, _) = output(&builder);
    assert_eq!(bytes, vec![0x05, 0x01, 0xac, 0x02, 0x7e, 0x0b]);
}

fn alternating(n: usize) -> Vec<ValueType> {
    let mut types = Vec::new();
    for i in 0..n {
        types.push(if i % 2 == 0 { ValueType::I32 } else { ValueType::F32 });
    }
    types
}

#[test]
fn count_of_127_runs_takes_one_byte() {
    let arena = Bump::new();
    let mut builder = CodeBuilder::new(&arena);
    builder.build_fn_header(&alternating(127), 0, None);
    let (bytes, _) = output(&builder);
    // 1 + 2 * 127 + 1 = 256 bytes follow the length
    assert_eq!(&bytes[0..2], &[0x80, 0x02]);
    assert_eq!(bytes[2], 127);
    assert_eq!(&bytes[3..7], &[0x01, 0x7f, 0x01, 0x7d]);
    assert_eq!(bytes.len(), 2 + 256);
    assert_eq!(&bytes[bytes.len() - 3..], &[0x01, 0x7f, 0x0b]);
}

#[test]
fn count_of_128_runs_takes_five_bytes() {
    let arena = Bump::new();
    let mut builder = CodeBuilder::new(&arena);
    builder.build_fn_header(&alternating(128), 0, None);
    let (bytes, _) = output(&builder);
    // 5 + 2 * 128 + 1 = 262 bytes follow the length
    assert_eq!(&bytes[0..2], &[0x86, 0x02]);
    assert_eq!(&bytes[2..7], &[0x80, 0x81, 0x80, 0x80, 0x00]);
    assert_eq!(&bytes[7..11], &[0x01, 0x7f, 0x01, 0x7d]);
    assert_eq!(bytes.len(), 2 + 262);
    assert_eq!(&bytes[bytes.len() - 3..], &[0x01, 0x7d, 0x0b]);
    for i in 0..128 {
        assert_eq!(bytes[7 + 2 * i], 0x01);
        assert_eq!(bytes[8 + 2 * i], if i % 2 == 0 { 0x7f } else { 0x7d });
    }
}

#[test]
fn count_of_200_runs() {
    let arena = Bump::new();
    let mut builder = CodeBuilder::new(&arena);
    builder.build_fn_header(&alternating(200), 0, None);
    let (bytes, _) = output(&builder);
    assert_eq!(&bytes[2..7], &[0xc8, 0x81, 0x80, 0x80, 0x00]);
    assert_eq!(bytes.len(), 2 + 5 + 400 + 1);
}

#[test]
fn code_ends_with_end() {
    let arena = Bump::new();
    let mut builder = CodeBuilder::new(&arena);
    builder.i32_const(1);
    builder.return_();
    builder.build_fn_header(&[], 0, None);
    let (bytes, _) = output(&builder);
    assert_eq!(bytes.last(), Some(&0x0b));
}
