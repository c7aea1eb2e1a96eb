use bumpalo::collections::Vec as ArenaVec;
use bumpalo::Bump;
use wasm_code_builder::code_builder::{Align, BlockType, CodeBuilder, LocalId, ValueType};
use wasm_code_builder::symbol::Symbol;

/// The instruction bytes of a builder that has no locals, no frame and no
/// insertion: what follows the length and the empty declaration.
fn code_of(builder: &mut CodeBuilder) -> Vec<u8> {
    builder.build_fn_header(&[], 0, None);
    let arena = Bump::new();
    let mut buffer: Vec<u8> = Vec::new();
    let mut relocs = ArenaVec::new_in(&arena);
    let builder: &CodeBuilder = builder;
    builder.serialize_with_relocs(&mut buffer, &mut relocs, 0);
    assert_eq!(buffer[buffer.len() - 1], 0x0b);
    let header = if buffer.len() - 1 < 128 { 2 } else { 3 };
    buffer[header..buffer.len() - 1].to_vec()
}

/// Whether the innermost block has exactly `depth` anonymous operands.
fn depth_is(builder: &CodeBuilder, depth: usize) -> bool {
    let exact = vec![Symbol::wasm_tmp(); depth];
    let more = vec![Symbol::wasm_tmp(); depth + 1];
    builder.verify_stack_match(&exact) && !builder.verify_stack_match(&more)
}

#[test]
fn constants() {
    let arena = Bump::new();
    let mut builder = CodeBuilder::new(&arena);
    builder.i32_const(-1);
    builder.i32_const(64);
    builder.i32_const(i32::MIN);
    builder.i64_const(i64::MAX);
    builder.f32_const(1.0f32.to_bits());
    builder.f64_const((-2.5f64).to_bits());
    assert!(depth_is(&builder, 6));
    assert_eq!(
        code_of(&mut builder),
        vec![
            0x41, 0x7f, // i32.const -1
            0x41, 0xc0, 0x00, // i32.const 64
            0x41, 0x80, 0x80, 0x80, 0x80, 0x78, // i32.const MIN
            0x42, 0xff, 0xff, 0xff, 0xff, 0xff, 0xff, 0xff, 0xff, 0xff, 0x00, // i64.const MAX
            0x43, 0x00, 0x00, 0x80, 0x3f, // f32.const 1.0
            0x44, 0x00, 0x00, 0x00, 0x00, 0x00, 0x00, 0x04, 0xc0, // f64.const -2.5
        ]
    );
}

#[test]
fn locals_and_globals() {
    let arena = Bump::new();
    let mut builder = CodeBuilder::new(&arena);
    builder.get_local(LocalId(0));
    assert!(depth_is(&builder, 1));
    builder.tee_local(LocalId(1));
    assert!(depth_is(&builder, 1));
    builder.set_local(LocalId(300));
    assert!(depth_is(&builder, 0));
    builder.get_global(2);
    assert!(depth_is(&builder, 1));
    builder.set_global(128);
    assert!(depth_is(&builder, 0));
    assert_eq!(
        code_of(&mut builder),
        vec![0x20, 0x00, 0x22, 0x01, 0x21, 0xac, 0x02, 0x23, 0x02, 0x24, 0x80, 0x01]
    );
}

#[test]
fn tee_keeps_the_symbol_on_top() {
    let arena = Bump::new();
    let mut builder = CodeBuilder::new(&arena);
    builder.i32_const(1);
    builder.set_top_symbol(Symbol(5));
    builder.tee_local(LocalId(0));
    assert!(builder.verify_stack_match(&[Symbol(5)]));
}

#[test]
fn memory_instructions() {
    let arena = Bump::new();
    let mut builder = CodeBuilder::new(&arena);
    builder.i32_const(0);
    builder.i32_load(Align::Bytes4, 8);
    assert!(depth_is(&builder, 1));
    builder.i64_load32_u(Align::Bytes1, 300);
    assert!(depth_is(&builder, 1));
    builder.i32_const(0);
    builder.f64_store(Align::Bytes8, 0);
    assert!(depth_is(&builder, 0));
    builder.memory_size();
    assert!(depth_is(&builder, 1));
    builder.memory_grow();
    assert!(depth_is(&builder, 1));
    builder.i32_const(0);
    builder.i64_store16(Align::Bytes64, 1);
    assert!(depth_is(&builder, 0));
    assert_eq!(
        code_of(&mut builder),
        vec![
            0x41, 0x00, // i32.const 0
            0x28, 0x02, 0x08, // i32.load align=4 offset=8
            0x35, 0x00, 0xac, 0x02, // i64.load32_u align=1 offset=300
            0x41, 0x00, // i32.const 0
            0x39, 0x03, 0x00, // f64.store align=8
            0x3f, 0x00, // memory.size
            0x40, 0x00, // memory.grow
            0x41, 0x00, // i32.const 0
            0x3d, 0x06, 0x01, // i64.store16 align=64 offset=1
        ]
    );
}

#[test]
fn every_load_and_store() {
    let arena = Bump::new();
    let mut builder = CodeBuilder::new(&arena);
    builder.i32_const(0);
    builder.i32_load(Align::Bytes1, 0);
    builder.i64_load(Align::Bytes1, 0);
    builder.f32_load(Align::Bytes1, 0);
    builder.f64_load(Align::Bytes1, 0);
    builder.i32_load8_s(Align::Bytes1, 0);
    builder.i32_load8_u(Align::Bytes1, 0);
    builder.i32_load16_s(Align::Bytes1, 0);
    builder.i32_load16_u(Align::Bytes1, 0);
    builder.i64_load8_s(Align::Bytes1, 0);
    builder.i64_load8_u(Align::Bytes1, 0);
    builder.i64_load16_s(Align::Bytes1, 0);
    builder.i64_load16_u(Align::Bytes1, 0);
    builder.i64_load32_s(Align::Bytes1, 0);
    builder.i64_load32_u(Align::Bytes1, 0);
    assert!(depth_is(&builder, 1));
    for _ in 0..9 {
        builder.i32_const(0);
        builder.i32_const(0);
    }
    builder.i32_store(Align::Bytes2, 0);
    builder.i64_store(Align::Bytes2, 0);
    builder.f32_store(Align::Bytes2, 0);
    builder.f64_store(Align::Bytes2, 0);
    builder.i32_store8(Align::Bytes2, 0);
    builder.i32_store16(Align::Bytes2, 0);
    builder.i64_store8(Align::Bytes2, 0);
    builder.i64_store16(Align::Bytes2, 0);
    builder.i64_store32(Align::Bytes2, 0);
    assert!(depth_is(&builder, 1));
    let code = code_of(&mut builder);
    for (i, opcode) in (0x28u8..=0x35).enumerate() {
        assert_eq!(&code[2 + 3 * i..5 + 3 * i], &[opcode, 0x00, 0x00]);
    }
    let stores = &code[2 + 3 * 14 + 4 * 9..];
    for (i, opcode) in (0x36u8..=0x3e).enumerate() {
        assert_eq!(&stores[3 * i..3 * i + 3], &[opcode, 0x01, 0x00]);
    }
}

#[test]
fn control_instructions() {
    let arena = Bump::new();
    let mut builder = CodeBuilder::new(&arena);
    builder.block(BlockType::NoResult);
    builder.loop_(BlockType::Value(ValueType::F64));
    builder.i32_const(1);
    builder.br_if(1);
    assert!(depth_is(&builder, 0));
    builder.i32_const(1);
    builder.if_(BlockType::Value(ValueType::I64));
    builder.nop();
    builder.br(200);
    builder.unreachable_();
    builder.return_();
    assert!(depth_is(&builder, 0));
    assert_eq!(
        code_of(&mut builder),
        vec![
            0x02, 0x40, // block
            0x03, 0x7c, // loop f64
            0x41, 0x01, 0x0d, 0x01, // i32.const 1, br_if 1
            0x41, 0x01, 0x04, 0x7e, // i32.const 1, if i64
            0x01, // nop
            0x0c, 0xc8, 0x01, // br 200
            0x00, // unreachable
            0x0f, // return
        ]
    );
}

#[test]
fn drop_and_select() {
    let arena = Bump::new();
    let mut builder = CodeBuilder::new(&arena);
    builder.i32_const(1);
    builder.i32_const(2);
    builder.i32_const(3);
    builder.i32_const(4);
    builder.select();
    assert!(depth_is(&builder, 2));
    builder.drop_();
    assert!(depth_is(&builder, 1));
    let code = code_of(&mut builder);
    assert_eq!(&code[8..], &[0x1b, 0x1a]);
}

#[test]
fn unary_operators_keep_the_depth() {
    let arena = Bump::new();
    let mut builder = CodeBuilder::new(&arena);
    builder.i32_const(1);
    builder.set_top_symbol(Symbol(1));
    builder.i32_eqz();
    // The result is a new value.
    assert!(depth_is(&builder, 1));
    builder.i64_eqz();
    builder.i32_clz();
    builder.i32_ctz();
    builder.i32_popcnt();
    builder.i64_clz();
    builder.i64_ctz();
    builder.i64_popcnt();
    builder.f32_abs();
    builder.f32_neg();
    builder.f32_ceil();
    builder.f32_floor();
    builder.f32_trunc();
    builder.f32_nearest();
    builder.f32_sqrt();
    builder.f64_abs();
    builder.f64_neg();
    builder.f64_ceil();
    builder.f64_floor();
    builder.f64_trunc();
    builder.f64_nearest();
    builder.f64_sqrt();
    assert!(depth_is(&builder, 1));
    let code = code_of(&mut builder);
    assert_eq!(
        &code[2..],
        &[
            0x45, 0x50, 0x67, 0x68, 0x69, 0x79, 0x7a, 0x7b, 0x8b, 0x8c, 0x8d, 0x8e, 0x8f, 0x90,
            0x91, 0x99, 0x9a, 0x9b, 0x9c, 0x9d, 0x9e, 0x9f
        ]
    );
}

#[test]
fn conversions_keep_the_depth() {
    let arena = Bump::new();
    let mut builder = CodeBuilder::new(&arena);
    builder.i64_const(1);
    builder.i32_wrap_i64();
    builder.i32_trunc_s_f32();
    builder.i32_trunc_u_f32();
    builder.i32_trunc_s_f64();
    builder.i32_trunc_u_f64();
    builder.i64_extend_s_i32();
    builder.i64_extend_u_i32();
    builder.i64_trunc_s_f32();
    builder.i64_trunc_u_f32();
    builder.i64_trunc_s_f64();
    builder.i64_trunc_u_f64();
    builder.f32_convert_s_i32();
    builder.f32_convert_u_i32();
    builder.f32_convert_s_i64();
    builder.f32_convert_u_i64();
    builder.f32_demote_f64();
    builder.f64_convert_s_i32();
    builder.f64_convert_u_i32();
    builder.f64_convert_s_i64();
    builder.f64_convert_u_i64();
    builder.f64_promote_f32();
    builder.i32_reinterpret_f32();
    builder.i64_reinterpret_f64();
    builder.f32_reinterpret_i32();
    builder.f64_reinterpret_i64();
    assert!(depth_is(&builder, 1));
    let code = code_of(&mut builder);
    let expected: Vec<u8> = (0xa7u8..=0xbf).collect();
    assert_eq!(&code[2..], &expected[..]);
}

#[test]
fn binary_operators_take_two_and_leave_one() {
    let arena = Bump::new();
    let mut builder = CodeBuilder::new(&arena);
    let count = 10 + 10 + 6 + 6 + 15 + 15 + 7 + 7;
    for _ in 0..count + 1 {
        builder.i32_const(0);
    }
    assert!(depth_is(&builder, count + 1));
    builder.i32_eq();
    assert!(depth_is(&builder, count));
    builder.i32_ne();
    builder.i32_lt_s();
    builder.i32_lt_u();
    builder.i32_gt_s();
    builder.i32_gt_u();
    builder.i32_le_s();
    builder.i32_le_u();
    builder.i32_ge_s();
    builder.i32_ge_u();
    builder.i64_eq();
    builder.i64_ne();
    builder.i64_lt_s();
    builder.i64_lt_u();
    builder.i64_gt_s();
    builder.i64_gt_u();
    builder.i64_le_s();
    builder.i64_le_u();
    builder.i64_ge_s();
    builder.i64_ge_u();
    builder.f32_eq();
    builder.f32_ne();
    builder.f32_lt();
    builder.f32_gt();
    builder.f32_le();
    builder.f32_ge();
    builder.f64_eq();
    builder.f64_ne();
    builder.f64_lt();
    builder.f64_gt();
    builder.f64_le();
    builder.f64_ge();
    assert!(depth_is(&builder, count + 1 - 32));
    builder.i32_add();
    builder.i32_sub();
    builder.i32_mul();
    builder.i32_div_s();
    builder.i32_div_u();
    builder.i32_rem_s();
    builder.i32_rem_u();
    builder.i32_and();
    builder.i32_or();
    builder.i32_xor();
    builder.i32_shl();
    builder.i32_shr_s();
    builder.i32_shr_u();
    builder.i32_rotl();
    builder.i32_rotr();
    builder.i64_add();
    builder.i64_sub();
    builder.i64_mul();
    builder.i64_div_s();
    builder.i64_div_u();
    builder.i64_rem_s();
    builder.i64_rem_u();
    builder.i64_and();
    builder.i64_or();
    builder.i64_xor();
    builder.i64_shl();
    builder.i64_shr_s();
    builder.i64_shr_u();
    builder.i64_rotl();
    builder.i64_rotr();
    builder.f32_add();
    builder.f32_sub();
    builder.f32_mul();
    builder.f32_div();
    builder.f32_min();
    builder.f32_max();
    builder.f32_copysign();
    builder.f64_add();
    builder.f64_sub();
    builder.f64_mul();
    builder.f64_div();
    builder.f64_min();
    builder.f64_max();
    builder.f64_copysign();
    assert!(depth_is(&builder, 1));
    let code = code_of(&mut builder);
    let mut expected: Vec<u8> = Vec::new();
    expected.extend(0x46u8..=0x4f);
    expected.extend(0x51u8..=0x5a);
    expected.extend(0x5bu8..=0x66);
    expected.extend(0x6au8..=0x78);
    expected.extend(0x7cu8..=0x8a);
    expected.extend(0x92u8..=0x98);
    expected.extend(0xa0u8..=0xa6);
    assert_eq!(expected.len(), count);
    assert_eq!(&code[2 * (count + 1)..], &expected[..]);
}

#[test]
fn depth_follows_a_sequence_of_instructions() {
    let arena = Bump::new();
    let mut builder = CodeBuilder::new(&arena);
    builder.i32_const(1); // 1
    builder.i32_const(2); // 2
    builder.i32_add(); // 1
    builder.get_local(LocalId(0)); // 2
    builder.i32_lt_s(); // 1
    builder.if_(BlockType::Value(ValueType::I32)); // outer 0, inner 0
    assert!(depth_is(&builder, 0));
    builder.i32_const(3); // inner 1
    builder.i32_const(4); // inner 2
    builder.i32_mul(); // inner 1
    builder.else_(); // inner 0
    builder.i32_const(5); // inner 1
    assert!(depth_is(&builder, 1));
    builder.end(); // outer 1
    assert!(depth_is(&builder, 1));
    builder.call(0, 0, 1, true); // 1
    builder.set_global(0); // 0
    assert!(depth_is(&builder, 0));
}
