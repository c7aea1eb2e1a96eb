//! What each instruction does to the operand stack: as the emitter moves its
//! simulated stack, and as the WebAssembly specification types the
//! instruction.

use crate::opcodes::{
    BLOCK, BR, BRIF, CURRENTMEMORY, DROP, ELSE, END, F32ABS, F32ADD, F32COPYSIGN, F32SQRT, F64ABS,
    F64ADD, F64CONST, F64COPYSIGN, F64GE, F64REINTERPRETI64, F64SQRT, GETGLOBAL, GETLOCAL,
    GROWMEMORY, I32ADD, I32CLZ, I32CONST, I32EQ, I32EQZ, I32GEU, I32LOAD, I32POPCNT, I32ROTR,
    I32STORE, I32WRAPI64, I64ADD, I64CLZ, I64EQ, I64EQZ, I64LOAD32U, I64POPCNT, I64ROTR,
    I64STORE32, IF, LOOP, NOP, RETURN, SELECT, SETGLOBAL, SETLOCAL, TEELOCAL, UNREACHABLE,
};
use vstd::prelude::*;

verus! {

/// `t.load` and its narrow forms.
pub open spec fn is_load(opcode: u8) -> bool {
    I32LOAD <= opcode <= I64LOAD32U
}

/// `t.store` and its narrow forms.
pub open spec fn is_store(opcode: u8) -> bool {
    I32STORE <= opcode <= I64STORE32
}

/// `t.const`.
pub open spec fn is_const(opcode: u8) -> bool {
    I32CONST <= opcode <= F64CONST
}

/// The test operators: `i32.eqz` and `i64.eqz`.
pub open spec fn is_test(opcode: u8) -> bool {
    opcode == I32EQZ || opcode == I64EQZ
}

/// The comparison operators.
pub open spec fn is_comparison(opcode: u8) -> bool {
    I32EQ <= opcode <= I32GEU || I64EQ <= opcode <= F64GE
}

/// The unary numeric operators.
pub open spec fn is_unary(opcode: u8) -> bool {
    I32CLZ <= opcode <= I32POPCNT || I64CLZ <= opcode <= I64POPCNT || F32ABS <= opcode <= F32SQRT
        || F64ABS <= opcode <= F64SQRT
}

/// The binary numeric operators.
pub open spec fn is_binary(opcode: u8) -> bool {
    I32ADD <= opcode <= I32ROTR || I64ADD <= opcode <= I64ROTR || F32ADD <= opcode <= F32COPYSIGN
        || F64ADD <= opcode <= F64COPYSIGN
}

/// The conversions between numeric types.
pub open spec fn is_conversion(opcode: u8) -> bool {
    I32WRAPI64 <= opcode <= F64REINTERPRETI64
}

/// The instructions after which the rest of the block cannot be reached, and
/// which the specification types with any operands and any results.
pub open spec fn is_stack_polymorphic(opcode: u8) -> bool {
    opcode == UNREACHABLE || opcode == BR || opcode == RETURN
}

/// How many operands the emitter takes off its simulated stack for an
/// instruction. A `call` is not in this table: it takes its arguments.
pub open spec fn declared_pops(opcode: u8) -> nat {
    if opcode == SELECT {
        3
    } else if is_store(opcode) || is_comparison(opcode) || is_binary(opcode) {
        2
    } else if opcode == IF || opcode == BRIF || opcode == DROP || opcode == SETLOCAL || opcode
        == SETGLOBAL || opcode == GROWMEMORY || is_load(opcode) || is_test(opcode) || is_unary(
        opcode,
    ) || is_conversion(opcode) {
        1
    } else {
        0
    }
}

/// Whether the emitter puts an anonymous value on its simulated stack for an
/// instruction. `local.tee` puts none and takes none: what it leaves there is
/// the value that was there, with its symbol.
pub open spec fn declared_push(opcode: u8) -> bool {
    opcode == SELECT || opcode == GETLOCAL || opcode == GETGLOBAL || opcode == CURRENTMEMORY
        || opcode == GROWMEMORY || is_load(opcode) || is_const(opcode) || is_test(opcode)
        || is_comparison(opcode) || is_unary(opcode) || is_binary(opcode) || is_conversion(opcode)
}

/// The number of operands and of results that the WebAssembly specification
/// gives an instruction, where its opcode alone fixes them. For `if` and
/// `br_if` these are the condition and what is left where the branch is not
/// taken. There are none for a stack-polymorphic instruction, for `call`,
/// whose function type decides, and for `else` and `end`, which close a
/// block.
pub open spec fn wasm_signature(opcode: u8) -> Option<(nat, nat)> {
    if opcode == NOP || opcode == BLOCK || opcode == LOOP {
        Some((0, 0))
    } else if opcode == IF || opcode == BRIF || opcode == DROP {
        Some((1, 0))
    } else if opcode == SELECT {
        Some((3, 1))
    } else if opcode == GETLOCAL || opcode == GETGLOBAL {
        Some((0, 1))
    } else if opcode == SETLOCAL || opcode == SETGLOBAL {
        Some((1, 0))
    } else if opcode == TEELOCAL {
        Some((1, 1))
    } else if is_load(opcode) {
        Some((1, 1))
    } else if is_store(opcode) {
        Some((2, 0))
    } else if opcode == CURRENTMEMORY {
        Some((0, 1))
    } else if opcode == GROWMEMORY {
        Some((1, 1))
    } else if is_const(opcode) {
        Some((0, 1))
    } else if is_test(opcode) || is_unary(opcode) || is_conversion(opcode) {
        Some((1, 1))
    } else if is_comparison(opcode) || is_binary(opcode) {
        Some((2, 1))
    } else {
        None
    }
}

/// The number of operands in the signature of an instruction that has one.
pub open spec fn wasm_operands(opcode: u8) -> nat {
    match wasm_signature(opcode) {
        Some(signature) => signature.0,
        None => 0,
    }
}

/// The number of results in the signature of an instruction that has one.
pub open spec fn wasm_results(opcode: u8) -> nat {
    match wasm_signature(opcode) {
        Some(signature) => signature.1,
        None => 0,
    }
}

/// For every instruction that the specification gives a fixed number of
/// operands and results, the emitter's simulated stack grows by as much as
/// the specification says: results less operands.
pub proof fn lemma_declared_net_change(opcode: u8)
    requires
        wasm_signature(opcode) is Some,
    ensures
        (if declared_push(opcode) {
            1int
        } else {
            0int
        }) - declared_pops(opcode) == wasm_results(opcode) - wasm_operands(opcode),
        declared_pops(opcode) <= wasm_operands(opcode),
{
}

/// A stack-polymorphic instruction, `else` and `end` take no operand off the
/// simulated stack of the emitter and put none on it.
pub proof fn lemma_declared_untyped(opcode: u8)
    requires
        is_stack_polymorphic(opcode) || opcode == ELSE || opcode == END,
    ensures
        declared_pops(opcode) == 0,
        !declared_push(opcode),
{
}

} // verus!
