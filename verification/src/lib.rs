//! A function-body emitter for a WebAssembly backend.
//!
//! The [`code_builder::CodeBuilder`] mirrors the operand stack of the Wasm
//! virtual machine while instructions are appended, so that a value which is
//! consumed in order never needs a local variable, and one which is consumed
//! out of order gets a `local.set` or `local.tee` spliced in after the fact.

pub mod arena;
pub mod code_builder;
pub mod effects;
pub mod env;
pub mod header;
pub mod instructions;
pub mod leb128;
pub mod linking;
pub mod model;
pub mod opcodes;
pub mod serialize;
pub mod splice;
pub mod symbol;
pub mod validator;

use vstd::prelude::*;

verus! {

/// The global that holds the shadow-stack pointer.
pub const STACK_POINTER_GLOBAL_ID: u32 = 0;

/// Shadow-stack frames are a multiple of this many bytes.
pub const FRAME_ALIGNMENT_BYTES: i32 = 16;

/// The least multiple of `alignment_bytes` that is not below `unaligned`.
pub fn round_up_to_alignment(unaligned: i32, alignment_bytes: i32) -> (aligned: i32)
    requires
        alignment_bytes > 0,
        unaligned + alignment_bytes - 1 <= i32::MAX,
    ensures
        aligned == crate::header::round_up(unaligned as int, alignment_bytes as int),
        aligned % alignment_bytes == 0,
        unaligned <= aligned < unaligned + alignment_bytes,
{
    let remainder: i32 = if unaligned >= 0 {
        unaligned % alignment_bytes
    } else {
        let below: i32 = (-(unaligned + 1)) % alignment_bytes;
        proof {
            lemma_remainder_of_negative(unaligned as int, alignment_bytes as int);
        }
        alignment_bytes - 1 - below
    };
    proof {
        lemma_round_up_is_multiple(unaligned as int, alignment_bytes as int);
    }
    if remainder == 0 {
        unaligned
    } else {
        unaligned + (alignment_bytes - remainder)
    }
}

/// The remainder of a negative number, from that of a number that is not.
proof fn lemma_remainder_of_negative(x: int, d: int)
    requires
        x < 0,
        d > 0,
    ensures
        x % d == d - 1 - (-(x + 1)) % d,
{
    let m = -(x + 1);
    vstd::arithmetic::div_mod::lemma_fundamental_div_mod(m, d);
    let q = m / d;
    let r = m % d;
    assert(x == d * (-q - 1) + (d - 1 - r)) by (nonlinear_arith)
        requires
            m == d * q + r,
            x == -m - 1,
    ;
    vstd::arithmetic::div_mod::lemma_fundamental_div_mod_converse(x, d, -q - 1, d - 1 - r);
}

/// Rounding up gives a multiple of the alignment.
proof fn lemma_round_up_is_multiple(x: int, d: int)
    requires
        d > 0,
    ensures
        crate::header::round_up(x, d) % d == 0,
        x <= crate::header::round_up(x, d) < x + d,
{
    vstd::arithmetic::div_mod::lemma_fundamental_div_mod(x, d);
    let q = x / d;
    let r = x % d;
    if r != 0 {
        assert(x + d - r == d * (q + 1) + 0) by (nonlinear_arith)
            requires
                x == d * q + r,
        ;
        vstd::arithmetic::div_mod::lemma_fundamental_div_mod_converse(x + d - r, d, q + 1, 0);
    }
}

} // verus!
