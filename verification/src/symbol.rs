//! Identifiers of intermediate-representation values.

use vstd::prelude::*;

verus! {

/// An opaque identifier handed in by the driver. The emitter compares
/// symbols and never looks inside them.
#[derive(Clone, Copy, Debug, PartialEq, Eq, Structural, Hash)]
pub struct Symbol(pub u64);

/// The number reserved for the anonymous temporary.
pub const WASM_TMP_ID: u64 = 0xffff_ffff_ffff_ffff;

/// The symbol of an operand-stack slot that no value has been tied to yet.
pub open spec fn wasm_tmp() -> Symbol {
    Symbol(WASM_TMP_ID)
}

impl Symbol {
    /// The symbol of an operand-stack slot that no value has been tied to yet.
    pub fn wasm_tmp() -> (s: Symbol)
        ensures
            s == wasm_tmp(),
    {
        Symbol(WASM_TMP_ID)
    }
}

} // verus!
