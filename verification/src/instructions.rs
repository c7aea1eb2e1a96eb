//! One method for each instruction, in the order of the binary format.

use crate::code_builder::{Align, BlockType, CodeBuilder, LocalId};
use crate::leb128::{le_bytes, sleb128, uleb128};
use crate::opcodes::{
    BR, BRIF, CURRENTMEMORY, DROP, F32ABS, F32ADD, F32CEIL, F32CONST, F32CONVERTSI32,
    F32CONVERTSI64, F32CONVERTUI32, F32CONVERTUI64, F32COPYSIGN, F32DEMOTEF64, F32DIV, F32EQ,
    F32FLOOR, F32GE, F32GT, F32LE, F32LOAD, F32LT, F32MAX, F32MIN, F32MUL, F32NE, F32NEAREST,
    F32NEG, F32REINTERPRETI32, F32SQRT, F32STORE, F32SUB, F32TRUNC, F64ABS, F64ADD, F64CEIL,
    F64CONST, F64CONVERTSI32, F64CONVERTSI64, F64CONVERTUI32, F64CONVERTUI64, F64COPYSIGN,
    F64DIV, F64EQ, F64FLOOR, F64GE, F64GT, F64LE, F64LOAD, F64LT, F64MAX, F64MIN, F64MUL, F64NE,
    F64NEAREST, F64NEG, F64PROMOTEF32, F64REINTERPRETI64, F64SQRT, F64STORE, F64SUB, F64TRUNC,
    GETGLOBAL, GROWMEMORY, I32ADD, I32AND, I32CLZ, I32CONST, I32CTZ, I32DIVS, I32DIVU, I32EQ,
    I32EQZ, I32GES, I32GEU, I32GTS, I32GTU, I32LES, I32LEU, I32LOAD, I32LOAD16S, I32LOAD16U,
    I32LOAD8S, I32LOAD8U, I32LTS, I32LTU, I32MUL, I32NE, I32OR, I32POPCNT, I32REINTERPRETF32,
    I32REMS, I32REMU, I32ROTL, I32ROTR, I32SHL, I32SHRS, I32SHRU, I32STORE, I32STORE16,
    I32STORE8, I32SUB, I32TRUNCSF32, I32TRUNCSF64, I32TRUNCUF32, I32TRUNCUF64, I32WRAPI64,
    I32XOR, I64ADD, I64AND, I64CLZ, I64CONST, I64CTZ, I64DIVS, I64DIVU, I64EQ, I64EQZ,
    I64EXTENDSI32, I64EXTENDUI32, I64GES, I64GEU, I64GTS, I64GTU, I64LES, I64LEU, I64LOAD,
    I64LOAD16S, I64LOAD16U, I64LOAD32S, I64LOAD32U, I64LOAD8S, I64LOAD8U, I64LTS, I64LTU,
    I64MUL, I64NE, I64OR, I64POPCNT, I64REINTERPRETF64, I64REMS, I64REMU, I64ROTL, I64ROTR,
    I64SHL, I64SHRS, I64SHRU, I64STORE, I64STORE16, I64STORE32, I64STORE8, I64SUB, I64TRUNCSF32,
    I64TRUNCSF64, I64TRUNCUF32, I64TRUNCUF64, I64XOR, IF, LOOP, NOP, RETURN, SELECT, SETGLOBAL,
    SETLOCAL, TEELOCAL, UNREACHABLE,
};
use vstd::prelude::*;

verus! {

impl<'a> CodeBuilder<'a> {
    /// `unreachable`.
    pub fn unreachable_(&mut self)
        requires
            old(self)@.admits(UNREACHABLE),
        ensures
            final(self)@ == old(self)@.emit(UNREACHABLE),
            final(self)@.wf(),
    {
        self.inst(UNREACHABLE, 0, false);
    }

    /// `nop`.
    pub fn nop(&mut self)
        requires
            old(self)@.admits(NOP),
        ensures
            final(self)@ == old(self)@.emit(NOP),
            final(self)@.wf(),
    {
        self.inst(NOP, 0, false);
    }

    /// `loop`: opens a block whose label stands at its start.
    pub fn loop_(&mut self, ty: BlockType)
        requires
            old(self)@.wf(),
        ensures
            final(self)@ == old(self)@.enter_block(LOOP, 0, ty.byte(), ty.has_result()),
            final(self)@.wf(),
    {
        self.inst_block(LOOP, 0, ty);
    }

    /// `if`: takes the condition and opens a block.
    pub fn if_(&mut self, ty: BlockType)
        requires
            old(self)@.wf(),
            old(self)@.depth() >= 1,
        ensures
            final(self)@ == old(self)@.enter_block(IF, 1, ty.byte(), ty.has_result()),
            final(self)@.wf(),
    {
        self.inst_block(IF, 1, ty);
    }

    /// `br`, to the block `levels` out from the innermost.
    pub fn br(&mut self, levels: u32)
        requires
            old(self)@.admits(BR),
        ensures
            final(self)@ == old(self)@.emit(BR).append_code(uleb128(levels as nat)),
            final(self)@.wf(),
    {
        self.inst_imm32(BR, 0, false, levels);
    }

    /// `br_if`, to the block `levels` out from the innermost. The simulated
    /// stack is that of the path on which the branch is not taken: the
    /// condition goes and nothing else.
    pub fn br_if(&mut self, levels: u32)
        requires
            old(self)@.admits(BRIF),
        ensures
            final(self)@ == old(self)@.emit(BRIF).append_code(uleb128(levels as nat)),
            final(self)@.wf(),
    {
        self.inst_imm32(BRIF, 1, false, levels);
    }

    /// `return`.
    pub fn return_(&mut self)
        requires
            old(self)@.admits(RETURN),
        ensures
            final(self)@ == old(self)@.emit(RETURN),
            final(self)@.wf(),
    {
        self.inst(RETURN, 0, false);
    }

    /// `drop`.
    pub fn drop_(&mut self)
        requires
            old(self)@.admits(DROP),
        ensures
            final(self)@ == old(self)@.emit(DROP),
            final(self)@.wf(),
    {
        self.inst(DROP, 1, false);
    }

    /// `select`.
    pub fn select(&mut self)
        requires
            old(self)@.admits(SELECT),
        ensures
            final(self)@ == old(self)@.emit(SELECT),
            final(self)@.wf(),
    {
        self.inst(SELECT, 3, true);
    }

    /// `local.set`.
    pub fn set_local(&mut self, id: LocalId)
        requires
            old(self)@.admits(SETLOCAL),
        ensures
            final(self)@ == old(self)@.emit(SETLOCAL).append_code(uleb128(id.0 as nat)),
            final(self)@.wf(),
    {
        self.inst_imm32(SETLOCAL, 1, false, id.0);
    }

    /// `local.tee`.
    ///
    /// The value stays on the simulated stack with the symbol it had.
    pub fn tee_local(&mut self, id: LocalId)
        requires
            old(self)@.admits(TEELOCAL),
        ensures
            final(self)@ == old(self)@.emit(TEELOCAL).append_code(uleb128(id.0 as nat)),
            final(self)@.wf(),
    {
        self.inst_imm32(TEELOCAL, 0, false, id.0);
    }

    /// `global.get`.
    pub fn get_global(&mut self, id: u32)
        requires
            old(self)@.admits(GETGLOBAL),
        ensures
            final(self)@ == old(self)@.emit(GETGLOBAL).append_code(uleb128(id as nat)),
            final(self)@.wf(),
    {
        self.inst_imm32(GETGLOBAL, 0, true, id);
    }

    /// `global.set`.
    pub fn set_global(&mut self, id: u32)
        requires
            old(self)@.admits(SETGLOBAL),
        ensures
            final(self)@ == old(self)@.emit(SETGLOBAL).append_code(uleb128(id as nat)),
            final(self)@.wf(),
    {
        self.inst_imm32(SETGLOBAL, 1, false, id);
    }

    /// `i32.load`, with its alignment hint and offset.
    pub fn i32_load(&mut self, align: Align, offset: u32)
        requires
            old(self)@.admits(I32LOAD),
        ensures
            final(self)@ == old(self)@.emit(I32LOAD).append_code(
                seq![align.byte()] + uleb128(offset as nat),
            ),
            final(self)@.wf(),
    {
        self.inst_mem(I32LOAD, 1, true, align, offset);
    }

    /// `i64.load`, with its alignment hint and offset.
    pub fn i64_load(&mut self, align: Align, offset: u32)
        requires
            old(self)@.admits(I64LOAD),
        ensures
            final(self)@ == old(self)@.emit(I64LOAD).append_code(
                seq![align.byte()] + uleb128(offset as nat),
            ),
            final(self)@.wf(),
    {
        self.inst_mem(I64LOAD, 1, true, align, offset);
    }

    /// `f32.load`, with its alignment hint and offset.
    pub fn f32_load(&mut self, align: Align, offset: u32)
        requires
            old(self)@.admits(F32LOAD),
        ensures
            final(self)@ == old(self)@.emit(F32LOAD).append_code(
                seq![align.byte()] + uleb128(offset as nat),
            ),
            final(self)@.wf(),
    {
        self.inst_mem(F32LOAD, 1, true, align, offset);
    }

    /// `f64.load`, with its alignment hint and offset.
    pub fn f64_load(&mut self, align: Align, offset: u32)
        requires
            old(self)@.admits(F64LOAD),
        ensures
            final(self)@ == old(self)@.emit(F64LOAD).append_code(
                seq![align.byte()] + uleb128(offset as nat),
            ),
            final(self)@.wf(),
    {
        self.inst_mem(F64LOAD, 1, true, align, offset);
    }

    /// `i32.load8_s`, with its alignment hint and offset.
    pub fn i32_load8_s(&mut self, align: Align, offset: u32)
        requires
            old(self)@.admits(I32LOAD8S),
        ensures
            final(self)@ == old(self)@.emit(I32LOAD8S).append_code(
                seq![align.byte()] + uleb128(offset as nat),
            ),
            final(self)@.wf(),
    {
        self.inst_mem(I32LOAD8S, 1, true, align, offset);
    }

    /// `i32.load8_u`, with its alignment hint and offset.
    pub fn i32_load8_u(&mut self, align: Align, offset: u32)
        requires
            old(self)@.admits(I32LOAD8U),
        ensures
            final(self)@ == old(self)@.emit(I32LOAD8U).append_code(
                seq![align.byte()] + uleb128(offset as nat),
            ),
            final(self)@.wf(),
    {
        self.inst_mem(I32LOAD8U, 1, true, align, offset);
    }

    /// `i32.load16_s`, with its alignment hint and offset.
    pub fn i32_load16_s(&mut self, align: Align, offset: u32)
        requires
            old(self)@.admits(I32LOAD16S),
        ensures
            final(self)@ == old(self)@.emit(I32LOAD16S).append_code(
                seq![align.byte()] + uleb128(offset as nat),
            ),
            final(self)@.wf(),
    {
        self.inst_mem(I32LOAD16S, 1, true, align, offset);
    }

    /// `i32.load16_u`, with its alignment hint and offset.
    pub fn i32_load16_u(&mut self, align: Align, offset: u32)
        requires
            old(self)@.admits(I32LOAD16U),
        ensures
            final(self)@ == old(self)@.emit(I32LOAD16U).append_code(
                seq![align.byte()] + uleb128(offset as nat),
            ),
            final(self)@.wf(),
    {
        self.inst_mem(I32LOAD16U, 1, true, align, offset);
    }

    /// `i64.load8_s`, with its alignment hint and offset.
    pub fn i64_load8_s(&mut self, align: Align, offset: u32)
        requires
            old(self)@.admits(I64LOAD8S),
        ensures
            final(self)@ == old(self)@.emit(I64LOAD8S).append_code(
                seq![align.byte()] + uleb128(offset as nat),
            ),
            final(self)@.wf(),
    {
        self.inst_mem(I64LOAD8S, 1, true, align, offset);
    }

    /// `i64.load8_u`, with its alignment hint and offset.
    pub fn i64_load8_u(&mut self, align: Align, offset: u32)
        requires
            old(self)@.admits(I64LOAD8U),
        ensures
            final(self)@ == old(self)@.emit(I64LOAD8U).append_code(
                seq![align.byte()] + uleb128(offset as nat),
            ),
            final(self)@.wf(),
    {
        self.inst_mem(I64LOAD8U, 1, true, align, offset);
    }

    /// `i64.load16_s`, with its alignment hint and offset.
    pub fn i64_load16_s(&mut self, align: Align, offset: u32)
        requires
            old(self)@.admits(I64LOAD16S),
        ensures
            final(self)@ == old(self)@.emit(I64LOAD16S).append_code(
                seq![align.byte()] + uleb128(offset as nat),
            ),
            final(self)@.wf(),
    {
        self.inst_mem(I64LOAD16S, 1, true, align, offset);
    }

    /// `i64.load16_u`, with its alignment hint and offset.
    pub fn i64_load16_u(&mut self, align: Align, offset: u32)
        requires
            old(self)@.admits(I64LOAD16U),
        ensures
            final(self)@ == old(self)@.emit(I64LOAD16U).append_code(
                seq![align.byte()] + uleb128(offset as nat),
            ),
            final(self)@.wf(),
    {
        self.inst_mem(I64LOAD16U, 1, true, align, offset);
    }

    /// `i64.load32_s`, with its alignment hint and offset.
    pub fn i64_load32_s(&mut self, align: Align, offset: u32)
        requires
            old(self)@.admits(I64LOAD32S),
        ensures
            final(self)@ == old(self)@.emit(I64LOAD32S).append_code(
                seq![align.byte()] + uleb128(offset as nat),
            ),
            final(self)@.wf(),
    {
        self.inst_mem(I64LOAD32S, 1, true, align, offset);
    }

    /// `i64.load32_u`, with its alignment hint and offset.
    pub fn i64_load32_u(&mut self, align: Align, offset: u32)
        requires
            old(self)@.admits(I64LOAD32U),
        ensures
            final(self)@ == old(self)@.emit(I64LOAD32U).append_code(
                seq![align.byte()] + uleb128(offset as nat),
            ),
            final(self)@.wf(),
    {
        self.inst_mem(I64LOAD32U, 1, true, align, offset);
    }

    /// `i32.store`, with its alignment hint and offset.
    pub fn i32_store(&mut self, align: Align, offset: u32)
        requires
            old(self)@.admits(I32STORE),
        ensures
            final(self)@ == old(self)@.emit(I32STORE).append_code(
                seq![align.byte()] + uleb128(offset as nat),
            ),
            final(self)@.wf(),
    {
        self.inst_mem(I32STORE, 2, false, align, offset);
    }

    /// `i64.store`, with its alignment hint and offset.
    pub fn i64_store(&mut self, align: Align, offset: u32)
        requires
            old(self)@.admits(I64STORE),
        ensures
            final(self)@ == old(self)@.emit(I64STORE).append_code(
                seq![align.byte()] + uleb128(offset as nat),
            ),
            final(self)@.wf(),
    {
        self.inst_mem(I64STORE, 2, false, align, offset);
    }

    /// `f32.store`, with its alignment hint and offset.
    pub fn f32_store(&mut self, align: Align, offset: u32)
        requires
            old(self)@.admits(F32STORE),
        ensures
            final(self)@ == old(self)@.emit(F32STORE).append_code(
                seq![align.byte()] + uleb128(offset as nat),
            ),
            final(self)@.wf(),
    {
        self.inst_mem(F32STORE, 2, false, align, offset);
    }

    /// `f64.store`, with its alignment hint and offset.
    pub fn f64_store(&mut self, align: Align, offset: u32)
        requires
            old(self)@.admits(F64STORE),
        ensures
            final(self)@ == old(self)@.emit(F64STORE).append_code(
                seq![align.byte()] + uleb128(offset as nat),
            ),
            final(self)@.wf(),
    {
        self.inst_mem(F64STORE, 2, false, align, offset);
    }

    /// `i32.store8`, with its alignment hint and offset.
    pub fn i32_store8(&mut self, align: Align, offset: u32)
        requires
            old(self)@.admits(I32STORE8),
        ensures
            final(self)@ == old(self)@.emit(I32STORE8).append_code(
                seq![align.byte()] + uleb128(offset as nat),
            ),
            final(self)@.wf(),
    {
        self.inst_mem(I32STORE8, 2, false, align, offset);
    }

    /// `i32.store16`, with its alignment hint and offset.
    pub fn i32_store16(&mut self, align: Align, offset: u32)
        requires
            old(self)@.admits(I32STORE16),
        ensures
            final(self)@ == old(self)@.emit(I32STORE16).append_code(
                seq![align.byte()] + uleb128(offset as nat),
            ),
            final(self)@.wf(),
    {
        self.inst_mem(I32STORE16, 2, false, align, offset);
    }

    /// `i64.store8`, with its alignment hint and offset.
    pub fn i64_store8(&mut self, align: Align, offset: u32)
        requires
            old(self)@.admits(I64STORE8),
        ensures
            final(self)@ == old(self)@.emit(I64STORE8).append_code(
                seq![align.byte()] + uleb128(offset as nat),
            ),
            final(self)@.wf(),
    {
        self.inst_mem(I64STORE8, 2, false, align, offset);
    }

    /// `i64.store16`, with its alignment hint and offset.
    pub fn i64_store16(&mut self, align: Align, offset: u32)
        requires
            old(self)@.admits(I64STORE16),
        ensures
            final(self)@ == old(self)@.emit(I64STORE16).append_code(
                seq![align.byte()] + uleb128(offset as nat),
            ),
            final(self)@.wf(),
    {
        self.inst_mem(I64STORE16, 2, false, align, offset);
    }

    /// `i64.store32`, with its alignment hint and offset.
    pub fn i64_store32(&mut self, align: Align, offset: u32)
        requires
            old(self)@.admits(I64STORE32),
        ensures
            final(self)@ == old(self)@.emit(I64STORE32).append_code(
                seq![align.byte()] + uleb128(offset as nat),
            ),
            final(self)@.wf(),
    {
        self.inst_mem(I64STORE32, 2, false, align, offset);
    }

    /// `memory.size`.
    pub fn memory_size(&mut self)
        requires
            old(self)@.admits(CURRENTMEMORY),
        ensures
            final(self)@ == old(self)@.emit(CURRENTMEMORY).append_code(seq![0u8]),
            final(self)@.wf(),
    {
        self.inst(CURRENTMEMORY, 0, true);
        self.append_byte(0);
    }

    /// `memory.grow`.
    pub fn memory_grow(&mut self)
        requires
            old(self)@.admits(GROWMEMORY),
        ensures
            final(self)@ == old(self)@.emit(GROWMEMORY).append_code(seq![0u8]),
            final(self)@.wf(),
    {
        self.inst(GROWMEMORY, 1, true);
        self.append_byte(0);
    }

    /// `i32.const`.
    pub fn i32_const(&mut self, x: i32)
        requires
            old(self)@.admits(I32CONST),
        ensures
            final(self)@ == old(self)@.emit(I32CONST).append_code(sleb128(x as int)),
            final(self)@.wf(),
    {
        self.inst_base(I32CONST, 0, true);
        self.append_sleb128(x as i64);
    }

    /// `i64.const`.
    pub fn i64_const(&mut self, x: i64)
        requires
            old(self)@.admits(I64CONST),
        ensures
            final(self)@ == old(self)@.emit(I64CONST).append_code(sleb128(x as int)),
            final(self)@.wf(),
    {
        self.inst_base(I64CONST, 0, true);
        self.append_sleb128(x);
    }

    /// `f32.const`, of the number whose IEEE 754 bit pattern is `bits`.
    pub fn f32_const(&mut self, bits: u32)
        requires
            old(self)@.admits(F32CONST),
        ensures
            final(self)@ == old(self)@.emit(F32CONST).append_code(le_bytes(bits as nat, 4)),
            final(self)@.wf(),
    {
        self.inst_base(F32CONST, 0, true);
        self.append_u32(bits);
    }

    /// `f64.const`, of the number whose IEEE 754 bit pattern is `bits`.
    pub fn f64_const(&mut self, bits: u64)
        requires
            old(self)@.admits(F64CONST),
        ensures
            final(self)@ == old(self)@.emit(F64CONST).append_code(le_bytes(bits as nat, 8)),
            final(self)@.wf(),
    {
        self.inst_base(F64CONST, 0, true);
        self.append_u64(bits);
    }

    /// `i32.eqz`.
    pub fn i32_eqz(&mut self)
        requires
            old(self)@.admits(I32EQZ),
        ensures
            final(self)@ == old(self)@.emit(I32EQZ),
            final(self)@.wf(),
    {
        self.inst(I32EQZ, 1, true);
    }

    /// `i32.eq`.
    pub fn i32_eq(&mut self)
        requires
            old(self)@.admits(I32EQ),
        ensures
            final(self)@ == old(self)@.emit(I32EQ),
            final(self)@.wf(),
    {
        self.inst(I32EQ, 2, true);
    }

    /// `i32.ne`.
    pub fn i32_ne(&mut self)
        requires
            old(self)@.admits(I32NE),
        ensures
            final(self)@ == old(self)@.emit(I32NE),
            final(self)@.wf(),
    {
        self.inst(I32NE, 2, true);
    }

    /// `i32.lt_s`.
    pub fn i32_lt_s(&mut self)
        requires
            old(self)@.admits(I32LTS),
        ensures
            final(self)@ == old(self)@.emit(I32LTS),
            final(self)@.wf(),
    {
        self.inst(I32LTS, 2, true);
    }

    /// `i32.lt_u`.
    pub fn i32_lt_u(&mut self)
        requires
            old(self)@.admits(I32LTU),
        ensures
            final(self)@ == old(self)@.emit(I32LTU),
            final(self)@.wf(),
    {
        self.inst(I32LTU, 2, true);
    }

    /// `i32.gt_s`.
    pub fn i32_gt_s(&mut self)
        requires
            old(self)@.admits(I32GTS),
        ensures
            final(self)@ == old(self)@.emit(I32GTS),
            final(self)@.wf(),
    {
        self.inst(I32GTS, 2, true);
    }

    /// `i32.gt_u`.
    pub fn i32_gt_u(&mut self)
        requires
            old(self)@.admits(I32GTU),
        ensures
            final(self)@ == old(self)@.emit(I32GTU),
            final(self)@.wf(),
    {
        self.inst(I32GTU, 2, true);
    }

    /// `i32.le_s`.
    pub fn i32_le_s(&mut self)
        requires
            old(self)@.admits(I32LES),
        ensures
            final(self)@ == old(self)@.emit(I32LES),
            final(self)@.wf(),
    {
        self.inst(I32LES, 2, true);
    }

    /// `i32.le_u`.
    pub fn i32_le_u(&mut self)
        requires
            old(self)@.admits(I32LEU),
        ensures
            final(self)@ == old(self)@.emit(I32LEU),
            final(self)@.wf(),
    {
        self.inst(I32LEU, 2, true);
    }

    /// `i32.ge_s`.
    pub fn i32_ge_s(&mut self)
        requires
            old(self)@.admits(I32GES),
        ensures
            final(self)@ == old(self)@.emit(I32GES),
            final(self)@.wf(),
    {
        self.inst(I32GES, 2, true);
    }

    /// `i32.ge_u`.
    pub fn i32_ge_u(&mut self)
        requires
            old(self)@.admits(I32GEU),
        ensures
            final(self)@ == old(self)@.emit(I32GEU),
            final(self)@.wf(),
    {
        self.inst(I32GEU, 2, true);
    }

    /// `i64.eqz`.
    pub fn i64_eqz(&mut self)
        requires
            old(self)@.admits(I64EQZ),
        ensures
            final(self)@ == old(self)@.emit(I64EQZ),
            final(self)@.wf(),
    {
        self.inst(I64EQZ, 1, true);
    }

    /// `i64.eq`.
    pub fn i64_eq(&mut self)
        requires
            old(self)@.admits(I64EQ),
        ensures
            final(self)@ == old(self)@.emit(I64EQ),
            final(self)@.wf(),
    {
        self.inst(I64EQ, 2, true);
    }

    /// `i64.ne`.
    pub fn i64_ne(&mut self)
        requires
            old(self)@.admits(I64NE),
        ensures
            final(self)@ == old(self)@.emit(I64NE),
            final(self)@.wf(),
    {
        self.inst(I64NE, 2, true);
    }

    /// `i64.lt_s`.
    pub fn i64_lt_s(&mut self)
        requires
            old(self)@.admits(I64LTS),
        ensures
            final(self)@ == old(self)@.emit(I64LTS),
            final(self)@.wf(),
    {
        self.inst(I64LTS, 2, true);
    }

    /// `i64.lt_u`.
    pub fn i64_lt_u(&mut self)
        requires
            old(self)@.admits(I64LTU),
        ensures
            final(self)@ == old(self)@.emit(I64LTU),
            final(self)@.wf(),
    {
        self.inst(I64LTU, 2, true);
    }

    /// `i64.gt_s`.
    pub fn i64_gt_s(&mut self)
        requires
            old(self)@.admits(I64GTS),
        ensures
            final(self)@ == old(self)@.emit(I64GTS),
            final(self)@.wf(),
    {
        self.inst(I64GTS, 2, true);
    }

    /// `i64.gt_u`.
    pub fn i64_gt_u(&mut self)
        requires
            old(self)@.admits(I64GTU),
        ensures
            final(self)@ == old(self)@.emit(I64GTU),
            final(self)@.wf(),
    {
        self.inst(I64GTU, 2, true);
    }

    /// `i64.le_s`.
    pub fn i64_le_s(&mut self)
        requires
            old(self)@.admits(I64LES),
        ensures
            final(self)@ == old(self)@.emit(I64LES),
            final(self)@.wf(),
    {
        self.inst(I64LES, 2, true);
    }

    /// `i64.le_u`.
    pub fn i64_le_u(&mut self)
        requires
            old(self)@.admits(I64LEU),
        ensures
            final(self)@ == old(self)@.emit(I64LEU),
            final(self)@.wf(),
    {
        self.inst(I64LEU, 2, true);
    }

    /// `i64.ge_s`.
    pub fn i64_ge_s(&mut self)
        requires
            old(self)@.admits(I64GES),
        ensures
            final(self)@ == old(self)@.emit(I64GES),
            final(self)@.wf(),
    {
        self.inst(I64GES, 2, true);
    }

    /// `i64.ge_u`.
    pub fn i64_ge_u(&mut self)
        requires
            old(self)@.admits(I64GEU),
        ensures
            final(self)@ == old(self)@.emit(I64GEU),
            final(self)@.wf(),
    {
        self.inst(I64GEU, 2, true);
    }

    /// `f32.eq`.
    pub fn f32_eq(&mut self)
        requires
            old(self)@.admits(F32EQ),
        ensures
            final(self)@ == old(self)@.emit(F32EQ),
            final(self)@.wf(),
    {
        self.inst(F32EQ, 2, true);
    }

    /// `f32.ne`.
    pub fn f32_ne(&mut self)
        requires
            old(self)@.admits(F32NE),
        ensures
            final(self)@ == old(self)@.emit(F32NE),
            final(self)@.wf(),
    {
        self.inst(F32NE, 2, true);
    }

    /// `f32.lt`.
    pub fn f32_lt(&mut self)
        requires
            old(self)@.admits(F32LT),
        ensures
            final(self)@ == old(self)@.emit(F32LT),
            final(self)@.wf(),
    {
        self.inst(F32LT, 2, true);
    }

    /// `f32.gt`.
    pub fn f32_gt(&mut self)
        requires
            old(self)@.admits(F32GT),
        ensures
            final(self)@ == old(self)@.emit(F32GT),
            final(self)@.wf(),
    {
        self.inst(F32GT, 2, true);
    }

    /// `f32.le`.
    pub fn f32_le(&mut self)
        requires
            old(self)@.admits(F32LE),
        ensures
            final(self)@ == old(self)@.emit(F32LE),
            final(self)@.wf(),
    {
        self.inst(F32LE, 2, true);
    }

    /// `f32.ge`.
    pub fn f32_ge(&mut self)
        requires
            old(self)@.admits(F32GE),
        ensures
            final(self)@ == old(self)@.emit(F32GE),
            final(self)@.wf(),
    {
        self.inst(F32GE, 2, true);
    }

    /// `f64.eq`.
    pub fn f64_eq(&mut self)
        requires
            old(self)@.admits(F64EQ),
        ensures
            final(self)@ == old(self)@.emit(F64EQ),
            final(self)@.wf(),
    {
        self.inst(F64EQ, 2, true);
    }

    /// `f64.ne`.
    pub fn f64_ne(&mut self)
        requires
            old(self)@.admits(F64NE),
        ensures
            final(self)@ == old(self)@.emit(F64NE),
            final(self)@.wf(),
    {
        self.inst(F64NE, 2, true);
    }

    /// `f64.lt`.
    pub fn f64_lt(&mut self)
        requires
            old(self)@.admits(F64LT),
        ensures
            final(self)@ == old(self)@.emit(F64LT),
            final(self)@.wf(),
    {
        self.inst(F64LT, 2, true);
    }

    /// `f64.gt`.
    pub fn f64_gt(&mut self)
        requires
            old(self)@.admits(F64GT),
        ensures
            final(self)@ == old(self)@.emit(F64GT),
            final(self)@.wf(),
    {
        self.inst(F64GT, 2, true);
    }

    /// `f64.le`.
    pub fn f64_le(&mut self)
        requires
            old(self)@.admits(F64LE),
        ensures
            final(self)@ == old(self)@.emit(F64LE),
            final(self)@.wf(),
    {
        self.inst(F64LE, 2, true);
    }

    /// `f64.ge`.
    pub fn f64_ge(&mut self)
        requires
            old(self)@.admits(F64GE),
        ensures
            final(self)@ == old(self)@.emit(F64GE),
            final(self)@.wf(),
    {
        self.inst(F64GE, 2, true);
    }

    /// `i32.clz`.
    pub fn i32_clz(&mut self)
        requires
            old(self)@.admits(I32CLZ),
        ensures
            final(self)@ == old(self)@.emit(I32CLZ),
            final(self)@.wf(),
    {
        self.inst(I32CLZ, 1, true);
    }

    /// `i32.ctz`.
    pub fn i32_ctz(&mut self)
        requires
            old(self)@.admits(I32CTZ),
        ensures
            final(self)@ == old(self)@.emit(I32CTZ),
            final(self)@.wf(),
    {
        self.inst(I32CTZ, 1, true);
    }

    /// `i32.popcnt`.
    pub fn i32_popcnt(&mut self)
        requires
            old(self)@.admits(I32POPCNT),
        ensures
            final(self)@ == old(self)@.emit(I32POPCNT),
            final(self)@.wf(),
    {
        self.inst(I32POPCNT, 1, true);
    }

    /// `i32.add`.
    pub fn i32_add(&mut self)
        requires
            old(self)@.admits(I32ADD),
        ensures
            final(self)@ == old(self)@.emit(I32ADD),
            final(self)@.wf(),
    {
        self.inst(I32ADD, 2, true);
    }

    /// `i32.sub`.
    pub fn i32_sub(&mut self)
        requires
            old(self)@.admits(I32SUB),
        ensures
            final(self)@ == old(self)@.emit(I32SUB),
            final(self)@.wf(),
    {
        self.inst(I32SUB, 2, true);
    }

    /// `i32.mul`.
    pub fn i32_mul(&mut self)
        requires
            old(self)@.admits(I32MUL),
        ensures
            final(self)@ == old(self)@.emit(I32MUL),
            final(self)@.wf(),
    {
        self.inst(I32MUL, 2, true);
    }

    /// `i32.div_s`.
    pub fn i32_div_s(&mut self)
        requires
            old(self)@.admits(I32DIVS),
        ensures
            final(self)@ == old(self)@.emit(I32DIVS),
            final(self)@.wf(),
    {
        self.inst(I32DIVS, 2, true);
    }

    /// `i32.div_u`.
    pub fn i32_div_u(&mut self)
        requires
            old(self)@.admits(I32DIVU),
        ensures
            final(self)@ == old(self)@.emit(I32DIVU),
            final(self)@.wf(),
    {
        self.inst(I32DIVU, 2, true);
    }

    /// `i32.rem_s`.
    pub fn i32_rem_s(&mut self)
        requires
            old(self)@.admits(I32REMS),
        ensures
            final(self)@ == old(self)@.emit(I32REMS),
            final(self)@.wf(),
    {
        self.inst(I32REMS, 2, true);
    }

    /// `i32.rem_u`.
    pub fn i32_rem_u(&mut self)
        requires
            old(self)@.admits(I32REMU),
        ensures
            final(self)@ == old(self)@.emit(I32REMU),
            final(self)@.wf(),
    {
        self.inst(I32REMU, 2, true);
    }

    /// `i32.and`.
    pub fn i32_and(&mut self)
        requires
            old(self)@.admits(I32AND),
        ensures
            final(self)@ == old(self)@.emit(I32AND),
            final(self)@.wf(),
    {
        self.inst(I32AND, 2, true);
    }

    /// `i32.or`.
    pub fn i32_or(&mut self)
        requires
            old(self)@.admits(I32OR),
        ensures
            final(self)@ == old(self)@.emit(I32OR),
            final(self)@.wf(),
    {
        self.inst(I32OR, 2, true);
    }

    /// `i32.xor`.
    pub fn i32_xor(&mut self)
        requires
            old(self)@.admits(I32XOR),
        ensures
            final(self)@ == old(self)@.emit(I32XOR),
            final(self)@.wf(),
    {
        self.inst(I32XOR, 2, true);
    }

    /// `i32.shl`.
    pub fn i32_shl(&mut self)
        requires
            old(self)@.admits(I32SHL),
        ensures
            final(self)@ == old(self)@.emit(I32SHL),
            final(self)@.wf(),
    {
        self.inst(I32SHL, 2, true);
    }

    /// `i32.shr_s`.
    pub fn i32_shr_s(&mut self)
        requires
            old(self)@.admits(I32SHRS),
        ensures
            final(self)@ == old(self)@.emit(I32SHRS),
            final(self)@.wf(),
    {
        self.inst(I32SHRS, 2, true);
    }

    /// `i32.shr_u`.
    pub fn i32_shr_u(&mut self)
        requires
            old(self)@.admits(I32SHRU),
        ensures
            final(self)@ == old(self)@.emit(I32SHRU),
            final(self)@.wf(),
    {
        self.inst(I32SHRU, 2, true);
    }

    /// `i32.rotl`.
    pub fn i32_rotl(&mut self)
        requires
            old(self)@.admits(I32ROTL),
        ensures
            final(self)@ == old(self)@.emit(I32ROTL),
            final(self)@.wf(),
    {
        self.inst(I32ROTL, 2, true);
    }

    /// `i32.rotr`.
    pub fn i32_rotr(&mut self)
        requires
            old(self)@.admits(I32ROTR),
        ensures
            final(self)@ == old(self)@.emit(I32ROTR),
            final(self)@.wf(),
    {
        self.inst(I32ROTR, 2, true);
    }

    /// `i64.clz`.
    pub fn i64_clz(&mut self)
        requires
            old(self)@.admits(I64CLZ),
        ensures
            final(self)@ == old(self)@.emit(I64CLZ),
            final(self)@.wf(),
    {
        self.inst(I64CLZ, 1, true);
    }

    /// `i64.ctz`.
    pub fn i64_ctz(&mut self)
        requires
            old(self)@.admits(I64CTZ),
        ensures
            final(self)@ == old(self)@.emit(I64CTZ),
            final(self)@.wf(),
    {
        self.inst(I64CTZ, 1, true);
    }

    /// `i64.popcnt`.
    pub fn i64_popcnt(&mut self)
        requires
            old(self)@.admits(I64POPCNT),
        ensures
            final(self)@ == old(self)@.emit(I64POPCNT),
            final(self)@.wf(),
    {
        self.inst(I64POPCNT, 1, true);
    }

    /// `i64.add`.
    pub fn i64_add(&mut self)
        requires
            old(self)@.admits(I64ADD),
        ensures
            final(self)@ == old(self)@.emit(I64ADD),
            final(self)@.wf(),
    {
        self.inst(I64ADD, 2, true);
    }

    /// `i64.sub`.
    pub fn i64_sub(&mut self)
        requires
            old(self)@.admits(I64SUB),
        ensures
            final(self)@ == old(self)@.emit(I64SUB),
            final(self)@.wf(),
    {
        self.inst(I64SUB, 2, true);
    }

    /// `i64.mul`.
    pub fn i64_mul(&mut self)
        requires
            old(self)@.admits(I64MUL),
        ensures
            final(self)@ == old(self)@.emit(I64MUL),
            final(self)@.wf(),
    {
        self.inst(I64MUL, 2, true);
    }

    /// `i64.div_s`.
    pub fn i64_div_s(&mut self)
        requires
            old(self)@.admits(I64DIVS),
        ensures
            final(self)@ == old(self)@.emit(I64DIVS),
            final(self)@.wf(),
    {
        self.inst(I64DIVS, 2, true);
    }

    /// `i64.div_u`.
    pub fn i64_div_u(&mut self)
        requires
            old(self)@.admits(I64DIVU),
        ensures
            final(self)@ == old(self)@.emit(I64DIVU),
            final(self)@.wf(),
    {
        self.inst(I64DIVU, 2, true);
    }

    /// `i64.rem_s`.
    pub fn i64_rem_s(&mut self)
        requires
            old(self)@.admits(I64REMS),
        ensures
            final(self)@ == old(self)@.emit(I64REMS),
            final(self)@.wf(),
    {
        self.inst(I64REMS, 2, true);
    }

    /// `i64.rem_u`.
    pub fn i64_rem_u(&mut self)
        requires
            old(self)@.admits(I64REMU),
        ensures
            final(self)@ == old(self)@.emit(I64REMU),
            final(self)@.wf(),
    {
        self.inst(I64REMU, 2, true);
    }

    /// `i64.and`.
    pub fn i64_and(&mut self)
        requires
            old(self)@.admits(I64AND),
        ensures
            final(self)@ == old(self)@.emit(I64AND),
            final(self)@.wf(),
    {
        self.inst(I64AND, 2, true);
    }

    /// `i64.or`.
    pub fn i64_or(&mut self)
        requires
            old(self)@.admits(I64OR),
        ensures
            final(self)@ == old(self)@.emit(I64OR),
            final(self)@.wf(),
    {
        self.inst(I64OR, 2, true);
    }

    /// `i64.xor`.
    pub fn i64_xor(&mut self)
        requires
            old(self)@.admits(I64XOR),
        ensures
            final(self)@ == old(self)@.emit(I64XOR),
            final(self)@.wf(),
    {
        self.inst(I64XOR, 2, true);
    }

    /// `i64.shl`.
    pub fn i64_shl(&mut self)
        requires
            old(self)@.admits(I64SHL),
        ensures
            final(self)@ == old(self)@.emit(I64SHL),
            final(self)@.wf(),
    {
        self.inst(I64SHL, 2, true);
    }

    /// `i64.shr_s`.
    pub fn i64_shr_s(&mut self)
        requires
            old(self)@.admits(I64SHRS),
        ensures
            final(self)@ == old(self)@.emit(I64SHRS),
            final(self)@.wf(),
    {
        self.inst(I64SHRS, 2, true);
    }

    /// `i64.shr_u`.
    pub fn i64_shr_u(&mut self)
        requires
            old(self)@.admits(I64SHRU),
        ensures
            final(self)@ == old(self)@.emit(I64SHRU),
            final(self)@.wf(),
    {
        self.inst(I64SHRU, 2, true);
    }

    /// `i64.rotl`.
    pub fn i64_rotl(&mut self)
        requires
            old(self)@.admits(I64ROTL),
        ensures
            final(self)@ == old(self)@.emit(I64ROTL),
            final(self)@.wf(),
    {
        self.inst(I64ROTL, 2, true);
    }

    /// `i64.rotr`.
    pub fn i64_rotr(&mut self)
        requires
            old(self)@.admits(I64ROTR),
        ensures
            final(self)@ == old(self)@.emit(I64ROTR),
            final(self)@.wf(),
    {
        self.inst(I64ROTR, 2, true);
    }

    /// `f32.abs`.
    pub fn f32_abs(&mut self)
        requires
            old(self)@.admits(F32ABS),
        ensures
            final(self)@ == old(self)@.emit(F32ABS),
            final(self)@.wf(),
    {
        self.inst(F32ABS, 1, true);
    }

    /// `f32.neg`.
    pub fn f32_neg(&mut self)
        requires
            old(self)@.admits(F32NEG),
        ensures
            final(self)@ == old(self)@.emit(F32NEG),
            final(self)@.wf(),
    {
        self.inst(F32NEG, 1, true);
    }

    /// `f32.ceil`.
    pub fn f32_ceil(&mut self)
        requires
            old(self)@.admits(F32CEIL),
        ensures
            final(self)@ == old(self)@.emit(F32CEIL),
            final(self)@.wf(),
    {
        self.inst(F32CEIL, 1, true);
    }

    /// `f32.floor`.
    pub fn f32_floor(&mut self)
        requires
            old(self)@.admits(F32FLOOR),
        ensures
            final(self)@ == old(self)@.emit(F32FLOOR),
            final(self)@.wf(),
    {
        self.inst(F32FLOOR, 1, true);
    }

    /// `f32.trunc`.
    pub fn f32_trunc(&mut self)
        requires
            old(self)@.admits(F32TRUNC),
        ensures
            final(self)@ == old(self)@.emit(F32TRUNC),
            final(self)@.wf(),
    {
        self.inst(F32TRUNC, 1, true);
    }

    /// `f32.nearest`.
    pub fn f32_nearest(&mut self)
        requires
            old(self)@.admits(F32NEAREST),
        ensures
            final(self)@ == old(self)@.emit(F32NEAREST),
            final(self)@.wf(),
    {
        self.inst(F32NEAREST, 1, true);
    }

    /// `f32.sqrt`.
    pub fn f32_sqrt(&mut self)
        requires
            old(self)@.admits(F32SQRT),
        ensures
            final(self)@ == old(self)@.emit(F32SQRT),
            final(self)@.wf(),
    {
        self.inst(F32SQRT, 1, true);
    }

    /// `f32.add`.
    pub fn f32_add(&mut self)
        requires
            old(self)@.admits(F32ADD),
        ensures
            final(self)@ == old(self)@.emit(F32ADD),
            final(self)@.wf(),
    {
        self.inst(F32ADD, 2, true);
    }

    /// `f32.sub`.
    pub fn f32_sub(&mut self)
        requires
            old(self)@.admits(F32SUB),
        ensures
            final(self)@ == old(self)@.emit(F32SUB),
            final(self)@.wf(),
    {
        self.inst(F32SUB, 2, true);
    }

    /// `f32.mul`.
    pub fn f32_mul(&mut self)
        requires
            old(self)@.admits(F32MUL),
        ensures
            final(self)@ == old(self)@.emit(F32MUL),
            final(self)@.wf(),
    {
        self.inst(F32MUL, 2, true);
    }

    /// `f32.div`.
    pub fn f32_div(&mut self)
        requires
            old(self)@.admits(F32DIV),
        ensures
            final(self)@ == old(self)@.emit(F32DIV),
            final(self)@.wf(),
    {
        self.inst(F32DIV, 2, true);
    }

    /// `f32.min`.
    pub fn f32_min(&mut self)
        requires
            old(self)@.admits(F32MIN),
        ensures
            final(self)@ == old(self)@.emit(F32MIN),
            final(self)@.wf(),
    {
        self.inst(F32MIN, 2, true);
    }

    /// `f32.max`.
    pub fn f32_max(&mut self)
        requires
            old(self)@.admits(F32MAX),
        ensures
            final(self)@ == old(self)@.emit(F32MAX),
            final(self)@.wf(),
    {
        self.inst(F32MAX, 2, true);
    }

    /// `f32.copysign`.
    pub fn f32_copysign(&mut self)
        requires
            old(self)@.admits(F32COPYSIGN),
        ensures
            final(self)@ == old(self)@.emit(F32COPYSIGN),
            final(self)@.wf(),
    {
        self.inst(F32COPYSIGN, 2, true);
    }

    /// `f64.abs`.
    pub fn f64_abs(&mut self)
        requires
            old(self)@.admits(F64ABS),
        ensures
            final(self)@ == old(self)@.emit(F64ABS),
            final(self)@.wf(),
    {
        self.inst(F64ABS, 1, true);
    }

    /// `f64.neg`.
    pub fn f64_neg(&mut self)
        requires
            old(self)@.admits(F64NEG),
        ensures
            final(self)@ == old(self)@.emit(F64NEG),
            final(self)@.wf(),
    {
        self.inst(F64NEG, 1, true);
    }

    /// `f64.ceil`.
    pub fn f64_ceil(&mut self)
        requires
            old(self)@.admits(F64CEIL),
        ensures
            final(self)@ == old(self)@.emit(F64CEIL),
            final(self)@.wf(),
    {
        self.inst(F64CEIL, 1, true);
    }

    /// `f64.floor`.
    pub fn f64_floor(&mut self)
        requires
            old(self)@.admits(F64FLOOR),
        ensures
            final(self)@ == old(self)@.emit(F64FLOOR),
            final(self)@.wf(),
    {
        self.inst(F64FLOOR, 1, true);
    }

    /// `f64.trunc`.
    pub fn f64_trunc(&mut self)
        requires
            old(self)@.admits(F64TRUNC),
        ensures
            final(self)@ == old(self)@.emit(F64TRUNC),
            final(self)@.wf(),
    {
        self.inst(F64TRUNC, 1, true);
    }

    /// `f64.nearest`.
    pub fn f64_nearest(&mut self)
        requires
            old(self)@.admits(F64NEAREST),
        ensures
            final(self)@ == old(self)@.emit(F64NEAREST),
            final(self)@.wf(),
    {
        self.inst(F64NEAREST, 1, true);
    }

    /// `f64.sqrt`.
    pub fn f64_sqrt(&mut self)
        requires
            old(self)@.admits(F64SQRT),
        ensures
            final(self)@ == old(self)@.emit(F64SQRT),
            final(self)@.wf(),
    {
        self.inst(F64SQRT, 1, true);
    }

    /// `f64.add`.
    pub fn f64_add(&mut self)
        requires
            old(self)@.admits(F64ADD),
        ensures
            final(self)@ == old(self)@.emit(F64ADD),
            final(self)@.wf(),
    {
        self.inst(F64ADD, 2, true);
    }

    /// `f64.sub`.
    pub fn f64_sub(&mut self)
        requires
            old(self)@.admits(F64SUB),
        ensures
            final(self)@ == old(self)@.emit(F64SUB),
            final(self)@.wf(),
    {
        self.inst(F64SUB, 2, true);
    }

    /// `f64.mul`.
    pub fn f64_mul(&mut self)
        requires
            old(self)@.admits(F64MUL),
        ensures
            final(self)@ == old(self)@.emit(F64MUL),
            final(self)@.wf(),
    {
        self.inst(F64MUL, 2, true);
    }

    /// `f64.div`.
    pub fn f64_div(&mut self)
        requires
            old(self)@.admits(F64DIV),
        ensures
            final(self)@ == old(self)@.emit(F64DIV),
            final(self)@.wf(),
    {
        self.inst(F64DIV, 2, true);
    }

    /// `f64.min`.
    pub fn f64_min(&mut self)
        requires
            old(self)@.admits(F64MIN),
        ensures
            final(self)@ == old(self)@.emit(F64MIN),
            final(self)@.wf(),
    {
        self.inst(F64MIN, 2, true);
    }

    /// `f64.max`.
    pub fn f64_max(&mut self)
        requires
            old(self)@.admits(F64MAX),
        ensures
            final(self)@ == old(self)@.emit(F64MAX),
            final(self)@.wf(),
    {
        self.inst(F64MAX, 2, true);
    }

    /// `f64.copysign`.
    pub fn f64_copysign(&mut self)
        requires
            old(self)@.admits(F64COPYSIGN),
        ensures
            final(self)@ == old(self)@.emit(F64COPYSIGN),
            final(self)@.wf(),
    {
        self.inst(F64COPYSIGN, 2, true);
    }

    /// `i32.wrap_i64`.
    pub fn i32_wrap_i64(&mut self)
        requires
            old(self)@.admits(I32WRAPI64),
        ensures
            final(self)@ == old(self)@.emit(I32WRAPI64),
            final(self)@.wf(),
    {
        self.inst(I32WRAPI64, 1, true);
    }

    /// `i32.trunc_s_f32`.
    pub fn i32_trunc_s_f32(&mut self)
        requires
            old(self)@.admits(I32TRUNCSF32),
        ensures
            final(self)@ == old(self)@.emit(I32TRUNCSF32),
            final(self)@.wf(),
    {
        self.inst(I32TRUNCSF32, 1, true);
    }

    /// `i32.trunc_u_f32`.
    pub fn i32_trunc_u_f32(&mut self)
        requires
            old(self)@.admits(I32TRUNCUF32),
        ensures
            final(self)@ == old(self)@.emit(I32TRUNCUF32),
            final(self)@.wf(),
    {
        self.inst(I32TRUNCUF32, 1, true);
    }

    /// `i32.trunc_s_f64`.
    pub fn i32_trunc_s_f64(&mut self)
        requires
            old(self)@.admits(I32TRUNCSF64),
        ensures
            final(self)@ == old(self)@.emit(I32TRUNCSF64),
            final(self)@.wf(),
    {
        self.inst(I32TRUNCSF64, 1, true);
    }

    /// `i32.trunc_u_f64`.
    pub fn i32_trunc_u_f64(&mut self)
        requires
            old(self)@.admits(I32TRUNCUF64),
        ensures
            final(self)@ == old(self)@.emit(I32TRUNCUF64),
            final(self)@.wf(),
    {
        self.inst(I32TRUNCUF64, 1, true);
    }

    /// `i64.extend_s_i32`.
    pub fn i64_extend_s_i32(&mut self)
        requires
            old(self)@.admits(I64EXTENDSI32),
        ensures
            final(self)@ == old(self)@.emit(I64EXTENDSI32),
            final(self)@.wf(),
    {
        self.inst(I64EXTENDSI32, 1, true);
    }

    /// `i64.extend_u_i32`.
    pub fn i64_extend_u_i32(&mut self)
        requires
            old(self)@.admits(I64EXTENDUI32),
        ensures
            final(self)@ == old(self)@.emit(I64EXTENDUI32),
            final(self)@.wf(),
    {
        self.inst(I64EXTENDUI32, 1, true);
    }

    /// `i64.trunc_s_f32`.
    pub fn i64_trunc_s_f32(&mut self)
        requires
            old(self)@.admits(I64TRUNCSF32),
        ensures
            final(self)@ == old(self)@.emit(I64TRUNCSF32),
            final(self)@.wf(),
    {
        self.inst(I64TRUNCSF32, 1, true);
    }

    /// `i64.trunc_u_f32`.
    pub fn i64_trunc_u_f32(&mut self)
        requires
            old(self)@.admits(I64TRUNCUF32),
        ensures
            final(self)@ == old(self)@.emit(I64TRUNCUF32),
            final(self)@.wf(),
    {
        self.inst(I64TRUNCUF32, 1, true);
    }

    /// `i64.trunc_s_f64`.
    pub fn i64_trunc_s_f64(&mut self)
        requires
            old(self)@.admits(I64TRUNCSF64),
        ensures
            final(self)@ == old(self)@.emit(I64TRUNCSF64),
            final(self)@.wf(),
    {
        self.inst(I64TRUNCSF64, 1, true);
    }

    /// `i64.trunc_u_f64`.
    pub fn i64_trunc_u_f64(&mut self)
        requires
            old(self)@.admits(I64TRUNCUF64),
        ensures
            final(self)@ == old(self)@.emit(I64TRUNCUF64),
            final(self)@.wf(),
    {
        self.inst(I64TRUNCUF64, 1, true);
    }

    /// `f32.convert_s_i32`.
    pub fn f32_convert_s_i32(&mut self)
        requires
            old(self)@.admits(F32CONVERTSI32),
        ensures
            final(self)@ == old(self)@.emit(F32CONVERTSI32),
            final(self)@.wf(),
    {
        self.inst(F32CONVERTSI32, 1, true);
    }

    /// `f32.convert_u_i32`.
    pub fn f32_convert_u_i32(&mut self)
        requires
            old(self)@.admits(F32CONVERTUI32),
        ensures
            final(self)@ == old(self)@.emit(F32CONVERTUI32),
            final(self)@.wf(),
    {
        self.inst(F32CONVERTUI32, 1, true);
    }

    /// `f32.convert_s_i64`.
    pub fn f32_convert_s_i64(&mut self)
        requires
            old(self)@.admits(F32CONVERTSI64),
        ensures
            final(self)@ == old(self)@.emit(F32CONVERTSI64),
            final(self)@.wf(),
    {
        self.inst(F32CONVERTSI64, 1, true);
    }

    /// `f32.convert_u_i64`.
    pub fn f32_convert_u_i64(&mut self)
        requires
            old(self)@.admits(F32CONVERTUI64),
        ensures
            final(self)@ == old(self)@.emit(F32CONVERTUI64),
            final(self)@.wf(),
    {
        self.inst(F32CONVERTUI64, 1, true);
    }

    /// `f32.demote_f64`.
    pub fn f32_demote_f64(&mut self)
        requires
            old(self)@.admits(F32DEMOTEF64),
        ensures
            final(self)@ == old(self)@.emit(F32DEMOTEF64),
            final(self)@.wf(),
    {
        self.inst(F32DEMOTEF64, 1, true);
    }

    /// `f64.convert_s_i32`.
    pub fn f64_convert_s_i32(&mut self)
        requires
            old(self)@.admits(F64CONVERTSI32),
        ensures
            final(self)@ == old(self)@.emit(F64CONVERTSI32),
            final(self)@.wf(),
    {
        self.inst(F64CONVERTSI32, 1, true);
    }

    /// `f64.convert_u_i32`.
    pub fn f64_convert_u_i32(&mut self)
        requires
            old(self)@.admits(F64CONVERTUI32),
        ensures
            final(self)@ == old(self)@.emit(F64CONVERTUI32),
            final(self)@.wf(),
    {
        self.inst(F64CONVERTUI32, 1, true);
    }

    /// `f64.convert_s_i64`.
    pub fn f64_convert_s_i64(&mut self)
        requires
            old(self)@.admits(F64CONVERTSI64),
        ensures
            final(self)@ == old(self)@.emit(F64CONVERTSI64),
            final(self)@.wf(),
    {
        self.inst(F64CONVERTSI64, 1, true);
    }

    /// `f64.convert_u_i64`.
    pub fn f64_convert_u_i64(&mut self)
        requires
            old(self)@.admits(F64CONVERTUI64),
        ensures
            final(self)@ == old(self)@.emit(F64CONVERTUI64),
            final(self)@.wf(),
    {
        self.inst(F64CONVERTUI64, 1, true);
    }

    /// `f64.promote_f32`.
    pub fn f64_promote_f32(&mut self)
        requires
            old(self)@.admits(F64PROMOTEF32),
        ensures
            final(self)@ == old(self)@.emit(F64PROMOTEF32),
            final(self)@.wf(),
    {
        self.inst(F64PROMOTEF32, 1, true);
    }

    /// `i32.reinterpret_f32`.
    pub fn i32_reinterpret_f32(&mut self)
        requires
            old(self)@.admits(I32REINTERPRETF32),
        ensures
            final(self)@ == old(self)@.emit(I32REINTERPRETF32),
            final(self)@.wf(),
    {
        self.inst(I32REINTERPRETF32, 1, true);
    }

    /// `i64.reinterpret_f64`.
    pub fn i64_reinterpret_f64(&mut self)
        requires
            old(self)@.admits(I64REINTERPRETF64),
        ensures
            final(self)@ == old(self)@.emit(I64REINTERPRETF64),
            final(self)@.wf(),
    {
        self.inst(I64REINTERPRETF64, 1, true);
    }

    /// `f32.reinterpret_i32`.
    pub fn f32_reinterpret_i32(&mut self)
        requires
            old(self)@.admits(F32REINTERPRETI32),
        ensures
            final(self)@ == old(self)@.emit(F32REINTERPRETI32),
            final(self)@.wf(),
    {
        self.inst(F32REINTERPRETI32, 1, true);
    }

    /// `f64.reinterpret_i64`.
    pub fn f64_reinterpret_i64(&mut self)
        requires
            old(self)@.admits(F64REINTERPRETI64),
        ensures
            final(self)@ == old(self)@.emit(F64REINTERPRETI64),
            final(self)@.wf(),
    {
        self.inst(F64REINTERPRETI64, 1, true);
    }
}

} // verus!
