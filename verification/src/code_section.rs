//! The code section: function bodies, their locals and their instructions,
//! with blocks, loops and conditionals nested as the bytes nest them.

use vstd::prelude::*;
use crate::buffer::{parse_byte, parse_bytes, parse_vec, views, Buffer};
use crate::error::{loads_as, reads_as, viewed, DecodeError, Decoded};
use crate::leb128::{lemma_varint_end, parse_i32, parse_u32};
use crate::type_section::{parse_val_type, val_type_of, NumType, ValType};

verus! {

/// The opcodes that the decoder knows.
#[derive(Debug, Clone, Copy, PartialEq, Eq, Structural)]
pub enum Op {
    LocalGet,
    LocalSet,
    I32Const,
    I32Eqa,
    I32LtS,
    I32GeS,
    I32Add,
    I32Rems,
    If,
    Else,
    Block,
    Loop,
    Br,
    BrIf,
    End,
}

impl Op {
    /// The byte that stands for the opcode.
    pub open spec fn code(self) -> u8 {
        match self {
            Op::LocalGet => 0x20,
            Op::LocalSet => 0x21,
            Op::I32Const => 0x41,
            Op::I32Eqa => 0x45,
            Op::I32LtS => 0x48,
            Op::I32GeS => 0x4e,
            Op::I32Add => 0x6a,
            Op::I32Rems => 0x6f,
            Op::If => 0x04,
            Op::Else => 0x05,
            Op::Block => 0x02,
            Op::Loop => 0x03,
            Op::Br => 0x0c,
            Op::BrIf => 0x0d,
            Op::End => 0x0b,
        }
    }

    /// Whether the opcode closes an expression.
    pub open spec fn closes(self) -> bool {
        self == Op::End || self == Op::Else
    }

    /// The byte that stands for the opcode.
    pub fn to_u8(self) -> (b: u8)
        ensures
            b == self.code(),
    {
        match self {
            Op::LocalGet => 0x20,
            Op::LocalSet => 0x21,
            Op::I32Const => 0x41,
            Op::I32Eqa => 0x45,
            Op::I32LtS => 0x48,
            Op::I32GeS => 0x4e,
            Op::I32Add => 0x6a,
            Op::I32Rems => 0x6f,
            Op::If => 0x04,
            Op::Else => 0x05,
            Op::Block => 0x02,
            Op::Loop => 0x03,
            Op::Br => 0x0c,
            Op::BrIf => 0x0d,
            Op::End => 0x0b,
        }
    }

    /// The opcode that a byte stands for, if any.
    pub fn from_u8(value: u8) -> (r: Option<Op>)
        ensures
            match r {
                Some(op) => op.code() == value,
                None => forall|op: Op| op.code() != value,
            },
    {
        match value {
            0x20 => Some(Op::LocalGet),
            0x21 => Some(Op::LocalSet),
            0x41 => Some(Op::I32Const),
            0x45 => Some(Op::I32Eqa),
            0x48 => Some(Op::I32LtS),
            0x4e => Some(Op::I32GeS),
            0x6a => Some(Op::I32Add),
            0x6f => Some(Op::I32Rems),
            0x04 => Some(Op::If),
            0x05 => Some(Op::Else),
            0x02 => Some(Op::Block),
            0x03 => Some(Op::Loop),
            0x0c => Some(Op::Br),
            0x0d => Some(Op::BrIf),
            0x0b => Some(Op::End),
            _ => None,
        }
    }
}

/// The opcode whose code is `value`, if there is one.
pub open spec fn op_of(value: u8) -> Option<Op> {
    if exists|op: Op| op.code() == value {
        Some(choose|op: Op| op.code() == value)
    } else {
        None
    }
}

/// No two opcodes share a code, so a code names its opcode.
pub proof fn lemma_op_of_code(op: Op)
    ensures
        op_of(op.code()) == Some(op),
{
    let found = choose|other: Op| other.code() == op.code();
    assert(found.code() == op.code());
}

// In WebAssembly, S33 is a signed 33-bit integer. The type indices that it
// holds fit 32 bits.
pub type S33 = i32;

/// The type of a block: nothing, one result type, or the index of a
/// function type.
#[derive(Debug, Clone, Copy, PartialEq, Eq, Structural)]
pub enum BlockType {
    Empty,
    ValType(ValType),
    S33(S33),
}

/// The block type that a single byte stands for: `0x40` for none, a value
/// type's tag for that type.
pub open spec fn block_type_of(value: u8) -> Option<BlockType> {
    if value == 0x40 {
        Some(BlockType::Empty)
    } else {
        match val_type_of(value) {
            Some(val_type) => Some(BlockType::ValType(val_type)),
            None => None,
        }
    }
}

/// A run of local variables of one type.
#[derive(Debug, Clone, Copy, PartialEq, Eq, Structural)]
pub struct LocalNode {
    pub num: u32,
    pub val_type: ValType,
}

/// An instruction.
pub enum Instr {
    LocalGet(u32),
    LocalSet(u32),
    I32Const(i32),
    I32Eqa,
    I32LtS,
    I32GeS,
    I32Add,
    I32Rems,
    If(BlockType, Expr, Expr),
    Block(BlockType, Expr),
    Loop(BlockType, Expr),
    Br(u32),
    BrIf(u32),
}

/// An expression: its instructions, and the opcode that closed it.
pub struct Expr {
    pub instrs: Seq<Instr>,
    pub end_op: Option<Op>,
}

/// A function body: runs of locals and the body's expression.
pub struct Func {
    pub locals: Seq<LocalNode>,
    pub expr: Expr,
}

/// An entry of the code section: the declared size of the body in bytes, and
/// the body.
pub struct Code {
    pub size: u32,
    pub func: Func,
}

/// The expression that holds nothing yet.
pub open spec fn blank_expr() -> Expr {
    Expr { instrs: Seq::empty(), end_op: None }
}

/// What an expression with `head`'s instructions holds once `tail` has been
/// decoded onto it.
pub open spec fn appended(head: Expr, tail: Expr) -> Expr {
    Expr { instrs: head.instrs + tail.instrs, end_op: tail.end_op }
}

/// The instruction of an opcode before its operands are decoded.
pub open spec fn blank_instr(op: Op) -> Instr {
    match op {
        Op::LocalGet => Instr::LocalGet(0),
        Op::LocalSet => Instr::LocalSet(0),
        Op::I32Const => Instr::I32Const(0),
        Op::I32Eqa => Instr::I32Eqa,
        Op::I32LtS => Instr::I32LtS,
        Op::I32GeS => Instr::I32GeS,
        Op::I32Add => Instr::I32Add,
        Op::I32Rems => Instr::I32Rems,
        Op::If => Instr::If(BlockType::Empty, blank_expr(), blank_expr()),
        Op::Block => Instr::Block(BlockType::Empty, blank_expr()),
        Op::Loop => Instr::Loop(BlockType::Empty, blank_expr()),
        Op::Br => Instr::Br(0),
        Op::BrIf => Instr::BrIf(0),
        Op::Else | Op::End => arbitrary(),
    }
}

/// A block type. The format lays three encodings over the leading byte:
/// `0x40` is no type, a value type's tag is that type, and any other byte
/// starts a signed varint, the index of a function type.
pub open spec fn parse_block_type(bytes: Seq<u8>, pos: int) -> Decoded<BlockType> {
    match parse_byte(bytes, pos) {
        Err(e) => Err(e),
        Ok((lead, p)) => match block_type_of(lead) {
            Some(block_type) => Ok((block_type, p)),
            None => match parse_i32(bytes, pos) {
                Err(e) => Err(e),
                Ok((index, end)) => Ok((BlockType::S33(index), end)),
            },
        },
    }
}

/// Whether decoding may go on at `next` after it stood at `pos`: `next` lies
/// behind `pos` and within the bytes. The grammar asks this where it goes on
/// behind a nested expression. It always holds there
/// (`lemma_expr_advances`), so it changes nothing (`lemma_expr_unfolds`,
/// `lemma_if_with_else`); asking makes it plain that the grammar is well
/// founded.
pub open spec fn advances(bytes: Seq<u8>, pos: int, next: int) -> bool {
    pos < next <= bytes.len()
}

/// An expression: instructions up to and with the first `end` or `else`
/// that is not part of a nested instruction. The closing opcode is kept. A
/// byte at an instruction's place that is no opcode fails with
/// `InvalidOpcode`.
pub open spec fn parse_expr(bytes: Seq<u8>, pos: int) -> Decoded<Expr>
    decreases bytes.len() - pos, 0int,
{
    if pos < 0 || pos >= bytes.len() {
        Err(DecodeError::BufferUnderrun)
    } else {
        match op_of(bytes[pos]) {
            None => Err(DecodeError::InvalidOpcode(bytes[pos])),
            Some(op) => if op.closes() {
                Ok((Expr { instrs: Seq::empty(), end_op: Some(op) }, pos + 1))
            } else {
                match parse_operands(op, bytes, pos + 1) {
                    Err(e) => Err(e),
                    Ok((instr, next)) => if advances(bytes, pos, next) {
                        match parse_expr(bytes, next) {
                            Err(e) => Err(e),
                            Ok((rest, end)) => Ok(
                                (
                                    Expr {
                                        instrs: seq![instr] + rest.instrs,
                                        end_op: rest.end_op,
                                    },
                                    end,
                                ),
                            ),
                        }
                    } else {
                        Err(DecodeError::BufferUnderrun)
                    },
                }
            },
        }
    }
}

/// An expression that has to close with `end`: one that closes with `else`
/// fails with `UnexpectedElse`.
pub open spec fn parse_body(bytes: Seq<u8>, pos: int) -> Decoded<Expr>
    decreases bytes.len() - pos, 1int,
{
    match parse_expr(bytes, pos) {
        Err(e) => Err(e),
        Ok((expr, end)) => if expr.end_op == Some(Op::Else) {
            Err(DecodeError::UnexpectedElse)
        } else {
            Ok((expr, end))
        },
    }
}

/// The operands of the instruction with opcode `op`, from `pos` on, and
/// with them the instruction. Indices are unsigned varints, the constant a
/// signed one. A block or a loop has a block type and a body. A conditional
/// has a block type and its then-branch, and if that closes with `else`, an
/// else-branch, which has to close with `end`; without one the else-branch
/// holds nothing. `else` and `end` are no instructions.
pub open spec fn parse_operands(op: Op, bytes: Seq<u8>, pos: int) -> Decoded<Instr>
    decreases bytes.len() - pos, 2int,
{
    match op {
        Op::LocalGet => match parse_u32(bytes, pos) {
            Err(e) => Err(e),
            Ok((index, end)) => Ok((Instr::LocalGet(index), end)),
        },
        Op::LocalSet => match parse_u32(bytes, pos) {
            Err(e) => Err(e),
            Ok((index, end)) => Ok((Instr::LocalSet(index), end)),
        },
        Op::Br => match parse_u32(bytes, pos) {
            Err(e) => Err(e),
            Ok((label, end)) => Ok((Instr::Br(label), end)),
        },
        Op::BrIf => match parse_u32(bytes, pos) {
            Err(e) => Err(e),
            Ok((label, end)) => Ok((Instr::BrIf(label), end)),
        },
        Op::I32Const => match parse_i32(bytes, pos) {
            Err(e) => Err(e),
            Ok((value, end)) => Ok((Instr::I32Const(value), end)),
        },
        Op::I32Eqa => Ok((Instr::I32Eqa, pos)),
        Op::I32LtS => Ok((Instr::I32LtS, pos)),
        Op::I32GeS => Ok((Instr::I32GeS, pos)),
        Op::I32Add => Ok((Instr::I32Add, pos)),
        Op::I32Rems => Ok((Instr::I32Rems, pos)),
        Op::Block => match parse_block_type(bytes, pos) {
            Err(e) => Err(e),
            Ok((block_type, p)) => {
                proof {
                    lemma_block_type_advances(bytes, pos);
                }
                match parse_body(bytes, p) {
                    Err(e) => Err(e),
                    Ok((body, end)) => Ok((Instr::Block(block_type, body), end)),
                }
            },
        },
        Op::Loop => match parse_block_type(bytes, pos) {
            Err(e) => Err(e),
            Ok((block_type, p)) => {
                proof {
                    lemma_block_type_advances(bytes, pos);
                }
                match parse_body(bytes, p) {
                    Err(e) => Err(e),
                    Ok((body, end)) => Ok((Instr::Loop(block_type, body), end)),
                }
            },
        },
        Op::If => match parse_block_type(bytes, pos) {
            Err(e) => Err(e),
            Ok((block_type, p)) => {
                proof {
                    lemma_block_type_advances(bytes, pos);
                }
                match parse_expr(bytes, p) {
                    Err(e) => Err(e),
                    Ok((then_expr, q)) => if then_expr.end_op != Some(Op::Else) {
                        Ok((Instr::If(block_type, then_expr, blank_expr()), q))
                    } else if advances(bytes, pos, q) {
                        match parse_body(bytes, q) {
                            Err(e) => Err(e),
                            Ok((else_expr, end)) => Ok(
                                (Instr::If(block_type, then_expr, else_expr), end),
                            ),
                        }
                    } else {
                        Err(DecodeError::BufferUnderrun)
                    },
                }
            },
        },
        Op::Else | Op::End => Err(DecodeError::InvalidOpcode(op.code())),
    }
}

/// A run of locals: how many, an unsigned varint, and their value type.
pub open spec fn parse_local(bytes: Seq<u8>, pos: int) -> Decoded<LocalNode> {
    match parse_u32(bytes, pos) {
        Err(e) => Err(e),
        Ok((num, p)) => match parse_val_type(bytes, p) {
            Err(e) => Err(e),
            Ok((val_type, end)) => Ok((LocalNode { num, val_type }, end)),
        },
    }
}

/// `parse_local` as a value, to decode sequences with.
pub open spec fn local_decoder() -> spec_fn(Seq<u8>, int) -> Decoded<LocalNode> {
    |bytes: Seq<u8>, pos: int| parse_local(bytes, pos)
}

/// A function body: a length-prefixed sequence of runs of locals, then one
/// expression. Which opcode closes that expression is not asked.
pub open spec fn parse_func(bytes: Seq<u8>, pos: int) -> Decoded<Func> {
    match parse_vec(local_decoder(), bytes, pos) {
        Err(e) => Err(e),
        Ok((locals, p)) => match parse_expr(bytes, p) {
            Err(e) => Err(e),
            Ok((expr, end)) => Ok((Func { locals, expr }, end)),
        },
    }
}

/// An entry of the code section: the body's size in bytes, an unsigned
/// varint, then that many bytes, within which the body is decoded from
/// their first byte on. The entry ends where its bytes end: bytes that the
/// body leaves over are passed by.
pub open spec fn parse_code(bytes: Seq<u8>, pos: int) -> Decoded<Code> {
    match parse_u32(bytes, pos) {
        Err(e) => Err(e),
        Ok((size, p)) => match parse_bytes(bytes, p, size as nat) {
            Err(e) => Err(e),
            Ok((region, end)) => match parse_func(region, 0) {
                Err(e) => Err(e),
                Ok((func, _)) => Ok((Code { size, func }, end)),
            },
        },
    }
}

/// `parse_code` as a value, to decode sequences with.
pub open spec fn code_decoder() -> spec_fn(Seq<u8>, int) -> Decoded<Code> {
    |bytes: Seq<u8>, pos: int| parse_code(bytes, pos)
}

/// The code section: a length-prefixed sequence of entries.
pub open spec fn parse_code_section(bytes: Seq<u8>, pos: int) -> Decoded<Seq<Code>> {
    parse_vec(code_decoder(), bytes, pos)
}

/// What a function node that held `held` holds once `func` has been decoded
/// onto it: the locals of `func`, and its expression behind the one held.
pub open spec fn func_onto(held: Func, func: Func) -> Func {
    Func { locals: func.locals, expr: appended(held.expr, func.expr) }
}

/// What a code node that held `held` holds once `code` has been decoded
/// onto it.
pub open spec fn code_onto(held: Code, code: Code) -> Code {
    Code { size: code.size, func: func_onto(held.func, code.func) }
}

/// The function body that holds nothing yet.
pub open spec fn blank_func() -> Func {
    Func { locals: Seq::empty(), expr: blank_expr() }
}

/// A body is decoded within the bytes of its entry and sees no others:
/// entries of one size over the same bytes decode alike, whatever stands
/// around them.
pub proof fn lemma_code_scoped(a: Seq<u8>, at: int, b: Seq<u8>, bt: int)
    requires
        parse_u32(a, at) matches Ok((size, body)) && parse_u32(b, bt) matches Ok((other, start))
            && size == other && body + size <= a.len() && start + size <= b.len() && a.subrange(
            body,
            body + size,
        ) == b.subrange(start, start + size),
    ensures
        match parse_code(a, at) {
            Ok((code, _)) => parse_code(b, bt) matches Ok((same, _)) && same == code,
            Err(e) => parse_code(b, bt) == Err::<(Code, int), DecodeError>(e),
        },
{
    lemma_varint_end(a, at);
    lemma_varint_end(b, bt);
}

/// A block type takes at least one byte and ends within the bytes.
pub proof fn lemma_block_type_advances(bytes: Seq<u8>, pos: int)
    ensures
        parse_block_type(bytes, pos) matches Ok((_, end)) ==> advances(bytes, pos, end),
{
    lemma_varint_end(bytes, pos);
}

/// Decoding moves forward and stays within the bytes: an expression takes at
/// least its closing byte, operands take none or more, and neither ends
/// behind the bytes. So the grammar's tests of `advances` never fail.
pub proof fn lemma_expr_advances(bytes: Seq<u8>, pos: int)
    ensures
        parse_expr(bytes, pos) matches Ok((_, end)) ==> advances(bytes, pos, end),
        parse_body(bytes, pos) matches Ok((_, end)) ==> advances(bytes, pos, end),
        forall|op: Op| #[trigger]
            parse_operands(op, bytes, pos) matches Ok((_, end)) ==> pos <= end && (pos
                <= bytes.len() ==> end <= bytes.len()),
    decreases bytes.len() - pos,
{
    lemma_varint_end(bytes, pos);
    lemma_block_type_advances(bytes, pos);
    if let Ok((_, p)) = parse_block_type(bytes, pos) {
        lemma_expr_advances(bytes, p);
        if let Ok((_, q)) = parse_expr(bytes, p) {
            lemma_expr_advances(bytes, q);
        }
    }
    if 0 <= pos < bytes.len() {
        lemma_expr_advances(bytes, pos + 1);
        match op_of(bytes[pos]) {
            Some(op) => {
                if let Ok((_, next)) = parse_operands(op, bytes, pos + 1) {
                    lemma_expr_advances(bytes, next);
                }
            },
            None => {},
        }
    }
}

/// An expression that starts with an instruction is that instruction and
/// the expression behind it: the grammar's test of `advances` changes
/// nothing.
pub proof fn lemma_expr_unfolds(bytes: Seq<u8>, pos: int)
    requires
        0 <= pos < bytes.len(),
        op_of(bytes[pos]) matches Some(op) && !op.closes(),
    ensures
        parse_expr(bytes, pos) == match parse_operands(op_of(bytes[pos])->Some_0, bytes, pos + 1) {
            Err(e) => Err::<(Expr, int), DecodeError>(e),
            Ok((instr, next)) => match parse_expr(bytes, next) {
                Err(e) => Err(e),
                Ok((rest, end)) => Ok(
                    (Expr { instrs: seq![instr] + rest.instrs, end_op: rest.end_op }, end),
                ),
            },
        },
{
    lemma_expr_advances(bytes, pos + 1);
}

/// A conditional whose then-branch closes with `end` has no else-branch:
/// the else-branch holds nothing, and the conditional ends where the
/// then-branch ends.
pub proof fn lemma_if_without_else(bytes: Seq<u8>, pos: int)
    requires
        parse_block_type(bytes, pos) matches Ok((_, p)) && parse_expr(bytes, p) matches Ok(
            (then_expr, _),
        ) && then_expr.end_op == Some(Op::End),
    ensures
        ({
            let (block_type, p) = parse_block_type(bytes, pos)->Ok_0;
            let (then_expr, end) = parse_expr(bytes, p)->Ok_0;
            parse_operands(Op::If, bytes, pos) == Ok::<(Instr, int), DecodeError>(
                (Instr::If(block_type, then_expr, blank_expr()), end),
            )
        }),
{
}

/// A conditional whose then-branch closes with `else` has the expression
/// behind it for its else-branch, if that closes with `end`; if it closes
/// with `else` again the conditional fails with `UnexpectedElse`.
pub proof fn lemma_if_with_else(bytes: Seq<u8>, pos: int)
    requires
        parse_block_type(bytes, pos) matches Ok((_, p)) && parse_expr(bytes, p) matches Ok(
            (then_expr, q),
        ) && then_expr.end_op == Some(Op::Else) && parse_expr(bytes, q) is Ok,
    ensures
        ({
            let (block_type, p) = parse_block_type(bytes, pos)->Ok_0;
            let (then_expr, q) = parse_expr(bytes, p)->Ok_0;
            let (else_expr, end) = parse_expr(bytes, q)->Ok_0;
            parse_operands(Op::If, bytes, pos) == if else_expr.end_op == Some(Op::Else) {
                Err::<(Instr, int), DecodeError>(DecodeError::UnexpectedElse)
            } else {
                Ok::<(Instr, int), DecodeError>(
                    (Instr::If(block_type, then_expr, else_expr), end),
                )
            }
        }),
{
    let p = parse_block_type(bytes, pos)->Ok_0.1;
    lemma_block_type_advances(bytes, pos);
    lemma_expr_advances(bytes, p);
}

/// `i32.const`: pushes a constant.
#[derive(Debug, Clone, Copy, PartialEq, Eq, Structural)]
pub struct I32ConstIntrinsicNode {
    pub val: i32,
}

impl View for I32ConstIntrinsicNode {
    type V = Instr;

    open spec fn view(&self) -> Instr {
        Instr::I32Const(self.val)
    }
}

impl I32ConstIntrinsicNode {
    pub fn new() -> (r: I32ConstIntrinsicNode)
        ensures
            r@ == blank_instr(Op::I32Const),
    {
        I32ConstIntrinsicNode { val: 0 }
    }

    /// Decodes the operand. A failure leaves node and buffer as they were.
    pub fn load(&mut self, buf: &mut Buffer) -> (r: Result<(), DecodeError>)
        ensures
            final(buf).bytes() == old(buf).bytes(),
            loads_as(
                parse_operands(Op::I32Const, old(buf).bytes(), old(buf).offset()),
                old(buf).offset(),
                r,
                final(self)@,
                final(buf).offset(),
            ),
            r is Err ==> *final(self) == *old(self),
    {
        self.val = buf.read_i32()?;
        Ok(())
    }
}

/// `local.get`: reads a local.
#[derive(Debug, Clone, Copy, PartialEq, Eq, Structural)]
pub struct LocalGetIntrinsicNode {
    pub local_idx: u32,
}

impl View for LocalGetIntrinsicNode {
    type V = Instr;

    open spec fn view(&self) -> Instr {
        Instr::LocalGet(self.local_idx)
    }
}

impl LocalGetIntrinsicNode {
    pub fn new() -> (r: LocalGetIntrinsicNode)
        ensures
            r@ == blank_instr(Op::LocalGet),
    {
        LocalGetIntrinsicNode { local_idx: 0 }
    }

    /// Decodes the operand. A failure leaves node and buffer as they were.
    pub fn load(&mut self, buf: &mut Buffer) -> (r: Result<(), DecodeError>)
        ensures
            final(buf).bytes() == old(buf).bytes(),
            loads_as(
                parse_operands(Op::LocalGet, old(buf).bytes(), old(buf).offset()),
                old(buf).offset(),
                r,
                final(self)@,
                final(buf).offset(),
            ),
            r is Err ==> *final(self) == *old(self),
    {
        self.local_idx = buf.read_u32()?;
        Ok(())
    }
}

/// `local.set`: writes a local.
#[derive(Debug, Clone, Copy, PartialEq, Eq, Structural)]
pub struct LocalSetIntrinsicNode {
    pub local_idx: u32,
}

impl View for LocalSetIntrinsicNode {
    type V = Instr;

    open spec fn view(&self) -> Instr {
        Instr::LocalSet(self.local_idx)
    }
}

impl LocalSetIntrinsicNode {
    pub fn new() -> (r: LocalSetIntrinsicNode)
        ensures
            r@ == blank_instr(Op::LocalSet),
    {
        LocalSetIntrinsicNode { local_idx: 0 }
    }

    /// Decodes the operand. A failure leaves node and buffer as they were.
    pub fn load(&mut self, buf: &mut Buffer) -> (r: Result<(), DecodeError>)
        ensures
            final(buf).bytes() == old(buf).bytes(),
            loads_as(
                parse_operands(Op::LocalSet, old(buf).bytes(), old(buf).offset()),
                old(buf).offset(),
                r,
                final(self)@,
                final(buf).offset(),
            ),
            r is Err ==> *final(self) == *old(self),
    {
        self.local_idx = buf.read_u32()?;
        Ok(())
    }
}

/// The comparison at opcode `0x45`.
#[derive(Debug, Clone, Copy, PartialEq, Eq, Structural)]
pub struct I32EqaIntrinsicNode {}

impl View for I32EqaIntrinsicNode {
    type V = Instr;

    open spec fn view(&self) -> Instr {
        Instr::I32Eqa
    }
}

impl I32EqaIntrinsicNode {
    pub fn new() -> (r: I32EqaIntrinsicNode)
        ensures
            r@ == blank_instr(Op::I32Eqa),
    {
        I32EqaIntrinsicNode {  }
    }
}

/// `i32.lt_s`.
#[derive(Debug, Clone, Copy, PartialEq, Eq, Structural)]
pub struct I32LtSIntrinsicNode {}

impl View for I32LtSIntrinsicNode {
    type V = Instr;

    open spec fn view(&self) -> Instr {
        Instr::I32LtS
    }
}

impl I32LtSIntrinsicNode {
    pub fn new() -> (r: I32LtSIntrinsicNode)
        ensures
            r@ == blank_instr(Op::I32LtS),
    {
        I32LtSIntrinsicNode {  }
    }
}

/// `i32.ge_s`.
#[derive(Debug, Clone, Copy, PartialEq, Eq, Structural)]
pub struct I32GeSIntrinsicNode {}

impl View for I32GeSIntrinsicNode {
    type V = Instr;

    open spec fn view(&self) -> Instr {
        Instr::I32GeS
    }
}

impl I32GeSIntrinsicNode {
    pub fn new() -> (r: I32GeSIntrinsicNode)
        ensures
            r@ == blank_instr(Op::I32GeS),
    {
        I32GeSIntrinsicNode {  }
    }
}

/// `i32.add`.
#[derive(Debug, Clone, Copy, PartialEq, Eq, Structural)]
pub struct I32AddIntrinsicNode {}

impl View for I32AddIntrinsicNode {
    type V = Instr;

    open spec fn view(&self) -> Instr {
        Instr::I32Add
    }
}

impl I32AddIntrinsicNode {
    pub fn new() -> (r: I32AddIntrinsicNode)
        ensures
            r@ == blank_instr(Op::I32Add),
    {
        I32AddIntrinsicNode {  }
    }
}

/// The arithmetic at opcode `0x6f`.
#[derive(Debug, Clone, Copy, PartialEq, Eq, Structural)]
pub struct I32RemsIntrinsicNode {}

impl View for I32RemsIntrinsicNode {
    type V = Instr;

    open spec fn view(&self) -> Instr {
        Instr::I32Rems
    }
}

impl I32RemsIntrinsicNode {
    pub fn new() -> (r: I32RemsIntrinsicNode)
        ensures
            r@ == blank_instr(Op::I32Rems),
    {
        I32RemsIntrinsicNode {  }
    }
}

/// `br`: branches to an enclosing block, counted from the innermost.
#[derive(Debug, Clone, Copy, PartialEq, Eq, Structural)]
pub struct BrIntrinsicNode {
    pub label_idx: u32,
}

impl View for BrIntrinsicNode {
    type V = Instr;

    open spec fn view(&self) -> Instr {
        Instr::Br(self.label_idx)
    }
}

impl BrIntrinsicNode {
    pub fn new() -> (r: BrIntrinsicNode)
        ensures
            r@ == blank_instr(Op::Br),
    {
        BrIntrinsicNode { label_idx: 0 }
    }

    /// Decodes the operand. A failure leaves node and buffer as they were.
    pub fn load(&mut self, buf: &mut Buffer) -> (r: Result<(), DecodeError>)
        ensures
            final(buf).bytes() == old(buf).bytes(),
            loads_as(
                parse_operands(Op::Br, old(buf).bytes(), old(buf).offset()),
                old(buf).offset(),
                r,
                final(self)@,
                final(buf).offset(),
            ),
            r is Err ==> *final(self) == *old(self),
    {
        self.label_idx = buf.read_u32()?;
        Ok(())
    }
}

/// `br_if`: branches if the operand is not zero.
#[derive(Debug, Clone, Copy, PartialEq, Eq, Structural)]
pub struct BrIfIntrinsicNode {
    pub label_idx: u32,
}

impl View for BrIfIntrinsicNode {
    type V = Instr;

    open spec fn view(&self) -> Instr {
        Instr::BrIf(self.label_idx)
    }
}

impl BrIfIntrinsicNode {
    pub fn new() -> (r: BrIfIntrinsicNode)
        ensures
            r@ == blank_instr(Op::BrIf),
    {
        BrIfIntrinsicNode { label_idx: 0 }
    }

    /// Decodes the operand. A failure leaves node and buffer as they were.
    pub fn load(&mut self, buf: &mut Buffer) -> (r: Result<(), DecodeError>)
        ensures
            final(buf).bytes() == old(buf).bytes(),
            loads_as(
                parse_operands(Op::BrIf, old(buf).bytes(), old(buf).offset()),
                old(buf).offset(),
                r,
                final(self)@,
                final(buf).offset(),
            ),
            r is Err ==> *final(self) == *old(self),
    {
        self.label_idx = buf.read_u32()?;
        Ok(())
    }
}

impl BlockType {
    /// The block type that a single byte stands for, if any.
    pub fn from_u8(value: u8) -> (r: Option<BlockType>)
        ensures
            r == block_type_of(value),
    {
        match value {
            0x40 => Some(BlockType::Empty),
            _ => {
                let val_type = ValType::from_u8(value)?;
                Some(BlockType::ValType(val_type))
            },
        }
    }

    /// Reads a block type: what its leading byte stands for, or, if that is
    /// nothing, the signed varint that starts with that byte.
    pub fn read(buf: &mut Buffer) -> (r: Result<BlockType, DecodeError>)
        ensures
            final(buf).bytes() == old(buf).bytes(),
            reads_as(
                parse_block_type(old(buf).bytes(), old(buf).offset()),
                old(buf).offset(),
                r,
                final(buf).offset(),
            ),
    {
        let mark: usize = buf.position();
        let byte: u8 = buf.read_byte()?;
        match BlockType::from_u8(byte) {
            Some(block_type) => Ok(block_type),
            None => {
                buf.reset(mark);
                let index: i32 = buf.read_i32()?;
                Ok(BlockType::S33(index))
            },
        }
    }
}

/// A conditional: its block type, the branch taken if the operand is not
/// zero, and the branch taken otherwise.
#[derive(Debug, PartialEq, Eq)]
pub struct IfIntrinsicNode {
    pub block_type: BlockType,
    pub then_expr: ExprNode,
    pub else_expr: ExprNode,
}

/// A block: its block type and its body.
#[derive(Debug, PartialEq, Eq)]
pub struct BlockIntrinsicNode {
    pub block_type: BlockType,
    pub expr: ExprNode,
}

/// A loop: its block type and its body.
#[derive(Debug, PartialEq, Eq)]
pub struct LoopIntrinsicNode {
    pub block_type: BlockType,
    pub expr: ExprNode,
}

/// An instruction, by its opcode.
#[derive(Debug, PartialEq, Eq)]
pub enum IntrinsicNode {
    LocalGetIntrinsicNode(LocalGetIntrinsicNode),
    LocalSetIntrinsicNode(LocalSetIntrinsicNode),
    I32ConstIntrinsicNode(I32ConstIntrinsicNode),
    I32EqaIntrinsicNode(I32EqaIntrinsicNode),
    I32LtSIntrinsicNode(I32LtSIntrinsicNode),
    I32GeSIntrinsicNode(I32GeSIntrinsicNode),
    I32AddIntrinsicNode(I32AddIntrinsicNode),
    I32RemsIntrinsicNode(I32RemsIntrinsicNode),
    IfIntrinsicNode(IfIntrinsicNode),
    BlockIntrinsicNode(BlockIntrinsicNode),
    LoopIntrinsicNode(LoopIntrinsicNode),
    BrIntrinsicNode(BrIntrinsicNode),
    BrIfIntrinsicNode(BrIfIntrinsicNode),
}

/// An expression: its instructions and the opcode that closed it, `None`
/// before anything was decoded.
#[derive(Debug, PartialEq, Eq)]
pub struct ExprNode {
    pub intrinsics: Vec<IntrinsicNode>,
    pub end_op: Option<Op>,
}

/// The instruction that a node stands for.
pub open spec fn instr_view(node: IntrinsicNode) -> Instr
    decreases node,
{
    match node {
        IntrinsicNode::LocalGetIntrinsicNode(n) => Instr::LocalGet(n.local_idx),
        IntrinsicNode::LocalSetIntrinsicNode(n) => Instr::LocalSet(n.local_idx),
        IntrinsicNode::I32ConstIntrinsicNode(n) => Instr::I32Const(n.val),
        IntrinsicNode::I32EqaIntrinsicNode(_) => Instr::I32Eqa,
        IntrinsicNode::I32LtSIntrinsicNode(_) => Instr::I32LtS,
        IntrinsicNode::I32GeSIntrinsicNode(_) => Instr::I32GeS,
        IntrinsicNode::I32AddIntrinsicNode(_) => Instr::I32Add,
        IntrinsicNode::I32RemsIntrinsicNode(_) => Instr::I32Rems,
        IntrinsicNode::IfIntrinsicNode(n) => Instr::If(
            n.block_type,
            expr_view(n.then_expr),
            expr_view(n.else_expr),
        ),
        IntrinsicNode::BlockIntrinsicNode(n) => Instr::Block(n.block_type, expr_view(n.expr)),
        IntrinsicNode::LoopIntrinsicNode(n) => Instr::Loop(n.block_type, expr_view(n.expr)),
        IntrinsicNode::BrIntrinsicNode(n) => Instr::Br(n.label_idx),
        IntrinsicNode::BrIfIntrinsicNode(n) => Instr::BrIf(n.label_idx),
    }
}

/// The expression that a node stands for.
pub open spec fn expr_view(node: ExprNode) -> Expr
    decreases node,
{
    Expr {
        instrs: Seq::new(
            node.intrinsics.len() as nat,
            |i: int|
                if 0 <= i < node.intrinsics.len() {
                    instr_view(node.intrinsics[i])
                } else {
                    arbitrary()
                },
        ),
        end_op: node.end_op,
    }
}

/// The instructions that a sequence of nodes stands for.
pub open spec fn instr_views(nodes: Seq<IntrinsicNode>) -> Seq<Instr> {
    Seq::new(nodes.len(), |i: int| instr_view(nodes[i]))
}

impl View for ExprNode {
    type V = Expr;

    open spec fn view(&self) -> Expr {
        expr_view(*self)
    }
}

impl View for IntrinsicNode {
    type V = Instr;

    open spec fn view(&self) -> Instr {
        instr_view(*self)
    }
}

impl View for IfIntrinsicNode {
    type V = Instr;

    open spec fn view(&self) -> Instr {
        Instr::If(self.block_type, self.then_expr@, self.else_expr@)
    }
}

impl View for BlockIntrinsicNode {
    type V = Instr;

    open spec fn view(&self) -> Instr {
        Instr::Block(self.block_type, self.expr@)
    }
}

impl View for LoopIntrinsicNode {
    type V = Instr;

    open spec fn view(&self) -> Instr {
        Instr::Loop(self.block_type, self.expr@)
    }
}

/// An expression node's instructions are the views of its nodes.
pub proof fn lemma_expr_view(node: ExprNode)
    ensures
        node@.instrs == instr_views(node.intrinsics@),
        node@.end_op == node.end_op,
{
    assert(node@.instrs =~= instr_views(node.intrinsics@));
}

impl Clone for ExprNode {
    fn clone(&self) -> (r: Self)
        ensures
            r@ == self@,
        decreases self,
    {
        let mut intrinsics: Vec<IntrinsicNode> = Vec::new();
        let mut i: usize = 0;
        while i < self.intrinsics.len()
            invariant
                i <= self.intrinsics.len(),
                intrinsics.len() == i,
                forall|j: int| 0 <= j < i ==> (#[trigger] intrinsics[j])@ == self.intrinsics[j]@,
            decreases self.intrinsics.len() - i,
        {
            intrinsics.push(self.intrinsics[i].clone());
            i = i + 1;
        }
        let r = ExprNode { intrinsics, end_op: self.end_op };
        proof {
            assert(r@.instrs =~= self@.instrs);
        }
        r
    }
}

impl Clone for IntrinsicNode {
    fn clone(&self) -> (r: Self)
        ensures
            r@ == self@,
            r.op() == self.op(),
        decreases self,
    {
        match self {
            IntrinsicNode::LocalGetIntrinsicNode(n) => IntrinsicNode::LocalGetIntrinsicNode(*n),
            IntrinsicNode::LocalSetIntrinsicNode(n) => IntrinsicNode::LocalSetIntrinsicNode(*n),
            IntrinsicNode::I32ConstIntrinsicNode(n) => IntrinsicNode::I32ConstIntrinsicNode(*n),
            IntrinsicNode::I32EqaIntrinsicNode(n) => IntrinsicNode::I32EqaIntrinsicNode(*n),
            IntrinsicNode::I32LtSIntrinsicNode(n) => IntrinsicNode::I32LtSIntrinsicNode(*n),
            IntrinsicNode::I32GeSIntrinsicNode(n) => IntrinsicNode::I32GeSIntrinsicNode(*n),
            IntrinsicNode::I32AddIntrinsicNode(n) => IntrinsicNode::I32AddIntrinsicNode(*n),
            IntrinsicNode::I32RemsIntrinsicNode(n) => IntrinsicNode::I32RemsIntrinsicNode(*n),
            IntrinsicNode::IfIntrinsicNode(n) => IntrinsicNode::IfIntrinsicNode(
                IfIntrinsicNode {
                    block_type: n.block_type,
                    then_expr: n.then_expr.clone(),
                    else_expr: n.else_expr.clone(),
                },
            ),
            IntrinsicNode::BlockIntrinsicNode(n) => IntrinsicNode::BlockIntrinsicNode(
                BlockIntrinsicNode { block_type: n.block_type, expr: n.expr.clone() },
            ),
            IntrinsicNode::LoopIntrinsicNode(n) => IntrinsicNode::LoopIntrinsicNode(
                LoopIntrinsicNode { block_type: n.block_type, expr: n.expr.clone() },
            ),
            IntrinsicNode::BrIntrinsicNode(n) => IntrinsicNode::BrIntrinsicNode(*n),
            IntrinsicNode::BrIfIntrinsicNode(n) => IntrinsicNode::BrIfIntrinsicNode(*n),
        }
    }
}

impl Clone for IfIntrinsicNode {
    fn clone(&self) -> (r: Self)
        ensures
            r@ == self@,
    {
        IfIntrinsicNode {
            block_type: self.block_type,
            then_expr: self.then_expr.clone(),
            else_expr: self.else_expr.clone(),
        }
    }
}

impl Clone for BlockIntrinsicNode {
    fn clone(&self) -> (r: Self)
        ensures
            r@ == self@,
    {
        BlockIntrinsicNode { block_type: self.block_type, expr: self.expr.clone() }
    }
}

impl Clone for LoopIntrinsicNode {
    fn clone(&self) -> (r: Self)
        ensures
            r@ == self@,
    {
        LoopIntrinsicNode { block_type: self.block_type, expr: self.expr.clone() }
    }
}

impl ExprNode {
    pub fn new() -> (r: ExprNode)
        ensures
            r@ == blank_expr(),
    {
        let r = ExprNode { intrinsics: Vec::new(), end_op: None };
        assert(r@.instrs =~= Seq::<Instr>::empty());
        r
    }

    /// Decodes an expression onto the node: the instructions are added
    /// behind those that the node holds, and the closing opcode is set. A
    /// failure leaves node and buffer as they were.
    pub fn load(&mut self, buf: &mut Buffer) -> (r: Result<(), DecodeError>)
        ensures
            final(buf).bytes() == old(buf).bytes(),
            match parse_expr(old(buf).bytes(), old(buf).offset()) {
                Ok((expr, end)) => r is Ok && final(self)@ == appended(old(self)@, expr) && final(buf).offset() == end,
                Err(e) => r == Err::<(), DecodeError>(e) && final(buf).offset() == old(buf).offset(),
            },
            r is Err ==> *final(self) == *old(self),
        decreases old(buf).bytes().len() - old(buf).offset(), 0int,
    {
        let mark: usize = buf.position();
        let ghost bytes = buf.bytes();
        let ghost start = buf.offset();
        let mut items: Vec<IntrinsicNode> = Vec::new();
        let mut end_op: Option<Op> = None;
        proof {
            assert(instr_views(items@) =~= Seq::<Instr>::empty());
            match parse_expr(bytes, start) {
                Ok((rest, q)) => {
                    assert(instr_views(items@) + rest.instrs =~= rest.instrs);
                },
                Err(e) => {},
            }
        }
        loop
            invariant_except_break
                match parse_expr(bytes, buf.offset()) {
                    Ok((rest, q)) => parse_expr(bytes, start) == Ok::<(Expr, int), DecodeError>(
                        (
                            Expr {
                                instrs: instr_views(items@) + rest.instrs,
                                end_op: rest.end_op,
                            },
                            q,
                        ),
                    ),
                    Err(e) => parse_expr(bytes, start) == Err::<(Expr, int), DecodeError>(e),
                },
            invariant
                buf.bytes() == bytes,
                bytes == old(buf).bytes(),
                start == old(buf).offset(),
                mark == start,
                start <= buf.offset() <= bytes.len(),
                *self == *old(self),
            ensures
                buf.bytes() == bytes,
                *self == *old(self),
                parse_expr(bytes, start) == Ok::<(Expr, int), DecodeError>(
                    (Expr { instrs: instr_views(items@), end_op }, buf.offset()),
                ),
            decreases bytes.len() - buf.offset(),
        {
            let ghost here = buf.offset();
            let ghost before = instr_views(items@);
            let op_byte: u8 = match buf.read_byte() {
                Ok(b) => b,
                Err(e) => {
                    buf.reset(mark);
                    return Err(e);
                },
            };
            let opcode: Op = match Op::from_u8(op_byte) {
                Some(op) => op,
                None => {
                    buf.reset(mark);
                    return Err(DecodeError::InvalidOpcode(op_byte));
                },
            };
            proof {
                lemma_op_of_code(opcode);
            }
            match opcode {
                Op::End | Op::Else => {
                    end_op = Some(opcode);
                    proof {
                        assert(before + Seq::<Instr>::empty() =~= before);
                    }
                    break ;
                },
                _ => {},
            }
            let mut intrinsic = IntrinsicNode::new(opcode);
            proof {
                lemma_expr_advances(bytes, here + 1);
            }
            if let Err(e) = intrinsic.load(buf) {
                buf.reset(mark);
                return Err(e);
            }
            items.push(intrinsic);
            proof {
                assert(instr_views(items@) =~= before + seq![intrinsic@]);
                match parse_expr(bytes, buf.offset()) {
                    Ok((rest, q)) => {
                        assert(before + (seq![intrinsic@] + rest.instrs) =~= instr_views(items@)
                            + rest.instrs);
                    },
                    Err(e) => {},
                }
            }
        }
        proof {
            lemma_expr_view(*self);
        }
        let ghost head = self.intrinsics@;
        let ghost tail = items@;
        self.intrinsics.append(&mut items);
        self.end_op = end_op;
        proof {
            lemma_expr_view(*self);
            assert(instr_views(head + tail) =~= instr_views(head) + instr_views(tail));
        }
        Ok(())
    }
}

impl IntrinsicNode {
    /// The opcode of the instruction.
    pub open spec fn op(&self) -> Op {
        match self {
            IntrinsicNode::LocalGetIntrinsicNode(_) => Op::LocalGet,
            IntrinsicNode::LocalSetIntrinsicNode(_) => Op::LocalSet,
            IntrinsicNode::I32ConstIntrinsicNode(_) => Op::I32Const,
            IntrinsicNode::I32EqaIntrinsicNode(_) => Op::I32Eqa,
            IntrinsicNode::I32LtSIntrinsicNode(_) => Op::I32LtS,
            IntrinsicNode::I32GeSIntrinsicNode(_) => Op::I32GeS,
            IntrinsicNode::I32AddIntrinsicNode(_) => Op::I32Add,
            IntrinsicNode::I32RemsIntrinsicNode(_) => Op::I32Rems,
            IntrinsicNode::IfIntrinsicNode(_) => Op::If,
            IntrinsicNode::BlockIntrinsicNode(_) => Op::Block,
            IntrinsicNode::LoopIntrinsicNode(_) => Op::Loop,
            IntrinsicNode::BrIntrinsicNode(_) => Op::Br,
            IntrinsicNode::BrIfIntrinsicNode(_) => Op::BrIf,
        }
    }

    /// The instruction of `opcode` with its operands still to be decoded.
    /// `else` and `end` are no instructions.
    pub fn new(opcode: Op) -> (r: IntrinsicNode)
        requires
            !opcode.closes(),
        ensures
            r.op() == opcode,
            r@ == blank_instr(opcode),
    {
        match opcode {
            Op::I32Const => IntrinsicNode::I32ConstIntrinsicNode(I32ConstIntrinsicNode::new()),
            Op::LocalGet => IntrinsicNode::LocalGetIntrinsicNode(LocalGetIntrinsicNode::new()),
            Op::LocalSet => IntrinsicNode::LocalSetIntrinsicNode(LocalSetIntrinsicNode::new()),
            Op::I32Eqa => IntrinsicNode::I32EqaIntrinsicNode(I32EqaIntrinsicNode::new()),
            Op::I32LtS => IntrinsicNode::I32LtSIntrinsicNode(I32LtSIntrinsicNode::new()),
            Op::I32GeS => IntrinsicNode::I32GeSIntrinsicNode(I32GeSIntrinsicNode::new()),
            Op::I32Add => IntrinsicNode::I32AddIntrinsicNode(I32AddIntrinsicNode::new()),
            Op::I32Rems => IntrinsicNode::I32RemsIntrinsicNode(I32RemsIntrinsicNode::new()),
            Op::If => IntrinsicNode::IfIntrinsicNode(IfIntrinsicNode::new()),
            Op::Block => IntrinsicNode::BlockIntrinsicNode(BlockIntrinsicNode::new()),
            Op::Loop => IntrinsicNode::LoopIntrinsicNode(LoopIntrinsicNode::new()),
            Op::Br => IntrinsicNode::BrIntrinsicNode(BrIntrinsicNode::new()),
            _ => IntrinsicNode::BrIfIntrinsicNode(BrIfIntrinsicNode::new()),
        }
    }

    /// Decodes the operands of the node's instruction. A failure leaves node
    /// and buffer as they were.
    pub fn load(&mut self, buf: &mut Buffer) -> (r: Result<(), DecodeError>)
        ensures
            final(buf).bytes() == old(buf).bytes(),
            loads_as(
                parse_operands(old(self).op(), old(buf).bytes(), old(buf).offset()),
                old(buf).offset(),
                r,
                final(self)@,
                final(buf).offset(),
            ),
            final(self).op() == old(self).op(),
            r is Err ==> *final(self) == *old(self),
        decreases old(buf).bytes().len() - old(buf).offset(), 2int,
    {
        match self {
            IntrinsicNode::I32ConstIntrinsicNode(i) => i.load(buf),
            IntrinsicNode::LocalGetIntrinsicNode(l) => l.load(buf),
            IntrinsicNode::LocalSetIntrinsicNode(l) => l.load(buf),
            IntrinsicNode::I32EqaIntrinsicNode(_) => Ok(()),
            IntrinsicNode::I32LtSIntrinsicNode(_) => Ok(()),
            IntrinsicNode::I32GeSIntrinsicNode(_) => Ok(()),
            IntrinsicNode::I32AddIntrinsicNode(_) => Ok(()),
            IntrinsicNode::I32RemsIntrinsicNode(_) => Ok(()),
            IntrinsicNode::IfIntrinsicNode(i) => i.load(buf),
            IntrinsicNode::BlockIntrinsicNode(b) => b.load(buf),
            IntrinsicNode::LoopIntrinsicNode(l) => l.load(buf),
            IntrinsicNode::BrIntrinsicNode(b) => b.load(buf),
            IntrinsicNode::BrIfIntrinsicNode(b) => b.load(buf),
        }
    }
}

impl IfIntrinsicNode {
    pub fn new() -> (r: IfIntrinsicNode)
        ensures
            r@ == blank_instr(Op::If),
    {
        IfIntrinsicNode {
            block_type: BlockType::Empty,
            then_expr: ExprNode::new(),
            else_expr: ExprNode::new(),
        }
    }

    /// Decodes the block type and the branches. A failure leaves node and
    /// buffer as they were.
    pub fn load(&mut self, buf: &mut Buffer) -> (r: Result<(), DecodeError>)
        ensures
            final(buf).bytes() == old(buf).bytes(),
            loads_as(
                parse_operands(Op::If, old(buf).bytes(), old(buf).offset()),
                old(buf).offset(),
                r,
                final(self)@,
                final(buf).offset(),
            ),
            r is Err ==> *final(self) == *old(self),
        decreases old(buf).bytes().len() - old(buf).offset(), 1int,
    {
        let mark: usize = buf.position();
        let ghost bytes = buf.bytes();
        let block_type = BlockType::read(buf)?;
        proof {
            lemma_block_type_advances(bytes, mark as int);
            lemma_expr_advances(bytes, buf.offset());
        }
        let mut then_expr = ExprNode::new();
        if let Err(e) = then_expr.load(buf) {
            buf.reset(mark);
            return Err(e);
        }
        let mut else_expr = ExprNode::new();
        proof {
            lemma_expr_advances(bytes, buf.offset());
            assert(then_expr@.instrs =~= appended(blank_expr(), then_expr@).instrs);
        }
        if let Some(Op::Else) = then_expr.end_op {
            if let Err(e) = else_expr.load(buf) {
                buf.reset(mark);
                return Err(e);
            }
            if let Some(Op::Else) = else_expr.end_op {
                buf.reset(mark);
                return Err(DecodeError::UnexpectedElse);
            }
        }
        self.block_type = block_type;
        self.then_expr = then_expr;
        self.else_expr = else_expr;
        Ok(())
    }
}

impl BlockIntrinsicNode {
    pub fn new() -> (r: BlockIntrinsicNode)
        ensures
            r@ == blank_instr(Op::Block),
    {
        BlockIntrinsicNode { block_type: BlockType::Empty, expr: ExprNode::new() }
    }

    /// Decodes the block type and the body. A failure leaves node and buffer
    /// as they were.
    pub fn load(&mut self, buf: &mut Buffer) -> (r: Result<(), DecodeError>)
        ensures
            final(buf).bytes() == old(buf).bytes(),
            loads_as(
                parse_operands(Op::Block, old(buf).bytes(), old(buf).offset()),
                old(buf).offset(),
                r,
                final(self)@,
                final(buf).offset(),
            ),
            r is Err ==> *final(self) == *old(self),
        decreases old(buf).bytes().len() - old(buf).offset(), 1int,
    {
        let mark: usize = buf.position();
        let ghost bytes = buf.bytes();
        let block_type = BlockType::read(buf)?;
        proof {
            lemma_block_type_advances(bytes, mark as int);
        }
        let mut expr = ExprNode::new();
        if let Err(e) = expr.load(buf) {
            buf.reset(mark);
            return Err(e);
        }
        if let Some(Op::Else) = expr.end_op {
            buf.reset(mark);
            return Err(DecodeError::UnexpectedElse);
        }
        proof {
            assert(expr@.instrs =~= appended(blank_expr(), expr@).instrs);
        }
        self.block_type = block_type;
        self.expr = expr;
        Ok(())
    }
}

impl LoopIntrinsicNode {
    pub fn new() -> (r: LoopIntrinsicNode)
        ensures
            r@ == blank_instr(Op::Loop),
    {
        LoopIntrinsicNode { block_type: BlockType::Empty, expr: ExprNode::new() }
    }

    /// Decodes the block type and the body. A failure leaves node and buffer
    /// as they were.
    pub fn load(&mut self, buf: &mut Buffer) -> (r: Result<(), DecodeError>)
        ensures
            final(buf).bytes() == old(buf).bytes(),
            loads_as(
                parse_operands(Op::Loop, old(buf).bytes(), old(buf).offset()),
                old(buf).offset(),
                r,
                final(self)@,
                final(buf).offset(),
            ),
            r is Err ==> *final(self) == *old(self),
        decreases old(buf).bytes().len() - old(buf).offset(), 1int,
    {
        let mark: usize = buf.position();
        let ghost bytes = buf.bytes();
        let block_type = BlockType::read(buf)?;
        proof {
            lemma_block_type_advances(bytes, mark as int);
        }
        let mut expr = ExprNode::new();
        if let Err(e) = expr.load(buf) {
            buf.reset(mark);
            return Err(e);
        }
        if let Some(Op::Else) = expr.end_op {
            buf.reset(mark);
            return Err(DecodeError::UnexpectedElse);
        }
        proof {
            assert(expr@.instrs =~= appended(blank_expr(), expr@).instrs);
        }
        self.block_type = block_type;
        self.expr = expr;
        Ok(())
    }
}

impl View for LocalNode {
    type V = LocalNode;

    open spec fn view(&self) -> LocalNode {
        *self
    }
}

impl LocalNode {
    pub fn new() -> (r: LocalNode)
        ensures
            r == (LocalNode { num: 0, val_type: ValType::NumType(NumType::I32(0)) }),
    {
        LocalNode { num: 0, val_type: ValType::NumType(NumType::I32(0)) }
    }

    /// Decodes a run of locals into the node. A failure leaves node and
    /// buffer as they were.
    pub fn load(&mut self, buf: &mut Buffer) -> (r: Result<(), DecodeError>)
        ensures
            final(buf).bytes() == old(buf).bytes(),
            loads_as(
                parse_local(old(buf).bytes(), old(buf).offset()),
                old(buf).offset(),
                r,
                *final(self),
                final(buf).offset(),
            ),
            r is Err ==> *final(self) == *old(self),
    {
        let mark: usize = buf.position();
        let num: u32 = buf.read_u32()?;
        let tag: u8 = match buf.read_byte() {
            Ok(tag) => tag,
            Err(e) => {
                buf.reset(mark);
                return Err(e);
            },
        };
        match ValType::from_u8(tag) {
            Some(val_type) => {
                self.num = num;
                self.val_type = val_type;
                Ok(())
            },
            None => {
                buf.reset(mark);
                Err(DecodeError::InvalidValType(tag))
            },
        }
    }
}

/// A function body: its runs of locals and its expression.
#[derive(Debug, Clone, PartialEq, Eq)]
pub struct FuncNode {
    pub locals: Vec<LocalNode>,
    pub expr: ExprNode,
}

impl View for FuncNode {
    type V = Func;

    open spec fn view(&self) -> Func {
        Func { locals: self.locals@, expr: self.expr@ }
    }
}

impl FuncNode {
    pub fn new() -> (r: FuncNode)
        ensures
            r@ == blank_func(),
    {
        FuncNode { locals: Vec::new(), expr: ExprNode::new() }
    }

    /// Decodes a function body onto the node: the locals are replaced, the
    /// expression is decoded onto the node's expression. A failure leaves
    /// node and buffer as they were.
    pub fn load(&mut self, buf: &mut Buffer) -> (r: Result<(), DecodeError>)
        ensures
            final(buf).bytes() == old(buf).bytes(),
            match parse_func(old(buf).bytes(), old(buf).offset()) {
                Ok((func, end)) => r is Ok && final(self)@ == func_onto(old(self)@, func)
                    && final(buf).offset() == end,
                Err(e) => r == Err::<(), DecodeError>(e) && final(buf).offset() == old(buf).offset(),
            },
            r is Err ==> *final(self) == *old(self),
    {
        let mark: usize = buf.position();
        let f = |buf: &mut Buffer| -> (r: Result<LocalNode, DecodeError>)
            ensures
                final(buf).bytes() == old(buf).bytes(),
                reads_as(
                    parse_local(old(buf).bytes(), old(buf).offset()),
                    old(buf).offset(),
                    r,
                    final(buf).offset(),
                ),
            {
                let mut local = LocalNode::new();
                local.load(buf)?;
                Ok(local)
            };
        let ghost one = local_decoder();
        let locals: Vec<LocalNode> = match buf.read_vec(f) {
            Ok(locals) => {
                proof {
                    assert(parse_vec(one, old(buf).bytes(), old(buf).offset()) is Ok);
                    assert(views(locals@) =~= locals@);
                }
                locals
            },
            Err(e) => {
                proof {
                    assert(parse_vec(one, old(buf).bytes(), old(buf).offset()) is Err);
                }
                return Err(e);
            },
        };
        if let Err(e) = self.expr.load(buf) {
            buf.reset(mark);
            return Err(e);
        }
        self.locals = locals;
        Ok(())
    }
}

/// An entry of the code section: the declared size of the body in bytes, and
/// the body.
#[derive(Debug, Clone, PartialEq, Eq)]
pub struct CodeNode {
    pub size: u32,
    pub func: FuncNode,
}

impl View for CodeNode {
    type V = Code;

    open spec fn view(&self) -> Code {
        Code { size: self.size, func: self.func@ }
    }
}

impl CodeNode {
    pub fn new() -> (r: CodeNode)
        ensures
            r@ == (Code { size: 0, func: blank_func() }),
    {
        CodeNode { size: 0, func: FuncNode::new() }
    }

    /// Decodes an entry onto the node: the size is replaced, the body is
    /// decoded onto the node's body, within a buffer of its own that holds
    /// the entry's bytes and no more. A failure leaves node and buffer as
    /// they were.
    pub fn load(&mut self, buf: &mut Buffer) -> (r: Result<(), DecodeError>)
        ensures
            final(buf).bytes() == old(buf).bytes(),
            match parse_code(old(buf).bytes(), old(buf).offset()) {
                Ok((code, end)) => r is Ok && final(self)@ == code_onto(old(self)@, code)
                    && final(buf).offset() == end,
                Err(e) => r == Err::<(), DecodeError>(e) && final(buf).offset() == old(buf).offset(),
            },
            r is Err ==> *final(self) == *old(self),
    {
        let mark: usize = buf.position();
        let size: u32 = buf.read_u32()?;
        let mut func_buf: Buffer = match buf.read_buffer(size) {
            Ok(func_buf) => func_buf,
            Err(e) => {
                buf.reset(mark);
                return Err(e);
            },
        };
        if let Err(e) = self.func.load(&mut func_buf) {
            buf.reset(mark);
            return Err(e);
        }
        self.size = size;
        Ok(())
    }
}

/// The code section: one entry for each function that the module defines.
#[derive(Debug, Clone, PartialEq, Eq)]
pub struct CodeSectionNode {
    pub codes: Vec<CodeNode>,
}

impl View for CodeSectionNode {
    type V = Seq<Code>;

    open spec fn view(&self) -> Seq<Code> {
        views(self.codes@)
    }
}

impl CodeSectionNode {
    pub fn new() -> (r: CodeSectionNode)
        ensures
            r@ == Seq::<Code>::empty(),
    {
        let r = CodeSectionNode { codes: Vec::new() };
        assert(r@ =~= Seq::<Code>::empty());
        r
    }

    /// Decodes a code section into the node. A failure leaves node and
    /// buffer as they were.
    pub fn load(&mut self, buf: &mut Buffer) -> (r: Result<(), DecodeError>)
        ensures
            final(buf).bytes() == old(buf).bytes(),
            loads_as(
                parse_code_section(old(buf).bytes(), old(buf).offset()),
                old(buf).offset(),
                r,
                final(self)@,
                final(buf).offset(),
            ),
            r is Err ==> *final(self) == *old(self),
    {
        let f = |buf: &mut Buffer| -> (r: Result<CodeNode, DecodeError>)
            ensures
                final(buf).bytes() == old(buf).bytes(),
                reads_as(
                    parse_code(old(buf).bytes(), old(buf).offset()),
                    old(buf).offset(),
                    viewed(r),
                    final(buf).offset(),
                ),
            {
                let mut code = CodeNode::new();
                code.load(buf)?;
                proof {
                    let decoded = parse_code(old(buf).bytes(), old(buf).offset())->Ok_0.0;
                    assert(Seq::<Instr>::empty() + decoded.func.expr.instrs
                        =~= decoded.func.expr.instrs);
                }
                Ok(code)
            };
        let ghost one = code_decoder();
        match buf.read_vec(f) {
            Ok(codes) => {
                proof {
                    assert(parse_vec(one, old(buf).bytes(), old(buf).offset()) is Ok);
                }
                self.codes = codes;
                Ok(())
            },
            Err(e) => {
                proof {
                    assert(parse_vec(one, old(buf).bytes(), old(buf).offset()) is Err);
                }
                Err(e)
            },
        }
    }
}

impl Default for CodeSectionNode {
    fn default() -> (r: Self)
        ensures
            r@ == Seq::<Code>::empty(),
    {
        Self::new()
    }
}

impl Default for CodeNode {
    fn default() -> (r: Self)
        ensures
            r@ == (Code { size: 0, func: blank_func() }),
    {
        Self::new()
    }
}

impl Default for FuncNode {
    fn default() -> (r: Self)
        ensures
            r@ == blank_func(),
    {
        Self::new()
    }
}

impl Default for LocalNode {
    fn default() -> (r: Self)
        ensures
            r == (LocalNode { num: 0, val_type: ValType::NumType(NumType::I32(0)) }),
    {
        Self::new()
    }
}

impl Default for ExprNode {
    fn default() -> (r: Self)
        ensures
            r@ == blank_expr(),
    {
        Self::new()
    }
}

impl Default for I32ConstIntrinsicNode {
    fn default() -> (r: Self)
        ensures
            r@ == blank_instr(Op::I32Const),
    {
        Self::new()
    }
}

impl Default for LocalGetIntrinsicNode {
    fn default() -> (r: Self)
        ensures
            r@ == blank_instr(Op::LocalGet),
    {
        Self::new()
    }
}

impl Default for LocalSetIntrinsicNode {
    fn default() -> (r: Self)
        ensures
            r@ == blank_instr(Op::LocalSet),
    {
        Self::new()
    }
}

impl Default for I32EqaIntrinsicNode {
    fn default() -> (r: Self)
        ensures
            r@ == blank_instr(Op::I32Eqa),
    {
        Self::new()
    }
}

impl Default for I32LtSIntrinsicNode {
    fn default() -> (r: Self)
        ensures
            r@ == blank_instr(Op::I32LtS),
    {
        Self::new()
    }
}

impl Default for I32GeSIntrinsicNode {
    fn default() -> (r: Self)
        ensures
            r@ == blank_instr(Op::I32GeS),
    {
        Self::new()
    }
}

impl Default for I32AddIntrinsicNode {
    fn default() -> (r: Self)
        ensures
            r@ == blank_instr(Op::I32Add),
    {
        Self::new()
    }
}

impl Default for I32RemsIntrinsicNode {
    fn default() -> (r: Self)
        ensures
            r@ == blank_instr(Op::I32Rems),
    {
        Self::new()
    }
}

impl Default for IfIntrinsicNode {
    fn default() -> (r: Self)
        ensures
            r@ == blank_instr(Op::If),
    {
        Self::new()
    }
}

} // verus!
