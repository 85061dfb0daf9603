//! Value types and the type section: the module's function signatures.

use vstd::prelude::*;
use crate::buffer::{parse_byte, parse_vec, views, Buffer};
use crate::error::{loads_as, reads_as, viewed, DecodeError, Decoded};

verus! {

/// A numeric type, with the tag byte it was decoded from.
#[derive(Debug, Clone, Copy, PartialEq, Eq, Structural)]
pub enum NumType {
    I32(u8),
    I64(u8),
    F32(u8),
    F64(u8),
}

/// A reference type, with the tag byte it was decoded from.
#[derive(Debug, Clone, Copy, PartialEq, Eq, Structural)]
pub enum RefType {
    FuncRef(u8),
    ExternRef(u8),
}

/// A value type: numeric or reference.
#[derive(Debug, Clone, Copy, PartialEq, Eq, Structural)]
pub enum ValType {
    NumType(NumType),
    RefType(RefType),
}

/// The numeric type that a tag byte stands for.
pub open spec fn num_type_of(tag: u8) -> Option<NumType> {
    if tag == 0x7f {
        Some(NumType::I32(tag))
    } else if tag == 0x7e {
        Some(NumType::I64(tag))
    } else if tag == 0x7d {
        Some(NumType::F32(tag))
    } else if tag == 0x7c {
        Some(NumType::F64(tag))
    } else {
        None
    }
}

/// The reference type that a tag byte stands for.
pub open spec fn ref_type_of(tag: u8) -> Option<RefType> {
    if tag == 0x70 {
        Some(RefType::FuncRef(tag))
    } else if tag == 0x6f {
        Some(RefType::ExternRef(tag))
    } else {
        None
    }
}

/// The value type that a tag byte stands for.
pub open spec fn val_type_of(tag: u8) -> Option<ValType> {
    match num_type_of(tag) {
        Some(num_type) => Some(ValType::NumType(num_type)),
        None => match ref_type_of(tag) {
            Some(ref_type) => Some(ValType::RefType(ref_type)),
            None => None,
        },
    }
}

/// A value type: one tag byte.
pub open spec fn parse_val_type(bytes: Seq<u8>, pos: int) -> Decoded<ValType> {
    match parse_byte(bytes, pos) {
        Err(e) => Err(e),
        Ok((tag, p)) => match val_type_of(tag) {
            Some(val_type) => Ok((val_type, p)),
            None => Err(DecodeError::InvalidValType(tag)),
        },
    }
}

/// `parse_val_type` as a value, to decode sequences with.
pub open spec fn val_type_decoder() -> spec_fn(Seq<u8>, int) -> Decoded<ValType> {
    |bytes: Seq<u8>, pos: int| parse_val_type(bytes, pos)
}

/// A function signature: parameter types and result types.
pub struct FuncType {
    pub params: Seq<ValType>,
    pub results: Seq<ValType>,
}

/// The tag byte that opens a function type.
pub const FUNCTION_TYPE_TAG: u8 = 0x60;

/// A function type: the tag byte, the parameter types, the result types.
pub open spec fn parse_func_type(bytes: Seq<u8>, pos: int) -> Decoded<FuncType> {
    match parse_byte(bytes, pos) {
        Err(e) => Err(e),
        Ok((tag, p)) => if tag != FUNCTION_TYPE_TAG {
            Err(DecodeError::InvalidFunctionTypeTag(tag))
        } else {
            match parse_vec(val_type_decoder(), bytes, p) {
                Err(e) => Err(e),
                Ok((params, q)) => match parse_vec(val_type_decoder(), bytes, q) {
                    Err(e) => Err(e),
                    Ok((results, end)) => Ok((FuncType { params, results }, end)),
                },
            }
        },
    }
}

/// `parse_func_type` as a value, to decode sequences with.
pub open spec fn func_type_decoder() -> spec_fn(Seq<u8>, int) -> Decoded<FuncType> {
    |bytes: Seq<u8>, pos: int| parse_func_type(bytes, pos)
}

/// The type section: a length-prefixed sequence of function types.
pub open spec fn parse_type_section(bytes: Seq<u8>, pos: int) -> Decoded<Seq<FuncType>> {
    parse_vec(func_type_decoder(), bytes, pos)
}

impl NumType {
    pub fn from_u8(value: u8) -> (r: Option<NumType>)
        ensures
            r == num_type_of(value),
    {
        match value {
            0x7f => Some(NumType::I32(value)),
            0x7e => Some(NumType::I64(value)),
            0x7d => Some(NumType::F32(value)),
            0x7c => Some(NumType::F64(value)),
            _ => None,
        }
    }
}

impl RefType {
    pub fn from_u8(value: u8) -> (r: Option<RefType>)
        ensures
            r == ref_type_of(value),
    {
        match value {
            0x70 => Some(RefType::FuncRef(value)),
            0x6f => Some(RefType::ExternRef(value)),
            _ => None,
        }
    }
}

impl View for ValType {
    type V = ValType;

    open spec fn view(&self) -> ValType {
        *self
    }
}

impl ValType {
    pub fn from_u8(value: u8) -> (r: Option<ValType>)
        ensures
            r == val_type_of(value),
    {
        match (NumType::from_u8(value), RefType::from_u8(value)) {
            (Some(num_type), _) => Some(ValType::NumType(num_type)),
            (_, Some(ref_type)) => Some(ValType::RefType(ref_type)),
            _ => None,
        }
    }
}

/// A list of value types: the parameters or the results of a function type.
#[derive(Debug, Clone, PartialEq, Eq)]
pub struct ResultTypeNode {
    pub val_types: Vec<ValType>,
}

impl View for ResultTypeNode {
    type V = Seq<ValType>;

    open spec fn view(&self) -> Seq<ValType> {
        self.val_types@
    }
}

impl ResultTypeNode {
    pub fn new() -> (r: ResultTypeNode)
        ensures
            r@ == Seq::<ValType>::empty(),
    {
        ResultTypeNode { val_types: Vec::new() }
    }

    /// Decodes a length-prefixed sequence of value types into the node. A
    /// failure leaves node and buffer as they were.
    pub fn load(&mut self, buf: &mut Buffer) -> (r: Result<(), DecodeError>)
        ensures
            final(buf).bytes() == old(buf).bytes(),
            loads_as(
                parse_vec(val_type_decoder(), old(buf).bytes(), old(buf).offset()),
                old(buf).offset(),
                r,
                final(self)@,
                final(buf).offset(),
            ),
            r is Err ==> *final(self) == *old(self),
    {
        let f = |buf: &mut Buffer| -> (r: Result<ValType, DecodeError>)
            ensures
                final(buf).bytes() == old(buf).bytes(),
                reads_as(
                    parse_val_type(old(buf).bytes(), old(buf).offset()),
                    old(buf).offset(),
                    r,
                    final(buf).offset(),
                ),
            {
                let mark: usize = buf.position();
                let byte: u8 = buf.read_byte()?;
                match ValType::from_u8(byte) {
                    Some(val_type) => Ok(val_type),
                    None => {
                        buf.reset(mark);
                        Err(DecodeError::InvalidValType(byte))
                    },
                }
            };
        let ghost one = val_type_decoder();
        match buf.read_vec(f) {
            Ok(val_types) => {
                proof {
                    assert(parse_vec(one, old(buf).bytes(), old(buf).offset()) is Ok);
                    assert(views(val_types@) =~= val_types@);
                }
                self.val_types = val_types;
                Ok(())
            },
            Err(e) => {
                proof {
                    assert(parse_vec(one, old(buf).bytes(), old(buf).offset()) is Err);
                }
                Err(e)
            },
        }
    }
}

/// A function type: parameter types and result types.
#[derive(Debug, Clone, PartialEq, Eq)]
pub struct FunctionTypeNode {
    pub param_type: ResultTypeNode,
    pub result_type: ResultTypeNode,
}

impl View for FunctionTypeNode {
    type V = FuncType;

    open spec fn view(&self) -> FuncType {
        FuncType { params: self.param_type@, results: self.result_type@ }
    }
}

impl FunctionTypeNode {
    pub fn new() -> (r: FunctionTypeNode)
        ensures
            r@ == (FuncType { params: Seq::empty(), results: Seq::empty() }),
    {
        FunctionTypeNode { param_type: ResultTypeNode::new(), result_type: ResultTypeNode::new() }
    }

    /// The tag byte that opens a function type.
    pub fn tag(&self) -> (t: u8)
        ensures
            t == FUNCTION_TYPE_TAG,
    {
        FUNCTION_TYPE_TAG
    }

    /// Decodes a function type into the node. A failure leaves node and
    /// buffer as they were.
    pub fn load(&mut self, buf: &mut Buffer) -> (r: Result<(), DecodeError>)
        ensures
            final(buf).bytes() == old(buf).bytes(),
            loads_as(
                parse_func_type(old(buf).bytes(), old(buf).offset()),
                old(buf).offset(),
                r,
                final(self)@,
                final(buf).offset(),
            ),
            r is Err ==> *final(self) == *old(self),
    {
        let mark: usize = buf.position();
        let byte: u8 = buf.read_byte()?;
        if byte != self.tag() {
            buf.reset(mark);
            return Err(DecodeError::InvalidFunctionTypeTag(byte));
        }
        let mut param_type = ResultTypeNode::new();
        if let Err(e) = param_type.load(buf) {
            buf.reset(mark);
            return Err(e);
        }
        let mut result_type = ResultTypeNode::new();
        if let Err(e) = result_type.load(buf) {
            buf.reset(mark);
            return Err(e);
        }
        self.param_type = param_type;
        self.result_type = result_type;
        Ok(())
    }
}

/// The type section: the module's function types, a type's index being its
/// place in the list.
#[derive(Debug, Clone, PartialEq, Eq)]
pub struct TypeSectionNode {
    pub func_types: Vec<FunctionTypeNode>,
}

impl View for TypeSectionNode {
    type V = Seq<FuncType>;

    open spec fn view(&self) -> Seq<FuncType> {
        views(self.func_types@)
    }
}

impl TypeSectionNode {
    pub fn new() -> (r: TypeSectionNode)
        ensures
            r@ == Seq::<FuncType>::empty(),
    {
        let r = TypeSectionNode { func_types: Vec::new() };
        assert(r@ =~= Seq::<FuncType>::empty());
        r
    }

    /// Decodes a type section into the node. A failure leaves node and
    /// buffer as they were.
    pub fn load(&mut self, buf: &mut Buffer) -> (r: Result<(), DecodeError>)
        ensures
            final(buf).bytes() == old(buf).bytes(),
            loads_as(
                parse_type_section(old(buf).bytes(), old(buf).offset()),
                old(buf).offset(),
                r,
                final(self)@,
                final(buf).offset(),
            ),
            r is Err ==> *final(self) == *old(self),
    {
        let f = |buf: &mut Buffer| -> (r: Result<FunctionTypeNode, DecodeError>)
            ensures
                final(buf).bytes() == old(buf).bytes(),
                reads_as(
                    parse_func_type(old(buf).bytes(), old(buf).offset()),
                    old(buf).offset(),
                    viewed(r),
                    final(buf).offset(),
                ),
            {
                let mut func_type = FunctionTypeNode::new();
                func_type.load(buf)?;
                Ok(func_type)
            };
        let ghost one = func_type_decoder();
        match buf.read_vec(f) {
            Ok(func_types) => {
                proof {
                    assert(parse_vec(one, old(buf).bytes(), old(buf).offset()) is Ok);
                }
                self.func_types = func_types;
                Ok(())
            },
            Err(e) => {
                proof {
                    assert(parse_vec(one, old(buf).bytes(), old(buf).offset()) is Err);
                }
                Err(e)
            },
        }
    }
}

impl Default for ResultTypeNode {
    fn default() -> (r: Self)
        ensures
            r@ == Seq::<ValType>::empty(),
    {
        Self::new()
    }
}

impl Default for FunctionTypeNode {
    fn default() -> (r: Self)
        ensures
            r@ == (FuncType { params: Seq::empty(), results: Seq::empty() }),
    {
        Self::new()
    }
}

impl Default for TypeSectionNode {
    fn default() -> (r: Self)
        ensures
            r@ == Seq::<FuncType>::empty(),
    {
        Self::new()
    }
}

} // verus!
