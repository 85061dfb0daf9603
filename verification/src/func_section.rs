//! The function section: the type index of each function the module
//! defines.

use vstd::prelude::*;
use crate::buffer::{parse_vec, views, Buffer};
use crate::error::{loads_as, reads_as, DecodeError, Decoded};
use crate::leb128::parse_u32;

verus! {

/// `parse_u32` as a value, to decode sequences with.
pub open spec fn u32_decoder() -> spec_fn(Seq<u8>, int) -> Decoded<u32> {
    |bytes: Seq<u8>, pos: int| parse_u32(bytes, pos)
}

/// The function section: a length-prefixed sequence of type indices. Whether
/// an index names a type of the module is not asked here.
pub open spec fn parse_function_section(bytes: Seq<u8>, pos: int) -> Decoded<Seq<u32>> {
    parse_vec(u32_decoder(), bytes, pos)
}

/// The function section: one type index for each function, in the order of
/// the functions.
#[derive(Debug, Clone, PartialEq, Eq)]
pub struct FunctionSectionNode {
    pub type_indices: Vec<u32>,
}

impl View for FunctionSectionNode {
    type V = Seq<u32>;

    open spec fn view(&self) -> Seq<u32> {
        self.type_indices@
    }
}

impl FunctionSectionNode {
    pub fn new() -> (r: FunctionSectionNode)
        ensures
            r@ == Seq::<u32>::empty(),
    {
        FunctionSectionNode { type_indices: Vec::new() }
    }

    /// Decodes a function section into the node. A failure leaves node and
    /// buffer as they were.
    pub fn load(&mut self, buf: &mut Buffer) -> (r: Result<(), DecodeError>)
        ensures
            final(buf).bytes() == old(buf).bytes(),
            loads_as(
                parse_function_section(old(buf).bytes(), old(buf).offset()),
                old(buf).offset(),
                r,
                final(self)@,
                final(buf).offset(),
            ),
            r is Err ==> *final(self) == *old(self),
    {
        let f = |buf: &mut Buffer| -> (r: Result<u32, DecodeError>)
            ensures
                final(buf).bytes() == old(buf).bytes(),
                reads_as(
                    parse_u32(old(buf).bytes(), old(buf).offset()),
                    old(buf).offset(),
                    r,
                    final(buf).offset(),
                ),
            {
                let type_idx: u32 = buf.read_u32()?;
                Ok(type_idx)
            };
        let ghost one = u32_decoder();
        match buf.read_vec(f) {
            Ok(type_indices) => {
                proof {
                    assert(parse_vec(one, old(buf).bytes(), old(buf).offset()) is Ok);
                    assert(views(type_indices@) =~= type_indices@);
                }
                self.type_indices = type_indices;
                Ok(())
            },
            Err(e) => {
                proof {
                    assert(parse_vec(one, old(buf).bytes(), old(buf).offset()) is Err);
                }
                Err(e)
            },
        }
    }
}

impl Default for FunctionSectionNode {
    fn default() -> (r: Self)
        ensures
            r@ == Seq::<u32>::empty(),
    {
        Self::new()
    }
}

} // verus!
