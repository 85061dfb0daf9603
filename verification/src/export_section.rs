//! The export section: the names under which the module hands out its
//! functions, tables, memories and globals.

use vstd::prelude::*;
use crate::buffer::{parse_byte, parse_name, parse_vec, views, Buffer};
use crate::error::{loads_as, reads_as, viewed, DecodeError, Decoded};
use crate::leb128::parse_u32;

verus! {

/// What an export refers to: the kind of the thing (0 a function, 1 a table,
/// 2 a memory, 3 a global; other tags are kept as they are) and its index.
#[derive(Debug, Clone, Copy, PartialEq, Eq, Structural)]
pub struct ExportDescNode {
    pub tag: u8,
    pub index: u32,
}

/// An export: a name and what it refers to.
pub struct Export {
    pub name: Seq<char>,
    pub desc: ExportDescNode,
}

/// An export descriptor: the kind tag, one byte, then the index, an
/// unsigned varint.
pub open spec fn parse_export_desc(bytes: Seq<u8>, pos: int) -> Decoded<ExportDescNode> {
    match parse_byte(bytes, pos) {
        Err(e) => Err(e),
        Ok((tag, p)) => match parse_u32(bytes, p) {
            Err(e) => Err(e),
            Ok((index, end)) => Ok((ExportDescNode { tag, index }, end)),
        },
    }
}

/// An export: its name, then its descriptor.
pub open spec fn parse_export(bytes: Seq<u8>, pos: int) -> Decoded<Export> {
    match parse_name(bytes, pos) {
        Err(e) => Err(e),
        Ok((name, p)) => match parse_export_desc(bytes, p) {
            Err(e) => Err(e),
            Ok((desc, end)) => Ok((Export { name, desc }, end)),
        },
    }
}

/// `parse_export` as a value, to decode sequences with.
pub open spec fn export_decoder() -> spec_fn(Seq<u8>, int) -> Decoded<Export> {
    |bytes: Seq<u8>, pos: int| parse_export(bytes, pos)
}

/// The export section: a length-prefixed sequence of exports.
pub open spec fn parse_export_section(bytes: Seq<u8>, pos: int) -> Decoded<Seq<Export>> {
    parse_vec(export_decoder(), bytes, pos)
}

impl View for ExportDescNode {
    type V = ExportDescNode;

    open spec fn view(&self) -> ExportDescNode {
        *self
    }
}

impl ExportDescNode {
    pub fn new() -> (r: ExportDescNode)
        ensures
            r == (ExportDescNode { tag: 0, index: 0 }),
    {
        ExportDescNode { tag: 0, index: 0 }
    }

    /// Decodes an export descriptor into the node. A failure leaves node and
    /// buffer as they were.
    pub fn load(&mut self, buf: &mut Buffer) -> (r: Result<(), DecodeError>)
        ensures
            final(buf).bytes() == old(buf).bytes(),
            loads_as(
                parse_export_desc(old(buf).bytes(), old(buf).offset()),
                old(buf).offset(),
                r,
                *final(self),
                final(buf).offset(),
            ),
            r is Err ==> *final(self) == *old(self),
    {
        let mark: usize = buf.position();
        let tag: u8 = buf.read_byte()?;
        let index: u32 = match buf.read_u32() {
            Ok(index) => index,
            Err(e) => {
                buf.reset(mark);
                return Err(e);
            },
        };
        self.tag = tag;
        self.index = index;
        Ok(())
    }
}

/// An export: a name and what it refers to.
#[derive(Debug, Clone, PartialEq, Eq)]
pub struct ExportNode {
    pub name: String,
    pub desc: ExportDescNode,
}

impl View for ExportNode {
    type V = Export;

    open spec fn view(&self) -> Export {
        Export { name: self.name@, desc: self.desc }
    }
}

impl ExportNode {
    pub fn new() -> (r: ExportNode)
        ensures
            r@ == (Export { name: Seq::empty(), desc: ExportDescNode { tag: 0, index: 0 } }),
    {
        ExportNode { name: String::new(), desc: ExportDescNode::new() }
    }

    /// Decodes an export into the node. A failure leaves node and buffer as
    /// they were.
    pub fn load(&mut self, buf: &mut Buffer) -> (r: Result<(), DecodeError>)
        ensures
            final(buf).bytes() == old(buf).bytes(),
            loads_as(
                parse_export(old(buf).bytes(), old(buf).offset()),
                old(buf).offset(),
                r,
                final(self)@,
                final(buf).offset(),
            ),
            r is Err ==> *final(self) == *old(self),
    {
        let mark: usize = buf.position();
        let name: String = buf.read_name()?;
        let mut desc = ExportDescNode::new();
        if let Err(e) = desc.load(buf) {
            buf.reset(mark);
            return Err(e);
        }
        self.name = name;
        self.desc = desc;
        Ok(())
    }
}

/// The export section: the module's exports in the order they are written.
#[derive(Debug, Clone, PartialEq, Eq)]
pub struct ExportSectionNode {
    pub exports: Vec<ExportNode>,
}

impl View for ExportSectionNode {
    type V = Seq<Export>;

    open spec fn view(&self) -> Seq<Export> {
        views(self.exports@)
    }
}

impl ExportSectionNode {
    pub fn new() -> (r: ExportSectionNode)
        ensures
            r@ == Seq::<Export>::empty(),
    {
        let r = ExportSectionNode { exports: Vec::new() };
        assert(r@ =~= Seq::<Export>::empty());
        r
    }

    /// Decodes an export section into the node. A failure leaves node and
    /// buffer as they were.
    pub fn load(&mut self, buf: &mut Buffer) -> (r: Result<(), DecodeError>)
        ensures
            final(buf).bytes() == old(buf).bytes(),
            loads_as(
                parse_export_section(old(buf).bytes(), old(buf).offset()),
                old(buf).offset(),
                r,
                final(self)@,
                final(buf).offset(),
            ),
            r is Err ==> *final(self) == *old(self),
    {
        let f = |buf: &mut Buffer| -> (r: Result<ExportNode, DecodeError>)
            ensures
                final(buf).bytes() == old(buf).bytes(),
                reads_as(
                    parse_export(old(buf).bytes(), old(buf).offset()),
                    old(buf).offset(),
                    viewed(r),
                    final(buf).offset(),
                ),
            {
                let mut export = ExportNode::new();
                export.load(buf)?;
                Ok(export)
            };
        let ghost one = export_decoder();
        match buf.read_vec(f) {
            Ok(exports) => {
                proof {
                    assert(parse_vec(one, old(buf).bytes(), old(buf).offset()) is Ok);
                }
                self.exports = exports;
                Ok(())
            },
            Err(e) => {
                proof {
                    assert(parse_vec(one, old(buf).bytes(), old(buf).offset()) is Err);
                }
                Err(e)
            },
        }
    }
}

impl Default for ExportDescNode {
    fn default() -> (r: Self)
        ensures
            r == (ExportDescNode { tag: 0, index: 0 }),
    {
        Self::new()
    }
}

impl Default for ExportNode {
    fn default() -> (r: Self)
        ensures
            r@ == (Export { name: Seq::empty(), desc: ExportDescNode { tag: 0, index: 0 } }),
    {
        Self::new()
    }
}

impl Default for ExportSectionNode {
    fn default() -> (r: Self)
        ensures
            r@ == Seq::<Export>::empty(),
    {
        Self::new()
    }
}

} // verus!
