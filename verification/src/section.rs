//! Sections: the tagged, length-prefixed regions that a module is made of.

use vstd::prelude::*;
use crate::buffer::{parse_byte, parse_bytes, Buffer};
use crate::code_section::{parse_code_section, Code, CodeSectionNode};
use crate::error::{loads_as, DecodeError, Decoded};
use crate::export_section::{parse_export_section, Export, ExportSectionNode};
use crate::func_section::{parse_function_section, FunctionSectionNode};
use crate::leb128::{lemma_varint_end, parse_u32};
use crate::type_section::{parse_type_section, FuncType, TypeSectionNode};

verus! {

/// The identifier of the type section.
pub const TYPE_SECTION_ID: u8 = 1;

/// The identifier of the function section.
pub const FUNCTION_SECTION_ID: u8 = 3;

/// The identifier of the export section.
pub const EXPORT_SECTION_ID: u8 = 7;

/// The identifier of the code section.
pub const CODE_SECTION_ID: u8 = 10;

/// A section and what it holds.
pub enum Section {
    Type(Seq<FuncType>),
    Function(Seq<u32>),
    Code(Seq<Code>),
    Export(Seq<Export>),
}

/// The section of an identifier before anything is decoded into it; `None`
/// for an identifier that names no section known here.
pub open spec fn blank_section(id: u8) -> Option<Section> {
    if id == TYPE_SECTION_ID {
        Some(Section::Type(Seq::empty()))
    } else if id == FUNCTION_SECTION_ID {
        Some(Section::Function(Seq::empty()))
    } else if id == EXPORT_SECTION_ID {
        Some(Section::Export(Seq::empty()))
    } else if id == CODE_SECTION_ID {
        Some(Section::Code(Seq::empty()))
    } else {
        None
    }
}

/// The contents of the section with identifier `id`, from `pos` on. An
/// identifier that names no section known here fails with
/// `UnknownSectionId`.
pub open spec fn parse_contents(id: u8, bytes: Seq<u8>, pos: int) -> Decoded<Section> {
    if id == TYPE_SECTION_ID {
        match parse_type_section(bytes, pos) {
            Err(e) => Err(e),
            Ok((func_types, end)) => Ok((Section::Type(func_types), end)),
        }
    } else if id == FUNCTION_SECTION_ID {
        match parse_function_section(bytes, pos) {
            Err(e) => Err(e),
            Ok((type_indices, end)) => Ok((Section::Function(type_indices), end)),
        }
    } else if id == EXPORT_SECTION_ID {
        match parse_export_section(bytes, pos) {
            Err(e) => Err(e),
            Ok((exports, end)) => Ok((Section::Export(exports), end)),
        }
    } else if id == CODE_SECTION_ID {
        match parse_code_section(bytes, pos) {
            Err(e) => Err(e),
            Ok((codes, end)) => Ok((Section::Code(codes), end)),
        }
    } else {
        Err(DecodeError::UnknownSectionId(id))
    }
}

/// A section: the identifier, one byte; the length of the contents in
/// bytes, an unsigned varint; then that many bytes, within which the
/// contents are decoded from their first byte on. The identifier is looked
/// at only once the bytes are there. The section ends where its bytes end.
///
/// Opaque, to keep the kinds of contents out of proofs that do not ask for
/// them: `reveal(parse_section)` unfolds it.
#[verifier::opaque]
pub open spec fn parse_section(bytes: Seq<u8>, pos: int) -> Decoded<Section> {
    match parse_byte(bytes, pos) {
        Err(e) => Err(e),
        Ok((id, p)) => match parse_u32(bytes, p) {
            Err(e) => Err(e),
            Ok((size, q)) => match parse_bytes(bytes, q, size as nat) {
                Err(e) => Err(e),
                Ok((region, end)) => match parse_contents(id, region, 0) {
                    Err(e) => Err(e),
                    Ok((section, _)) => Ok((section, end)),
                },
            },
        },
    }
}

/// A section takes at least two bytes and ends within the bytes.
pub proof fn lemma_section_advances(bytes: Seq<u8>, pos: int)
    ensures
        parse_section(bytes, pos) matches Ok((_, end)) ==> pos + 2 <= end <= bytes.len(),
{
    reveal(parse_section);
    lemma_varint_end(bytes, pos + 1);
}

/// Whether a whole section is written at `at`: an identifier, a length, and
/// as many bytes as the length says.
pub open spec fn section_written(bytes: Seq<u8>, at: int) -> bool {
    &&& 0 <= at < bytes.len()
    &&& parse_u32(bytes, at + 1) matches Ok((size, body))
    &&& body + size <= bytes.len()
}

/// A whole section whose identifier names no section known here fails with
/// `UnknownSectionId`, whatever its contents.
pub proof fn lemma_unknown_section_id(bytes: Seq<u8>, at: int)
    requires
        section_written(bytes, at),
        blank_section(bytes[at]) is None,
    ensures
        parse_section(bytes, at) == Err::<(Section, int), DecodeError>(
            DecodeError::UnknownSectionId(bytes[at]),
        ),
{
    reveal(parse_section);
    lemma_varint_end(bytes, at + 1);
}

/// A section of the module, by its kind.
#[derive(Debug, Clone, PartialEq, Eq)]
pub enum SectionNode {
    TypeSectionNode(TypeSectionNode),
    FunctionSectionNode(FunctionSectionNode),
    CodeSectionNode(CodeSectionNode),
    ExportSectionNode(ExportSectionNode),
}

impl View for SectionNode {
    type V = Section;

    open spec fn view(&self) -> Section {
        match self {
            SectionNode::TypeSectionNode(t) => Section::Type(t@),
            SectionNode::FunctionSectionNode(f) => Section::Function(f@),
            SectionNode::CodeSectionNode(c) => Section::Code(c@),
            SectionNode::ExportSectionNode(e) => Section::Export(e@),
        }
    }
}

impl SectionNode {
    /// The identifier of the section's kind.
    pub open spec fn id(&self) -> u8 {
        match self {
            SectionNode::TypeSectionNode(_) => TYPE_SECTION_ID,
            SectionNode::FunctionSectionNode(_) => FUNCTION_SECTION_ID,
            SectionNode::CodeSectionNode(_) => CODE_SECTION_ID,
            SectionNode::ExportSectionNode(_) => EXPORT_SECTION_ID,
        }
    }

    /// The section of identifier `section_id`, with nothing decoded into it
    /// yet.
    pub fn create(section_id: u8) -> (r: Result<SectionNode, DecodeError>)
        ensures
            match blank_section(section_id) {
                Some(section) => r matches Ok(node) && node@ == section && node.id() == section_id,
                None => r matches Err(e) && e == DecodeError::UnknownSectionId(section_id),
            },
    {
        match section_id {
            TYPE_SECTION_ID => Ok(SectionNode::TypeSectionNode(TypeSectionNode::new())),
            FUNCTION_SECTION_ID => Ok(SectionNode::FunctionSectionNode(FunctionSectionNode::new())),
            EXPORT_SECTION_ID => Ok(SectionNode::ExportSectionNode(ExportSectionNode::new())),
            CODE_SECTION_ID => Ok(SectionNode::CodeSectionNode(CodeSectionNode::new())),
            _ => Err(DecodeError::UnknownSectionId(section_id)),
        }
    }

    /// Decodes the contents of a section of the node's kind into the node. A
    /// failure leaves node and buffer as they were.
    pub fn load(&mut self, buf: &mut Buffer) -> (r: Result<(), DecodeError>)
        ensures
            final(buf).bytes() == old(buf).bytes(),
            loads_as(
                parse_contents(old(self).id(), old(buf).bytes(), old(buf).offset()),
                old(buf).offset(),
                r,
                final(self)@,
                final(buf).offset(),
            ),
            final(self).id() == old(self).id(),
            r is Err ==> *final(self) == *old(self),
    {
        match self {
            SectionNode::TypeSectionNode(t) => t.load(buf),
            SectionNode::FunctionSectionNode(f) => f.load(buf),
            SectionNode::CodeSectionNode(c) => c.load(buf),
            SectionNode::ExportSectionNode(e) => e.load(buf),
        }
    }
}

} // verus!
