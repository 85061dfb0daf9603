//! The module: the signature, the version, and the sections in the order in
//! which the bytes hold them.

use vstd::prelude::*;
use crate::buffer::{parse_bytes, views, Buffer};
use crate::error::{reads_as, viewed, DecodeError, Decoded};
use crate::section::{
    blank_section, lemma_section_advances, lemma_unknown_section_id, parse_section,
    section_written, Section, SectionNode,
};

verus! {

/// A module: its signature, its version, its sections.
pub struct Module {
    pub magic: Seq<u8>,
    pub version: Seq<u8>,
    pub sections: Seq<Section>,
}

/// The four bytes that every module starts with: a zero byte and `asm`.
pub open spec fn magic() -> Seq<u8> {
    seq![0x00u8, 0x61u8, 0x73u8, 0x6du8]
}

/// The sections from `pos` up to the end of the bytes, in their order. A
/// kind of section may come more than once; each one is kept.
pub open spec fn parse_sections(bytes: Seq<u8>, pos: int) -> Decoded<Seq<Section>>
    decreases bytes.len() - pos,
{
    if pos >= bytes.len() {
        Ok((Seq::empty(), pos))
    } else {
        match parse_section(bytes, pos) {
            Err(e) => Err(e),
            Ok((section, next)) => {
                proof {
                    lemma_section_advances(bytes, pos);
                }
                match parse_sections(bytes, next) {
                    Err(e) => Err(e),
                    Ok((rest, end)) => Ok((seq![section] + rest, end)),
                }
            },
        }
    }
}

/// The module of a signature, a version and what the sections came to.
pub open spec fn framed(signature: Seq<u8>, version: Seq<u8>, sections: Decoded<Seq<Section>>) -> Decoded<
    Module,
> {
    match sections {
        Err(e) => Err(e),
        Ok((sections, end)) => Ok((Module { magic: signature, version, sections }, end)),
    }
}

/// A module: the signature, which has to be `magic()`; four bytes of
/// version, which may be any; then sections up to the end of the bytes.
pub open spec fn parse_module(bytes: Seq<u8>, pos: int) -> Decoded<Module> {
    match parse_bytes(bytes, pos, 4) {
        Err(e) => Err(e),
        Ok((signature, p)) => if signature != magic() {
            Err(DecodeError::InvalidMagic)
        } else {
            match parse_bytes(bytes, p, 4) {
                Err(e) => Err(e),
                Ok((version, q)) => framed(signature, version, parse_sections(bytes, q)),
            }
        },
    }
}

/// Whether `at` is a section boundary as seen from `start`: `start` itself,
/// or a position reached from `start` by whole sections that decode.
pub open spec fn boundary(bytes: Seq<u8>, start: int, at: int) -> bool
    decreases at - start,
{
    start == at || (start < at && match parse_section(bytes, start) {
        Err(_) => false,
        Ok((_, next)) => {
            proof {
                lemma_section_advances(bytes, start);
            }
            next <= at && boundary(bytes, next, at)
        },
    })
}

/// A signature other than `magic()` fails the module with `InvalidMagic`,
/// whatever follows it: no section is looked at.
pub proof fn lemma_invalid_magic(bytes: Seq<u8>, pos: int)
    requires
        0 <= pos,
        pos + 4 <= bytes.len(),
        bytes.subrange(pos, pos + 4) != magic(),
    ensures
        parse_module(bytes, pos) == Err::<(Module, int), DecodeError>(DecodeError::InvalidMagic),
{
}

/// A section whose identifier names no section known here fails the
/// sections it stands among with `UnknownSectionId`, wherever it stands:
/// behind any number of sections that decode, and whatever follows it.
pub proof fn lemma_unknown_section(bytes: Seq<u8>, start: int, at: int)
    requires
        boundary(bytes, start, at),
        section_written(bytes, at),
        blank_section(bytes[at]) is None,
    ensures
        parse_sections(bytes, start) == Err::<(Seq<Section>, int), DecodeError>(
            DecodeError::UnknownSectionId(bytes[at]),
        ),
    decreases at - start,
{
    if start == at {
        lemma_unknown_section_id(bytes, at);
    } else {
        lemma_section_advances(bytes, start);
        let next = parse_section(bytes, start)->Ok_0.1;
        lemma_unknown_section(bytes, next, at);
    }
}

/// The same of a module: with the right signature and a version in front,
/// an unknown section identifier at a section boundary fails the whole
/// module with `UnknownSectionId`.
pub proof fn lemma_unknown_section_in_module(bytes: Seq<u8>, pos: int, at: int)
    requires
        0 <= pos,
        pos + 8 <= bytes.len(),
        bytes.subrange(pos, pos + 4) == magic(),
        boundary(bytes, pos + 8, at),
        section_written(bytes, at),
        blank_section(bytes[at]) is None,
    ensures
        parse_module(bytes, pos) == Err::<(Module, int), DecodeError>(
            DecodeError::UnknownSectionId(bytes[at]),
        ),
{
    lemma_unknown_section(bytes, pos + 8, at);
}

/// A module.
#[derive(Debug, Clone, PartialEq, Eq)]
pub struct ModuleNode {
    /// https://webassembly.github.io/spec/core/binary/modules.html#binary-magic
    pub magic: Vec<u8>,
    /// https://webassembly.github.io/spec/core/binary/modules.html#binary-version
    pub version: Vec<u8>,
    /// https://webassembly.github.io/spec/core/binary/modules.html#sections
    pub sections: Vec<SectionNode>,
}

impl View for ModuleNode {
    type V = Module;

    open spec fn view(&self) -> Module {
        Module { magic: self.magic@, version: self.version@, sections: views(self.sections@) }
    }
}

/// Whether the bytes are the module signature.
fn is_magic(bytes: &Vec<u8>) -> (b: bool)
    ensures
        b == (bytes@ == magic()),
{
    let b = bytes.len() == 4 && bytes[0] == 0x00 && bytes[1] == 0x61 && bytes[2] == 0x73
        && bytes[3] == 0x6d;
    proof {
        if b {
            assert(bytes@ =~= magic());
        } else if bytes.len() == 4 {
            assert(magic()[0] == 0x00 && magic()[1] == 0x61 && magic()[2] == 0x73 && magic()[3]
                == 0x6d);
        } else {
            assert(magic().len() == 4);
        }
    }
    b
}

impl ModuleNode {
    pub fn new() -> (r: ModuleNode)
        ensures
            r@ == (Module { magic: Seq::empty(), version: Seq::empty(), sections: Seq::empty() }),
    {
        let r = ModuleNode { magic: Vec::new(), version: Vec::new(), sections: Vec::new() };
        assert(r@.sections =~= Seq::<Section>::empty());
        r
    }

    /// Decodes a module onto the node: signature and version are replaced,
    /// the sections are added behind those that the node holds. The buffer
    /// is read to its end. A failure leaves node and buffer as they were.
    pub fn load(&mut self, buf: &mut Buffer) -> (r: Result<(), DecodeError>)
        ensures
            final(buf).bytes() == old(buf).bytes(),
            match parse_module(old(buf).bytes(), old(buf).offset()) {
                Ok((module, end)) => r is Ok && final(self)@ == (Module {
                    magic: module.magic,
                    version: module.version,
                    sections: old(self)@.sections + module.sections,
                }) && final(buf).offset() == end,
                Err(e) => r == Err::<(), DecodeError>(e) && final(buf).offset() == old(buf).offset(),
            },
            r is Err ==> *final(self) == *old(self),
    {
        let mark: usize = buf.position();
        let ghost bytes = buf.bytes();
        let magic: Vec<u8> = buf.read_bytes(4)?;
        if !is_magic(&magic) {
            buf.reset(mark);
            return Err(DecodeError::InvalidMagic);
        }
        let version: Vec<u8> = match buf.read_bytes(4) {
            Ok(version) => version,
            Err(e) => {
                buf.reset(mark);
                return Err(e);
            },
        };
        let ghost first = buf.offset();
        let mut sections: Vec<SectionNode> = Vec::new();
        proof {
            assert(views(sections@) =~= Seq::<Section>::empty());
            match parse_sections(bytes, first) {
                Ok((rest, end)) => {
                    assert(views(sections@) + rest =~= rest);
                },
                Err(e) => {},
            }
        }
        loop
            invariant_except_break
                match parse_sections(bytes, buf.offset()) {
                    Ok((rest, end)) => parse_sections(bytes, first) == Ok::<
                        (Seq<Section>, int),
                        DecodeError,
                    >((views(sections@) + rest, end)),
                    Err(e) => parse_sections(bytes, first) == Err::<
                        (Seq<Section>, int),
                        DecodeError,
                    >(e),
                },
            invariant
                buf.bytes() == bytes,
                bytes == old(buf).bytes(),
                mark == old(buf).offset(),
                mark <= bytes.len(),
                *self == *old(self),
                parse_module(bytes, mark as int) == framed(
                    magic@,
                    version@,
                    parse_sections(bytes, first),
                ),
            ensures
                buf.bytes() == bytes,
                *self == *old(self),
                parse_sections(bytes, first) == Ok::<(Seq<Section>, int), DecodeError>(
                    (views(sections@), buf.offset()),
                ),
            decreases bytes.len() - buf.offset(),
        {
            let ghost before = views(sections@);
            let ghost here = buf.offset();
            if buf.eof() {
                proof {
                    assert(before + Seq::<Section>::empty() =~= before);
                }
                break ;
            }
            proof {
                lemma_section_advances(bytes, here);
            }
            let section: SectionNode = match self.load_section(buf) {
                Ok(section) => section,
                Err(e) => {
                    buf.reset(mark);
                    return Err(e);
                },
            };
            sections.push(section);
            proof {
                assert(views(sections@) =~= before + seq![section@]);
                match parse_sections(bytes, buf.offset()) {
                    Ok((rest, end)) => {
                        assert(before + (seq![section@] + rest) =~= views(sections@) + rest);
                    },
                    Err(e) => {},
                }
            }
        }
        let ghost head = self.sections@;
        let ghost tail = sections@;
        self.magic = magic;
        self.version = version;
        self.sections.append(&mut sections);
        proof {
            assert(views(head + tail) =~= views(head) + views(tail));
        }
        Ok(())
    }

    /// Reads one section: identifier, length, and the contents, which are
    /// decoded within a buffer of their own that holds the section's bytes
    /// and no more. The node takes no part in it. A failure leaves the
    /// buffer as it was.
    pub fn load_section(&mut self, buf: &mut Buffer) -> (r: Result<SectionNode, DecodeError>)
        ensures
            final(buf).bytes() == old(buf).bytes(),
            reads_as(
                parse_section(old(buf).bytes(), old(buf).offset()),
                old(buf).offset(),
                viewed(r),
                final(buf).offset(),
            ),
            *final(self) == *old(self),
    {
        proof {
            reveal(parse_section);
        }
        let mark: usize = buf.position();
        let section_id: u8 = buf.read_byte()?;
        let section_size: u32 = match buf.read_u32() {
            Ok(size) => size,
            Err(e) => {
                buf.reset(mark);
                return Err(e);
            },
        };
        let mut section_buf: Buffer = match buf.read_buffer(section_size) {
            Ok(section_buf) => section_buf,
            Err(e) => {
                buf.reset(mark);
                return Err(e);
            },
        };
        let mut section: SectionNode = match SectionNode::create(section_id) {
            Ok(section) => section,
            Err(e) => {
                buf.reset(mark);
                return Err(e);
            },
        };
        if let Err(e) = section.load(&mut section_buf) {
            buf.reset(mark);
            return Err(e);
        }
        Ok(section)
    }
}

/// Decodes the module that `bytes` hold.
pub fn decode(bytes: Vec<u8>) -> (r: Result<ModuleNode, DecodeError>)
    ensures
        match parse_module(bytes@, 0) {
            Ok((module, _)) => r matches Ok(node) && node@ == module,
            Err(e) => r matches Err(err) && err == e,
        },
{
    let mut buffer = Buffer::new(bytes);
    let mut module = ModuleNode::new();
    match module.load(&mut buffer) {
        Ok(()) => {
            proof {
                let decoded = parse_module(bytes@, 0)->Ok_0.0;
                assert(Seq::<Section>::empty() + decoded.sections =~= decoded.sections);
            }
            Ok(module)
        },
        Err(e) => Err(e),
    }
}

impl Default for ModuleNode {
    fn default() -> (r: Self)
        ensures
            r@ == (Module { magic: Seq::empty(), version: Seq::empty(), sections: Seq::empty() }),
    {
        Self::new()
    }
}

} // verus!
