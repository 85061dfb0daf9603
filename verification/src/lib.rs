//! A decoder for the WebAssembly binary format.
//!
//! A module is decoded from a byte buffer into a tree of sections, function
//! types, exports and function bodies. Every decoding function is proved to
//! return exactly what the format's grammar, written as specification
//! functions over byte sequences, assigns to the bytes it reads.

pub mod buffer;
pub mod code_section;
pub mod error;
pub mod export_section;
pub mod func_section;
pub mod leb128;
pub mod module;
pub mod section;
pub mod type_section;
