//! Decoder for the export name table of a 64-bit Portable Executable image.
//!
//! The image is held in memory and read through a [`ByteSource`], a cursor
//! with absolute and relative seeks and exact-length reads. Each step of the
//! decoder has a model, a spec function over the bytes of the image as a
//! `Seq<u8>`, and is proved to compute it; [`decode::export_names_of`] is the
//! model of the whole decode, and [`export_names`] the function that runs it.

pub mod decode;
pub mod error;
pub mod export;
pub mod first;
pub mod header;
pub mod le;
pub mod names;
pub mod section;
pub mod source;
pub mod text;

pub use decode::export_names;
pub use error::DecodeError;
pub use le::u32_from_le_byte_slice;
pub use section::{SectionInfo, SectionTable};
pub use source::{read_u16le, read_u32le, ByteSource};
