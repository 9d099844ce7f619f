//! The PE signature, the COFF file header and the optional-header magic.

use vstd::prelude::*;
use crate::error::DecodeError;
use crate::source::{read_at, read_u16le, read_u32le, u16_at, u32_at, ByteSource};

verus! {

/// Where the image keeps the offset of its PE header.
pub const PE_POINTER_OFFSET: u64 = 0x3c;

/// The machine type of x86-64 images, the only one accepted.
pub const MACHINE_X86_64: u16 = 0x8664;

/// The optional-header magic of 64-bit images, the only one accepted.
pub const MAGIC_PE32_PLUS: u16 = 0x020b;

/// The four bytes that open the PE header: "PE", then two zero bytes.
pub open spec fn pe_signature() -> Seq<u8> {
    seq![0x50u8, 0x45u8, 0u8, 0u8]
}

/// The fields of the file header that the rest of the decoder needs. The
/// offsets that derive from them are mathematical sums; none can overflow.
#[derive(Debug, Clone, Copy, PartialEq, Eq, Structural)]
pub struct PeHeader {
    pub pe_header_offset: u32,
    pub section_count: u16,
    pub optional_header_size: u16,
}

impl PeHeader {
    /// The COFF header follows the four bytes of the signature.
    pub open spec fn spec_coff_header_offset(&self) -> int {
        self.pe_header_offset + 4
    }

    /// The optional header follows the twenty bytes of the COFF header.
    pub open spec fn spec_optional_header_offset(&self) -> int {
        self.spec_coff_header_offset() + 20
    }

    /// The section table follows the optional header.
    pub open spec fn spec_section_table_offset(&self) -> int {
        self.spec_optional_header_offset() + self.optional_header_size
    }

    /// The data directories start 112 bytes into a 64-bit optional header.
    pub open spec fn spec_data_directories_offset(&self) -> int {
        self.spec_optional_header_offset() + 112
    }

    /// The offset of the COFF header.
    pub fn coff_header_offset(&self) -> (offset: u64)
        ensures
            offset == self.spec_coff_header_offset(),
    {
        self.pe_header_offset as u64 + 4
    }

    /// The offset of the optional header.
    pub fn optional_header_offset(&self) -> (offset: u64)
        ensures
            offset == self.spec_optional_header_offset(),
    {
        self.coff_header_offset() + 20
    }

    /// The offset of the section table.
    pub fn section_table_offset(&self) -> (offset: u64)
        ensures
            offset == self.spec_section_table_offset(),
    {
        self.optional_header_offset() + self.optional_header_size as u64
    }

    /// The offset of the data directories.
    pub fn data_directories_offset(&self) -> (offset: u64)
        ensures
            offset == self.spec_data_directories_offset(),
    {
        self.optional_header_offset() + 112
    }
}

/// The header of an image, or the first failure on the way to it. The
/// fields are read and tested in this order: the PE header offset, the
/// signature, the machine type, the section count, the size of the optional
/// header.
pub open spec fn header_of(image: Seq<u8>) -> Result<PeHeader, DecodeError> {
    match u32_at(image, PE_POINTER_OFFSET as int) {
        None => Err(DecodeError::Io),
        Some(pe_header_offset) => match read_at(image, pe_header_offset as int, 4) {
            None => Err(DecodeError::Io),
            Some(signature) => if signature != pe_signature() {
                Err(DecodeError::Format)
            } else {
                match u16_at(image, pe_header_offset + 4) {
                    None => Err(DecodeError::Io),
                    Some(machine) => if machine != MACHINE_X86_64 {
                        Err(DecodeError::Format)
                    } else {
                        match u16_at(image, pe_header_offset + 6) {
                            None => Err(DecodeError::Io),
                            Some(section_count) => match u16_at(image, pe_header_offset + 20) {
                                None => Err(DecodeError::Io),
                                Some(optional_header_size) => Ok(
                                    PeHeader {
                                        pe_header_offset,
                                        section_count,
                                        optional_header_size,
                                    },
                                ),
                            },
                        }
                    },
                }
            },
        },
    }
}

/// Whether the optional header at `header`'s offset is that of a 64-bit
/// image: `Ok` with the offset of the data directories if so.
pub open spec fn data_directories_of(image: Seq<u8>, header: PeHeader) -> Result<
    int,
    DecodeError,
> {
    match u16_at(image, header.spec_optional_header_offset()) {
        None => Err(DecodeError::Io),
        Some(magic) => if magic != MAGIC_PE32_PLUS {
            Err(DecodeError::Format)
        } else {
            Ok(header.spec_data_directories_offset())
        },
    }
}

/// Finds the PE header through the pointer at offset `0x3c`, checks the
/// signature and the machine type, and reads the section count and the size
/// of the optional header.
pub fn locate_header(file: &mut ByteSource) -> (header: Result<PeHeader, DecodeError>)
    ensures
        final(file).bytes() == old(file).bytes(),
        header == header_of(old(file).bytes()),
        header matches Ok(h) ==> final(file).cursor() == h.spec_coff_header_offset() + 18,
{
    file.seek(PE_POINTER_OFFSET);
    let pe_header_offset = match read_u32le(file) {
        Ok(offset) => offset,
        Err(e) => {
            return Err(e);
        },
    };
    file.seek(pe_header_offset as u64);
    let signature = match file.read_exact(4) {
        Ok(bytes) => bytes,
        Err(e) => {
            return Err(e);
        },
    };
    let signature_matches = signature[0] == 0x50 && signature[1] == 0x45 && signature[2] == 0
        && signature[3] == 0;
    assert(signature_matches <==> signature@ =~= pe_signature());
    if !signature_matches {
        return Err(DecodeError::Format);
    }
    file.seek(pe_header_offset as u64 + 4);
    let machine = match read_u16le(file) {
        Ok(machine) => machine,
        Err(e) => {
            return Err(e);
        },
    };
    if machine != MACHINE_X86_64 {
        return Err(DecodeError::Format);
    }
    let section_count = match read_u16le(file) {
        Ok(count) => count,
        Err(e) => {
            return Err(e);
        },
    };
    match file.seek_relative(0xc) {
        Ok(()) => {},
        Err(e) => {
            return Err(e);
        },
    }
    let optional_header_size = match read_u16le(file) {
        Ok(size) => size,
        Err(e) => {
            return Err(e);
        },
    };
    Ok(PeHeader { pe_header_offset, section_count, optional_header_size })
}

/// Checks that the optional header is that of a 64-bit image, and gives the
/// offset of its data directories.
pub fn validate_optional_header(file: &mut ByteSource, header: &PeHeader) -> (directories: Result<
    u64,
    DecodeError,
>)
    ensures
        final(file).bytes() == old(file).bytes(),
        match directories {
            Ok(offset) => data_directories_of(old(file).bytes(), *header) == Ok::<
                int,
                DecodeError,
            >(offset as int) && final(file).cursor() == header.spec_optional_header_offset() + 2,
            Err(e) => data_directories_of(old(file).bytes(), *header) == Err::<int, DecodeError>(
                e,
            ),
        },
{
    file.seek(header.optional_header_offset());
    let magic = match read_u16le(file) {
        Ok(magic) => magic,
        Err(e) => {
            return Err(e);
        },
    };
    if magic != MAGIC_PE32_PLUS {
        return Err(DecodeError::Format);
    }
    Ok(header.data_directories_offset())
}

} // verus!
