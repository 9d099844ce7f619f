//! The export directory: how many names the image exports, and where the
//! table of pointers to them lies.

use vstd::prelude::*;
use vstd::slice::slice_subrange;
use crate::error::DecodeError;
use crate::le::{le_u32, u32_from_le_byte_slice};
use crate::section::{resolve, SectionInfo, SectionTable};
use crate::source::{read_at, read_u32le, u32_at, ByteSource};

verus! {

/// The size in bytes of the export directory record.
pub const EXPORT_DIRECTORY_SIZE: usize = 40;

/// The two fields of the export directory that name decoding needs.
#[derive(Debug, Clone, Copy, PartialEq, Eq, Structural)]
pub struct ExportDirectory {
    pub name_count: u32,
    pub name_pointer_table_rva: u32,
}

impl ExportDirectory {
    /// The directory that an export directory record describes.
    pub open spec fn of_record(record: Seq<u8>) -> ExportDirectory
        recommends
            record.len() == EXPORT_DIRECTORY_SIZE,
    {
        ExportDirectory {
            name_count: le_u32(record.subrange(24, 28)) as u32,
            name_pointer_table_rva: le_u32(record.subrange(32, 36)) as u32,
        }
    }

    /// Decodes an export directory record.
    pub fn from_record(record: &[u8]) -> (directory: ExportDirectory)
        requires
            record@.len() == EXPORT_DIRECTORY_SIZE,
        ensures
            directory == ExportDirectory::of_record(record@),
    {
        ExportDirectory {
            name_count: u32_from_le_byte_slice(slice_subrange(record, 24, 28)),
            name_pointer_table_rva: u32_from_le_byte_slice(slice_subrange(record, 32, 36)),
        }
    }
}

/// The export directory of an image. Its address is the first entry of the
/// data directories; the address is resolved through the sections, and the
/// record is read at the file offset so found.
pub open spec fn export_directory_of(
    image: Seq<u8>,
    sections: Seq<SectionInfo>,
    data_directories_offset: int,
) -> Result<ExportDirectory, DecodeError> {
    match u32_at(image, data_directories_offset) {
        None => Err(DecodeError::Io),
        Some(export_directory_address) => match resolve(sections, export_directory_address) {
            None => Err(DecodeError::AddressResolution),
            Some(export_directory_offset) => match read_at(
                image,
                export_directory_offset,
                EXPORT_DIRECTORY_SIZE as int,
            ) {
                None => Err(DecodeError::Io),
                Some(record) => Ok(ExportDirectory::of_record(record)),
            },
        },
    }
}

/// Reads the address of the export directory from the first data directory,
/// resolves it, and reads the directory.
pub fn read_export_directory(
    file: &mut ByteSource,
    section_table: &SectionTable,
    data_directories_offset: u64,
) -> (directory: Result<ExportDirectory, DecodeError>)
    ensures
        final(file).bytes() == old(file).bytes(),
        directory == export_directory_of(
            old(file).bytes(),
            section_table@,
            data_directories_offset as int,
        ),
        directory is Ok ==> final(file).cursor() == resolve(
            section_table@,
            u32_at(old(file).bytes(), data_directories_offset as int)->Some_0,
        )->Some_0 + EXPORT_DIRECTORY_SIZE,
{
    file.seek(data_directories_offset);
    let export_directory_address = match read_u32le(file) {
        Ok(address) => address,
        Err(e) => {
            return Err(e);
        },
    };
    let export_directory_offset = match section_table.rva_to_file_offset(export_directory_address) {
        Ok(offset) => offset,
        Err(_) => {
            return Err(DecodeError::AddressResolution);
        },
    };
    file.seek(export_directory_offset);
    match file.read_exact(EXPORT_DIRECTORY_SIZE) {
        Ok(export_directory_bytes) => Ok(ExportDirectory::from_record(export_directory_bytes)),
        Err(e) => Err(e),
    }
}

} // verus!
