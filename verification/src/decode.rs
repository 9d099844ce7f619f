//! The whole decode, from the first byte of the image to the list of names.

use vstd::prelude::*;
use crate::error::DecodeError;
use crate::export::{export_directory_of, read_export_directory};
use crate::first::lemma_all_ok;
use crate::header::{
    data_directories_of,
    header_of,
    locate_header,
    pe_signature,
    validate_optional_header,
    PeHeader,
    MACHINE_X86_64,
    MAGIC_PE32_PLUS,
    PE_POINTER_OFFSET,
};
use crate::names::{
    name_at,
    name_offset,
    name_offsets,
    name_offsets_of,
    names_at,
    read_name_offsets,
    read_names,
};
use crate::section::{lemma_resolved_offset_fits, resolve, sections_at, SectionTable};
use crate::source::{read_at, u16_at, u32_at, ByteSource};

verus! {

/// The names that an image exports, in the order of its name pointer table,
/// or the first failure of the decode. The steps run in this order, and each
/// uses what the ones before it found: the header, the optional-header
/// magic, the section table, the export directory, the file offsets of all
/// names, the names.
pub open spec fn export_names_of(image: Seq<u8>) -> Result<Seq<Seq<char>>, DecodeError> {
    match header_of(image) {
        Err(e) => Err(e),
        Ok(header) => match data_directories_of(image, header) {
            Err(e) => Err(e),
            Ok(data_directories_offset) => match sections_at(
                image,
                header.spec_section_table_offset(),
                header.section_count as nat,
            ) {
                Err(e) => Err(e),
                Ok(sections) => match export_directory_of(
                    image,
                    sections,
                    data_directories_offset,
                ) {
                    Err(e) => Err(e),
                    Ok(directory) => match name_offsets_of(image, sections, directory) {
                        Err(e) => Err(e),
                        Ok(offsets) => names_at(image, offsets),
                    },
                },
            },
        },
    }
}

/// Decodes the names that `image` exports, in the order of its name pointer
/// table. The first failure ends the decode.
pub fn export_names(image: &[u8]) -> (names: Result<Vec<String>, DecodeError>)
    ensures
        match names {
            Ok(list) => export_names_of(image@) == Ok::<Seq<Seq<char>>, DecodeError>(
                list.deep_view(),
            ),
            Err(e) => export_names_of(image@) == Err::<Seq<Seq<char>>, DecodeError>(e),
        },
{
    let mut file = ByteSource::new(image);
    let header = match locate_header(&mut file) {
        Ok(header) => header,
        Err(e) => {
            return Err(e);
        },
    };
    let data_directories_offset = match validate_optional_header(&mut file, &header) {
        Ok(offset) => offset,
        Err(e) => {
            return Err(e);
        },
    };
    let section_table = match SectionTable::from_file(
        &mut file,
        header.section_table_offset(),
        header.section_count,
    ) {
        Ok(table) => table,
        Err(e) => {
            return Err(e);
        },
    };
    let directory = match read_export_directory(
        &mut file,
        &section_table,
        data_directories_offset,
    ) {
        Ok(directory) => directory,
        Err(e) => {
            return Err(e);
        },
    };
    let export_name_ptr_table = match read_name_offsets(&mut file, &section_table, &directory) {
        Ok(offsets) => offsets,
        Err(e) => {
            return Err(e);
        },
    };
    read_names(&mut file, &export_name_ptr_table)
}

/// A signature other than "PE\0\0" ends the decode with a format error,
/// whatever the image holds behind it, readable or not.
pub proof fn lemma_signature_mismatch_aborts(
    image: Seq<u8>,
    pe_header_offset: u32,
    signature: Seq<u8>,
)
    requires
        u32_at(image, PE_POINTER_OFFSET as int) == Some(pe_header_offset),
        read_at(image, pe_header_offset as int, 4) == Some(signature),
        signature != pe_signature(),
    ensures
        export_names_of(image) == Err::<Seq<Seq<char>>, DecodeError>(DecodeError::Format),
{
}

/// A machine type other than x86-64 ends the decode with a format error,
/// whatever the image holds behind it, readable or not.
pub proof fn lemma_machine_mismatch_aborts(image: Seq<u8>, pe_header_offset: u32, machine: u16)
    requires
        u32_at(image, PE_POINTER_OFFSET as int) == Some(pe_header_offset),
        read_at(image, pe_header_offset as int, 4) == Some(pe_signature()),
        u16_at(image, pe_header_offset + 4) == Some(machine),
        machine != MACHINE_X86_64,
    ensures
        export_names_of(image) == Err::<Seq<Seq<char>>, DecodeError>(DecodeError::Format),
{
}

/// An optional-header magic other than that of 64-bit images ends the decode
/// with a format error, whatever the section table and the export directory
/// hold, readable or not.
pub proof fn lemma_magic_mismatch_aborts(image: Seq<u8>, header: PeHeader, magic: u16)
    requires
        header_of(image) == Ok::<PeHeader, DecodeError>(header),
        u16_at(image, header.spec_optional_header_offset()) == Some(magic),
        magic != MAGIC_PE32_PLUS,
    ensures
        export_names_of(image) == Err::<Seq<Seq<char>>, DecodeError>(DecodeError::Format),
{
}

/// The names come out in the order of the name pointer table: there are as
/// many as the export directory counts, and the name with index `i` is the
/// string that entry `i` of the table points to.
pub proof fn lemma_names_follow_pointer_table(image: Seq<u8>, names: Seq<Seq<char>>, i: int)
    requires
        export_names_of(image) == Ok::<Seq<Seq<char>>, DecodeError>(names),
        0 <= i < names.len(),
    ensures
        ({
            let header = header_of(image)->Ok_0;
            let sections = sections_at(
                image,
                header.spec_section_table_offset(),
                header.section_count as nat,
            )->Ok_0;
            let directory = export_directory_of(
                image,
                sections,
                header.spec_data_directories_offset(),
            )->Ok_0;
            let table_offset = resolve(sections, directory.name_pointer_table_rva)->Some_0;
            let name_address = u32_at(image, table_offset + 4 * i)->Some_0;
            let offset = resolve(sections, name_address)->Some_0;
            &&& names.len() == directory.name_count
            &&& u32_at(image, table_offset + 4 * i) is Some
            &&& resolve(sections, name_address) is Some
            &&& name_at(image, offset) == Ok::<Seq<char>, DecodeError>(names[i])
        }),
{
    let header = header_of(image)->Ok_0;
    let sections = sections_at(
        image,
        header.spec_section_table_offset(),
        header.section_count as nat,
    )->Ok_0;
    let directory = export_directory_of(
        image,
        sections,
        header.spec_data_directories_offset(),
    )->Ok_0;
    let table_offset = resolve(sections, directory.name_pointer_table_rva)->Some_0;
    let entries = name_offsets(image, sections, table_offset, directory.name_count as nat);
    let offsets = name_offsets_of(image, sections, directory)->Ok_0;
    let texts = offsets.map_values(|offset: u64| name_at(image, offset as int));
    lemma_all_ok(entries);
    lemma_all_ok(texts);
    assert(entries[i] == name_offset(image, sections, table_offset, i));
    lemma_resolved_offset_fits(sections, u32_at(image, table_offset + 4 * i)->Some_0);
}

} // verus!
