//! The exported names: the table of pointers to them, and the
//! zero-terminated strings that the pointers lead to.

use vstd::prelude::*;
use crate::error::DecodeError;
use crate::export::ExportDirectory;
use crate::first::{all_or_first_error, errors_of, first_some, first_some_from, values_of};
use crate::section::{resolve, SectionInfo, SectionTable};
use crate::source::{read_u32le, u32_at, ByteSource};
use crate::text::{name_from_bytes, text_of};

verus! {

/// The index of the first zero byte at or after `offset`, if the image has
/// one there.
pub open spec fn terminator_from(image: Seq<u8>, offset: int) -> Option<int>
    decreases image.len() - offset,
{
    if offset < 0 || offset >= image.len() {
        None
    } else if image[offset] == 0 {
        Some(offset)
    } else {
        terminator_from(image, offset + 1)
    }
}

/// The bytes of the zero-terminated string at `offset`, without the zero.
/// There is none when no zero byte follows.
pub open spec fn name_bytes_at(image: Seq<u8>, offset: int) -> Option<Seq<u8>> {
    match terminator_from(image, offset) {
        Some(end) => Some(image.subrange(offset, end)),
        None => None,
    }
}

/// The name at `offset`: its bytes up to the first zero byte, as text.
pub open spec fn name_at(image: Seq<u8>, offset: int) -> Result<Seq<char>, DecodeError> {
    match name_bytes_at(image, offset) {
        None => Err(DecodeError::Io),
        Some(bytes) => text_of(bytes),
    }
}

/// The file offset of the name with index `i`: entry `i` of the pointer
/// table at `table_offset`, resolved through the sections.
pub open spec fn name_offset(
    image: Seq<u8>,
    sections: Seq<SectionInfo>,
    table_offset: int,
    i: int,
) -> Result<u64, DecodeError> {
    match u32_at(image, table_offset + 4 * i) {
        None => Err(DecodeError::Io),
        Some(name_address) => match resolve(sections, name_address) {
            None => Err(DecodeError::AddressResolution),
            Some(offset) => Ok(offset as u64),
        },
    }
}

/// The file offsets of the names, entry by entry of the pointer table.
pub open spec fn name_offsets(
    image: Seq<u8>,
    sections: Seq<SectionInfo>,
    table_offset: int,
    count: nat,
) -> Seq<Result<u64, DecodeError>> {
    Seq::new(count, |i: int| name_offset(image, sections, table_offset, i))
}

/// The file offsets of all names of the export directory, in the order of
/// the pointer table, or the first failure: that of resolving the table's
/// own address, then that of the first entry that cannot be read or resolved.
pub open spec fn name_offsets_of(
    image: Seq<u8>,
    sections: Seq<SectionInfo>,
    directory: ExportDirectory,
) -> Result<Seq<u64>, DecodeError> {
    match resolve(sections, directory.name_pointer_table_rva) {
        None => Err(DecodeError::AddressResolution),
        Some(table_offset) => all_or_first_error(
            name_offsets(image, sections, table_offset, directory.name_count as nat),
        ),
    }
}

/// The names at the given offsets, in the order of the offsets, or the
/// failure of the first name that has no end or is not valid text.
pub open spec fn names_at(image: Seq<u8>, offsets: Seq<u64>) -> Result<
    Seq<Seq<char>>,
    DecodeError,
> {
    all_or_first_error(offsets.map_values(|offset: u64| name_at(image, offset as int)))
}

/// Where the cursor stands when the names at `offsets` have been read:
/// behind the zero byte of the last of them, or still at `start` if there is
/// none to read.
pub open spec fn end_of_names(image: Seq<u8>, offsets: Seq<u64>, start: int) -> int {
    if offsets.len() == 0 {
        start
    } else {
        offsets.last() + name_bytes_at(image, offsets.last() as int)->Some_0.len() + 1
    }
}

/// Resolves the address of the name pointer table, then reads and resolves
/// each of its entries in turn.
pub fn read_name_offsets(
    file: &mut ByteSource,
    section_table: &SectionTable,
    directory: &ExportDirectory,
) -> (offsets: Result<Vec<u64>, DecodeError>)
    ensures
        final(file).bytes() == old(file).bytes(),
        match offsets {
            Ok(table) => name_offsets_of(old(file).bytes(), section_table@, *directory) == Ok::<
                Seq<u64>,
                DecodeError,
            >(table@) && final(file).cursor() == resolve(
                section_table@,
                directory.name_pointer_table_rva,
            )->Some_0 + 4 * directory.name_count,
            Err(e) => name_offsets_of(old(file).bytes(), section_table@, *directory) == Err::<
                Seq<u64>,
                DecodeError,
            >(e),
        },
{
    let export_name_ptr_table_offset = match section_table.rva_to_file_offset(
        directory.name_pointer_table_rva,
    ) {
        Ok(offset) => offset,
        Err(_) => {
            return Err(DecodeError::AddressResolution);
        },
    };
    file.seek(export_name_ptr_table_offset);
    let ghost image = file.bytes();
    let ghost start = export_name_ptr_table_offset as int;
    let ghost entries = name_offsets(image, section_table@, start, directory.name_count as nat);
    let ghost errors = errors_of(entries);
    let mut export_name_ptr_table: Vec<u64> = Vec::new();
    let mut i: u32 = 0;
    while i < directory.name_count
        invariant
            i <= directory.name_count,
            image == old(file).bytes(),
            file.bytes() == image,
            file.cursor() == start + 4 * i,
            resolve(section_table@, directory.name_pointer_table_rva) == Some(start),
            entries == name_offsets(image, section_table@, start, directory.name_count as nat),
            errors == errors_of(entries),
            first_some(errors) == first_some_from(errors, i as int),
            export_name_ptr_table@.len() == i,
            forall|j: int|
                0 <= j < i ==> entries[j] == Ok::<u64, DecodeError>(export_name_ptr_table@[j]),
        decreases directory.name_count - i,
    {
        let export_name_ptr = match read_u32le(file) {
            Ok(address) => address,
            Err(e) => {
                return Err(e);
            },
        };
        let export_name_offset = match section_table.rva_to_file_offset(export_name_ptr) {
            Ok(offset) => offset,
            Err(_) => {
                return Err(DecodeError::AddressResolution);
            },
        };
        export_name_ptr_table.push(export_name_offset);
        i += 1;
    }
    assert(export_name_ptr_table@ =~= values_of(entries));
    Ok(export_name_ptr_table)
}

/// Reads bytes from the cursor on, one at a time, up to the first zero byte.
/// The zero byte is consumed and is not part of the result.
pub fn read_name(file: &mut ByteSource) -> (name: Result<Vec<u8>, DecodeError>)
    ensures
        final(file).bytes() == old(file).bytes(),
        match name {
            Ok(bytes) => name_bytes_at(old(file).bytes(), old(file).cursor() as int) == Some(
                bytes@,
            ) && final(file).cursor() == old(file).cursor() + bytes@.len() + 1,
            Err(e) => e == DecodeError::Io && name_bytes_at(
                old(file).bytes(),
                old(file).cursor() as int,
            ) is None,
        },
{
    let ghost image = file.bytes();
    let ghost start = file.cursor() as int;
    let mut export_name_bytes: Vec<u8> = Vec::new();
    loop
        invariant
            image == old(file).bytes(),
            start == old(file).cursor(),
            file.bytes() == image,
            file.cursor() == start + export_name_bytes@.len(),
            export_name_bytes@.len() > 0 ==> file.cursor() <= image.len(),
            terminator_from(image, start) == terminator_from(image, file.cursor() as int),
            forall|j: int|
                0 <= j < export_name_bytes@.len() ==> export_name_bytes@[j] == image[start + j],
        decreases image.len() - file.cursor(),
    {
        let b = match file.read_exact(1) {
            Ok(b) => b,
            Err(e) => {
                return Err(e);
            },
        };
        if b[0] == 0 {
            return Ok(export_name_bytes);
        }
        export_name_bytes.push(b[0]);
    }
}

/// Reads the name at each offset, in the order of the offsets, and turns it
/// into text.
pub fn read_names(file: &mut ByteSource, offsets: &Vec<u64>) -> (names: Result<
    Vec<String>,
    DecodeError,
>)
    ensures
        final(file).bytes() == old(file).bytes(),
        match names {
            Ok(list) => names_at(old(file).bytes(), offsets@) == Ok::<Seq<Seq<char>>, DecodeError>(
                list.deep_view(),
            ) && final(file).cursor() == end_of_names(
                old(file).bytes(),
                offsets@,
                old(file).cursor() as int,
            ),
            Err(e) => names_at(old(file).bytes(), offsets@) == Err::<Seq<Seq<char>>, DecodeError>(
                e,
            ),
        },
{
    let ghost image = file.bytes();
    let ghost entries = offsets@.map_values(|offset: u64| name_at(image, offset as int));
    let ghost errors = errors_of(entries);
    let mut export_names: Vec<String> = Vec::new();
    let mut i: usize = 0;
    while i < offsets.len()
        invariant
            i <= offsets.len(),
            image == old(file).bytes(),
            file.bytes() == image,
            entries == offsets@.map_values(|offset: u64| name_at(image, offset as int)),
            errors == errors_of(entries),
            first_some(errors) == first_some_from(errors, i as int),
            file.cursor() == end_of_names(image, offsets@.take(i as int), old(file).cursor() as int),
            export_names@.len() == i,
            forall|j: int|
                0 <= j < i ==> entries[j] == Ok::<Seq<char>, DecodeError>(export_names@[j]@),
        decreases offsets.len() - i,
    {
        file.seek(offsets[i]);
        let export_name_bytes = match read_name(file) {
            Ok(bytes) => bytes,
            Err(e) => {
                return Err(e);
            },
        };
        let export_name = match name_from_bytes(export_name_bytes) {
            Ok(name) => name,
            Err(e) => {
                return Err(e);
            },
        };
        export_names.push(export_name);
        i += 1;
    }
    assert(export_names.deep_view() =~= values_of(entries));
    Ok(export_names)
}

/// What the search for the end of a string finds is the first zero byte at
/// or after `offset`; it finds nothing exactly when no zero byte follows.
pub proof fn lemma_terminator_is_first_zero(image: Seq<u8>, offset: int)
    requires
        0 <= offset,
    ensures
        match terminator_from(image, offset) {
            Some(end) => offset <= end < image.len() && image[end] == 0 && forall|i: int|
                offset <= i < end ==> image[i] != 0,
            None => forall|i: int| offset <= i < image.len() ==> image[i] != 0,
        },
    decreases image.len() - offset,
{
    if offset < image.len() && image[offset] != 0 {
        lemma_terminator_is_first_zero(image, offset + 1);
    }
}

/// A name excludes its terminating zero byte and stops at the first one: it
/// is the run of bytes from `offset` up to the first zero byte, and holds no
/// zero byte itself.
pub proof fn lemma_name_stops_at_first_zero(image: Seq<u8>, offset: int)
    requires
        0 <= offset,
    ensures
        match name_bytes_at(image, offset) {
            Some(name) => offset + name.len() < image.len() && image[offset + name.len()] == 0
                && name == image.subrange(offset, offset + name.len()) && forall|i: int|
                0 <= i < name.len() ==> name[i] != 0,
            None => forall|i: int| offset <= i < image.len() ==> image[i] != 0,
        },
{
    lemma_terminator_is_first_zero(image, offset);
}

/// The bytes behind the terminating zero byte do not matter: an image that
/// agrees with `image` from `offset` up to and including the terminator has
/// the same name there, whatever else it holds.
pub proof fn lemma_name_ignores_what_follows(image: Seq<u8>, other: Seq<u8>, offset: int)
    requires
        0 <= offset,
        name_bytes_at(image, offset) is Some,
        other.len() > offset + name_bytes_at(image, offset)->Some_0.len(),
        forall|i: int|
            offset <= i <= offset + name_bytes_at(image, offset)->Some_0.len() ==> other[i]
                == image[i],
    ensures
        name_bytes_at(other, offset) == name_bytes_at(image, offset),
        name_at(other, offset) == name_at(image, offset),
{
    lemma_terminator_is_first_zero(image, offset);
    lemma_terminator_is_first_zero(other, offset);
    let end = terminator_from(image, offset)->Some_0;
    let other_end = terminator_from(other, offset)->Some_0;
    assert(other_end == end) by {
        if other_end < end {
            assert(image[other_end] == other[other_end]);
        }
    }
    assert(other.subrange(offset, end) =~= image.subrange(offset, end));
}

} // verus!
