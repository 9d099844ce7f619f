//! The section table: where each region of the image lies in virtual address
//! space and in the file.

use vstd::prelude::*;
use vstd::slice::slice_subrange;
use crate::error::DecodeError;
use crate::first::{
    first_some,
    first_some_from,
    lemma_first_some_at,
    lemma_first_some_from_index,
};
use crate::le::{le_u32, u32_from_le_byte_slice};
use crate::source::ByteSource;

verus! {

/// The size in bytes of one record of the section table.
pub const SECTION_RECORD_SIZE: usize = 40;

/// One mapped region of the image.
#[derive(Debug, Clone, Copy, PartialEq, Eq, Structural)]
pub struct SectionInfo {
    pub virtual_size: u32,
    pub virtual_address: u32,
    pub file_offset: u32,
}

impl SectionInfo {
    /// Whether `rva` lies in this section's range of virtual addresses. The
    /// end of the range is taken as a mathematical integer, so a range that
    /// reaches past 32 bits holds every address from its start on.
    pub open spec fn contains(&self, rva: u32) -> bool {
        self.virtual_address <= rva < self.virtual_address + self.virtual_size
    }

    /// The file offset of `rva`, for an address in this section.
    pub open spec fn translate(&self, rva: u32) -> int
        recommends
            self.contains(rva),
    {
        self.file_offset + (rva - self.virtual_address)
    }

    /// The file offset of `rva` if this section holds it.
    pub open spec fn lookup(&self, rva: u32) -> Option<int> {
        if self.contains(rva) {
            Some(self.translate(rva))
        } else {
            None
        }
    }

    /// Whether the address ranges of the two sections have no address in
    /// common because one ends before the other starts.
    pub open spec fn disjoint_from(&self, other: SectionInfo) -> bool {
        self.virtual_address + self.virtual_size <= other.virtual_address
            || other.virtual_address + other.virtual_size <= self.virtual_address
    }

    /// The section that a record of the section table describes.
    pub open spec fn of_record(record: Seq<u8>) -> SectionInfo
        recommends
            record.len() == SECTION_RECORD_SIZE,
    {
        SectionInfo {
            virtual_size: le_u32(record.subrange(8, 12)) as u32,
            virtual_address: le_u32(record.subrange(12, 16)) as u32,
            file_offset: le_u32(record.subrange(20, 24)) as u32,
        }
    }

    /// Decodes one record of the section table.
    pub fn from_record(record: &[u8]) -> (section: SectionInfo)
        requires
            record@.len() == SECTION_RECORD_SIZE,
        ensures
            section == SectionInfo::of_record(record@),
    {
        SectionInfo {
            virtual_size: u32_from_le_byte_slice(slice_subrange(record, 8, 12)),
            virtual_address: u32_from_le_byte_slice(slice_subrange(record, 12, 16)),
            file_offset: u32_from_le_byte_slice(slice_subrange(record, 20, 24)),
        }
    }
}

/// The file offset of `rva`: that of the first section, in table order, whose
/// range holds it.
pub open spec fn resolve(sections: Seq<SectionInfo>, rva: u32) -> Option<int> {
    first_some(sections.map_values(|s: SectionInfo| s.lookup(rva)))
}

/// Whether no two sections of the table share an address.
pub open spec fn pairwise_disjoint(sections: Seq<SectionInfo>) -> bool {
    forall|i: int, j: int|
        0 <= i < sections.len() && 0 <= j < sections.len() && i != j
            ==> (#[trigger] sections[i]).disjoint_from(#[trigger] sections[j])
}

/// The record with index `i` of a section table that starts at `offset`.
pub open spec fn section_record(image: Seq<u8>, offset: int, i: int) -> Seq<u8> {
    image.subrange(
        offset + SECTION_RECORD_SIZE * i,
        offset + SECTION_RECORD_SIZE * i + SECTION_RECORD_SIZE,
    )
}

/// The section table of `count` records at `offset`. Reading fails when the
/// image ends before the last record does; a table of no records reads
/// nothing and cannot fail.
pub open spec fn sections_at(image: Seq<u8>, offset: int, count: nat) -> Result<
    Seq<SectionInfo>,
    DecodeError,
> {
    if count == 0 || offset + SECTION_RECORD_SIZE * count <= image.len() {
        Ok(Seq::new(count, |i: int| SectionInfo::of_record(section_record(image, offset, i))))
    } else {
        Err(DecodeError::Io)
    }
}

/// The sections of an image, in the order of their records.
#[derive(Debug, PartialEq, Eq)]
pub struct SectionTable(pub Vec<SectionInfo>);

impl View for SectionTable {
    type V = Seq<SectionInfo>;

    open spec fn view(&self) -> Seq<SectionInfo> {
        self.0@
    }
}

impl SectionTable {
    /// Reads `num_sections` records from `section_table_offset` on, one
    /// behind the other.
    pub fn from_file(file: &mut ByteSource, section_table_offset: u64, num_sections: u16) -> (table:
        Result<SectionTable, DecodeError>)
        ensures
            final(file).bytes() == old(file).bytes(),
            match table {
                Ok(t) => sections_at(
                    old(file).bytes(),
                    section_table_offset as int,
                    num_sections as nat,
                ) == Ok::<Seq<SectionInfo>, DecodeError>(t@) && final(file).cursor()
                    == section_table_offset + SECTION_RECORD_SIZE * num_sections,
                Err(e) => sections_at(
                    old(file).bytes(),
                    section_table_offset as int,
                    num_sections as nat,
                ) == Err::<Seq<SectionInfo>, DecodeError>(e),
            },
    {
        let ghost image = file.bytes();
        let ghost offset = section_table_offset as int;
        let mut section_table: Vec<SectionInfo> = Vec::new();
        file.seek(section_table_offset);
        let mut i: u16 = 0;
        while i < num_sections
            invariant
                i <= num_sections,
                offset == section_table_offset,
                image == old(file).bytes(),
                file.bytes() == image,
                file.cursor() == offset + SECTION_RECORD_SIZE * i,
                i > 0 ==> offset + SECTION_RECORD_SIZE * i <= image.len(),
                section_table@.len() == i,
                forall|j: int|
                    0 <= j < i ==> section_table@[j] == SectionInfo::of_record(
                        section_record(image, offset, j),
                    ),
            decreases num_sections - i,
        {
            match file.read_exact(SECTION_RECORD_SIZE) {
                Ok(section_data) => {
                    section_table.push(SectionInfo::from_record(section_data));
                },
                Err(e) => {
                    return Err(e);
                },
            }
            i += 1;
        }
        assert(section_table@ =~= Seq::new(
            num_sections as nat,
            |j: int| SectionInfo::of_record(section_record(image, offset, j)),
        ));
        Ok(SectionTable(section_table))
    }

    /// Translates a relative virtual address into a file offset through the
    /// first section that holds it; fails when no section does.
    pub fn rva_to_file_offset(&self, rva: u32) -> (offset: Result<u64, ()>)
        ensures
            match offset {
                Ok(o) => resolve(self@, rva) == Some(o as int),
                Err(_) => resolve(self@, rva) is None,
            },
    {
        let ghost found = self@.map_values(|s: SectionInfo| s.lookup(rva));
        let mut i: usize = 0;
        while i < self.0.len()
            invariant
                i <= self.0.len(),
                found == self@.map_values(|s: SectionInfo| s.lookup(rva)),
                first_some(found) == first_some_from(found, i as int),
            decreases self.0.len() - i,
        {
            let section_info = &self.0[i];
            let start: u64 = section_info.virtual_address as u64;
            let section_virtual_end: u64 = start + section_info.virtual_size as u64;
            if rva as u64 >= start && (rva as u64) < section_virtual_end {
                let offset_into_section: u64 = rva as u64 - start;
                return Ok(section_info.file_offset as u64 + offset_into_section);
            }
            i += 1;
        }
        Err(())
    }
}

/// A section that holds `rva` and has no section before it that does decides
/// the result: the first match wins.
pub proof fn lemma_first_match_wins(sections: Seq<SectionInfo>, rva: u32, i: int)
    requires
        0 <= i < sections.len(),
        sections[i].contains(rva),
        forall|j: int| 0 <= j < i ==> !sections[j].contains(rva),
    ensures
        resolve(sections, rva) == Some(sections[i].translate(rva)),
{
    lemma_first_some_at(sections.map_values(|s: SectionInfo| s.lookup(rva)), i);
}

/// An address resolves exactly when some section holds it.
pub proof fn lemma_resolves_iff_held(sections: Seq<SectionInfo>, rva: u32)
    ensures
        resolve(sections, rva) is Some <==> exists|i: int|
            0 <= i < sections.len() && #[trigger] sections[i].contains(rva),
{
    let found = sections.map_values(|s: SectionInfo| s.lookup(rva));
    let k = lemma_first_some_from_index(found, 0);
    if k == sections.len() {
        assert forall|i: int| 0 <= i < sections.len() implies !#[trigger] sections[i].contains(
            rva,
        ) by {
            assert(found[i] is None);
        }
    }
}

/// A file offset is the sum of two 32-bit values, so it fits in 33 bits.
pub proof fn lemma_resolved_offset_fits(sections: Seq<SectionInfo>, rva: u32)
    ensures
        resolve(sections, rva) matches Some(offset) ==> 0 <= offset < 0x2_0000_0000,
{
    lemma_first_some_from_index(sections.map_values(|s: SectionInfo| s.lookup(rva)), 0);
}

/// In a table of pairwise disjoint sections, every address in the range of a
/// section resolves through that section, to its file offset plus the
/// distance of the address from the section's start.
pub proof fn lemma_disjoint_table_resolves(sections: Seq<SectionInfo>, i: int, rva: u32)
    requires
        pairwise_disjoint(sections),
        0 <= i < sections.len(),
        sections[i].contains(rva),
    ensures
        resolve(sections, rva) == Some(
            sections[i].file_offset + (rva - sections[i].virtual_address),
        ),
{
    assert forall|j: int| 0 <= j < i implies !sections[j].contains(rva) by {
        assert(sections[i].disjoint_from(sections[j]));
    }
    lemma_first_match_wins(sections, rva, i);
}

/// An address outside the range of every section does not resolve.
pub proof fn lemma_outside_all_sections_fails(sections: Seq<SectionInfo>, rva: u32)
    requires
        forall|i: int| 0 <= i < sections.len() ==> !#[trigger] sections[i].contains(rva),
    ensures
        resolve(sections, rva) is None,
{
    lemma_resolves_iff_held(sections, rva);
}

/// The range of a section is closed at its start and open at its end. In a
/// table of pairwise disjoint sections, the start address of a section that
/// is not empty resolves to the section's file offset. The address one past
/// the section's last is not in the section; it resolves only if another
/// section holds it.
pub proof fn lemma_range_is_half_open(sections: Seq<SectionInfo>, i: int, end: u32)
    requires
        pairwise_disjoint(sections),
        0 <= i < sections.len(),
        end == sections[i].virtual_address + sections[i].virtual_size,
    ensures
        sections[i].virtual_size > 0 ==> resolve(sections, sections[i].virtual_address) == Some(
            sections[i].file_offset as int,
        ),
        !sections[i].contains(end),
        (forall|j: int| 0 <= j < sections.len() && j != i ==> !#[trigger] sections[j].contains(end))
            ==> resolve(sections, end) is None,
{
    if sections[i].virtual_size > 0 {
        lemma_disjoint_table_resolves(sections, i, sections[i].virtual_address);
    }
    lemma_resolves_iff_held(sections, end);
}

} // verus!
