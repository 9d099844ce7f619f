use win32u_sym::section::{SectionInfo, SectionTable};
use win32u_sym::source::ByteSource;
use win32u_sym::DecodeError;

fn record(virtual_size: u32, virtual_address: u32, file_offset: u32) -> Vec<u8> {
    let mut bytes = vec![0xeeu8; 40];
    bytes[8..12].copy_from_slice(&virtual_size.to_le_bytes());
    bytes[12..16].copy_from_slice(&virtual_address.to_le_bytes());
    bytes[20..24].copy_from_slice(&file_offset.to_le_bytes());
    bytes
}

fn text_and_data() -> SectionTable {
    SectionTable(vec![
        SectionInfo { virtual_size: 0x1000, virtual_address: 0x1000, file_offset: 0x400 },
        SectionInfo { virtual_size: 0x200, virtual_address: 0x2000, file_offset: 0x1400 },
        SectionInfo { virtual_size: 0x80, virtual_address: 0x5000, file_offset: 0x1600 },
    ])
}

#[test]
fn from_record_takes_the_three_fields() {
    let bytes = record(0x200, 0x2000, 0x400);
    assert_eq!(
        SectionInfo::from_record(&bytes),
        SectionInfo { virtual_size: 0x200, virtual_address: 0x2000, file_offset: 0x400 }
    );
}

#[test]
fn from_record_ignores_the_other_fields() {
    let mut bytes = record(1, 2, 3);
    for i in (0..8).chain(16..20).chain(24..40) {
        bytes[i] = 0x5a;
    }
    assert_eq!(
        SectionInfo::from_record(&bytes),
        SectionInfo { virtual_size: 1, virtual_address: 2, file_offset: 3 }
    );
}

#[test]
fn from_file_reads_records_in_order() {
    let mut image = vec![0u8; 16];
    image.extend(record(0x300, 0x3000, 0x800));
    image.extend(record(0x100, 0x1000, 0x400));
    image.extend(record(0x200, 0x2000, 0x600));
    let mut source = ByteSource::new(&image);
    let table = SectionTable::from_file(&mut source, 16, 3);
    assert_eq!(
        table,
        Ok(SectionTable(vec![
            SectionInfo { virtual_size: 0x300, virtual_address: 0x3000, file_offset: 0x800 },
            SectionInfo { virtual_size: 0x100, virtual_address: 0x1000, file_offset: 0x400 },
            SectionInfo { virtual_size: 0x200, virtual_address: 0x2000, file_offset: 0x600 },
        ]))
    );
    assert_eq!(source.position(), 16 + 3 * 40);
}

#[test]
fn from_file_fails_on_a_truncated_table() {
    let mut image = vec![0u8; 16];
    image.extend(record(0x300, 0x3000, 0x800));
    image.extend(&record(0x100, 0x1000, 0x400)[..39]);
    let mut source = ByteSource::new(&image);
    assert_eq!(SectionTable::from_file(&mut source, 16, 2), Err(DecodeError::Io));
    let mut source = ByteSource::new(&image);
    assert_eq!(
        SectionTable::from_file(&mut source, 16, 1),
        Ok(SectionTable(vec![SectionInfo {
            virtual_size: 0x300,
            virtual_address: 0x3000,
            file_offset: 0x800
        }]))
    );
}

#[test]
fn from_file_with_no_sections_reads_nothing() {
    let image = [0u8; 4];
    let mut source = ByteSource::new(&image);
    assert_eq!(SectionTable::from_file(&mut source, 1000, 0), Ok(SectionTable(vec![])));
    assert_eq!(source.position(), 1000);
}

#[test]
fn from_file_past_the_end_fails() {
    let image = [0u8; 64];
    let mut source = ByteSource::new(&image);
    assert_eq!(SectionTable::from_file(&mut source, 25, 1), Err(DecodeError::Io));
    let mut source = ByteSource::new(&image);
    assert_eq!(SectionTable::from_file(&mut source, u64::MAX, 1), Err(DecodeError::Io));
}

#[test]
fn rva_resolves_to_file_offset_plus_distance() {
    let table = text_and_data();
    assert_eq!(table.rva_to_file_offset(0x1000), Ok(0x400));
    assert_eq!(table.rva_to_file_offset(0x1234), Ok(0x634));
    assert_eq!(table.rva_to_file_offset(0x1fff), Ok(0x13ff));
    assert_eq!(table.rva_to_file_offset(0x2010), Ok(0x1410));
    assert_eq!(table.rva_to_file_offset(0x507f), Ok(0x167f));
}

#[test]
fn rva_outside_every_section_fails() {
    let table = text_and_data();
    assert_eq!(table.rva_to_file_offset(0), Err(()));
    assert_eq!(table.rva_to_file_offset(0xfff), Err(()));
    assert_eq!(table.rva_to_file_offset(0x2200), Err(()));
    assert_eq!(table.rva_to_file_offset(0x4fff), Err(()));
    assert_eq!(table.rva_to_file_offset(0x5080), Err(()));
    assert_eq!(table.rva_to_file_offset(u32::MAX), Err(()));
}

#[test]
fn every_address_of_disjoint_sections_resolves_through_its_section() {
    let table = text_and_data();
    for section in &table.0 {
        for distance in 0..section.virtual_size {
            let rva = section.virtual_address + distance;
            assert_eq!(
                table.rva_to_file_offset(rva),
                Ok(section.file_offset as u64 + distance as u64)
            );
        }
    }
}

#[test]
fn range_start_resolves_and_range_end_fails() {
    let table = SectionTable(vec![SectionInfo {
        virtual_size: 0x200,
        virtual_address: 0x2000,
        file_offset: 0x400,
    }]);
    assert_eq!(table.rva_to_file_offset(0x2000), Ok(0x400));
    assert_eq!(table.rva_to_file_offset(0x21ff), Ok(0x5ff));
    assert_eq!(table.rva_to_file_offset(0x2200), Err(()));
    assert_eq!(table.rva_to_file_offset(0x1fff), Err(()));
}

#[test]
fn end_of_one_section_may_start_the_next() {
    let table = SectionTable(vec![
        SectionInfo { virtual_size: 0x1000, virtual_address: 0x1000, file_offset: 0x400 },
        SectionInfo { virtual_size: 0x1000, virtual_address: 0x2000, file_offset: 0x9000 },
    ]);
    assert_eq!(table.rva_to_file_offset(0x2000), Ok(0x9000));
}

#[test]
fn empty_section_holds_no_address() {
    let table = SectionTable(vec![SectionInfo {
        virtual_size: 0,
        virtual_address: 0x2000,
        file_offset: 0x400,
    }]);
    assert_eq!(table.rva_to_file_offset(0x2000), Err(()));
}

#[test]
fn empty_table_resolves_nothing() {
    let table = SectionTable(vec![]);
    assert_eq!(table.rva_to_file_offset(0), Err(()));
    assert_eq!(table.rva_to_file_offset(0x1000), Err(()));
}

#[test]
fn first_matching_section_wins() {
    let table = SectionTable(vec![
        SectionInfo { virtual_size: 0x100, virtual_address: 0x1000, file_offset: 0x7000 },
        SectionInfo { virtual_size: 0x1000, virtual_address: 0x1000, file_offset: 0x400 },
        SectionInfo { virtual_size: 0x10, virtual_address: 0x1000, file_offset: 0x9000 },
    ]);
    assert_eq!(table.rva_to_file_offset(0x1008), Ok(0x7008));
    assert_eq!(table.rva_to_file_offset(0x10ff), Ok(0x70ff));
    assert_eq!(table.rva_to_file_offset(0x1100), Ok(0x500));
}

#[test]
fn range_that_reaches_past_32_bits_holds_its_tail() {
    let table = SectionTable(vec![SectionInfo {
        virtual_size: 0x100,
        virtual_address: 0xffff_fff0,
        file_offset: 0x400,
    }]);
    assert_eq!(table.rva_to_file_offset(0xffff_ffef), Err(()));
    assert_eq!(table.rva_to_file_offset(0xffff_fff0), Ok(0x400));
    assert_eq!(table.rva_to_file_offset(0xffff_ffff), Ok(0x40f));
    assert_eq!(table.rva_to_file_offset(0), Err(()));
}

#[test]
fn file_offset_may_exceed_32_bits() {
    let table = SectionTable(vec![SectionInfo {
        virtual_size: 0x100,
        virtual_address: 0x1000,
        file_offset: 0xffff_fff8,
    }]);
    assert_eq!(table.rva_to_file_offset(0x1007), Ok(0xffff_ffff));
    assert_eq!(table.rva_to_file_offset(0x1008), Ok(0x1_0000_0000));
    assert_eq!(table.rva_to_file_offset(0x10ff), Ok(0x1_0000_00f7));
}
