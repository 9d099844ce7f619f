use win32u_sym::export::{read_export_directory, ExportDirectory};
use win32u_sym::names::{read_name, read_name_offsets, read_names};
use win32u_sym::section::{SectionInfo, SectionTable};
use win32u_sym::source::ByteSource;
use win32u_sym::text::name_from_bytes;
use win32u_sym::DecodeError;

fn put_u32(image: &mut Vec<u8>, offset: usize, value: u32) {
    image[offset..offset + 4].copy_from_slice(&value.to_le_bytes());
}

fn one_section() -> SectionTable {
    SectionTable(vec![SectionInfo {
        virtual_size: 0x200,
        virtual_address: 0x2000,
        file_offset: 0x400,
    }])
}

#[test]
fn export_directory_record_fields() {
    let mut record = vec![0x77u8; 40];
    put_u32(&mut record, 24, 1234);
    put_u32(&mut record, 32, 0x0002_0010);
    assert_eq!(
        ExportDirectory::from_record(&record),
        ExportDirectory { name_count: 1234, name_pointer_table_rva: 0x0002_0010 }
    );
}

#[test]
fn export_directory_is_found_through_the_first_data_directory() {
    let mut image = vec![0u8; 0x600];
    put_u32(&mut image, 0x100, 0x2040);
    put_u32(&mut image, 0x440 + 24, 3);
    put_u32(&mut image, 0x440 + 32, 0x2100);
    let mut source = ByteSource::new(&image);
    assert_eq!(
        read_export_directory(&mut source, &one_section(), 0x100),
        Ok(ExportDirectory { name_count: 3, name_pointer_table_rva: 0x2100 })
    );
    assert_eq!(source.position(), 0x440 + 40);
}

#[test]
fn export_directory_outside_all_sections_is_unresolved() {
    let mut image = vec![0u8; 0x600];
    for address in [0u32, 0x1fff, 0x2200, 0xffff_ffff] {
        put_u32(&mut image, 0x100, address);
        let mut source = ByteSource::new(&image);
        assert_eq!(
            read_export_directory(&mut source, &one_section(), 0x100),
            Err(DecodeError::AddressResolution)
        );
    }
}

#[test]
fn export_directory_io_errors() {
    let mut image = vec![0u8; 0x600];
    put_u32(&mut image, 0x100, 0x2000);
    let mut source = ByteSource::new(&image[..0x103]);
    assert_eq!(read_export_directory(&mut source, &one_section(), 0x100), Err(DecodeError::Io));
    let mut source = ByteSource::new(&image[..0x427]);
    assert_eq!(read_export_directory(&mut source, &one_section(), 0x100), Err(DecodeError::Io));
    let mut source = ByteSource::new(&image[..0x428]);
    assert!(read_export_directory(&mut source, &one_section(), 0x100).is_ok());
}

#[test]
fn name_offsets_keep_table_order() {
    let mut image = vec![0u8; 0x600];
    put_u32(&mut image, 0x410, 0x2080);
    put_u32(&mut image, 0x414, 0x2030);
    put_u32(&mut image, 0x418, 0x21ff);
    put_u32(&mut image, 0x41c, 0x2030);
    let directory = ExportDirectory { name_count: 4, name_pointer_table_rva: 0x2010 };
    let mut source = ByteSource::new(&image);
    assert_eq!(
        read_name_offsets(&mut source, &one_section(), &directory),
        Ok(vec![0x480, 0x430, 0x5ff, 0x430])
    );
    assert_eq!(source.position(), 0x420);
}

#[test]
fn name_pointer_table_outside_all_sections_is_unresolved() {
    let image = vec![0u8; 0x600];
    let mut source = ByteSource::new(&image);
    let directory = ExportDirectory { name_count: 0, name_pointer_table_rva: 0x3000 };
    assert_eq!(
        read_name_offsets(&mut source, &one_section(), &directory),
        Err(DecodeError::AddressResolution)
    );
}

#[test]
fn no_names_gives_no_offsets() {
    let image = vec![0u8; 0x10];
    let mut source = ByteSource::new(&image);
    let directory = ExportDirectory { name_count: 0, name_pointer_table_rva: 0x2010 };
    assert_eq!(read_name_offsets(&mut source, &one_section(), &directory), Ok(vec![]));
}

#[test]
fn unresolved_name_pointer_is_reported() {
    let mut image = vec![0u8; 0x600];
    put_u32(&mut image, 0x410, 0x2080);
    put_u32(&mut image, 0x414, 0x1000);
    let directory = ExportDirectory { name_count: 2, name_pointer_table_rva: 0x2010 };
    let mut source = ByteSource::new(&image);
    assert_eq!(
        read_name_offsets(&mut source, &one_section(), &directory),
        Err(DecodeError::AddressResolution)
    );
}

#[test]
fn first_failing_pointer_decides_the_error() {
    let mut image = vec![0u8; 0x41a];
    put_u32(&mut image, 0x410, 0x2080);
    put_u32(&mut image, 0x414, 0x1000);
    let directory = ExportDirectory { name_count: 3, name_pointer_table_rva: 0x2010 };
    let mut source = ByteSource::new(&image);
    assert_eq!(
        read_name_offsets(&mut source, &one_section(), &directory),
        Err(DecodeError::AddressResolution)
    );
    put_u32(&mut image, 0x414, 0x2000);
    let mut source = ByteSource::new(&image);
    assert_eq!(
        read_name_offsets(&mut source, &one_section(), &directory),
        Err(DecodeError::Io)
    );
}

#[test]
fn name_stops_at_the_first_zero_byte() {
    let image = b"xxNtUserA\0NtUserB\0tail".to_vec();
    let mut source = ByteSource::new(&image);
    source.seek(2);
    assert_eq!(read_name(&mut source), Ok(b"NtUserA".to_vec()));
    assert_eq!(source.position(), 10);
    assert_eq!(read_name(&mut source), Ok(b"NtUserB".to_vec()));
    assert_eq!(source.position(), 18);
}

#[test]
fn name_does_not_depend_on_what_follows_the_zero_byte() {
    for tail in [&b""[..], &b"\0\0\0"[..], &b"more\0"[..], &b"\xff\xfe"[..]] {
        let mut image = b"abc\0".to_vec();
        image.extend_from_slice(tail);
        let mut source = ByteSource::new(&image);
        assert_eq!(read_name(&mut source), Ok(b"abc".to_vec()));
        assert_eq!(source.position(), 4);
    }
}

#[test]
fn name_at_a_zero_byte_is_empty() {
    let image = [b'a', 0, 0, b'b'];
    let mut source = ByteSource::new(&image);
    source.seek(1);
    assert_eq!(read_name(&mut source), Ok(vec![]));
    assert_eq!(source.position(), 2);
    assert_eq!(read_name(&mut source), Ok(vec![]));
    assert_eq!(source.position(), 3);
}

#[test]
fn name_without_terminator_is_an_io_error() {
    let image = b"\0abc".to_vec();
    let mut source = ByteSource::new(&image);
    source.seek(1);
    assert_eq!(read_name(&mut source), Err(DecodeError::Io));
    source.seek(4);
    assert_eq!(read_name(&mut source), Err(DecodeError::Io));
    source.seek(400);
    assert_eq!(read_name(&mut source), Err(DecodeError::Io));
}

#[test]
fn name_bytes_become_text() {
    assert_eq!(name_from_bytes(b"NtUserA".to_vec()), Ok(String::from("NtUserA")));
    assert_eq!(name_from_bytes(vec![]), Ok(String::new()));
    assert_eq!(
        name_from_bytes(vec![0x4e, 0xc3, 0xa9, 0xe2, 0x82, 0xac, 0xf0, 0x9f, 0x98, 0x80]),
        Ok(String::from("N\u{e9}\u{20ac}\u{1f600}"))
    );
}

#[test]
fn invalid_utf8_is_an_encoding_error() {
    let invalid: [&[u8]; 6] = [
        &[0xff],
        &[0x80],
        &[b'a', 0xc3],
        &[0xc0, 0x80],
        &[0xed, 0xa0, 0x80],
        &[0xf4, 0x90, 0x80, 0x80],
    ];
    for bytes in invalid {
        assert_eq!(name_from_bytes(bytes.to_vec()), Err(DecodeError::Encoding));
    }
}

#[test]
fn names_come_in_the_order_of_the_offsets() {
    let image = b"Zeta\0Alpha\0Mid\0".to_vec();
    let mut source = ByteSource::new(&image);
    assert_eq!(
        read_names(&mut source, &vec![0, 5, 11, 5]),
        Ok(vec![
            String::from("Zeta"),
            String::from("Alpha"),
            String::from("Mid"),
            String::from("Alpha")
        ])
    );
    assert_eq!(source.position(), 11);
}

#[test]
fn no_offsets_give_no_names() {
    let image: [u8; 0] = [];
    let mut source = ByteSource::new(&image);
    source.seek(7);
    assert_eq!(read_names(&mut source, &vec![]), Ok(vec![]));
    assert_eq!(source.position(), 7);
}

#[test]
fn first_failing_name_decides_the_error() {
    let image = b"ok\0\xff\xff\0open".to_vec();
    let mut source = ByteSource::new(&image);
    assert_eq!(read_names(&mut source, &vec![0, 3, 6]), Err(DecodeError::Encoding));
    let mut source = ByteSource::new(&image);
    assert_eq!(read_names(&mut source, &vec![0, 6, 3]), Err(DecodeError::Io));
    let mut source = ByteSource::new(&image);
    assert_eq!(read_names(&mut source, &vec![0, 2]), Ok(vec![String::from("ok"), String::new()]));
}
