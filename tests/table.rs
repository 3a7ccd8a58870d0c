use smbioslib::{
    DefinedStruct, Handle, Header, SMBiosStructParts, SMBiosTable, StructKind, TruncatedTable,
};

fn sample_table() -> Vec<u8> {
    let mut d = vec![0x00u8, 0x04, 0x00, 0x00, 0x00, 0x00];
    d.extend_from_slice(&[0x16, 0x05, 0x01, 0x00, 0x01, b'X', 0x00, 0x00]);
    d.extend_from_slice(&[0x7F, 0x04, 0x02, 0x00, 0x00, 0x00]);
    d
}

#[test]
fn walk_stops_after_end_of_table() {
    let mut d = sample_table();
    d.extend_from_slice(&[0x01, 0x02, 0x03]);
    let table = SMBiosTable::parse(d.as_slice());
    assert_eq!(table.error, None);
    assert_eq!(table.structures.len(), 3);
    assert_eq!(table.structures[0].header.struct_type(), 0);
    assert_eq!(table.structures[1].header.struct_type(), 0x16);
    assert_eq!(table.structures[1].strings, vec![b"X".to_vec()]);
    assert_eq!(table.structures[2].header.struct_type(), 0x7F);
}

#[test]
fn walk_ends_at_buffer_end_without_marker() {
    let d = vec![0x00u8, 0x04, 0x00, 0x00, 0x00, 0x00];
    let table = SMBiosTable::parse(d.as_slice());
    assert_eq!(table.error, None);
    assert_eq!(table.structures.len(), 1);
    let empty = SMBiosTable::parse(&[]);
    assert_eq!(empty.structures.len(), 0);
    assert_eq!(empty.error, None);
}

#[test]
fn walk_reports_length_below_header_size() {
    let mut d = vec![0x00u8, 0x04, 0x00, 0x00, 0x00, 0x00];
    d.extend_from_slice(&[0x01, 0x03, 0x01, 0x00, 0x00, 0x00]);
    let table = SMBiosTable::parse(d.as_slice());
    assert_eq!(table.structures.len(), 1);
    assert_eq!(table.error, Some(TruncatedTable { offset: 6 }));
}

#[test]
fn walk_reports_length_past_buffer() {
    let mut d = vec![0x00u8, 0x04, 0x00, 0x00, 0x00, 0x00];
    d.extend_from_slice(&[0x01, 0x20, 0x01, 0x00, 0x00, 0x00]);
    let table = SMBiosTable::parse(d.as_slice());
    assert_eq!(table.structures.len(), 1);
    assert_eq!(table.error, Some(TruncatedTable { offset: 6 }));
}

#[test]
fn unclosed_strings_run_to_buffer_end() {
    let d = vec![0x01u8, 0x04, 0x01, 0x00, b'A', 0x00, b'B'];
    let table = SMBiosTable::parse(d.as_slice());
    assert_eq!(table.error, None);
    assert_eq!(table.structures.len(), 1);
    assert_eq!(table.structures[0].strings, vec![b"A".to_vec(), b"B".to_vec()]);
    let closed_once = SMBiosTable::parse(&[0x01, 0x04, 0x01, 0x00, b'A', 0x00]);
    assert_eq!(closed_once.error, None);
    assert_eq!(closed_once.structures[0].strings, vec![b"A".to_vec()]);
}

#[test]
fn walk_reports_short_header() {
    let short = SMBiosTable::parse(&[0x00, 0x04]);
    assert_eq!(short.structures.len(), 0);
    assert_eq!(short.error, Some(TruncatedTable { offset: 0 }));
}

#[test]
fn zero_after_formatted_area_means_no_strings() {
    let bytes = vec![0x99u8, 0x05, 0x00, 0x00, 0x01, 0x00, 0x41, 0x00, 0x00];
    let parts = SMBiosStructParts::new(bytes.as_slice());
    assert_eq!(parts.strings.len(), 0);
    assert_eq!(parts.get_field_string(4), None);
    let mut d = bytes.clone();
    d.extend_from_slice(&[0x7F, 0x04, 0x01, 0x00, 0x00, 0x00]);
    let table = SMBiosTable::parse(d.as_slice());
    assert_eq!(table.error, None);
    assert_eq!(table.structures.len(), 2);
    assert_eq!(table.structures[0].strings.len(), 0);
}

#[test]
fn vendor_record_is_walked_like_any_other() {
    let mut d = vec![0x99u8, 0x06, 0x10, 0x00, 0xAA, 0xBB, b'o', b'e', b'm', 0x00, 0x00];
    d.extend_from_slice(&sample_table());
    let table = SMBiosTable::parse(d.as_slice());
    assert_eq!(table.error, None);
    assert_eq!(table.structures.len(), 4);
    assert_eq!(table.structures[0].strings, vec![b"oem".to_vec()]);
    assert_eq!(table.structures[1].header.struct_type(), 0);
    match DefinedStruct::dispatch(&table.structures[0]) {
        DefinedStruct::Unknown(u) => assert_eq!(u.parts().header.handle(), Handle(0x10)),
        DefinedStruct::Known(..) => panic!("a vendor code has no kind"),
    }
}

#[test]
fn find_by_handle_hits_and_misses() {
    let d = sample_table();
    let table = SMBiosTable::parse(d.as_slice());
    assert_eq!(table.find_by_handle(Handle(1)), Some(1));
    assert_eq!(table.find_by_handle(Handle(2)), Some(2));
    assert_eq!(table.find_by_handle(Handle(9)), None);
}

#[test]
fn dispatch_sorts_by_type_code() {
    let d = sample_table();
    let table = SMBiosTable::parse(d.as_slice());
    match DefinedStruct::dispatch(&table.structures[1]) {
        DefinedStruct::Known(k, p) => {
            assert_eq!(k, StructKind::PortableBattery);
            assert_eq!(p.header.handle(), Handle(1));
        }
        DefinedStruct::Unknown(_) => panic!("type 22 is a known kind"),
    }
    assert_eq!(StructKind::from_code(127), Some(StructKind::EndOfTable));
    assert_eq!(StructKind::from_code(35), Some(StructKind::ManagementDeviceComponent));
    assert_eq!(StructKind::from_code(0x80), None);
    assert_eq!(StructKind::ManagementDeviceComponent.code(), 35);
    assert_eq!(StructKind::Inactive.code(), 126);
}

#[test]
fn header_fields_match_bytes() {
    let h = Header::new(&[0x11, 0x28, 0x34, 0x12]);
    assert_eq!(h.struct_type(), 0x11);
    assert_eq!(h.length(), 0x28);
    assert_eq!(h.handle(), Handle(0x1234));
}

#[test]
fn field_reads_are_little_endian_and_bounded() {
    let bytes = vec![
        0x01u8, 0x0C, 0x00, 0x00, 0x01, 0x02, 0x03, 0x04, 0x05, 0x06, 0x07, 0x08, 0x00, 0x00,
    ];
    let parts = SMBiosStructParts::new(bytes.as_slice());
    assert_eq!(parts.get_field_byte(4), Some(0x01));
    assert_eq!(parts.get_field_word(4), Some(0x0201));
    assert_eq!(parts.get_field_dword(4), Some(0x04030201));
    assert_eq!(parts.get_field_qword(4), Some(0x0807060504030201));
    assert_eq!(parts.get_field_byte(11), Some(0x08));
    assert_eq!(parts.get_field_byte(12), None);
    assert_eq!(parts.get_field_word(11), None);
    assert_eq!(parts.get_field_dword(9), None);
    assert_eq!(parts.get_field_qword(5), None);
    assert_eq!(parts.get_field_handle(10), Some(Handle(0x0807)));
    assert_eq!(parts.get_field_handle(usize::MAX), None);
}

#[test]
fn string_index_zero_in_range_and_past_count() {
    let mut bytes = vec![0x01u8, 0x07, 0x00, 0x00, 0x00, 0x02, 0x03];
    bytes.extend_from_slice(b"one\0two\0\0");
    let parts = SMBiosStructParts::new(bytes.as_slice());
    assert_eq!(parts.strings.len(), 2);
    assert_eq!(parts.get_field_string(4), None);
    assert_eq!(parts.get_field_string(5), Some("two".to_string()));
    assert_eq!(parts.get_field_string(6), None);
    assert_eq!(parts.get_field_string_bytes(5), Some(b"two".to_vec()));
    assert_eq!(parts.get_field_string(7), None);
}

#[test]
fn no_strings_takes_two_zero_bytes() {
    let d = vec![0x00u8, 0x05, 0x00, 0x00, 0x01, 0x00, 0x00, 0x7F, 0x04, 0x01, 0x00, 0x00, 0x00];
    let table = SMBiosTable::parse(d.as_slice());
    assert_eq!(table.error, None);
    assert_eq!(table.structures.len(), 2);
    assert_eq!(table.structures[0].strings.len(), 0);
    assert_eq!(table.structures[0].get_field_string(4), None);
}

#[test]
fn malformed_text_is_decoded_lossily() {
    let bytes = vec![0x01u8, 0x05, 0x00, 0x00, 0x01, b'a', 0xFF, b'b', 0x00, 0x00];
    let parts = SMBiosStructParts::new(bytes.as_slice());
    assert_eq!(parts.get_field_string(4), Some("a\u{FFFD}b".to_string()));
}
