//! Tests for decoded table-scan entries and their formatting.

use usn_journal_rs::mft::{MftEntry, EnumOptions};
use usn_journal_rs::record::decode_record;

fn put_u16(b: &mut [u8], off: usize, v: u16) {
    b[off] = v as u8;
    b[off + 1] = (v >> 8) as u8;
}

fn put_u32(b: &mut [u8], off: usize, v: u32) {
    for i in 0..4 {
        b[off + i] = (v >> (8 * i)) as u8;
    }
}

fn put_u64(b: &mut [u8], off: usize, v: u64) {
    for i in 0..8 {
        b[off + i] = (v >> (8 * i)) as u8;
    }
}

fn mock_record(usn: i64, fid: u64, parent_fid: u64, name: &str, attrs: u32) -> Vec<u8> {
    let units: Vec<u16> = name.encode_utf16().collect();
    let name_len = units.len() * 2;
    let total = 60 + name_len;
    let mut b = vec![0u8; total];
    put_u32(&mut b, 0, total as u32);
    put_u16(&mut b, 4, 2);
    put_u64(&mut b, 8, fid);
    put_u64(&mut b, 16, parent_fid);
    put_u64(&mut b, 24, usn as u64);
    put_u32(&mut b, 52, attrs);
    put_u16(&mut b, 56, name_len as u16);
    put_u16(&mut b, 58, 60);
    for (i, u) in units.iter().enumerate() {
        put_u16(&mut b, 60 + 2 * i, *u);
    }
    b
}

fn entry(usn: i64, fid: u64, parent_fid: u64, name: &str, attrs: u32) -> MftEntry {
    let data = mock_record(usn, fid, parent_fid, name, attrs);
    MftEntry::new(&decode_record(&data, 0).unwrap())
}

#[test]
fn test_mft_entry_new_basic() {
    let e = entry(100, 12345, 67890, "test.txt", 0x20);
    assert_eq!(e.usn, 100);
    assert_eq!(e.fid, 12345);
    assert_eq!(e.parent_fid, 67890);
    assert_eq!(e.file_name, "test.txt");
    assert_eq!(e.file_attributes, 0x20);
}

#[test]
fn test_mft_entry_is_dir_true() {
    let e = entry(100, 12345, 67890, "folder", 0x10);
    assert!(e.is_dir());
    assert!(!e.is_hidden());
}

#[test]
fn test_mft_entry_is_dir_false() {
    let e = entry(100, 12345, 67890, "file.txt", 0x20);
    assert!(!e.is_dir());
    assert!(!e.is_hidden());
}

#[test]
fn test_mft_entry_is_hidden_true() {
    let e = entry(100, 12345, 67890, ".hidden", 0x02);
    assert!(e.is_hidden());
    assert!(!e.is_dir());
}

#[test]
fn test_mft_entry_combined_attributes() {
    let e = entry(100, 12345, 67890, ".hidden_folder", 0x12);
    assert!(e.is_dir());
    assert!(e.is_hidden());
}

#[test]
fn test_mft_entry_unicode_filename() {
    let e = entry(100, 12345, 67890, "\u{6d4b}\u{8bd5}\u{6587}\u{4ef6}.txt", 0x20);
    assert_eq!(e.file_name, "\u{6d4b}\u{8bd5}\u{6587}\u{4ef6}.txt");
}

#[test]
fn test_mft_entry_empty_filename() {
    let e = entry(100, 12345, 67890, "", 0x20);
    assert!(e.file_name.is_empty());
}

#[test]
fn test_mft_entry_pretty_format_with_path() {
    let e = entry(100, 0x12345, 0x67890, "test.txt", 0x20);
    let full = String::from("C:\\full\\path\\test.txt");
    let formatted = e.pretty_format(Some(&full));
    assert!(formatted.contains("File ID             : 0x12345"));
    assert!(formatted.contains("Parent File ID      : 0x67890"));
    assert!(formatted.contains("Type                : File"));
    assert!(formatted.contains("Path                : C:\\full\\path\\test.txt"));
}

#[test]
fn test_mft_entry_pretty_format_without_path() {
    let e = entry(100, 0x12345, 0x67890, "test.txt", 0x10);
    let formatted = e.pretty_format(None);
    assert!(formatted.contains("File ID             : 0x12345"));
    assert!(formatted.contains("Parent File ID      : 0x67890"));
    assert!(formatted.contains("Type                : Directory"));
    assert!(formatted.contains("Path                : test.txt"));
}

#[test]
fn test_mft_enum_options_default() {
    let options = EnumOptions::default();
    assert_eq!(options.low_usn, 0);
    assert_eq!(options.high_usn, i64::MAX);
    assert_eq!(options.buffer_size, 65536);
}
