//! Tests for entry formatting, the table-scan iterator, and the text
//! and volume-path helpers.

use usn_journal_rs::journal::{UsnEntry, USN_REASON_FILE_CREATE, USN_REASON_FILE_DELETE};
use usn_journal_rs::mft::{MftIter, ScanStep, EnumOptions as MftEnumOptions};
use usn_journal_rs::text::{hex_string, utf16_lossy_string, decimal_string};
use usn_journal_rs::time::UnixTime;
use usn_journal_rs::volume::{volume_root_for_drive, mount_point_query_path, volume_guid_path};
use usn_journal_rs::path::{parse_name_info, name_info_needed_len};

fn usn_entry(usn: i64, fid: u64, parent_fid: u64, reason: u32, name: &str) -> UsnEntry {
    UsnEntry {
        usn,
        time: UnixTime { secs: 0, nanos: 0 },
        fid,
        parent_fid,
        reason,
        source_info: 0,
        file_name: String::from(name),
        file_attributes: 0,
    }
}

#[test]
fn test_usn_entry_pretty_format_with_path() {
    let entry = usn_entry(0x7000, 0xABC123, 0x654321, USN_REASON_FILE_CREATE, "document.txt");
    let full = String::from("C:\\Documents\\document.txt");
    let formatted = entry.pretty_format(Some(&full));
    assert!(formatted.contains("USN"));
    assert!(formatted.contains("0x7000"));
    assert!(formatted.contains("File ID"));
    assert!(formatted.contains("0xabc123"));
    assert!(formatted.contains("Parent File ID"));
    assert!(formatted.contains("0x654321"));
    assert!(formatted.contains("Type"));
    assert!(formatted.contains("File"));
    assert!(formatted.contains("Timestamp"));
    assert!(formatted.contains("Reason"));
    assert!(formatted.contains("FILE_CREATE"));
    assert!(formatted.contains("Path"));
    assert!(formatted.contains("C:\\Documents\\document.txt"));
}

#[test]
fn test_usn_entry_pretty_format_without_path() {
    let entry = usn_entry(0x8000, 0xDEF456, 0x654321, USN_REASON_FILE_DELETE, "deleted.txt");
    let formatted = entry.pretty_format(None);
    assert!(formatted.contains("USN"));
    assert!(formatted.contains("0x8000"));
    assert!(formatted.contains("File ID"));
    assert!(formatted.contains("0xdef456"));
    assert!(formatted.contains("Reason"));
    assert!(formatted.contains("FILE_DELETE"));
    assert!(formatted.contains("Path"));
    assert!(formatted.contains("deleted.txt"));
}

#[test]
fn test_hex_string_values() {
    assert_eq!(hex_string(0), "0");
    assert_eq!(hex_string(0xabc123), "abc123");
    assert_eq!(hex_string(255), "ff");
    assert_eq!(hex_string(u64::MAX), "ffffffffffffffff");
}

#[test]
fn test_utf16_lossy_string_values() {
    let units: Vec<u16> = "grüße".encode_utf16().collect();
    assert_eq!(utf16_lossy_string(&units), "grüße");
    // A surrogate pair decodes to its supplementary character.
    let pair: Vec<u16> = vec![0xD83D, 0xDE00];
    assert_eq!(utf16_lossy_string(&pair), "\u{1F600}");
    // An unpaired surrogate becomes the replacement character.
    let unpaired: Vec<u16> = vec![0x0041, 0xD800, 0x0042];
    assert_eq!(utf16_lossy_string(&unpaired), "A\u{FFFD}B");
}

#[test]
fn test_mft_iter_walks_and_requests() {
    fn put_u16(b: &mut [u8], off: usize, v: u16) {
        b[off] = v as u8;
        b[off + 1] = (v >> 8) as u8;
    }
    fn put_u32(b: &mut [u8], off: usize, v: u32) {
        for i in 0..4 {
            b[off + i] = (v >> (8 * i)) as u8;
        }
    }
    fn put_u64(b: &mut [u8], off: usize, v: u64) {
        for i in 0..8 {
            b[off + i] = (v >> (8 * i)) as u8;
        }
    }
    fn record(usn: i64, fid: u64, name: &str) -> Vec<u8> {
        let units: Vec<u16> = name.encode_utf16().collect();
        let name_len = units.len() * 2;
        let total = 60 + name_len;
        let mut b = vec![0u8; total];
        put_u32(&mut b, 0, total as u32);
        put_u64(&mut b, 8, fid);
        put_u64(&mut b, 24, usn as u64);
        put_u16(&mut b, 56, name_len as u16);
        put_u16(&mut b, 58, 60);
        for (i, u) in units.iter().enumerate() {
            put_u16(&mut b, 60 + 2 * i, *u);
        }
        b
    }

    let options = MftEnumOptions { low_usn: 5, high_usn: 1000, buffer_size: 8192 };
    let mut it = MftIter::new_with_options(&options);
    assert!(matches!(it.next_entry().unwrap(), ScanStep::NeedData));
    let req = it.read_request();
    assert_eq!(req.start_fid, 5);
    assert_eq!(req.low_usn, 5);
    assert_eq!(req.high_usn, 1000);
    assert_eq!(req.buffer_size, 8192);

    // The table-scan cursor is a file id: the next one is read from the
    // head of the filled buffer.
    let mut buf = vec![0u8; 8];
    put_u64(&mut buf, 0, 77);
    buf.extend_from_slice(&record(10, 42, "x.txt"));
    it.provide_data(buf).unwrap();
    match it.next_entry().unwrap() {
        ScanStep::Entry(e) => {
            assert_eq!(e.fid, 42);
            assert_eq!(e.file_name, "x.txt");
        }
        _ => panic!("expected an entry"),
    }
    assert!(matches!(it.next_entry().unwrap(), ScanStep::NeedData));
    assert_eq!(it.read_request().start_fid, 77);
    it.end_of_data();
    assert!(matches!(it.next_entry().unwrap(), ScanStep::Done));
}

#[test]
fn test_volume_root_for_drive_value() {
    assert_eq!(volume_root_for_drive('C'), "\\\\.\\C:");
}

#[test]
fn test_mount_point_query_path_value() {
    assert_eq!(mount_point_query_path("C:\\mount"), "C:\\mount\\");
}

#[test]
fn test_volume_guid_path_trims_and_stops_at_nul() {
    let wide: Vec<u16> = "\\\\?\\Volume{abc}\\\0garbage"
        .encode_utf16()
        .collect();
    assert_eq!(volume_guid_path(&wide), "\\\\?\\Volume{abc}");
}

#[test]
fn test_name_info_parsing() {
    let name: Vec<u16> = "Users\\me\\a.txt".encode_utf16().collect();
    let mut buf = vec![0u8; 4 + name.len() * 2];
    let byte_len = (name.len() * 2) as u32;
    for i in 0..4 {
        buf[i] = (byte_len >> (8 * i)) as u8;
    }
    for (i, u) in name.iter().enumerate() {
        buf[4 + 2 * i] = *u as u8;
        buf[4 + 2 * i + 1] = (*u >> 8) as u8;
    }
    assert_eq!(parse_name_info(&buf), Some(String::from("Users\\me\\a.txt")));
    assert_eq!(name_info_needed_len(&buf), Some(4 + byte_len as u64));
    // A buffer too small for the name it announces is rejected.
    let short = &buf[..buf.len() - 2];
    assert_eq!(parse_name_info(short), None);
}

#[test]
fn test_usn_entry_pretty_format_with_timestamp_exact() {
    let entry = usn_entry(0x7000, 0xABC123, 0x654321, USN_REASON_FILE_CREATE, "document.txt");
    let full = String::from("C:\\Documents\\document.txt");
    let formatted = entry.pretty_format_with_timestamp(Some(&full), "2024-01-01 12:00:00");
    let expected = "USN                 : 0x7000\nType                : File\nFile ID             : 0xabc123\nParent File ID      : 0x654321\nTimestamp           : 2024-01-01 12:00:00\nReason              : FILE_CREATE\nPath                : C:\\Documents\\document.txt\n";
    assert_eq!(formatted, expected);
}

#[test]
fn test_mft_cursor_only_refill_ends_scan() {
    fn put_u64_at(b: &mut [u8], off: usize, v: u64) {
        for i in 0..8 {
            b[off + i] = (v >> (8 * i)) as u8;
        }
    }
    let mut it = MftIter::new();
    assert!(matches!(it.next_entry().unwrap(), ScanStep::NeedData));
    let mut cursor_only = vec![0u8; 8];
    put_u64_at(&mut cursor_only, 0, 99);
    it.provide_data(cursor_only).unwrap();
    assert!(matches!(it.next_entry().unwrap(), ScanStep::Done));
}

#[test]
fn test_decimal_string_values() {
    assert_eq!(decimal_string(0), "0");
    assert_eq!(decimal_string(5), "5");
    assert_eq!(decimal_string(1179), "1179");
    assert_eq!(decimal_string(u64::MAX), "18446744073709551615");
}
