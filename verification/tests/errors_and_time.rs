//! Tests for the error taxonomy and the timestamp conversion.

use usn_journal_rs::errors::UsnError;
use usn_journal_rs::time::{filetime_to_unixtime, UnixTime, local_time_string};

#[test]
fn test_permission_error_display() {
    let error = UsnError::PermissionError;
    assert_eq!(error.message(), "Access denied: Administrator privileges required.");
}

#[test]
fn test_invalid_mount_point_error_display() {
    let mount_point = "C:\\invalid\\path";
    let error = UsnError::InvalidMountPointError(mount_point.to_string());
    assert_eq!(error.message(), "Invalid mount point: C:\\invalid\\path");
}

#[test]
fn test_other_error_display() {
    let message = "Custom error message";
    let error = UsnError::OtherError(message.to_string());
    assert_eq!(error.message(), "Other error: Custom error message");
}

#[test]
fn test_error_debug_formatting() {
    let error = UsnError::PermissionError;
    let debug_string = format!("{error:?}");
    assert!(debug_string.contains("PermissionError"));
}

#[test]
fn test_error_chain_display() {
    let error = UsnError::IoError("Access denied".to_string());
    let error_string = error.message();
    assert!(error_string.contains("IO error:"));
    assert!(error_string.contains("Access denied"));
}

#[test]
fn test_error_is_send_sync() {
    fn assert_send_sync<T: Send + Sync>() {}
    assert_send_sync::<UsnError>();
}

#[test]
fn test_error_matching_patterns() {
    let errors = vec![
        UsnError::PermissionError,
        UsnError::InvalidMountPointError("test".to_string()),
        UsnError::IoError("test".to_string()),
        UsnError::WinApiError(5),
        UsnError::OtherError("test".to_string()),
    ];
    for error in errors {
        match &error {
            UsnError::PermissionError => {
                assert!(matches!(error, UsnError::PermissionError));
            }
            UsnError::InvalidMountPointError(_) => {
                assert!(matches!(error, UsnError::InvalidMountPointError(_)));
            }
            UsnError::IoError(_) => {
                assert!(matches!(error, UsnError::IoError(_)));
            }
            UsnError::WinApiError(_) => {
                assert!(matches!(error, UsnError::WinApiError(_)));
            }
            UsnError::OtherError(_) => {
                assert!(matches!(error, UsnError::OtherError(_)));
            }
        }
    }
}

#[test]
fn test_common_permission_scenarios() {
    let error = UsnError::PermissionError;
    assert!(error.message().contains("Administrator privileges required"));
}

#[test]
fn test_mount_point_error_scenarios() {
    let invalid_paths = vec![
        "Z:\\nonexistent",
        "\\\\invalid\\unc\\path",
        "C:\\path\\that\\does\\not\\exist",
        "",
    ];
    for path in invalid_paths {
        let error = UsnError::InvalidMountPointError(path.to_string());
        assert!(error.message().contains("Invalid mount point:"));
        assert!(error.message().contains(path));
    }
}

#[test]
fn test_windows_api_error_codes() {
    let error_codes: Vec<u32> = vec![5, 2, 6];
    for code in error_codes {
        let error = UsnError::WinApiError(code);
        if let UsnError::WinApiError(c) = error {
            assert_eq!(c, code);
        } else {
            panic!("Expected WinApiError variant");
        }
    }
}

#[test]
fn filetime_to_systemtime_test() {
    // The Unix epoch itself.
    let unix_epoch_filetime: i64 = 116_444_736_000_000_000;
    let t = filetime_to_unixtime(unix_epoch_filetime).unwrap();
    assert_eq!(t, UnixTime { secs: 0, nanos: 0 });

    // The journal epoch, 1601-01-01T00:00:00Z, lies a fixed number of
    // seconds before the Unix epoch.
    let t0 = filetime_to_unixtime(0).unwrap();
    assert_eq!(t0, UnixTime { secs: -11_644_473_600, nanos: 0 });

    // 2020-01-01T00:00:00Z.
    let t2020 = filetime_to_unixtime(132_223_104_000_000_000).unwrap();
    assert_eq!(t2020, UnixTime { secs: 1_577_836_800, nanos: 0 });

    // 2023-07-15T12:30:45Z.
    let t2023 = filetime_to_unixtime(133_338_978_450_000_000).unwrap();
    assert_eq!(t2023, UnixTime { secs: 1_689_424_245, nanos: 0 });
}

#[test]
fn test_large_filetime_values() {
    let large_filetime = 132_000_000_000_000_000;
    let result = filetime_to_unixtime(large_filetime).unwrap();
    assert!(result.secs > 0);
}

#[test]
fn test_negative_filetime_values() {
    let negative_filetime = -10_000_000;
    let result = filetime_to_unixtime(negative_filetime);
    assert!(result.is_err());
    if let Err(UsnError::OtherError(msg)) = result {
        assert!(msg.contains("FILETIME cannot be negative"));
    } else {
        panic!("Expected OtherError with negative FILETIME message");
    }
}

#[test]
fn test_extremely_large_filetime_values() {
    let max_safe_value = i64::MAX - 1;
    let result = filetime_to_unixtime(max_safe_value);
    assert!(result.is_ok() || result.is_err());
}

#[test]
fn test_overflow_edge_cases() {
    let near_overflow = i64::MAX / 10_000_000 - 1;
    let overflow_seconds = near_overflow * 10_000_000;
    let result = filetime_to_unixtime(overflow_seconds);
    assert!(result.is_ok() || result.is_err());
}

#[test]
fn test_nanosecond_precision() {
    let base_filetime = 116_444_736_000_000_000;

    let one_second_later = base_filetime + 10_000_000;
    let result = filetime_to_unixtime(one_second_later).unwrap();
    assert_eq!(result, UnixTime { secs: 1, nanos: 0 });

    let one_ms_later = base_filetime + 10_000;
    let result_ms = filetime_to_unixtime(one_ms_later).unwrap();
    assert_eq!(result_ms, UnixTime { secs: 0, nanos: 1_000_000 });
}

#[test]
fn test_filetime_as_unsigned() {
    let large_value = 130_000_000_000_000_000_i64;
    let result = filetime_to_unixtime(large_value).unwrap();
    assert!(result.secs > 0);
}

#[test]
fn test_conversion_consistency() {
    let test_values: Vec<i64> = vec![0, 116_444_736_000_000_000, 132_103_584_000_000_000];
    for filetime in test_values {
        let t = filetime_to_unixtime(filetime).unwrap();
        let reconstructed_filetime =
            (t.secs + 11_644_473_600) * 10_000_000 + (t.nanos as i64) / 100;
        let diff = (filetime - reconstructed_filetime).abs();
        assert!(
            diff < 10_000_000,
            "Conversion inconsistency: {filetime} vs {reconstructed_filetime} (diff: {diff})"
        );
    }
}

#[test]
fn test_current_time_conversion() {
    // 2024-01-01T12:00:00Z.
    let filetime: i64 = 133_485_840_000_000_000;
    let converted = filetime_to_unixtime(filetime).unwrap();
    assert_eq!(converted, UnixTime { secs: 1_704_110_400, nanos: 0 });
}

#[test]
fn test_local_time_string_renders() {
    // The rendering depends on the machine's time zone; only its shape
    // is checked.
    let s = local_time_string(0, 0);
    assert_eq!(s.len(), 19);
    assert!(s.contains("-"));
    assert!(s.contains(":"));
}

#[test]
fn test_win_api_error_message_carries_code() {
    let error = UsnError::WinApiError(5);
    assert_eq!(error.message(), "Windows API error: 5");
    let error = UsnError::WinApiError(1179);
    assert_eq!(error.message(), "Windows API error: 1179");
}
