use fsm_core::overlays::{
    format_file_size_compact, format_file_size_human, format_path_smart, format_timestamp_relative_at,
};

#[test]
fn smart_paths_keep_the_file_name() {
    assert_eq!(format_path_smart("/tmp/a.txt", 20), "/tmp/a.txt");
    assert_eq!(format_path_smart("/home/user/projects/file.txt", 20), ".../file.txt");
    assert_eq!(format_path_smart("/a/verylongfilename_abcdefgh.txt", 20), "...name_abcdefgh.txt");
    assert_eq!(format_path_smart("abcdefghijklmnopqrstuvwxyz", 10), "...tuvwxyz");
}

#[test]
fn compact_and_spelled_sizes() {
    for (n, compact, human) in [
        (0u64, "0B", "0 bytes"),
        (512, "512B", "512 bytes"),
        (1536, "1.5K", "1.50 KB"),
        (1048576, "1.0M", "1.00 MB"),
        (5 * 1024u64.pow(4), "5.0T", "5.00 TB"),
        (u64::MAX, "16777216.0T", "16777216.00 TB"),
    ] {
        assert_eq!(format_file_size_compact(n), compact);
        assert_eq!(format_file_size_human(n), human);
    }
}

#[test]
fn compact_size_matches_float_formatting() {
    for n in [1023u64, 1024, 1025, 10_000, 999_999, 123_456_789_012, 1u64 << 53, (1u64 << 53) + 1] {
        let mut f = n as f64;
        let mut i = 0;
        let units = ["B", "K", "M", "G", "T"];
        while f >= 1024.0 && i < 4 {
            f /= 1024.0;
            i += 1;
        }
        let expected = if i == 0 { format!("{n}B") } else { format!("{f:.1}{}", units[i]) };
        assert_eq!(format_file_size_compact(n), expected);
        let spelled = ["bytes", "KB", "MB", "GB", "TB"];
        let expected = if i == 0 { format!("{n} bytes") } else { format!("{f:.2} {}", spelled[i]) };
        assert_eq!(format_file_size_human(n), expected);
    }
}

#[test]
fn relative_ages() {
    let s = 1_000_000_000u64;
    assert_eq!(format_timestamp_relative_at(59 * s, 0), "59s ago");
    assert_eq!(format_timestamp_relative_at(61 * s, 0), "1m ago");
    assert_eq!(format_timestamp_relative_at(7200 * s, 0), "2h ago");
    assert_eq!(format_timestamp_relative_at(3 * 86400 * s, 0), "3d ago");
    assert_eq!(format_timestamp_relative_at(0, 5 * s), "0s ago");
}
