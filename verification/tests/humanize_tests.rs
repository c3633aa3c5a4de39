use fsm_core::humanize::human_readable_size;

fn float_reference(size: u64) -> String {
    let units = ["B", "KB", "MB", "GB", "TB", "PB", "EB"];
    if size == 0 {
        return "0 B".to_string();
    }
    let mut f = size as f64;
    let mut i = 0usize;
    while f >= 1024.0 && i < units.len() - 1 {
        f /= 1024.0;
        i += 1;
    }
    if i == 0 {
        format!("{} {}", size, units[i])
    } else {
        format!("{:.1} {}", f, units[i])
    }
}

#[test]
fn human_sizes_exact_values() {
    assert_eq!(human_readable_size(0), "0 B");
    assert_eq!(human_readable_size(1), "1 B");
    assert_eq!(human_readable_size(1023), "1023 B");
    assert_eq!(human_readable_size(1024), "1.0 KB");
    assert_eq!(human_readable_size(1536), "1.5 KB");
    assert_eq!(human_readable_size(1048576), "1.0 MB");
    assert_eq!(human_readable_size(u64::MAX), "16.0 EB");
}

#[test]
fn human_sizes_agree_with_float_formatting() {
    let mut samples: Vec<u64> = vec![1280, 1024 * 1023 + 1000, 1048575, 5 * 1024 * 1024 * 1024 / 4];
    let mut x: u64 = 1;
    for _ in 0..64 {
        samples.push(x);
        samples.push(x.wrapping_mul(3) / 2);
        samples.push(x.wrapping_add(x / 3));
        x = x.wrapping_mul(2);
    }
    let mut seed: u64 = 0x9E37_79B9_7F4A_7C15;
    for _ in 0..20000 {
        seed ^= seed << 13;
        seed ^= seed >> 7;
        seed ^= seed << 17;
        samples.push(seed >> (seed % 60));
        samples.push(seed);
    }
    for s in samples {
        assert_eq!(human_readable_size(s), float_reference(s), "size {}", s);
    }
}
