use taurin::format::{format_file_size, format_size, format_size_with_bytes};

#[test]
fn file_size_units() {
    assert_eq!(format_file_size(500), "500 B");
    assert_eq!(format_file_size(1536), "1.5 KB");
    assert_eq!(format_file_size(1048576), "1.00 MB");
    assert_eq!(format_size(2048), "2 KB");
    assert_eq!(format_size(1048576 * 3 / 2), "1.5 MB");
    assert_eq!(format_size_with_bytes(10), "10 B");
    assert_eq!(format_size_with_bytes(1024), "1.0 KB");
}

#[test]
fn sizes_round_like_float_formatting() {
    let mut samples: Vec<u64> = Vec::new();
    for i in 0..5000u64 {
        samples.push(i * 977 + 1024);
        samples.push(i * 104_729 + 1_048_576);
    }
    samples.push(1024 + 51);
    samples.push(1024 + 1024 / 20);
    samples.push(1048576 + 1048576 / 20);
    samples.push(u64::MAX);
    samples.push((1u64 << 53) + 1);
    samples.push((1u64 << 60) + 12345);
    for &b in &samples {
        let mb = b as f64 / 1_048_576.0;
        let kb = b as f64 / 1024.0;
        if b >= 1_048_576 {
            assert_eq!(format_size(b), format!("{:.1} MB", mb));
            assert_eq!(format_size_with_bytes(b), format!("{:.1} MB", mb));
        } else if b >= 1024 {
            assert_eq!(format_size_with_bytes(b), format!("{:.1} KB", kb));
        }
        let u = b as usize;
        if u >= 1024 * 1024 {
            assert_eq!(format_file_size(u), format!("{:.2} MB", u as f64 / (1024.0 * 1024.0)));
        } else if u >= 1024 {
            assert_eq!(format_file_size(u), format!("{:.1} KB", u as f64 / 1024.0));
        }
    }
}
