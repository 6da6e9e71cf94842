use drive_uploader::size::u64_to_size_string;
use drive_uploader::MAX_FILE_LIMIT;

#[test]
fn convert_u64() {
    let size = 1024;
    let size_str = u64_to_size_string(size);
    assert_eq!(size_str, "1.00 KB");

    let size = 2 * 1024 * 1024;
    let size_str = u64_to_size_string(size);
    assert_eq!(size_str, "2.00 MB");

    let size = MAX_FILE_LIMIT;
    let size_str = u64_to_size_string(size);
    assert_eq!(size_str, "250.00 GB");
}

#[test]
fn bytes_stay_unscaled() {
    assert_eq!(u64_to_size_string(0), "0.00 B");
    assert_eq!(u64_to_size_string(1), "1.00 B");
    assert_eq!(u64_to_size_string(1023), "1023.00 B");
}

#[test]
fn fractions_round_half_up() {
    assert_eq!(u64_to_size_string(1536), "1.50 KB");
    assert_eq!(u64_to_size_string(1024 + 512 + 256), "1.75 KB");
    assert_eq!(u64_to_size_string(1024 + 5), "1.00 KB");
}

#[test]
fn every_reachable_unit_appears() {
    assert_eq!(u64_to_size_string(1024 * 1024 * 1024), "1.00 GB");
    assert_eq!(u64_to_size_string(1024 * 1024 * 1024 * 1024), "1.00 TB");
    assert_eq!(u64_to_size_string(1024 * 1024 * 1024 * 1024 * 1024), "1.00 PB");
    assert_eq!(u64_to_size_string(1024 * 1024 * 1024 * 1024 * 1024 * 1024), "1.00 EB");
    assert_eq!(u64_to_size_string(u64::MAX), "16.00 EB");
}
