use explorer::size::format_size;

#[test]
fn size_boundaries() {
    assert_eq!(format_size(1023), "1023B");
    assert_eq!(format_size(1024), "1.00KB");
    assert_eq!(format_size(1048576), "1.00MB");
    assert_eq!(format_size(1073741824), "1.00GB");
}

#[test]
fn size_small_values() {
    assert_eq!(format_size(0), "0B");
    assert_eq!(format_size(7), "7B");
    assert_eq!(format_size(10), "10B");
}

#[test]
fn size_two_decimals() {
    assert_eq!(format_size(1536), "1.50KB");
    assert_eq!(format_size(1048575), "1024.00KB");
    assert_eq!(format_size(5 * 1048576 + 262144), "5.25MB");
    assert_eq!(format_size(1099511627776), "1024.00GB");
}

#[test]
fn size_ties_round_to_even() {
    assert_eq!(format_size(1152), "1.12KB");
    assert_eq!(format_size(1408), "1.38KB");
}

#[test]
fn size_largest() {
    assert_eq!(format_size(u64::MAX), "17179869184.00GB");
}
