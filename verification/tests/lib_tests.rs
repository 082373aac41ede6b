//! Tests of the crate-level helpers.

use terrain_editor::{is_supported_size, size_of_slice};

#[test]
fn size_of_slice_counts_bytes() {
    let words: [u32; 3] = [1, 2, 3];
    assert_eq!(size_of_slice(&words), 12);
    let bytes: [u8; 5] = [0; 5];
    assert_eq!(size_of_slice(&bytes), 5);
    let empty: [u64; 0] = [];
    assert_eq!(size_of_slice(&empty), 0);
    let pairs: [(u16, u16); 4] = [(1, 2); 4];
    assert_eq!(size_of_slice(&pairs), 16);
}

#[test]
fn supported_sizes_are_the_three_powers() {
    assert!(is_supported_size(1024));
    assert!(is_supported_size(2048));
    assert!(is_supported_size(4096));
    assert!(!is_supported_size(0));
    assert!(!is_supported_size(512));
    assert!(!is_supported_size(4095));
    assert!(!is_supported_size(8192));
}
