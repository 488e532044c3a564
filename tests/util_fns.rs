use render_group::util::{aligned, clamp_range, fits_isize, fits_u32, fits_u64, fits_usize, IntegerFitting};

#[test]
fn aligned_sets_low_bits() {
    assert_eq!(aligned(5, 4), 7);
    assert_eq!(aligned(8, 4), 11);
    assert_eq!(aligned(1, 1), 1);
    assert_eq!(aligned(17, 16), 31);
}

#[test]
fn clamp_range_intersects() {
    assert_eq!(clamp_range(2..20, 5..10), 5..10);
    assert_eq!(clamp_range(6..8, 5..10), 6..8);
    assert_eq!(clamp_range(0..3, 5..10), 5..5);
    assert_eq!(clamp_range(12..30, 5..10), 10..10);
    assert_eq!(clamp_range(7..30, 5..10), 7..10);
}

#[test]
fn integer_fitting() {
    assert!(fits_usize(u64::MAX) == (usize::MAX as u128 >= u64::MAX as u128));
    assert!(fits_usize(7u32));
    assert!(fits_isize(isize::MAX as u64));
    assert!(!fits_isize(u64::MAX));
    assert!(fits_isize(u32::MAX));
    assert!(fits_u64(usize::MAX));
    assert!(fits_u32(u32::MAX as usize));
    assert!(fits_u32(0));
    assert_eq!(fits_u32(usize::MAX), usize::MAX as u128 <= u32::MAX as u128);
    assert!(u32::isize_fits(5));
    assert!(!u32::isize_fits(-1));
    assert!(!u64::isize_fits(-7));
    assert!(u64::usize_fits(3));
}
