use sidecar_supervisor::badge_label;

#[test]
fn zero_clears_the_badge() {
    assert_eq!(badge_label(0), None);
}

#[test]
fn positive_counts_format_in_decimal() {
    assert_eq!(badge_label(1), Some(b"1".to_vec()));
    assert_eq!(badge_label(5), Some(b"5".to_vec()));
    assert_eq!(badge_label(42), Some(b"42".to_vec()));
    assert_eq!(badge_label(1000), Some(b"1000".to_vec()));
    assert_eq!(badge_label(4294967295), Some(b"4294967295".to_vec()));
}
