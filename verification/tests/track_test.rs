use music_licensing_backend::domain::track::is_valid_time_range;

#[test]
fn accepts_a_positive_range() {
    assert!(is_valid_time_range(0, 100));
}

#[test]
fn rejects_a_zero_length_range() {
    assert!(!is_valid_time_range(50, 50));
}

#[test]
fn rejects_an_inverted_range() {
    assert!(!is_valid_time_range(100, 50));
}

#[test]
fn rejects_a_negative_start() {
    assert!(!is_valid_time_range(-100, -50));
    assert!(!is_valid_time_range(-1, 100));
}

#[test]
fn accepts_the_extremes_of_the_range() {
    assert!(is_valid_time_range(0, 1));
    assert!(is_valid_time_range(i32::MAX - 1, i32::MAX));
    assert!(is_valid_time_range(750_000, 840_000));
    assert!(!is_valid_time_range(i32::MIN, i32::MAX));
}
