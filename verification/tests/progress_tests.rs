use http_downloader::progress::{download_speed, eta, progress_percentage};

#[test]
fn speed_is_bytes_over_elapsed() {
    assert_eq!(download_speed(2_000_000, 2), 1_000_000);
    assert_eq!(download_speed(999, 1000), 0);
}

#[test]
fn speed_is_zero_while_no_second_elapsed() {
    assert_eq!(download_speed(123_456, 0), 0);
}

#[test]
fn eta_is_remaining_over_speed() {
    assert_eq!(eta(100, 40, 30), 2);
    assert_eq!(eta(1_000_000, 0, 1_000), 1_000);
}

#[test]
fn eta_is_zero_while_speed_is_zero() {
    assert_eq!(eta(100, 40, 0), 0);
}

#[test]
fn percentage_is_whole_percent_of_total() {
    assert_eq!(progress_percentage(40, 100), 40);
    assert_eq!(progress_percentage(5, 1000), 0);
    assert_eq!(progress_percentage(1000, 1000), 100);
}

#[test]
fn percentage_of_empty_total_is_zero() {
    assert_eq!(progress_percentage(0, 0), 0);
}

#[test]
fn percentage_handles_huge_counts() {
    assert_eq!(progress_percentage(u64::MAX / 2, u64::MAX), 49);
    assert_eq!(progress_percentage(u64::MAX, u64::MAX), 100);
}
