use http_downloader::errors::DownloadError;
use http_downloader::headers::{parse_headers, parse_range_value, resume_offset};

fn pairs(list: &[(&str, &str)]) -> Option<Vec<(String, String)>> {
    Some(list.iter().map(|(n, v)| (n.to_string(), v.to_string())).collect())
}

#[test]
fn default_user_agent_alone() {
    let h = parse_headers(None).unwrap();
    assert_eq!(h.len(), 1);
    let (name, value) = h.entry(0);
    assert_eq!(name, "user-agent");
    assert_eq!(value, "chimera");
}

#[test]
fn empty_custom_list_keeps_default() {
    let h = parse_headers(Some(Vec::new())).unwrap();
    assert_eq!(h.len(), 1);
    let (name, value) = h.entry(0);
    assert_eq!(name, "user-agent");
    assert_eq!(value, "chimera");
}

#[test]
fn custom_header_is_appended() {
    let h = parse_headers(pairs(&[("X-Token", "abc123")])).unwrap();
    assert_eq!(h.len(), 2);
    let (name, value) = h.entry(1);
    assert_eq!(name, "X-Token");
    assert_eq!(value, "abc123");
}

#[test]
fn custom_user_agent_replaces_default_case_insensitively() {
    let h = parse_headers(pairs(&[("User-Agent", "my-agent/1.0")])).unwrap();
    assert_eq!(h.len(), 1);
    let (name, value) = h.entry(0);
    assert_eq!(name, "user-agent");
    assert_eq!(value, "my-agent/1.0");
}

#[test]
fn duplicate_custom_names_replace_not_append() {
    let h = parse_headers(pairs(&[("accept", "text/html"), ("Accept", "application/json")]))
        .unwrap();
    assert_eq!(h.len(), 2);
    let (name, value) = h.entry(1);
    assert_eq!(name, "accept");
    assert_eq!(value, "application/json");
}

#[test]
fn header_name_with_space_is_invalid() {
    let r = parse_headers(pairs(&[("bad name", "v")]));
    assert_eq!(r.unwrap_err(), DownloadError::InvalidHeader);
}

#[test]
fn empty_header_name_is_invalid() {
    let r = parse_headers(pairs(&[("", "v")]));
    assert_eq!(r.unwrap_err(), DownloadError::InvalidHeader);
}

#[test]
fn header_value_with_newline_is_invalid() {
    let r = parse_headers(pairs(&[("x", "line\nbreak")]));
    assert_eq!(r.unwrap_err(), DownloadError::InvalidHeader);
}

#[test]
fn resume_offset_reads_range_header() {
    let h = parse_headers(pairs(&[("Range", "bytes=100-")])).unwrap();
    assert_eq!(resume_offset(&h), 100);
}

#[test]
fn resume_offset_matches_range_case_insensitively() {
    let h = parse_headers(pairs(&[("RANGE", "bytes=42-")])).unwrap();
    assert_eq!(resume_offset(&h), 42);
}

#[test]
fn resume_offset_without_range_is_zero() {
    let h = parse_headers(None).unwrap();
    assert_eq!(resume_offset(&h), 0);
}

#[test]
fn range_value_zero_offset() {
    assert_eq!(parse_range_value(&"bytes=0-".to_string()), 0);
}

#[test]
fn range_value_leading_zeros() {
    assert_eq!(parse_range_value(&"bytes=007-".to_string()), 7);
}

#[test]
fn range_value_without_dash_is_zero() {
    assert_eq!(parse_range_value(&"bytes=12".to_string()), 0);
}

#[test]
fn range_value_empty_digits_is_zero() {
    assert_eq!(parse_range_value(&"bytes=-".to_string()), 0);
}

#[test]
fn range_value_stray_character_is_zero() {
    assert_eq!(parse_range_value(&"bytes=1x2-".to_string()), 0);
}

#[test]
fn range_value_too_large_is_zero() {
    assert_eq!(parse_range_value(&"bytes=99999999999999999999-".to_string()), 0);
}

#[test]
fn range_value_sign_is_not_a_digit() {
    assert_eq!(parse_range_value(&"bytes=+12-".to_string()), 0);
}

#[test]
fn non_ascii_header_name_is_invalid() {
    let r = parse_headers(pairs(&[("na\u{00ef}ve", "v")]));
    assert_eq!(r.unwrap_err(), DownloadError::InvalidHeader);
}

#[test]
fn range_value_at_limit_is_kept() {
    assert_eq!(
        parse_range_value(&"bytes=18446744073709551615-".to_string()),
        u64::MAX
    );
}
