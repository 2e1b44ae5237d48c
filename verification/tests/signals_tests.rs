use http_downloader::signals::SignalStore;

#[test]
fn consume_matching_abort_clears_it() {
    let mut store = SignalStore::new();
    store.abort_download("http://a".to_string());
    assert!(store.consume_abort_if_matching(&"http://a".to_string()));
    assert!(!store.consume_abort_if_matching(&"http://a".to_string()));
}

#[test]
fn abort_for_other_url_is_left_pending() {
    let mut store = SignalStore::new();
    store.abort_download("http://a".to_string());
    assert!(!store.consume_abort_if_matching(&"http://b".to_string()));
    assert!(store.consume_abort_if_matching(&"http://a".to_string()));
}

#[test]
fn pause_and_abort_are_independent() {
    let mut store = SignalStore::new();
    store.pause_download("http://a".to_string());
    assert!(!store.consume_abort_if_matching(&"http://a".to_string()));
    assert!(store.consume_pause_if_matching(&"http://a".to_string()));
}

#[test]
fn setting_twice_is_idempotent() {
    let mut store = SignalStore::new();
    store.pause_download("http://a".to_string());
    store.pause_download("http://a".to_string());
    assert!(store.consume_pause_if_matching(&"http://a".to_string()));
    assert!(!store.consume_pause_if_matching(&"http://a".to_string()));
}

#[test]
fn later_target_replaces_earlier_one() {
    let mut store = SignalStore::new();
    store.abort_download("http://a".to_string());
    store.abort_download("http://b".to_string());
    assert!(!store.consume_abort_if_matching(&"http://a".to_string()));
    assert!(store.consume_abort_if_matching(&"http://b".to_string()));
}
