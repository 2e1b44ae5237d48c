use http_downloader::errors::DownloadError;
use http_downloader::events::DownloadEvent;
use http_downloader::headers::{parse_headers, resume_offset};
use http_downloader::session::{on_response, ChunkOutcome, DownloadSession};
use http_downloader::signals::SignalStore;

/// Drives one session over an in-memory resource, mirroring the loop the
/// embedding application runs: append each chunk to the file model, hand it
/// to the state machine, carry out the prescribed sink action.
fn run_session(
    url: &str,
    resource: &[u8],
    offset: usize,
    chunk_size: usize,
    ms_per_chunk: u64,
    signals: &mut SignalStore,
    abort_at_chunk: Option<usize>,
    pause_at_chunk: Option<usize>,
    file: &mut Option<Vec<u8>>,
) -> (DownloadSession, Vec<DownloadEvent>, bool) {
    let content_length = (resource.len() - offset) as u64;
    let r = on_response(
        url.to_string(),
        "downloads/file.bin".to_string(),
        offset as u64,
        200,
        Some(content_length),
        0,
    );
    let (mut session, started) = r.ok().unwrap();
    let mut events = vec![started];
    *file = Some(resource[..offset].to_vec());
    let mut now: u64 = 0;
    let mut pos = offset;
    let mut idx = 0usize;
    let mut stopped = false;
    while pos < resource.len() {
        idx += 1;
        now += ms_per_chunk;
        let end = (pos + chunk_size).min(resource.len());
        let chunk = &resource[pos..end];
        if abort_at_chunk == Some(idx) {
            signals.abort_download(url.to_string());
        }
        if pause_at_chunk == Some(idx) {
            signals.pause_download(url.to_string());
        }
        file.as_mut().unwrap().extend_from_slice(chunk);
        pos = end;
        match session.on_chunk(chunk.len() as u64, now, signals) {
            ChunkOutcome::Continue => {}
            ChunkOutcome::Progress(ev) => events.push(ev),
            ChunkOutcome::Abort(ev) => {
                *file = None;
                events.push(ev);
                stopped = true;
                break;
            }
            ChunkOutcome::Pause { progress, paused } => {
                events.push(progress);
                events.push(paused);
                stopped = true;
                break;
            }
        }
    }
    if !stopped {
        if let Some(ev) = session.on_stream_end(signals) {
            events.push(ev);
        }
    }
    (session, events, stopped)
}

#[test]
fn ten_megabyte_transfer_reports_progress_then_completes() {
    let url = "http://example/file";
    let resource = vec![7u8; 10 * 1024 * 1024];
    let mut signals = SignalStore::new();
    let mut file = None;
    let (session, events, stopped) = run_session(
        url,
        &resource,
        0,
        1024 * 1024,
        1000,
        &mut signals,
        None,
        None,
        &mut file,
    );
    assert!(!stopped);
    match &events[0] {
        DownloadEvent::Started { url: u, content_length, .. } => {
            assert_eq!(u, url);
            assert_eq!(*content_length, resource.len() as u64);
        }
        other => panic!("expected Started first, got {:?}", other),
    }
    let progress: Vec<u64> = events
        .iter()
        .filter_map(|ev| match ev {
            DownloadEvent::Progress { downloaded_bytes, .. } => Some(*downloaded_bytes),
            _ => None,
        })
        .collect();
    assert!(progress.len() >= 2, "expected two or more progress events");
    assert!(progress.windows(2).all(|w| w[0] <= w[1]));
    match events.last().unwrap() {
        DownloadEvent::Completed { url: u } => assert_eq!(u, url),
        other => panic!("expected Completed last, got {:?}", other),
    }
    assert_eq!(
        events.len(),
        progress.len() + 2,
        "exactly Started, the progress reports, then Completed"
    );
    assert_eq!(session.downloaded_bytes, session.total_length);
    assert_eq!(file.unwrap(), resource);
}

#[test]
fn rate_limited_response_fails_with_event() {
    let r = on_response(
        "http://example/limited".to_string(),
        "downloads/file.bin".to_string(),
        0,
        429,
        Some(1000),
        0,
    );
    match r {
        Err((Some(DownloadEvent::RateLimitExceeded { url }), e)) => {
            assert_eq!(url, "http://example/limited");
            assert_eq!(e, DownloadError::RateLimited);
        }
        other => panic!("expected rate-limit failure, got {:?}", other),
    }
}

#[test]
fn missing_content_length_is_fatal() {
    let r = on_response(
        "http://example/file".to_string(),
        "downloads/file.bin".to_string(),
        0,
        200,
        None,
        0,
    );
    match r {
        Err((None, e)) => assert_eq!(e, DownloadError::UnknownContentLength),
        other => panic!("expected unknown-content-length failure, got {:?}", other),
    }
}

#[test]
fn abort_mid_stream_removes_file() {
    let url = "http://example/file";
    let resource = vec![3u8; 1000];
    let mut signals = SignalStore::new();
    let mut file = None;
    let (session, events, stopped) = run_session(
        url,
        &resource,
        0,
        100,
        2000,
        &mut signals,
        Some(4),
        None,
        &mut file,
    );
    assert!(stopped);
    assert!(file.is_none(), "abort must leave no destination file");
    match events.last().unwrap() {
        DownloadEvent::Aborted { url: u } => assert_eq!(u, url),
        other => panic!("expected Aborted last, got {:?}", other),
    }
    assert_eq!(session.downloaded_bytes, 400, "aborted at 40% downloaded");
    assert!(!signals.consume_abort_if_matching(&url.to_string()));
}

#[test]
fn abort_wins_over_simultaneous_pause() {
    let url = "http://example/file";
    let resource = vec![9u8; 1000];
    let mut signals = SignalStore::new();
    let mut file = None;
    let (_, events, _) = run_session(
        url,
        &resource,
        0,
        100,
        2000,
        &mut signals,
        Some(4),
        Some(4),
        &mut file,
    );
    assert!(file.is_none(), "abort must win: file deleted");
    match events.last().unwrap() {
        DownloadEvent::Aborted { url: u } => assert_eq!(u, url),
        other => panic!("expected Aborted, not Paused, got {:?}", other),
    }
    assert!(
        !events.iter().any(|ev| matches!(ev, DownloadEvent::Paused { .. })),
        "no Paused event when abort wins"
    );
    // The losing pause signal is left stale, to be cleared at session end.
    assert!(signals.consume_pause_if_matching(&url.to_string()));
}

#[test]
fn pause_keeps_partial_file_and_resume_completes_it() {
    let url = "http://example/file";
    let resource: Vec<u8> = (0..1000u32).map(|i| (i % 251) as u8).collect();
    let mut signals = SignalStore::new();
    let mut file = None;
    let (_, events, stopped) = run_session(
        url,
        &resource,
        0,
        100,
        2000,
        &mut signals,
        None,
        Some(5),
        &mut file,
    );
    assert!(stopped);
    match events.last().unwrap() {
        DownloadEvent::Paused { url: u } => assert_eq!(u, url),
        other => panic!("expected Paused last, got {:?}", other),
    }
    let partial = file.clone().unwrap();
    assert!(!partial.is_empty());
    assert!(partial.len() < resource.len());
    assert_eq!(partial[..], resource[..partial.len()]);

    // Resume exactly as a caller would: a Range header naming the file size.
    let headers = parse_headers(Some(vec![(
        "Range".to_string(),
        format!("bytes={}-", partial.len()),
    )]))
    .unwrap();
    let offset = resume_offset(&headers) as usize;
    assert_eq!(offset, partial.len());
    let (session, events, stopped) = run_session(
        url,
        &resource,
        offset,
        100,
        2000,
        &mut signals,
        None,
        None,
        &mut file,
    );
    assert!(!stopped);
    assert!(matches!(events.last().unwrap(), DownloadEvent::Completed { .. }));
    assert_eq!(session.downloaded_bytes, session.total_length);
    assert_eq!(file.unwrap(), resource, "resumed download is byte-identical");
}

#[test]
fn late_signal_suppresses_completed_and_is_cleared() {
    let url = "http://example/file".to_string();
    let r = on_response(url.clone(), "downloads/file.bin".to_string(), 0, 200, Some(10), 0);
    let (mut session, _) = r.ok().unwrap();
    let mut signals = SignalStore::new();
    // The only chunk arrives before the interval elapses: no checkpoint.
    let outcome = session.on_chunk(10, 500, &mut signals);
    assert!(matches!(outcome, ChunkOutcome::Continue));
    // The abort arrives after the last chunk, before the final check.
    signals.abort_download(url.clone());
    assert!(session.on_stream_end(&mut signals).is_none());
    // The stray signal was cleared so it cannot leak into a later session.
    assert!(!signals.consume_abort_if_matching(&url));
}

#[test]
fn signal_for_other_url_does_not_affect_completion() {
    let url = "http://example/file".to_string();
    let other = "http://example/other".to_string();
    let r = on_response(url.clone(), "downloads/file.bin".to_string(), 0, 200, Some(10), 0);
    let (mut session, _) = r.ok().unwrap();
    let mut signals = SignalStore::new();
    signals.abort_download(other.clone());
    let outcome = session.on_chunk(10, 500, &mut signals);
    assert!(matches!(outcome, ChunkOutcome::Continue));
    match session.on_stream_end(&mut signals) {
        Some(DownloadEvent::Completed { url: u }) => assert_eq!(u, url),
        other => panic!("expected Completed, got {:?}", other),
    }
    // The foreign signal is left for the session it targets.
    assert!(signals.consume_abort_if_matching(&other));
}

#[test]
fn progress_report_fields_are_exact() {
    let url = "http://example/file".to_string();
    let r = on_response(url.clone(), "downloads/file.bin".to_string(), 0, 200, Some(100), 0);
    let (mut session, _) = r.ok().unwrap();
    let mut signals = SignalStore::new();
    match session.on_chunk(50, 2000, &mut signals) {
        ChunkOutcome::Progress(DownloadEvent::Progress {
            url: u,
            progress_percentage,
            downloaded_bytes,
            download_speed,
            eta,
        }) => {
            assert_eq!(u, url);
            assert_eq!(downloaded_bytes, 50);
            assert_eq!(download_speed, 25, "50 bytes over 2 seconds");
            assert_eq!(eta, 2, "50 bytes left at 25 bytes per second");
            assert_eq!(progress_percentage, 50);
        }
        other => panic!("expected a progress report, got {:?}", other),
    }
}

#[test]
fn resumed_session_speed_excludes_inherited_bytes() {
    let url = "http://example/file".to_string();
    let r = on_response(url.clone(), "downloads/file.bin".to_string(), 1000, 200, Some(1000), 0);
    let (mut session, started) = r.ok().unwrap();
    match started {
        DownloadEvent::Started { content_length, .. } => assert_eq!(content_length, 2000),
        other => panic!("expected Started, got {:?}", other),
    }
    let mut signals = SignalStore::new();
    match session.on_chunk(500, 2000, &mut signals) {
        ChunkOutcome::Progress(DownloadEvent::Progress {
            progress_percentage,
            downloaded_bytes,
            download_speed,
            eta,
            ..
        }) => {
            assert_eq!(downloaded_bytes, 1500);
            assert_eq!(download_speed, 250, "only this session's 500 bytes count");
            assert_eq!(eta, 2);
            assert_eq!(progress_percentage, 75);
        }
        other => panic!("expected a progress report, got {:?}", other),
    }
}
