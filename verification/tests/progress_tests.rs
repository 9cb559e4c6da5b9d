use qinjector::progress::{
    progress_for, DownloadProgress, FetchSignal, FetchTracker, DOWNLOAD_SHARE, FULL_SCALE,
};

fn run(content_length: u64, chunks: &[usize]) -> Vec<FetchSignal> {
    let mut tracker = FetchTracker::new(content_length);
    chunks.iter().map(|bytes| tracker.on_chunk(*bytes)).collect()
}

#[test]
fn download_fills_the_first_share_of_the_range() {
    assert_eq!(DownloadProgress::not_done_dl(0, "dopa.zip").fraction(), 0);
    assert_eq!(DownloadProgress::not_done_dl(50, "dopa.zip").fraction(), 4750);
    assert_eq!(DownloadProgress::not_done_dl(100, "dopa.zip").fraction(), DOWNLOAD_SHARE);
    assert!(!DownloadProgress::not_done_dl(100, "dopa.zip").is_done());
}

#[test]
fn extraction_fills_the_last_share_of_the_range() {
    assert_eq!(DownloadProgress::not_done_extract(0, "dopa.zip").fraction(), 9500);
    assert_eq!(DownloadProgress::not_done_extract(50, "dopa.zip").fraction(), 9750);
    assert_eq!(DownloadProgress::not_done_extract(100, "dopa.zip").fraction(), FULL_SCALE);
    assert!(!DownloadProgress::not_done_extract(100, "dopa.zip").is_done());
}

#[test]
fn terminal_event_is_the_whole_range() {
    let done = DownloadProgress::done("dopa.zip");
    assert_eq!(done.fraction(), 10000);
    assert!(done.is_done());
    assert_eq!(done.file_name(), "dopa.zip");
    assert_eq!(done.clone(), done);
}

#[test]
fn ticks_rise_and_the_end_comes_once() {
    let signals = run(1000, &[100, 100, 300, 499, 1, 10]);
    assert_eq!(
        signals,
        vec![
            FetchSignal::Tick { percent: 10 },
            FetchSignal::Tick { percent: 20 },
            FetchSignal::Tick { percent: 50 },
            FetchSignal::Tick { percent: 99 },
            FetchSignal::Finished,
            FetchSignal::Silent,
        ]
    );
}

#[test]
fn same_whole_percentage_is_reported_once() {
    let signals = run(100_000, &[1, 1, 998, 1, 998, 98_001]);
    assert_eq!(
        signals,
        vec![
            FetchSignal::Tick { percent: 0 },
            FetchSignal::Silent,
            FetchSignal::Tick { percent: 1 },
            FetchSignal::Silent,
            FetchSignal::Silent,
            FetchSignal::Finished,
        ]
    );
}

#[test]
fn body_that_ends_early_is_truncated() {
    let signals = run(1000, &[400, 0, 600]);
    assert_eq!(
        signals,
        vec![FetchSignal::Tick { percent: 40 }, FetchSignal::Truncated, FetchSignal::Silent]
    );
}

#[test]
fn empty_body_finishes_at_once() {
    assert_eq!(run(0, &[0, 0]), vec![FetchSignal::Finished, FetchSignal::Silent]);
}

#[test]
fn longer_body_than_announced_finishes() {
    let mut tracker = FetchTracker::new(10);
    assert_eq!(tracker.on_chunk(usize::MAX), FetchSignal::Finished);
    assert_eq!(tracker.received(), 10);
    assert!(!tracker.is_open());
}

#[test]
fn huge_lengths_do_not_overflow() {
    let mut tracker = FetchTracker::new(u64::MAX);
    assert!(tracker.is_open());
    assert_eq!(tracker.on_chunk(usize::MAX / 2), FetchSignal::Tick { percent: 49 });
    assert_eq!(tracker.received(), (usize::MAX / 2) as u64);
}

#[test]
fn signals_become_progress_events() {
    let tick = progress_for(FetchSignal::Tick { percent: 40 }, "dopa.zip").unwrap();
    assert_eq!(tick.fraction(), 3800);
    assert!(!tick.is_done());
    assert_eq!(tick.file_name(), "dopa.zip");
    let done = progress_for(FetchSignal::Finished, "dopa.zip").unwrap();
    assert_eq!(done, DownloadProgress::done("dopa.zip"));
    assert_eq!(progress_for(FetchSignal::Silent, "dopa.zip"), None);
    assert_eq!(progress_for(FetchSignal::Truncated, "dopa.zip"), None);
}

#[test]
fn complete_download_ends_with_one_terminal_event() {
    let events: Vec<DownloadProgress> = run(5000, &[1000, 1000, 1000, 1000, 1000, 0])
        .into_iter()
        .filter_map(|signal| progress_for(signal, "dopa.zip"))
        .collect();
    let fractions: Vec<u32> = events.iter().map(|e| e.fraction()).collect();
    assert_eq!(fractions, vec![1900, 3800, 5700, 7600, 10000]);
    assert_eq!(events.iter().filter(|e| e.is_done()).count(), 1);
    assert!(events.last().unwrap().is_done());
}
