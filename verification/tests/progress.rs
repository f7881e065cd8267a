use deploy_flow::decompressor::{ProgressReader, REPORT_INTERVAL};
use deploy_flow::error::DeployError;
use deploy_flow::file_downloader::{FileDownloader, ResponseHead};
use deploy_flow::progress_reporter::{NoopProgressReporter, ProgressEvent, ProgressReporter};

#[test]
fn progress_event_formats_sizes() {
    let event = ProgressEvent::new(1_500_000, 215);
    assert_eq!(event.total_size, 1_500_000);
    assert_eq!(event.processed_size, 215);
    assert_eq!(event.total_size_format, "1.5 MB");
    assert_eq!(event.processed_size_format, "215 B");
    let event = ProgressEvent::new(419_000_000, 301_000);
    assert_eq!(event.total_size_format, "419.0 MB");
    assert_eq!(event.processed_size_format, "301.0 KB");
}

#[test]
fn progress_percent_is_hundred_times_processed_over_total() {
    assert_eq!(ProgressEvent::new(200, 50).progress_percent(), 25);
    assert_eq!(ProgressEvent::new(3, 1).progress_percent(), 33);
    assert_eq!(ProgressEvent::new(3, 2).progress_percent(), 66);
    assert_eq!(ProgressEvent::new(8092, 8092).progress_percent(), 100);
    assert_eq!(ProgressEvent::new(1_000_000, 999_999).progress_percent(), 99);
    assert_eq!(ProgressEvent::new(7, 0).progress_percent(), 0);
    assert_eq!(ProgressEvent::new(0, 0).progress_percent(), 0);
    assert_eq!(ProgressEvent::new(usize::MAX, usize::MAX).progress_percent(), 100);
}

#[test]
fn noop_reporter_accepts_events() {
    let reporter = NoopProgressReporter;
    reporter.report_progress(ProgressEvent::new(10, 5));
}

#[test]
fn reader_reports_first_read_and_every_interval() {
    let mut reader = ProgressReader::new(3 * REPORT_INTERVAL);
    let first = reader.read(100).expect("the first read is reported");
    assert_eq!(first.total_size, 3 * REPORT_INTERVAL);
    assert_eq!(first.processed_size, 100);
    assert!(reader.read(REPORT_INTERVAL - 1).is_none());
    assert_eq!(reader.processed_size, REPORT_INTERVAL + 99);
    assert_eq!(reader.last_reported_size, 100);
    let second = reader.read(1).expect("a full interval is reported");
    assert_eq!(second.processed_size, REPORT_INTERVAL + 100);
    assert_eq!(reader.last_reported_size, REPORT_INTERVAL + 100);
    assert!(reader.read(0).is_none());
}

#[test]
fn reader_reports_again_while_nothing_was_read() {
    let mut reader = ProgressReader::new(10);
    assert_eq!(reader.read(0).map(|event| event.processed_size), Some(0));
    assert_eq!(reader.read(4).map(|event| event.processed_size), Some(4));
    assert!(reader.read(4).is_none());
}

fn head(success: bool, content_length: Option<u64>) -> ResponseHead {
    ResponseHead {
        success,
        status: "404 Not Found".to_string(),
        message: "no such package".to_string(),
        content_length,
    }
}

#[test]
fn download_fails_on_status_without_success() {
    let result = FileDownloader::download_file("http://host/p", "/cache/p", &head(false, Some(10)));
    match result {
        Err(DeployError::FlowExecutionFailed(detail)) => assert_eq!(
            detail,
            "Failed to download file from http://host/p to /cache/p. Response status: 404 Not Found, Response message: no such package"
        ),
        other => panic!("unexpected outcome: {:?}", other),
    }
}

#[test]
fn download_fails_without_content_length() {
    let result = FileDownloader::download_file("http://host/p", "/cache/p", &head(true, None));
    match result {
        Err(DeployError::FlowExecutionFailed(detail)) => {
            assert_eq!(detail, "Content-Length header is missing when downloading file")
        },
        other => panic!("unexpected outcome: {:?}", other),
    }
}

#[test]
fn download_reports_cumulative_progress() {
    let mut downloader = FileDownloader::download_file("http://host/p", "/cache/p", &head(true, Some(3000))).unwrap();
    assert_eq!(downloader.total_size, 3000);
    assert_eq!(downloader.downloaded_size, 0);
    let event = downloader.chunk_received(1000);
    assert_eq!((event.total_size, event.processed_size), (3000, 1000));
    let event = downloader.chunk_received(2000);
    assert_eq!((event.total_size, event.processed_size), (3000, 3000));
    assert_eq!(event.processed_size_format, "3.0 KB");
    assert_eq!(event.progress_percent(), 100);
}
