use ncm_downloader::download::{
    check_status, AttemptError, DownloadOptions, Fetch, FetchAction, FetchFailure, Transfer,
    TransferStep, CHUNK_SIZE, USER_AGENT,
};
use ncm_downloader::stream::SourceEvent;
use std::time::Duration;

#[test]
fn options_keep_what_they_are_made_of() {
    let options = DownloadOptions::new(5, Duration::from_millis(250), Duration::from_secs(9));
    assert_eq!(options.max_retries, 5);
    assert_eq!(options.retry_delay, Duration::from_millis(250));
    assert_eq!(options.timeout, Duration::from_secs(9));
}

#[test]
fn default_options_are_three_retries_one_second_sixty_seconds() {
    let options = DownloadOptions::default();
    assert_eq!(options.max_retries, 3);
    assert_eq!(options.retry_delay, Duration::from_secs(1));
    assert_eq!(options.retry_delay.as_nanos(), 1_000_000_000);
    assert_eq!(options.timeout, Duration::from_secs(60));
    assert_eq!(options.timeout.as_nanos(), 60_000_000_000);
}

#[test]
fn constants_of_a_request() {
    assert_eq!(CHUNK_SIZE, 8192);
    assert_eq!(USER_AGENT, "Mozilla/5.0 (Windows NT 10.0; Win64; x64) AppleWebKit/537.36");
}

#[test]
fn status_200_to_299_is_success() {
    assert_eq!(check_status(200), Ok(()));
    assert_eq!(check_status(204), Ok(()));
    assert_eq!(check_status(299), Ok(()));
}

#[test]
fn status_outside_200_to_299_fails_with_the_status() {
    assert_eq!(check_status(199), Err(AttemptError::Status(199)));
    assert_eq!(check_status(300), Err(AttemptError::Status(300)));
    assert_eq!(check_status(404), Err(AttemptError::Status(404)));
    assert_eq!(check_status(500), Err(AttemptError::Status(500)));
    assert_eq!(check_status(0), Err(AttemptError::Status(0)));
    assert_eq!(check_status(u16::MAX), Err(AttemptError::Status(u16::MAX)));
}

#[test]
fn attempt_errors_are_described() {
    assert_eq!(
        AttemptError::Request(String::from("timed out")).describe(),
        "Failed to send request: timed out"
    );
    assert_eq!(AttemptError::Status(404).describe(), "HTTP error: 404");
    assert_eq!(AttemptError::Status(0).describe(), "HTTP error: 0");
    assert_eq!(
        AttemptError::MissingDirectory(String::from("out/a.mp3")).describe(),
        "Destination directory does not exist: out/a.mp3"
    );
    assert_eq!(
        AttemptError::CreateFile(String::from("denied")).describe(),
        "Failed to create file: denied"
    );
    assert_eq!(
        AttemptError::Body(String::from("Stream error: reset")).describe(),
        "Failed to read response body: Stream error: reset"
    );
    assert_eq!(
        AttemptError::Write(String::from("disk full")).describe(),
        "Failed to write to file: disk full"
    );
}

#[test]
fn terminal_failure_cites_attempts_and_last_error() {
    let failure = FetchFailure { attempts: 3, last_error: AttemptError::Status(503) };
    assert_eq!(failure.describe(), "Download failed after 3 attempts: HTTP error: 503");
    let many = FetchFailure {
        attempts: 18_446_744_073_709_551_616,
        last_error: AttemptError::Write(String::new()),
    };
    assert_eq!(
        many.describe(),
        "Download failed after 18446744073709551616 attempts: Failed to write to file: "
    );
}

#[test]
fn new_transfer_has_written_nothing() {
    let transfer = Transfer::new();
    assert_eq!(transfer.bytes_written(), 0);
    assert_eq!(transfer.pending_len(), 0);
}

#[test]
fn transfer_cuts_the_body_into_writes_and_counts_them() {
    let body: Vec<u8> = (0..20000u32).map(|i| (i % 251) as u8).collect();
    let mut transfer = Transfer::new();
    assert_eq!(transfer.advance(CHUNK_SIZE), TransferStep::Starved);
    assert_eq!(
        transfer.supply(SourceEvent::Chunk(body.clone()), CHUNK_SIZE),
        Ok(TransferStep::Write(body[..8192].to_vec()))
    );
    assert_eq!(transfer.bytes_written(), 8192);
    assert_eq!(transfer.pending_len(), 11808);
    assert_eq!(transfer.advance(CHUNK_SIZE), TransferStep::Write(body[8192..16384].to_vec()));
    assert_eq!(transfer.advance(CHUNK_SIZE), TransferStep::Write(body[16384..].to_vec()));
    assert_eq!(transfer.bytes_written(), 20000);
    assert_eq!(transfer.advance(CHUNK_SIZE), TransferStep::Starved);
    assert_eq!(
        transfer.supply(SourceEvent::Ended, CHUNK_SIZE),
        Ok(TransferStep::Complete(20000))
    );
    assert_eq!(transfer.bytes_written(), 20000);
}

#[test]
fn transfer_of_an_empty_body_completes_with_zero() {
    let mut transfer = Transfer::new();
    assert_eq!(transfer.advance(CHUNK_SIZE), TransferStep::Starved);
    assert_eq!(transfer.supply(SourceEvent::Ended, CHUNK_SIZE), Ok(TransferStep::Complete(0)));
}

#[test]
fn transfer_with_chunk_size_zero_completes_at_once() {
    let mut transfer = Transfer::new();
    assert_eq!(transfer.advance(0), TransferStep::Complete(0));
}

#[test]
fn transfer_fails_when_the_body_breaks_off() {
    let mut transfer = Transfer::new();
    assert_eq!(
        transfer.supply(SourceEvent::Chunk(vec![1, 2, 3]), 2),
        Ok(TransferStep::Write(vec![1, 2]))
    );
    assert_eq!(
        transfer.supply(SourceEvent::Failed(String::from("reset")), 2),
        Err(AttemptError::Body(String::from("Stream error: reset")))
    );
    assert_eq!(transfer.bytes_written(), 2);
    assert_eq!(transfer.pending_len(), 1);
}

#[test]
fn transfer_counts_across_chunks() {
    let mut transfer = Transfer::new();
    let mut written: Vec<u8> = Vec::new();
    for text in ["abc", "defgh", "i"] {
        let mut step = transfer.supply(SourceEvent::Chunk(text.as_bytes().to_vec()), 2).unwrap();
        loop {
            match step {
                TransferStep::Write(bytes) => {
                    assert!(bytes.len() <= 2 && !bytes.is_empty());
                    written.extend_from_slice(&bytes);
                }
                TransferStep::Starved => break,
                TransferStep::Complete(_) => panic!("the body has not ended"),
            }
            step = transfer.advance(2);
        }
    }
    assert_eq!(transfer.supply(SourceEvent::Ended, 2), Ok(TransferStep::Complete(9)));
    assert_eq!(written, b"abcdefghi".to_vec());
}

fn options(max_retries: usize, delay_ms: u64) -> DownloadOptions {
    DownloadOptions::new(max_retries, Duration::from_millis(delay_ms), Duration::from_secs(60))
}

/// Runs a download whose attempts end as `outcomes` say, and returns the
/// number of attempts made, the waits, and the result.
fn run(
    options: DownloadOptions,
    outcomes: Vec<Result<u64, AttemptError>>,
) -> (usize, Vec<Duration>, Result<u64, FetchFailure>) {
    let mut fetch = Fetch::new(options);
    let mut waits = Vec::new();
    let mut attempts = 0;
    for outcome in outcomes {
        attempts += 1;
        match fetch.settle(outcome) {
            FetchAction::RetryAfter(delay) => waits.push(delay),
            FetchAction::Finish(result) => return (attempts, waits, result),
        }
    }
    panic!("the download did not finish");
}

fn failing(count: u16) -> Vec<Result<u64, AttemptError>> {
    (0..count).map(|i| Err(AttemptError::Status(500 + i))).collect()
}

#[test]
fn first_success_finishes_without_a_wait() {
    let (attempts, waits, result) = run(options(3, 100), vec![Ok(1234)]);
    assert_eq!(attempts, 1);
    assert!(waits.is_empty());
    assert_eq!(result, Ok(1234));
}

#[test]
fn zero_retries_means_one_attempt_and_no_wait() {
    let (attempts, waits, result) = run(options(0, 0), failing(5));
    assert_eq!(attempts, 1);
    assert!(waits.is_empty());
    assert_eq!(result, Err(FetchFailure { attempts: 1, last_error: AttemptError::Status(500) }));
}

#[test]
fn always_failing_fetch_makes_max_retries_plus_one_attempts() {
    for max_retries in [0usize, 1, 2, 3, 7] {
        let (attempts, waits, result) = run(options(max_retries, 40), failing(20));
        assert_eq!(attempts, max_retries + 1);
        assert_eq!(waits, vec![Duration::from_millis(40); max_retries]);
        assert_eq!(
            result,
            Err(FetchFailure {
                attempts: max_retries as u128 + 1,
                last_error: AttemptError::Status(500 + max_retries as u16),
            })
        );
    }
}

#[test]
fn exhausted_fetch_describes_itself() {
    let (_, _, result) = run(options(2, 1), failing(3));
    assert_eq!(
        result.unwrap_err().describe(),
        "Download failed after 3 attempts: HTTP error: 502"
    );
}

#[test]
fn success_on_a_later_attempt_returns_its_byte_count() {
    for max_retries in [1usize, 2, 5] {
        for attempt in 1..=max_retries + 1 {
            let mut outcomes = failing(attempt as u16 - 1);
            outcomes.push(Ok(1000 + attempt as u64));
            outcomes.push(Ok(1));
            let (attempts, waits, result) = run(options(max_retries, 300), outcomes);
            assert_eq!(attempts, attempt);
            assert_eq!(waits, vec![Duration::from_millis(300); attempt - 1]);
            assert_eq!(result, Ok(1000 + attempt as u64));
        }
    }
}

#[test]
fn the_delay_is_the_same_before_every_retry() {
    let (_, waits, _) = run(options(4, 1500), failing(5));
    assert_eq!(waits.len(), 4);
    for wait in waits {
        assert_eq!(wait, Duration::from_millis(1500));
    }
}

#[test]
fn a_finished_fetch_keeps_answering_the_same_way() {
    let mut fetch = Fetch::new(options(1, 5));
    assert_eq!(
        fetch.settle(Err(AttemptError::Status(500))),
        FetchAction::RetryAfter(Duration::from_millis(5))
    );
    assert_eq!(
        fetch.settle(Err(AttemptError::Status(501))),
        FetchAction::Finish(Err(FetchFailure {
            attempts: 2,
            last_error: AttemptError::Status(501)
        }))
    );
    assert_eq!(
        fetch.settle(Err(AttemptError::Status(502))),
        FetchAction::Finish(Err(FetchFailure {
            attempts: 2,
            last_error: AttemptError::Status(502)
        }))
    );
    assert_eq!(fetch.settle(Ok(7)), FetchAction::Finish(Ok(7)));
}

#[test]
fn only_a_missing_directory_is_fatal() {
    assert!(AttemptError::MissingDirectory(String::new()).fatal());
    assert!(!AttemptError::Request(String::new()).fatal());
    assert!(!AttemptError::Status(404).fatal());
    assert!(!AttemptError::CreateFile(String::new()).fatal());
    assert!(!AttemptError::Body(String::new()).fatal());
    assert!(!AttemptError::Write(String::new()).fatal());
}

#[test]
fn a_missing_directory_is_not_retried() {
    let missing = || AttemptError::MissingDirectory(String::from("gone/a.mp3"));
    let (attempts, waits, result) = run(options(3, 100), vec![Err(missing()), Ok(1)]);
    assert_eq!(attempts, 1);
    assert!(waits.is_empty());
    assert_eq!(result, Err(FetchFailure { attempts: 1, last_error: missing() }));
    let (attempts, waits, result) =
        run(options(3, 100), vec![Err(AttemptError::Status(500)), Err(missing()), Ok(1)]);
    assert_eq!(attempts, 2);
    assert_eq!(waits, vec![Duration::from_millis(100)]);
    assert_eq!(result, Err(FetchFailure { attempts: 2, last_error: missing() }));
}
