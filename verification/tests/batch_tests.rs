use ncm_downloader::batch::{
    line_of_failures, Batch, BatchStep, FailureLedger, FAILED_LYRICS, FAILED_SONGS,
};
use ncm_downloader::config::Config;
use ncm_downloader::download::{AttemptError, Fetch, FetchAction};
use ncm_downloader::pipeline::{Pipeline, PipelineOutcome, Reply, Request, Track};
use std::collections::{BTreeSet, VecDeque};
use std::time::Duration;

fn names(list: &[&str]) -> Vec<String> {
    list.iter().map(|name| name.to_string()).collect()
}

fn outcome(song: Option<&str>, lyric: Option<&str>) -> PipelineOutcome {
    PipelineOutcome { song_failure: song.map(String::from), lyric_failure: lyric.map(String::from) }
}

#[test]
fn new_ledger_is_empty() {
    let ledger = FailureLedger::new();
    assert_eq!(ledger.snapshot(), (Vec::<String>::new(), Vec::<String>::new()));
}

#[test]
fn ledger_keeps_songs_and_lyrics_apart_and_in_order() {
    let mut ledger = FailureLedger::new();
    ledger.record_song_failure(String::from("b"));
    ledger.record_lyric_failure(String::from("x"));
    ledger.record_song_failure(String::from("a"));
    ledger.record_song_failure(String::from("b"));
    assert_eq!(ledger.snapshot(), (names(&["b", "a", "b"]), names(&["x"])));
}

#[test]
fn ledger_records_what_an_outcome_reports() {
    let mut ledger = FailureLedger::new();
    ledger.record(outcome(None, None));
    ledger.record(outcome(Some("one"), None));
    ledger.record(outcome(None, Some("two")));
    ledger.record(outcome(Some("three"), Some("three")));
    assert_eq!(ledger.snapshot(), (names(&["one", "three"]), names(&["two", "three"])));
}

#[test]
fn snapshot_leaves_the_ledger_as_it_is() {
    let mut ledger = FailureLedger::new();
    ledger.record_song_failure(String::from("a"));
    assert_eq!(ledger.snapshot(), ledger.snapshot());
    ledger.record_song_failure(String::from("b"));
    assert_eq!(ledger.snapshot().0, names(&["a", "b"]));
}

#[test]
fn batch_without_tracks_is_done() {
    let mut batch = Batch::new(0, 3);
    assert_eq!(batch.schedule(), BatchStep::Done);
    assert_eq!(batch.total(), 0);
    assert_eq!(batch.progress(), 0);
    assert_eq!(batch.running(), 0);
}

#[test]
fn batch_starts_tracks_in_order_up_to_the_limit() {
    let mut batch = Batch::new(5, 2);
    assert_eq!(batch.schedule(), BatchStep::Start(0));
    assert_eq!(batch.running(), 1);
    assert_eq!(batch.schedule(), BatchStep::Start(1));
    assert_eq!(batch.running(), 2);
    assert_eq!(batch.schedule(), BatchStep::Wait);
    assert_eq!(batch.schedule(), BatchStep::Wait);
    assert_eq!(batch.running(), 2);
    batch.complete(outcome(None, None));
    assert_eq!(batch.running(), 1);
    assert_eq!(batch.progress(), 1);
    assert_eq!(batch.schedule(), BatchStep::Start(2));
    assert_eq!(batch.schedule(), BatchStep::Wait);
    batch.complete(outcome(None, None));
    batch.complete(outcome(None, None));
    assert_eq!(batch.running(), 0);
    assert_eq!(batch.schedule(), BatchStep::Start(3));
    assert_eq!(batch.schedule(), BatchStep::Start(4));
    assert_eq!(batch.schedule(), BatchStep::Wait);
    batch.complete(outcome(None, None));
    assert_eq!(batch.schedule(), BatchStep::Wait);
    batch.complete(outcome(None, None));
    assert_eq!(batch.schedule(), BatchStep::Done);
    assert_eq!(batch.progress(), 5);
    assert_eq!(batch.total(), 5);
}

#[test]
fn batch_with_limit_zero_waits_for_ever() {
    let mut batch = Batch::new(2, 0);
    assert_eq!(batch.schedule(), BatchStep::Wait);
    assert_eq!(batch.running(), 0);
    assert_eq!(batch.schedule(), BatchStep::Wait);
    assert_eq!(batch.progress(), 0);
}

#[test]
fn completion_with_nothing_running_is_ignored() {
    let mut batch = Batch::new(2, 2);
    batch.complete(outcome(Some("ghost"), Some("ghost")));
    assert_eq!(batch.progress(), 0);
    assert_eq!(batch.failures(), (Vec::<String>::new(), Vec::<String>::new()));
    assert_eq!(batch.schedule(), BatchStep::Start(0));
    batch.complete(outcome(Some("real"), None));
    batch.complete(outcome(Some("ghost"), None));
    assert_eq!(batch.progress(), 1);
    assert_eq!(batch.failures(), (names(&["real"]), Vec::<String>::new()));
}

#[test]
fn batch_collects_failures_in_order_of_completion() {
    let mut batch = Batch::new(3, 3);
    assert_eq!(batch.schedule(), BatchStep::Start(0));
    assert_eq!(batch.schedule(), BatchStep::Start(1));
    assert_eq!(batch.schedule(), BatchStep::Start(2));
    batch.complete(outcome(Some("third"), None));
    batch.complete(outcome(None, Some("first")));
    batch.complete(outcome(Some("second"), Some("second")));
    assert_eq!(batch.schedule(), BatchStep::Done);
    assert_eq!(batch.failures(), (names(&["third", "second"]), names(&["first", "second"])));
}

/// The collaborators of a run, played from memory.
struct World {
    files: BTreeSet<String>,
    broken_urls: Vec<String>,
    unresolved: Vec<u64>,
    untagged: Vec<u64>,
    without_lyric: Vec<u64>,
    tagging_fails: bool,
    attempts: Vec<String>,
    waits: Vec<Duration>,
    tag_calls: usize,
}

fn world() -> World {
    World {
        files: BTreeSet::new(),
        broken_urls: Vec::new(),
        unresolved: Vec::new(),
        untagged: Vec::new(),
        without_lyric: Vec::new(),
        tagging_fails: false,
        attempts: Vec::new(),
        waits: Vec::new(),
        tag_calls: 0,
    }
}

fn perform(world: &mut World, request: Request) -> Reply {
    match request {
        Request::ResolveUrl { id, .. } => {
            if world.unresolved.contains(&id) {
                Reply::Failed
            } else {
                let extension = if world.untagged.contains(&id) { "m4a" } else { "mp3" };
                Reply::Url {
                    url: format!("http://cdn.example/{}", id),
                    extension: extension.to_string(),
                }
            }
        }
        Request::Fetch { url, file_name, options } => {
            let mut fetch = Fetch::new(options);
            loop {
                world.attempts.push(url.to_string());
                let attempt = if world.broken_urls.contains(&url.to_string()) {
                    Err(AttemptError::Status(503))
                } else {
                    Ok(3)
                };
                match fetch.settle(attempt) {
                    FetchAction::RetryAfter(delay) => world.waits.push(delay),
                    FetchAction::Finish(Ok(_)) => {
                        world.files.insert(file_name);
                        return Reply::Done;
                    }
                    FetchAction::Finish(Err(failure)) => {
                        assert_eq!(failure.attempts, options.max_retries as u128 + 1);
                        return Reply::Failed;
                    }
                }
            }
        }
        Request::ReadCover { file_name } => {
            if world.files.contains(&file_name) {
                Reply::Cover(vec![1, 2, 3])
            } else {
                Reply::Failed
            }
        }
        Request::WriteTags { file_name, .. } => {
            assert!(world.files.contains(&file_name));
            world.tag_calls += 1;
            if world.tagging_fails {
                Reply::Failed
            } else {
                Reply::Done
            }
        }
        Request::RemoveCover { file_name } => {
            if world.files.remove(&file_name) {
                Reply::Done
            } else {
                Reply::Failed
            }
        }
        Request::ResolveLyric { id } => {
            if world.without_lyric.contains(&id) {
                Reply::Failed
            } else {
                Reply::Lyric(vec![format!("[00:00]{}", id)])
            }
        }
        Request::WriteLyric { file_name, .. } => {
            world.files.insert(file_name);
            Reply::Done
        }
        Request::Finish(_) => panic!("a finished pipeline has nothing to perform"),
    }
}

struct Report {
    failed_songs: Vec<String>,
    failed_lyrics: Vec<String>,
    peak: usize,
    started: Vec<usize>,
}

/// Runs a batch the way a scheduler of tasks does: the running pipelines
/// take turns, each performing one request at a time.
fn run(tracks: Vec<Track>, limit: usize, config: &Config, world: &mut World) -> Report {
    let mut batch = Batch::new(tracks.len(), limit);
    let mut waiting: Vec<Option<Track>> = tracks.into_iter().map(Some).collect();
    let mut running: VecDeque<(Pipeline, Request)> = VecDeque::new();
    let mut peak = 0;
    let mut started = Vec::new();
    loop {
        match batch.schedule() {
            BatchStep::Start(index) => {
                started.push(index);
                running.push_back(Pipeline::begin(waiting[index].take().unwrap(), config));
                peak = peak.max(running.len());
            }
            BatchStep::Wait => {
                let (mut pipeline, request) = running.pop_front().expect("a pipeline is running");
                match request {
                    Request::Finish(outcome) => batch.complete(outcome),
                    request => {
                        let reply = perform(world, request);
                        let next = pipeline.advance(reply);
                        running.push_back((pipeline, next));
                    }
                }
            }
            BatchStep::Done => break,
        }
        assert_eq!(batch.running(), running.len());
        assert!(running.len() <= limit);
    }
    assert!(running.is_empty());
    assert_eq!(batch.progress(), batch.total());
    let (failed_songs, failed_lyrics) = batch.failures();
    Report { failed_songs, failed_lyrics, peak, started }
}

fn tracks(count: u64) -> Vec<Track> {
    (1..=count)
        .map(|id| Track {
            id,
            name: format!("Track {}", id),
            translated_name: None,
            singer: vec![String::from("Singer")],
            album: String::from("Album"),
            pic_url: format!("http://img.example/{}.jpg", id),
        })
        .collect()
}

fn settings(songs: bool, lyrics: bool, retry: usize, delay_ms: u64) -> Config {
    Config {
        max_bitrate_level: String::from("exhigh"),
        download_songs: songs,
        download_lyrics: lyrics,
        concurrency: 3,
        retry,
        retry_delay: Duration::from_millis(delay_ms),
        timeout: Duration::from_secs(30),
    }
}

#[test]
fn no_more_pipelines_run_than_the_limit_allows() {
    for (limit, expected_peak) in [(1usize, 1usize), (3, 3), (6, 6), (9, 6)] {
        let mut world = world();
        let report = run(tracks(6), limit, &settings(true, true, 1, 0), &mut world);
        assert_eq!(report.peak, expected_peak);
        assert_eq!(report.started, vec![0, 1, 2, 3, 4, 5]);
        assert!(report.failed_songs.is_empty());
        assert!(report.failed_lyrics.is_empty());
    }
}

#[test]
fn five_tracks_two_at_a_time_one_fetch_fails_every_attempt() {
    let mut world = world();
    world.broken_urls.push(String::from("http://cdn.example/3"));
    let report = run(tracks(5), 2, &settings(true, false, 2, 20), &mut world);
    assert_eq!(report.failed_songs, names(&["Track 3"]));
    assert!(report.failed_lyrics.is_empty());
    assert_eq!(report.peak, 2);
    let expected: BTreeSet<String> = names(&[
        "Track 1 - Singer.mp3",
        "Track 2 - Singer.mp3",
        "Track 4 - Singer.mp3",
        "Track 5 - Singer.mp3",
    ])
    .into_iter()
    .collect();
    assert_eq!(world.files, expected);
    assert!(world.files.iter().all(|name| !name.ends_with(".jpg")));
    let broken = world.attempts.iter().filter(|url| *url == "http://cdn.example/3").count();
    assert_eq!(broken, 3);
    assert_eq!(world.waits, vec![Duration::from_millis(20); 2]);
    assert_eq!(world.tag_calls, 4);
}

#[test]
fn single_track_without_retries_fails_at_once() {
    let mut world = world();
    world.broken_urls.push(String::from("http://cdn.example/1"));
    let report = run(tracks(1), 1, &settings(true, false, 0, 0), &mut world);
    assert_eq!(report.failed_songs, names(&["Track 1"]));
    assert_eq!(world.attempts, names(&["http://cdn.example/1"]));
    assert!(world.waits.is_empty());
    assert!(world.files.is_empty());
}

#[test]
fn unresolved_track_is_a_song_failure_and_still_gets_its_lyric() {
    let mut world = world();
    world.unresolved.push(2);
    let report = run(tracks(3), 3, &settings(true, true, 1, 0), &mut world);
    assert_eq!(report.failed_songs, names(&["Track 2"]));
    assert!(report.failed_lyrics.is_empty());
    assert!(world.files.contains("Track 2 - Singer.lrc"));
    assert!(!world.files.contains("Track 2 - Singer.mp3"));
    assert!(world.files.contains("Track 1 - Singer.mp3"));
    assert!(world.files.contains("Track 3 - Singer.lrc"));
}

#[test]
fn failing_tag_writer_fails_no_song() {
    let mut world = world();
    world.tagging_fails = true;
    let report = run(tracks(4), 2, &settings(true, false, 0, 0), &mut world);
    assert!(report.failed_songs.is_empty());
    assert_eq!(world.tag_calls, 4);
    assert_eq!(world.files.len(), 4);
    assert!(world.files.iter().all(|name| name.ends_with(".mp3")));
}

#[test]
fn failed_cover_fetch_fails_the_song_though_the_audio_is_there() {
    let mut world = world();
    world.broken_urls.push(String::from("http://img.example/1.jpg"));
    let report = run(tracks(2), 2, &settings(true, false, 1, 5), &mut world);
    assert_eq!(report.failed_songs, names(&["Track 1"]));
    assert!(world.files.contains("Track 1 - Singer.mp3"));
    assert_eq!(world.tag_calls, 1);
    assert_eq!(world.waits, vec![Duration::from_millis(5)]);
}

#[test]
fn failures_come_in_order_of_completion_not_of_submission() {
    let mut world = world();
    world.without_lyric = vec![1, 2, 3];
    world.untagged = vec![2];
    world.unresolved = vec![3];
    let report = run(tracks(3), 3, &settings(true, true, 0, 0), &mut world);
    assert_eq!(report.started, vec![0, 1, 2]);
    assert_eq!(report.failed_lyrics, names(&["Track 3", "Track 2", "Track 1"]));
    assert_eq!(report.failed_songs, names(&["Track 3"]));
}

#[test]
fn lyrics_alone() {
    let mut world = world();
    world.without_lyric = vec![2];
    let report = run(tracks(3), 1, &settings(false, true, 3, 1000), &mut world);
    assert!(report.failed_songs.is_empty());
    assert_eq!(report.failed_lyrics, names(&["Track 2"]));
    let expected: BTreeSet<String> =
        names(&["Track 1 - Singer.lrc", "Track 3 - Singer.lrc"]).into_iter().collect();
    assert_eq!(world.files, expected);
    assert!(world.attempts.is_empty());
}

#[test]
fn failures_are_listed_in_one_line() {
    assert_eq!(
        line_of_failures(FAILED_SONGS, &names(&["a", "b - c", "d"])),
        Some(String::from("歌曲下载失败：a, b - c, d"))
    );
    assert_eq!(line_of_failures(FAILED_LYRICS, &names(&["x"])), Some(String::from("歌词下载失败：x")));
    assert_eq!(line_of_failures("", &names(&["", ""])), Some(String::from(", ")));
}

#[test]
fn no_failures_no_line() {
    assert_eq!(line_of_failures(FAILED_SONGS, &Vec::new()), None);
    assert_eq!(line_of_failures(FAILED_LYRICS, &Vec::new()), None);
}
