//! Downloading one URL to one file: what a single attempt has to check and
//! count, and when a failed attempt is tried again.
//!
//! Requests, files and timers are the caller's. An attempt is judged here:
//! [`check_status`] classifies the response, a [`Transfer`] cuts the body into
//! writes of bounded size and counts them. A [`Fetch`] takes the outcome of
//! each attempt and answers with what to do next: stop, or wait and try again.

use crate::stream::{
    delivered, needs_source, pending_after, remainder, stream_error_text, ReadStep, SourceEvent,
    SourceModel, StreamReader,
};
use crate::text::{decimal, decimal_text};
use std::time::Duration;
use vstd::prelude::*;
use vstd::string::StringExecFns;

verus! {

/// The user agent sent with every request; some origins turn the default one
/// away.
pub const USER_AGENT: &'static str =
    "Mozilla/5.0 (Windows NT 10.0; Win64; x64) AppleWebKit/537.36";

/// The size of the pieces in which a response body is written to its file.
pub const CHUNK_SIZE: usize = 8192;

/// The length of a `Duration` in nanoseconds.
pub uninterp spec fn duration_nanos(duration: Duration) -> nat;

/// `Duration::from_secs`: a duration of that many whole seconds.
pub assume_specification[ Duration::from_secs ](secs: u64) -> (duration: Duration)
    ensures
        duration_nanos(duration) == secs * 1_000_000_000,
;

/// How one download is attempted: how often it is retried, how long to wait
/// between attempts, and how long a single attempt may take.
#[derive(Clone, Copy, Debug, PartialEq, Eq)]
pub struct DownloadOptions {
    /// Maximum number of retry attempts
    pub max_retries: usize,
    /// Delay between a failed attempt and the next one, the same every time
    pub retry_delay: Duration,
    /// Request timeout
    pub timeout: Duration,
}

impl DownloadOptions {
    /// Options with the given number of retries, delay and timeout.
    pub fn new(max_retries: usize, retry_delay: Duration, timeout: Duration) -> (options: Self)
        ensures
            options.max_retries == max_retries,
            options.retry_delay == retry_delay,
            options.timeout == timeout,
    {
        Self { max_retries, retry_delay, timeout }
    }
}

impl Default for DownloadOptions {
    /// Three retries, one second between attempts, sixty seconds per attempt.
    fn default() -> (options: Self)
        ensures
            options.max_retries == 3,
            duration_nanos(options.retry_delay) == 1_000_000_000,
            duration_nanos(options.timeout) == 60_000_000_000,
    {
        Self {
            max_retries: 3,
            retry_delay: Duration::from_secs(1),
            timeout: Duration::from_secs(60),
        }
    }
}

/// Why a single attempt failed.
#[derive(Debug, PartialEq, Eq)]
pub enum AttemptError {
    /// The request could not be sent or was not answered in time.
    Request(String),
    /// The response carried a status outside 200..=299.
    Status(u16),
    /// The directory of the destination does not exist. No retry mends
    /// that.
    MissingDirectory(String),
    /// The destination file could not be created.
    CreateFile(String),
    /// The body of the response broke off.
    Body(String),
    /// The destination file could not be written.
    Write(String),
}

/// The terminal failure of a download: how many attempts were made, and why
/// the last one failed.
#[derive(Debug, PartialEq, Eq)]
pub struct FetchFailure {
    pub attempts: u128,
    pub last_error: AttemptError,
}

/// The text that describes a failed attempt.
pub open spec fn attempt_error_text(error: AttemptError) -> Seq<char> {
    match error {
        AttemptError::Request(cause) => "Failed to send request: "@ + cause@,
        AttemptError::Status(status) => "HTTP error: "@ + decimal(status as nat),
        AttemptError::MissingDirectory(cause) => "Destination directory does not exist: "@
            + cause@,
        AttemptError::CreateFile(cause) => "Failed to create file: "@ + cause@,
        AttemptError::Body(cause) => "Failed to read response body: "@ + cause@,
        AttemptError::Write(cause) => "Failed to write to file: "@ + cause@,
    }
}

/// The text that describes a terminal failure: the number of attempts made
/// and the description of the last error.
pub open spec fn fetch_failure_text(failure: FetchFailure) -> Seq<char> {
    "Download failed after "@ + decimal(failure.attempts as nat) + " attempts: "@
        + attempt_error_text(failure.last_error)
}

/// Whether a failure is fatal: one that another attempt cannot mend.
pub open spec fn is_fatal(error: AttemptError) -> bool {
    error is MissingDirectory
}

impl AttemptError {
    /// Whether another attempt is in vain.
    pub fn fatal(&self) -> (fatal: bool)
        ensures
            fatal == is_fatal(*self),
    {
        match self {
            AttemptError::MissingDirectory(_) => true,
            _ => false,
        }
    }

    /// Describes the failure in words.
    pub fn describe(&self) -> (text: String)
        ensures
            text@ == attempt_error_text(*self),
    {
        match self {
            AttemptError::Request(cause) => String::from_str("Failed to send request: ").concat(
                cause.as_str(),
            ),
            AttemptError::Status(status) => {
                let code = decimal_text(*status as u128);
                String::from_str("HTTP error: ").concat(code.as_str())
            },
            AttemptError::MissingDirectory(cause) => String::from_str(
                "Destination directory does not exist: ",
            ).concat(cause.as_str()),
            AttemptError::CreateFile(cause) => String::from_str("Failed to create file: ").concat(
                cause.as_str(),
            ),
            AttemptError::Body(cause) => String::from_str("Failed to read response body: ").concat(
                cause.as_str(),
            ),
            AttemptError::Write(cause) => String::from_str("Failed to write to file: ").concat(
                cause.as_str(),
            ),
        }
    }
}

impl FetchFailure {
    /// Describes the failure in words, citing the number of attempts.
    pub fn describe(&self) -> (text: String)
        ensures
            text@ == fetch_failure_text(*self),
    {
        let count = decimal_text(self.attempts);
        let cause = self.last_error.describe();
        let text = String::from_str("Download failed after ").concat(count.as_str()).concat(
            " attempts: ",
        ).concat(cause.as_str());
        text
    }
}

/// Whether a response status stands for success: 200 to 299.
pub open spec fn is_success(status: u16) -> bool {
    200 <= status < 300
}

/// Judges the status of a response: any status outside 200..=299 fails the
/// attempt, and the error carries the status.
pub fn check_status(status: u16) -> (result: Result<(), AttemptError>)
    ensures
        is_success(status) ==> result is Ok,
        !is_success(status) ==> result == Err::<(), AttemptError>(AttemptError::Status(status)),
{
    if 200 <= status && status < 300 {
        Ok(())
    } else {
        Err(AttemptError::Status(status))
    }
}

/// What a [`Transfer`] asks of its caller next.
#[derive(Debug, PartialEq, Eq)]
pub enum TransferStep {
    /// Nothing is pending: ask the source and hand its answer to
    /// [`Transfer::supply`].
    Starved,
    /// Write these bytes, all of them, to the destination.
    Write(Vec<u8>),
    /// The body has ended; so many bytes were handed out for writing.
    Complete(u64),
}

/// The model of a step of a transfer.
pub enum StepModel {
    Starved,
    Write(Seq<u8>),
    Complete(nat),
}

impl View for TransferStep {
    type V = StepModel;

    open spec fn view(&self) -> StepModel {
        match *self {
            TransferStep::Starved => StepModel::Starved,
            TransferStep::Write(bytes) => StepModel::Write(bytes@),
            TransferStep::Complete(total) => StepModel::Complete(total as nat),
        }
    }
}

/// The model of a transfer: the bytes received and not yet handed out, and
/// the number of bytes handed out for writing.
pub struct TransferModel {
    pub pending: Seq<u8>,
    pub written: nat,
}

/// How a transfer hands out the next piece of at most `chunk_size` bytes of
/// the bytes `held`: the piece is the front of them and is counted, the rest
/// stays pending; an empty piece completes the transfer with the count.
pub open spec fn handed_out(written: nat, held: Seq<u8>, chunk_size: nat) -> (
    TransferModel,
    StepModel,
) {
    let piece = delivered(held, chunk_size);
    (
        TransferModel { pending: remainder(held, chunk_size), written: written + piece.len() },
        if piece.len() == 0 {
            StepModel::Complete(written)
        } else {
            StepModel::Write(piece)
        },
    )
}

/// What a transfer makes of a request for the next piece: with nothing
/// pending the source has to be asked first.
pub open spec fn advanced(transfer: TransferModel, chunk_size: nat) -> (TransferModel, StepModel) {
    if needs_source(transfer.pending, chunk_size) {
        (transfer, StepModel::Starved)
    } else {
        handed_out(transfer.written, transfer.pending, chunk_size)
    }
}

/// What a transfer makes of the source's answer: a failure of the source
/// fails the attempt with its text; a chunk is put behind what is pending,
/// and the next piece is handed out.
pub open spec fn supplied(transfer: TransferModel, answer: SourceModel, chunk_size: nat) -> (
    TransferModel,
    Result<StepModel, Seq<char>>,
) {
    match answer {
        SourceModel::Failed(cause) => (transfer, Err(stream_error_text(cause))),
        _ => {
            let next = handed_out(
                transfer.written,
                pending_after(transfer.pending, answer),
                chunk_size,
            );
            (next.0, Ok(next.1))
        },
    }
}

/// The body of one response on its way to the destination file: a reader
/// over the chunks that arrive, and the count of the bytes handed out.
pub struct Transfer {
    reader: StreamReader,
    written: u64,
}

impl View for Transfer {
    type V = TransferModel;

    closed spec fn view(&self) -> TransferModel {
        TransferModel { pending: self.reader.pending(), written: self.written as nat }
    }
}

impl Transfer {
    /// A transfer that has received and handed out nothing.
    pub fn new() -> (transfer: Self)
        ensures
            transfer@ == (TransferModel { pending: Seq::empty(), written: 0 }),
    {
        Transfer { reader: StreamReader::new(), written: 0 }
    }

    /// The number of bytes handed out for writing so far.
    pub fn bytes_written(&self) -> (n: u64)
        ensures
            n == self@.written,
    {
        self.written
    }

    /// The number of bytes received and not yet handed out.
    pub fn pending_len(&self) -> (n: usize)
        ensures
            n == self@.pending.len(),
    {
        self.reader.pending_len()
    }

    /// Reads up to `chunk_size` bytes for the next write. With nothing
    /// pending the source has to be asked. A read of no bytes ends the
    /// transfer with the count so far.
    pub fn advance(&mut self, chunk_size: usize) -> (step: TransferStep)
        requires
            old(self)@.written + chunk_size <= u64::MAX,
        ensures
            (final(self)@, step@) == advanced(old(self)@, chunk_size as nat),
    {
        match self.reader.read(chunk_size) {
            ReadStep::Starved => TransferStep::Starved,
            ReadStep::Ready(bytes) => self.hand_out(bytes),
        }
    }

    /// Takes in the source's answer and completes the read that was waiting
    /// for it. A failure of the source fails the attempt.
    pub fn supply(&mut self, answer: SourceEvent, chunk_size: usize) -> (result: Result<
        TransferStep,
        AttemptError,
    >)
        requires
            old(self)@.written + chunk_size <= u64::MAX,
            answer matches SourceEvent::Chunk(bytes) ==> old(self)@.pending.len() + bytes@.len()
                <= isize::MAX,
        ensures
            final(self)@ == supplied(old(self)@, answer@, chunk_size as nat).0,
            match supplied(old(self)@, answer@, chunk_size as nat).1 {
                Ok(model) => result matches Ok(step) && step@ == model,
                Err(text) => result matches Err(AttemptError::Body(cause)) && cause@ == text,
            },
    {
        match self.reader.refill(answer, chunk_size) {
            Err(e) => Err(AttemptError::Body(e.message)),
            Ok(bytes) => Ok(self.hand_out(bytes)),
        }
    }

    fn hand_out(&mut self, bytes: Vec<u8>) -> (step: TransferStep)
        requires
            old(self)@.written + bytes@.len() <= u64::MAX,
        ensures
            final(self)@ == (TransferModel {
                pending: old(self)@.pending,
                written: old(self)@.written + bytes@.len(),
            }),
            bytes@.len() == 0 ==> step@ == StepModel::Complete(old(self)@.written),
            bytes@.len() > 0 ==> step@ == StepModel::Write(bytes@),
    {
        let count = bytes.len();
        if count == 0 {
            TransferStep::Complete(self.written)
        } else {
            self.written = self.written + count as u64;
            TransferStep::Write(bytes)
        }
    }
}

/// A body as far as it was transferred: the bytes handed out for writing, in
/// order, and the result once the transfer is over.
pub struct BodyRun {
    pub written: Seq<u8>,
    pub result: Option<Result<nat, Seq<char>>>,
}

/// The transfer of a body whose source answers as `source` says, one answer
/// each time it is asked: pieces are handed out as long as bytes are
/// pending, and the source is asked when none are, until the transfer
/// completes, the source fails, or its answers run out.
pub open spec fn transferred(transfer: TransferModel, source: Seq<SourceModel>, chunk_size: nat) -> BodyRun
    decreases source.len(), transfer.pending.len(),
{
    let (next, step) = advanced(transfer, chunk_size);
    match step {
        StepModel::Complete(total) => BodyRun { written: Seq::empty(), result: Some(Ok(total)) },
        StepModel::Write(piece) => {
            if next.pending.len() < transfer.pending.len() {
                let rest = transferred(next, source, chunk_size);
                BodyRun { written: piece + rest.written, result: rest.result }
            } else {
                BodyRun { written: piece, result: None }
            }
        },
        StepModel::Starved => {
            if source.len() == 0 {
                BodyRun { written: Seq::empty(), result: None }
            } else {
                let (next, answered) = supplied(transfer, source[0], chunk_size);
                match answered {
                    Err(text) => BodyRun { written: Seq::empty(), result: Some(Err(text)) },
                    Ok(StepModel::Write(piece)) => {
                        let rest = transferred(
                            next,
                            source.subrange(1, source.len() as int),
                            chunk_size,
                        );
                        BodyRun { written: piece + rest.written, result: rest.result }
                    },
                    Ok(StepModel::Complete(total)) => BodyRun {
                        written: Seq::empty(),
                        result: Some(Ok(total)),
                    },
                    Ok(StepModel::Starved) => BodyRun { written: Seq::empty(), result: None },
                }
            }
        },
    }
}

/// The source of a body that arrives in the given chunks and then ends.
pub open spec fn source_of(chunks: Seq<Seq<u8>>) -> Seq<SourceModel> {
    Seq::new(chunks.len(), |i: int| SourceModel::Chunk(chunks[i])).push(SourceModel::Ended)
}

/// The bytes of chunks, one chunk behind the other.
pub open spec fn body_of(chunks: Seq<Seq<u8>>) -> Seq<u8>
    decreases chunks.len(),
{
    if chunks.len() == 0 {
        Seq::empty()
    } else {
        chunks[0] + body_of(chunks.subrange(1, chunks.len() as int))
    }
}

proof fn lemma_piece_and_rest(held: Seq<u8>, chunk_size: nat)
    ensures
        delivered(held, chunk_size) + remainder(held, chunk_size) == held,
        delivered(held, chunk_size).len() + remainder(held, chunk_size).len() == held.len(),
        delivered(held, chunk_size).len() <= chunk_size,
        held.len() > 0 && chunk_size > 0 ==> delivered(held, chunk_size).len() > 0,
{
}

proof fn lemma_transfer_from(transfer: TransferModel, chunks: Seq<Seq<u8>>, chunk_size: nat)
    requires
        chunk_size > 0,
        forall|i: int| 0 <= i < chunks.len() ==> (#[trigger] chunks[i]).len() > 0,
    ensures
        transferred(transfer, source_of(chunks), chunk_size).written == transfer.pending
            + body_of(chunks),
        transferred(transfer, source_of(chunks), chunk_size).result == Some(
            Ok::<nat, Seq<char>>(transfer.written + transfer.pending.len() + body_of(chunks).len()),
        ),
    decreases chunks.len(), transfer.pending.len(),
{
    let held = transfer.pending;
    if held.len() > 0 {
        lemma_piece_and_rest(held, chunk_size);
        lemma_transfer_from(advanced(transfer, chunk_size).0, chunks, chunk_size);
    } else if chunks.len() == 0 {
        lemma_piece_and_rest(held, chunk_size);
    } else {
        let source = source_of(chunks);
        let later = chunks.subrange(1, chunks.len() as int);
        lemma_piece_and_rest(chunks[0], chunk_size);
        assert(source.subrange(1, source.len() as int) =~= source_of(later));
        lemma_transfer_from(supplied(transfer, source[0], chunk_size).0, later, chunk_size);
    }
}

/// A body that arrives in chunks, none of them empty, and then ends is
/// handed out for writing byte for byte and in order, in pieces of at most
/// `chunk_size` bytes, and the transfer completes with the number of its
/// bytes.
pub proof fn lemma_transfer_is_faithful(chunks: Seq<Seq<u8>>, chunk_size: nat)
    requires
        chunk_size > 0,
        forall|i: int| 0 <= i < chunks.len() ==> (#[trigger] chunks[i]).len() > 0,
    ensures
        transferred(
            TransferModel { pending: Seq::empty(), written: 0 },
            source_of(chunks),
            chunk_size,
        ).written == body_of(chunks),
        transferred(
            TransferModel { pending: Seq::empty(), written: 0 },
            source_of(chunks),
            chunk_size,
        ).result == Some(Ok::<nat, Seq<char>>(body_of(chunks).len())),
{
    lemma_transfer_from(
        TransferModel { pending: Seq::empty(), written: 0 },
        chunks,
        chunk_size,
    );
}

/// What a [`Fetch`] asks of its caller after an attempt.
#[derive(Debug, PartialEq, Eq)]
pub enum FetchAction {
    /// Wait for this long, then make another attempt from scratch.
    RetryAfter(Duration),
    /// The download is over, with the number of bytes written or with the
    /// terminal failure.
    Finish(Result<u64, FetchFailure>),
}

/// What follows an attempt that ended with `outcome` when `failed` attempts
/// had failed before it: the number of failed attempts after it, and what to
/// do. A failure is answered with a wait of `options.retry_delay`, always the
/// same, as long as fewer than `options.max_retries` attempts have failed
/// before and the failure is not fatal; otherwise it is terminal and cites
/// every attempt made.
pub open spec fn settled(
    options: DownloadOptions,
    failed: nat,
    outcome: Result<u64, AttemptError>,
) -> (nat, FetchAction) {
    match outcome {
        Ok(bytes) => (failed, FetchAction::Finish(Ok(bytes))),
        Err(error) => if failed < options.max_retries && !is_fatal(error) {
            (failed + 1, FetchAction::RetryAfter(options.retry_delay))
        } else {
            (
                failed,
                FetchAction::Finish(
                    Err(FetchFailure { attempts: (failed + 1) as u128, last_error: error }),
                ),
            )
        },
    }
}

/// One download with its retries: the options, and how many attempts have
/// failed so far.
pub struct Fetch {
    options: DownloadOptions,
    failed: usize,
}

impl Fetch {
    /// The options the download was started with.
    pub closed spec fn options(&self) -> DownloadOptions {
        self.options
    }

    /// The number of attempts that failed and were answered with a retry.
    pub closed spec fn failed(&self) -> nat {
        self.failed as nat
    }

    /// A download of which no attempt has been made yet. The first attempt
    /// is due at once.
    pub fn new(options: DownloadOptions) -> (fetch: Self)
        ensures
            fetch.options() == options,
            fetch.failed() == 0,
    {
        Fetch { options, failed: 0 }
    }

    /// Takes the outcome of the attempt just made and decides what follows.
    pub fn settle(&mut self, outcome: Result<u64, AttemptError>) -> (action: FetchAction)
        ensures
            final(self).options() == old(self).options(),
            (final(self).failed(), action) == settled(
                old(self).options(),
                old(self).failed(),
                outcome,
            ),
    {
        match outcome {
            Ok(bytes) => FetchAction::Finish(Ok(bytes)),
            Err(error) => {
                if self.failed < self.options.max_retries && !error.fatal() {
                    self.failed = self.failed + 1;
                    FetchAction::RetryAfter(self.options.retry_delay)
                } else {
                    let attempts: u128 = self.failed as u128 + 1;
                    FetchAction::Finish(Err(FetchFailure { attempts, last_error: error }))
                }
            },
        }
    }
}

/// A download as far as it has gone: the attempts made, the waits between
/// them in order, and the result once it is over.
pub struct FetchRun {
    pub attempts: nat,
    pub waits: Seq<Duration>,
    pub result: Option<Result<u64, FetchFailure>>,
}

/// The download that makes its attempts in order, each ending as `outcomes`
/// says, after `failed` attempts have failed already: it goes on until an
/// attempt finishes it or the outcomes run out.
pub open spec fn run_from(
    options: DownloadOptions,
    failed: nat,
    outcomes: Seq<Result<u64, AttemptError>>,
) -> FetchRun
    decreases outcomes.len(),
{
    if outcomes.len() == 0 {
        FetchRun { attempts: 0, waits: Seq::empty(), result: None }
    } else {
        match settled(options, failed, outcomes[0]).1 {
            FetchAction::Finish(result) => FetchRun {
                attempts: 1,
                waits: Seq::empty(),
                result: Some(result),
            },
            FetchAction::RetryAfter(delay) => {
                let rest = run_from(
                    options,
                    settled(options, failed, outcomes[0]).0,
                    outcomes.subrange(1, outcomes.len() as int),
                );
                FetchRun {
                    attempts: rest.attempts + 1,
                    waits: seq![delay] + rest.waits,
                    result: rest.result,
                }
            },
        }
    }
}

/// The download from its first attempt on.
pub open spec fn run(options: DownloadOptions, outcomes: Seq<Result<u64, AttemptError>>) -> FetchRun {
    run_from(options, 0, outcomes)
}

/// Whether an attempt ended in a failure that a retry may mend.
pub open spec fn failed_for_now(outcome: Result<u64, AttemptError>) -> bool {
    outcome matches Err(error) && !is_fatal(error)
}

/// `count` waits of the same length.
pub open spec fn repeated(delay: Duration, count: nat) -> Seq<Duration> {
    Seq::new(count, |i: int| delay)
}

proof fn lemma_run_all_failing(
    options: DownloadOptions,
    failed: nat,
    outcomes: Seq<Result<u64, AttemptError>>,
)
    requires
        failed <= options.max_retries,
        outcomes.len() > options.max_retries - failed,
        forall|i: int| 0 <= i <= options.max_retries - failed ==> failed_for_now(#[trigger] outcomes[i]),
    ensures
        ({
            let left = (options.max_retries - failed) as nat;
            let done = run_from(options, failed, outcomes);
            &&& done.attempts == left + 1
            &&& done.waits == repeated(options.retry_delay, left)
            &&& done.result == Some(
                Err::<u64, FetchFailure>(
                    FetchFailure {
                        attempts: (options.max_retries + 1) as u128,
                        last_error: outcomes[left as int]->Err_0,
                    },
                ),
            )
        }),
    decreases options.max_retries - failed,
{
    if failed < options.max_retries {
        lemma_run_all_failing(options, failed + 1, outcomes.subrange(1, outcomes.len() as int));
    }
}

proof fn lemma_run_until_success(
    options: DownloadOptions,
    failed: nat,
    outcomes: Seq<Result<u64, AttemptError>>,
    failures: nat,
)
    requires
        failed + failures <= options.max_retries,
        outcomes.len() > failures,
        forall|i: int| 0 <= i < failures ==> failed_for_now(#[trigger] outcomes[i]),
        outcomes[failures as int] is Ok,
    ensures
        ({
            let done = run_from(options, failed, outcomes);
            &&& done.attempts == failures + 1
            &&& done.waits == repeated(options.retry_delay, failures)
            &&& done.result == Some(
                Ok::<u64, FetchFailure>(outcomes[failures as int]->Ok_0),
            )
        }),
    decreases failures,
{
    if failures > 0 {
        let rest = outcomes.subrange(1, outcomes.len() as int);
        lemma_run_until_success(options, failed + 1, rest, (failures - 1) as nat);
    }
}

/// A download whose every attempt fails, none of them fatally, makes exactly
/// `max_retries + 1` attempts, waits `retry_delay` after each but the last,
/// and ends in a terminal failure that cites `max_retries + 1` attempts and
/// the error of the last one.
pub proof fn lemma_exhausted_fetch(
    options: DownloadOptions,
    outcomes: Seq<Result<u64, AttemptError>>,
)
    requires
        outcomes.len() > options.max_retries,
        forall|i: int| 0 <= i <= options.max_retries ==> failed_for_now(#[trigger] outcomes[i]),
    ensures
        run(options, outcomes).attempts == options.max_retries + 1,
        run(options, outcomes).waits == repeated(options.retry_delay, options.max_retries as nat),
        run(options, outcomes).result == Some(
            Err::<u64, FetchFailure>(
                FetchFailure {
                    attempts: (options.max_retries + 1) as u128,
                    last_error: outcomes[options.max_retries as int]->Err_0,
                },
            ),
        ),
{
    lemma_run_all_failing(options, 0, outcomes);
}

/// A download whose attempt number `attempt`, counted from one and no later
/// than `max_retries + 1`, is the first to succeed, none before it having
/// failed fatally, returns the byte count of that attempt, and has waited
/// `retry_delay`, unchanged, after each of the failed attempts before it.
pub proof fn lemma_fetch_succeeds_on_attempt(
    options: DownloadOptions,
    outcomes: Seq<Result<u64, AttemptError>>,
    attempt: nat,
)
    requires
        1 <= attempt <= options.max_retries + 1,
        outcomes.len() >= attempt,
        forall|i: int| 0 <= i < attempt - 1 ==> failed_for_now(#[trigger] outcomes[i]),
        outcomes[attempt - 1] is Ok,
    ensures
        run(options, outcomes).attempts == attempt,
        run(options, outcomes).waits == repeated(options.retry_delay, (attempt - 1) as nat),
        run(options, outcomes).result == Some(
            Ok::<u64, FetchFailure>(outcomes[attempt - 1]->Ok_0),
        ),
{
    lemma_run_until_success(options, 0, outcomes, (attempt - 1) as nat);
}

/// A download ends with the first attempt that fails fatally, whatever
/// retries are left: no wait follows it, and the terminal failure cites the
/// attempts made so far.
pub proof fn lemma_fatal_failure_ends_fetch(
    options: DownloadOptions,
    failed: nat,
    error: AttemptError,
)
    requires
        is_fatal(error),
    ensures
        settled(options, failed, Err(error)) == (
            failed,
            FetchAction::Finish(
                Err(FetchFailure { attempts: (failed + 1) as u128, last_error: error }),
            ),
        ),
{
}

} // verus!
