//! A pull-style reader over a push-style source of byte chunks.
//!
//! The source hands over chunks of whatever size it likes; the consumer asks
//! for at most `max_bytes` at a time. The reader keeps one buffer of pending
//! bytes between calls and asks the source for more only when that buffer is
//! empty. Waiting for the source is the caller's business: [`StreamReader::read`]
//! says when the source has to be asked, and [`StreamReader::refill`] takes what
//! the source answered.

use bytes::BytesMut;
use vstd::prelude::*;
use vstd::string::StringExecFns;

verus! {

/// `bytes::BytesMut`, a growable buffer of bytes; what it holds is known only
/// through [`buffer_bytes`].
#[verifier::external_type_specification]
#[verifier::external_body]
pub struct ExBytesMut(BytesMut);

/// The bytes that a `bytes::BytesMut` holds, first to last.
pub uninterp spec fn buffer_bytes(buffer: BytesMut) -> Seq<u8>;

/// `BytesMut::new`: the new buffer has length 0.
#[verifier::external_body]
fn buffer_new() -> (buffer: BytesMut)
    ensures
        buffer_bytes(buffer) == Seq::<u8>::empty(),
{
    BytesMut::new()
}

/// `BytesMut::len`: the number of bytes held.
#[verifier::external_body]
fn buffer_len(buffer: &BytesMut) -> (n: usize)
    ensures
        n == buffer_bytes(*buffer).len(),
{
    buffer.len()
}

/// `BytesMut::is_empty`: whether the length is 0.
#[verifier::external_body]
fn buffer_is_empty(buffer: &BytesMut) -> (empty: bool)
    ensures
        empty == (buffer_bytes(*buffer).len() == 0),
{
    buffer.is_empty()
}

/// `BytesMut::extend_from_slice`: the given bytes are appended behind those
/// already held. The call panics when the new length overflows, which the
/// precondition rules out.
#[verifier::external_body]
fn buffer_extend(buffer: &mut BytesMut, extend: &[u8])
    requires
        buffer_bytes(*old(buffer)).len() + extend@.len() <= isize::MAX,
    ensures
        buffer_bytes(*final(buffer)) == buffer_bytes(*old(buffer)) + extend@,
{
    buffer.extend_from_slice(extend)
}

/// `BytesMut::split_to`: the first `at` bytes leave the buffer and are
/// returned, the bytes from `at` on stay. The call panics when `at` exceeds
/// the length, which the precondition rules out.
#[verifier::external_body]
fn buffer_split_to(buffer: &mut BytesMut, at: usize) -> (head: Vec<u8>)
    requires
        at <= buffer_bytes(*old(buffer)).len(),
    ensures
        head@ == buffer_bytes(*old(buffer)).subrange(0, at as int),
        buffer_bytes(*final(buffer)) == buffer_bytes(*old(buffer)).subrange(
            at as int,
            buffer_bytes(*old(buffer)).len() as int,
        ),
{
    buffer.split_to(at).to_vec()
}

/// What the source answered when it was asked for its next chunk.
#[derive(Debug, PartialEq, Eq)]
pub enum SourceEvent {
    /// The next chunk of bytes.
    Chunk(Vec<u8>),
    /// The source failed; the text describes how.
    Failed(String),
    /// The source has no more chunks.
    Ended,
}

/// The failure of a source, as the reader reports it to its caller.
#[derive(Debug, PartialEq, Eq)]
pub struct StreamError {
    pub message: String,
}

/// What a call of [`StreamReader::read`] came to.
#[derive(Debug, PartialEq, Eq)]
pub enum ReadStep {
    /// These bytes were taken from the pending buffer.
    Ready(Vec<u8>),
    /// The pending buffer is empty: the source has to be asked, and its answer
    /// handed to [`StreamReader::refill`].
    Starved,
}

/// The model of a source's answer: its bytes, its failure text, or its end.
pub enum SourceModel {
    Chunk(Seq<u8>),
    Failed(Seq<char>),
    Ended,
}

impl View for SourceEvent {
    type V = SourceModel;

    open spec fn view(&self) -> SourceModel {
        match *self {
            SourceEvent::Chunk(bytes) => SourceModel::Chunk(bytes@),
            SourceEvent::Failed(message) => SourceModel::Failed(message@),
            SourceEvent::Ended => SourceModel::Ended,
        }
    }
}

/// The model of what a read came to.
pub enum ReadStepModel {
    Ready(Seq<u8>),
    Starved,
}

impl View for ReadStep {
    type V = ReadStepModel;

    open spec fn view(&self) -> ReadStepModel {
        match *self {
            ReadStep::Ready(bytes) => ReadStepModel::Ready(bytes@),
            ReadStep::Starved => ReadStepModel::Starved,
        }
    }
}

/// The model of a completed read: the bytes delivered, or the failure text.
pub enum ReadModel {
    Delivered(Seq<u8>),
    Failed(Seq<char>),
}

/// How many bytes a read of at most `max_bytes` takes from `pending` bytes.
pub open spec fn take_len(pending: Seq<u8>, max_bytes: nat) -> nat {
    if pending.len() <= max_bytes {
        pending.len()
    } else {
        max_bytes
    }
}

/// The bytes that a read of at most `max_bytes` delivers from `pending`.
pub open spec fn delivered(pending: Seq<u8>, max_bytes: nat) -> Seq<u8> {
    pending.subrange(0, take_len(pending, max_bytes) as int)
}

/// The bytes that stay pending after such a read.
pub open spec fn remainder(pending: Seq<u8>, max_bytes: nat) -> Seq<u8> {
    pending.subrange(take_len(pending, max_bytes) as int, pending.len() as int)
}

/// The text of the error raised for a source that failed with `cause`.
pub open spec fn stream_error_text(cause: Seq<char>) -> Seq<char> {
    "Stream error: "@ + cause
}

/// Whether a read of at most `max_bytes` over `pending` bytes has to ask the
/// source first.
pub open spec fn needs_source(pending: Seq<u8>, max_bytes: nat) -> bool {
    max_bytes > 0 && pending.len() == 0
}

/// What the buffer holds once the source's answer has been taken in.
pub open spec fn pending_after(pending: Seq<u8>, answer: SourceModel) -> Seq<u8> {
    match answer {
        SourceModel::Chunk(bytes) => pending + bytes,
        _ => pending,
    }
}

/// A read of at most `max_bytes` over `pending` bytes: what stays pending,
/// and what the read comes to. Bytes are taken from the front of what is
/// pending; with nothing pending the source has to be asked, unless no bytes
/// are wanted.
pub open spec fn read_of(pending: Seq<u8>, max_bytes: nat) -> (Seq<u8>, ReadStepModel) {
    if needs_source(pending, max_bytes) {
        (pending, ReadStepModel::Starved)
    } else {
        (remainder(pending, max_bytes), ReadStepModel::Ready(delivered(pending, max_bytes)))
    }
}

/// The end of a read that had to ask the source: what stays pending, and
/// the bytes delivered or the text of the failure. A chunk is put behind the
/// pending bytes before the read takes its bytes.
pub open spec fn refilled(pending: Seq<u8>, answer: SourceModel, max_bytes: nat) -> (
    Seq<u8>,
    Result<Seq<u8>, Seq<char>>,
) {
    match answer {
        SourceModel::Failed(cause) => (pending, Err(stream_error_text(cause))),
        _ => {
            let held = pending_after(pending, answer);
            (remainder(held, max_bytes), Ok(delivered(held, max_bytes)))
        },
    }
}

/// One whole read of at most `max_bytes`: what it returns when `pending`
/// bytes are buffered and the source, if asked, answers `answer`.
pub open spec fn read_result(pending: Seq<u8>, max_bytes: nat, answer: SourceModel) -> ReadModel {
    match read_of(pending, max_bytes).1 {
        ReadStepModel::Ready(bytes) => ReadModel::Delivered(bytes),
        ReadStepModel::Starved => match refilled(pending, answer, max_bytes).1 {
            Ok(bytes) => ReadModel::Delivered(bytes),
            Err(text) => ReadModel::Failed(text),
        },
    }
}

/// What stays buffered after that read.
pub open spec fn read_leftover(pending: Seq<u8>, max_bytes: nat, answer: SourceModel) -> Seq<u8> {
    match read_of(pending, max_bytes).1 {
        ReadStepModel::Ready(_) => read_of(pending, max_bytes).0,
        ReadStepModel::Starved => refilled(pending, answer, max_bytes).0,
    }
}

/// Adapts a source of chunks to reads of bounded size, holding the bytes that
/// a chunk had beyond what the last read asked for.
pub struct StreamReader {
    buffer: BytesMut,
}

impl StreamReader {
    /// The bytes received from the source and not yet delivered.
    pub closed spec fn pending(&self) -> Seq<u8> {
        buffer_bytes(self.buffer)
    }

    /// A reader with nothing pending.
    pub fn new() -> (reader: Self)
        ensures
            reader.pending() == Seq::<u8>::empty(),
    {
        StreamReader { buffer: buffer_new() }
    }

    /// The number of pending bytes.
    pub fn pending_len(&self) -> (n: usize)
        ensures
            n == self.pending().len(),
    {
        buffer_len(&self.buffer)
    }

    /// Takes up to `max_bytes` from the pending bytes. With `max_bytes` zero
    /// nothing is taken and the source is left alone. With nothing pending the
    /// reader does not answer with zero bytes: it reports that the source has
    /// to be asked.
    pub fn read(&mut self, max_bytes: usize) -> (step: ReadStep)
        ensures
            (final(self).pending(), step@) == read_of(old(self).pending(), max_bytes as nat),
    {
        if max_bytes == 0 {
            assert(delivered(self.pending(), 0) =~= Seq::<u8>::empty());
            return ReadStep::Ready(Vec::new());
        }
        if buffer_is_empty(&self.buffer) {
            return ReadStep::Starved;
        }
        ReadStep::Ready(self.take(max_bytes))
    }

    /// Takes in the source's answer and completes the read that was waiting
    /// for it. A chunk is put behind the pending bytes and up to `max_bytes`
    /// are delivered; an empty delivery says that the stream has ended. A
    /// failure of the source is raised and leaves the pending bytes alone.
    pub fn refill(&mut self, answer: SourceEvent, max_bytes: usize) -> (result: Result<
        Vec<u8>,
        StreamError,
    >)
        requires
            answer matches SourceEvent::Chunk(bytes) ==> old(self).pending().len() + bytes@.len()
                <= isize::MAX,
        ensures
            final(self).pending() == refilled(old(self).pending(), answer@, max_bytes as nat).0,
            match refilled(old(self).pending(), answer@, max_bytes as nat).1 {
                Ok(bytes) => result matches Ok(read) && read@ == bytes,
                Err(text) => result matches Err(error) && error.message@ == text,
            },
    {
        match answer {
            SourceEvent::Chunk(bytes) => {
                buffer_extend(&mut self.buffer, bytes.as_slice());
            },
            SourceEvent::Failed(cause) => {
                let message = String::from_str("Stream error: ").concat(cause.as_str());
                return Err(StreamError { message });
            },
            SourceEvent::Ended => {},
        }
        Ok(self.take(max_bytes))
    }

    fn take(&mut self, max_bytes: usize) -> (bytes: Vec<u8>)
        ensures
            bytes@ == delivered(old(self).pending(), max_bytes as nat),
            final(self).pending() == remainder(old(self).pending(), max_bytes as nat),
    {
        let held = buffer_len(&self.buffer);
        let count = if held <= max_bytes {
            held
        } else {
            max_bytes
        };
        buffer_split_to(&mut self.buffer, count)
    }
}

/// A read of a positive number of bytes delivers nothing only at the end of
/// the stream: when nothing is pending and the source answers that it has
/// ended. This holds of every source that hands over no empty chunk; an empty
/// chunk stands for the end of the stream.
pub proof fn lemma_empty_read_means_end(pending: Seq<u8>, max_bytes: nat, answer: SourceModel)
    requires
        max_bytes > 0,
        answer matches SourceModel::Chunk(bytes) ==> bytes.len() > 0,
    ensures
        (read_result(pending, max_bytes, answer) matches ReadModel::Delivered(bytes) && bytes.len()
            == 0) <==> (pending.len() == 0 && answer is Ended),
{
}

/// A read delivers what was pending before what the source has just handed
/// over, loses nothing and never exceeds the bound: the bytes delivered,
/// followed by those left pending, are the bytes pending before, followed by
/// the chunk taken in.
pub proof fn lemma_read_keeps_bytes(pending: Seq<u8>, max_bytes: nat, answer: SourceModel)
    requires
        !(answer is Failed),
    ensures
        ({
            let held = if needs_source(pending, max_bytes) {
                pending_after(pending, answer)
            } else {
                pending
            };
            &&& read_result(pending, max_bytes, answer) matches ReadModel::Delivered(bytes)
            &&& bytes.len() <= max_bytes
            &&& bytes + read_leftover(pending, max_bytes, answer) == held
        }),
{
}

} // verus!
