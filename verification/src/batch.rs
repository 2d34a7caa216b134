//! A batch of pipelines under a limit on how many run at once, and the
//! ledger of their failures.
//!
//! Running a pipeline is the caller's. A [`Batch`] schedules: it says which
//! track to start next, or that a running pipeline has to complete first, or
//! that all are done. A pipeline holds its place from its start until its
//! completion is reported, so that no more pipelines run at any time than
//! the limit allows. Failures are entered in the order in which pipelines
//! complete.

use crate::pipeline::{OutcomeModel, PipelineOutcome};
use crate::util::{join, joined};
use vstd::string::StringExecFns;
use vstd::prelude::*;

verus! {

/// The names of the tracks that failed, songs and lyrics apart, each list in
/// the order of the reports.
pub struct FailureLedger {
    songs: Vec<String>,
    lyrics: Vec<String>,
}

impl FailureLedger {
    /// The names entered as song failures, oldest first.
    pub closed spec fn songs(&self) -> Seq<Seq<char>> {
        self.songs.deep_view()
    }

    /// The names entered as lyric failures, oldest first.
    pub closed spec fn lyrics(&self) -> Seq<Seq<char>> {
        self.lyrics.deep_view()
    }

    /// A ledger without entries.
    pub fn new() -> (ledger: Self)
        ensures
            ledger.songs() == Seq::<Seq<char>>::empty(),
            ledger.lyrics() == Seq::<Seq<char>>::empty(),
    {
        FailureLedger { songs: Vec::new(), lyrics: Vec::new() }
    }

    /// Enters a name behind the song failures.
    pub fn record_song_failure(&mut self, name: String)
        ensures
            final(self).songs() == old(self).songs().push(name@),
            final(self).lyrics() == old(self).lyrics(),
    {
        self.songs.push(name);
    }

    /// Enters a name behind the lyric failures.
    pub fn record_lyric_failure(&mut self, name: String)
        ensures
            final(self).lyrics() == old(self).lyrics().push(name@),
            final(self).songs() == old(self).songs(),
    {
        self.lyrics.push(name);
    }

    /// Enters what a pipeline reports: its song failure and its lyric
    /// failure, each where there is one.
    pub fn record(&mut self, outcome: PipelineOutcome)
        ensures
            final(self).songs() == with_failure(old(self).songs(), outcome@.song_failure),
            final(self).lyrics() == with_failure(old(self).lyrics(), outcome@.lyric_failure),
    {
        match outcome.song_failure {
            Some(name) => self.record_song_failure(name),
            None => {},
        }
        match outcome.lyric_failure {
            Some(name) => self.record_lyric_failure(name),
            None => {},
        }
    }

    /// Copies of both lists: the song failures and the lyric failures.
    pub fn snapshot(&self) -> (lists: (Vec<String>, Vec<String>))
        ensures
            lists.0.deep_view() == self.songs(),
            lists.1.deep_view() == self.lyrics(),
    {
        (copy_names(&self.songs), copy_names(&self.lyrics))
    }
}

/// A list of names with one more behind it, where there is one more.
pub open spec fn with_failure(names: Seq<Seq<char>>, failure: Option<Seq<char>>) -> Seq<
    Seq<char>,
> {
    match failure {
        Some(name) => names.push(name),
        None => names,
    }
}

fn copy_names(names: &Vec<String>) -> (copy: Vec<String>)
    ensures
        copy.deep_view() == names.deep_view(),
{
    let mut copy: Vec<String> = Vec::new();
    let mut i: usize = 0;
    while i < names.len()
        invariant
            i <= names.len(),
            copy@.len() == i,
            forall|k: int| 0 <= k < i ==> (#[trigger] copy@[k])@ == names@[k]@,
        decreases names.len() - i,
    {
        copy.push(names[i].clone());
        i = i + 1;
    }
    copy
}

/// What a batch asks of its caller next.
#[derive(Clone, Copy, Debug, PartialEq, Eq, Structural)]
pub enum BatchStep {
    /// Start the pipeline of the track at this place of the list.
    Start(usize),
    /// Wait for a running pipeline to complete, and report it.
    Wait,
    /// Every pipeline has completed.
    Done,
}

/// The model of a batch: the limit, the number of tracks, how many pipelines
/// were started and how many have completed, and the failures reported.
pub struct BatchModel {
    pub limit: nat,
    pub total: nat,
    pub started: nat,
    pub completed: nat,
    pub failed_songs: Seq<Seq<char>>,
    pub failed_lyrics: Seq<Seq<char>>,
}

impl BatchModel {
    /// The number of pipelines that are running.
    pub open spec fn running(self) -> int {
        self.started - self.completed
    }

    /// What holds of a batch at every time: no more pipelines have completed
    /// than were started, no more were started than there are tracks, and no
    /// more are running than the limit allows.
    pub open spec fn within_limit(self) -> bool {
        &&& self.completed <= self.started <= self.total
        &&& self.running() <= self.limit
    }

    /// Whether a pipeline can be started: a track is left, and a place is
    /// free.
    pub open spec fn can_start(self) -> bool {
        self.started < self.total && self.running() < self.limit
    }
}

/// A batch of `total` tracks under `limit` before anything is started.
pub open spec fn fresh(total: nat, limit: nat) -> BatchModel {
    BatchModel {
        limit,
        total,
        started: 0,
        completed: 0,
        failed_songs: Seq::empty(),
        failed_lyrics: Seq::empty(),
    }
}

/// What a batch answers when asked what to do: it starts the next track of
/// the list while one is left and a place is free; it waits while pipelines
/// have yet to complete; it is done when all have.
pub open spec fn scheduled(batch: BatchModel) -> (BatchModel, BatchStep) {
    if batch.can_start() {
        (BatchModel { started: batch.started + 1, ..batch }, BatchStep::Start(batch.started as usize))
    } else if batch.completed < batch.total {
        (batch, BatchStep::Wait)
    } else {
        (batch, BatchStep::Done)
    }
}

/// A batch after a running pipeline has reported its outcome: a place is
/// free again, and the failures are entered. With no pipeline running there
/// is nothing that could report, and the batch stays as it is.
pub open spec fn completed(batch: BatchModel, outcome: OutcomeModel) -> BatchModel {
    if batch.completed < batch.started {
        BatchModel {
            completed: batch.completed + 1,
            failed_songs: with_failure(batch.failed_songs, outcome.song_failure),
            failed_lyrics: with_failure(batch.failed_lyrics, outcome.lyric_failure),
            ..batch
        }
    } else {
        batch
    }
}

/// The pipelines of a list of tracks, scheduled under a limit.
pub struct Batch {
    limit: usize,
    total: usize,
    started: usize,
    completed: usize,
    ledger: FailureLedger,
}

impl View for Batch {
    type V = BatchModel;

    closed spec fn view(&self) -> BatchModel {
        BatchModel {
            limit: self.limit as nat,
            total: self.total as nat,
            started: self.started as nat,
            completed: self.completed as nat,
            failed_songs: self.ledger.songs(),
            failed_lyrics: self.ledger.lyrics(),
        }
    }
}

impl Batch {
    #[verifier::type_invariant]
    spec fn bounded(&self) -> bool {
        self@.within_limit()
    }

    /// A batch of `total` tracks of which at most `limit` are worked on at
    /// once.
    pub fn new(total: usize, limit: usize) -> (batch: Self)
        ensures
            batch@ == fresh(total as nat, limit as nat),
    {
        Batch { limit, total, started: 0, completed: 0, ledger: FailureLedger::new() }
    }

    /// Says what to do next, and counts a pipeline as running from the
    /// moment its start is handed out.
    pub fn schedule(&mut self) -> (step: BatchStep)
        ensures
            (final(self)@, step) == scheduled(old(self)@),
            final(self)@.within_limit(),
    {
        proof {
            use_type_invariant(&*self);
        }
        if self.started < self.total && self.started - self.completed < self.limit {
            let index = self.started;
            self.started = self.started + 1;
            BatchStep::Start(index)
        } else if self.completed < self.total {
            BatchStep::Wait
        } else {
            BatchStep::Done
        }
    }

    /// Takes the outcome of a pipeline that has completed.
    pub fn complete(&mut self, outcome: PipelineOutcome)
        ensures
            final(self)@ == completed(old(self)@, outcome@),
            final(self)@.within_limit(),
    {
        proof {
            use_type_invariant(&*self);
        }
        if self.completed < self.started {
            self.completed = self.completed + 1;
            // The ledger is taken out of the batch while it is written to.
            let mut ledger = FailureLedger::new();
            std::mem::swap(&mut self.ledger, &mut ledger);
            ledger.record(outcome);
            std::mem::swap(&mut self.ledger, &mut ledger);
        }
    }

    /// The number of pipelines that are running.
    pub fn running(&self) -> (count: usize)
        ensures
            count == self@.running(),
            count <= self@.limit,
    {
        proof {
            use_type_invariant(self);
        }
        self.started - self.completed
    }

    /// The number of pipelines that have completed: the progress of the
    /// batch.
    pub fn progress(&self) -> (count: usize)
        ensures
            count == self@.completed,
            count <= self@.total,
    {
        proof {
            use_type_invariant(self);
        }
        self.completed
    }

    /// The number of tracks.
    pub fn total(&self) -> (count: usize)
        ensures
            count == self@.total,
    {
        self.total
    }

    /// The failures reported so far: the names of the tracks whose song
    /// stage failed, and of those whose lyric stage failed, each list in the
    /// order in which the pipelines completed.
    pub fn failures(&self) -> (lists: (Vec<String>, Vec<String>))
        ensures
            lists.0.deep_view() == self@.failed_songs,
            lists.1.deep_view() == self@.failed_lyrics,
    {
        self.ledger.snapshot()
    }
}

/// The line that names the tracks whose stage failed: the heading, and the
/// names with commas between them. Without failures there is no line.
pub open spec fn failure_line(heading: Seq<char>, names: Seq<Seq<char>>) -> Option<Seq<char>> {
    if names.len() == 0 {
        None
    } else {
        Some(heading + joined(names, ", "@))
    }
}

/// The heading of the line of failed songs.
pub const FAILED_SONGS: &'static str = "歌曲下载失败：";

/// The heading of the line of failed lyrics.
pub const FAILED_LYRICS: &'static str = "歌词下载失败：";

/// Puts the names of failed tracks into one line under a heading, if there
/// are any.
pub fn line_of_failures(heading: &str, names: &Vec<String>) -> (line: Option<String>)
    ensures
        match failure_line(heading@, names.deep_view()) {
            Some(text) => line matches Some(written) && written@ == text,
            None => line is None,
        },
{
    if names.len() == 0 {
        None
    } else {
        let listed = join(names, ", ");
        Some(String::from_str(heading).concat(listed.as_str()))
    }
}

/// What happens to a batch: it is asked what to do, or a pipeline reports.
pub enum BatchEvent {
    Schedule,
    Complete(OutcomeModel),
}

/// A batch after one event.
pub open spec fn step(batch: BatchModel, event: BatchEvent) -> BatchModel {
    match event {
        BatchEvent::Schedule => scheduled(batch).0,
        BatchEvent::Complete(outcome) => completed(batch, outcome),
    }
}

/// A batch after a sequence of events, one after the other.
pub open spec fn after(batch: BatchModel, events: Seq<BatchEvent>) -> BatchModel
    decreases events.len(),
{
    if events.len() == 0 {
        batch
    } else {
        step(after(batch, events.drop_last()), events.last())
    }
}

/// Whatever is asked of a batch and whatever is reported to it, in whatever
/// order: at no time do more pipelines run than the limit allows.
pub proof fn lemma_never_over_limit(total: nat, limit: nat, events: Seq<BatchEvent>)
    ensures
        after(fresh(total, limit), events).within_limit(),
        after(fresh(total, limit), events).running() <= limit,
        after(fresh(total, limit), events).limit == limit,
        after(fresh(total, limit), events).total == total,
    decreases events.len(),
{
    if events.len() > 0 {
        lemma_never_over_limit(total, limit, events.drop_last());
    }
}

/// The progress of a batch never goes back, and never beyond the number of
/// its tracks.
pub proof fn lemma_progress_is_monotonic(total: nat, limit: nat, events: Seq<BatchEvent>, seen: int)
    requires
        0 <= seen <= events.len(),
    ensures
        after(fresh(total, limit), events.subrange(0, seen)).completed <= after(
            fresh(total, limit),
            events,
        ).completed <= total,
    decreases events.len() - seen,
{
    lemma_never_over_limit(total, limit, events);
    if seen < events.len() {
        lemma_never_over_limit(total, limit, events.drop_last());
        lemma_progress_is_monotonic(total, limit, events.drop_last(), seen);
        assert(events.drop_last().subrange(0, seen) =~= events.subrange(0, seen));
    } else {
        assert(events.subrange(0, seen) =~= events);
    }
}

/// A batch that answers with a wait has a pipeline running whose completion
/// will end the wait, unless its limit is zero; and a batch that is done has
/// seen every pipeline complete.
pub proof fn lemma_wait_and_done(batch: BatchModel)
    requires
        batch.within_limit(),
        batch.total <= usize::MAX,
    ensures
        scheduled(batch).1 == BatchStep::Wait && batch.limit > 0 ==> batch.running() > 0,
        scheduled(batch).1 == BatchStep::Done ==> batch.completed == batch.total && batch.running()
            == 0,
        scheduled(batch).1 matches BatchStep::Start(index) ==> index == batch.started
            && scheduled(batch).0.running() == batch.running() + 1,
{
}

/// Every failure reported to a batch with a pipeline running is in its
/// lists from then on, each list growing at its end only.
pub proof fn lemma_failures_are_kept(batch: BatchModel, events: Seq<BatchEvent>)
    ensures
        batch.failed_songs.is_prefix_of(after(batch, events).failed_songs),
        batch.failed_lyrics.is_prefix_of(after(batch, events).failed_lyrics),
    decreases events.len(),
{
    if events.len() > 0 {
        lemma_failures_are_kept(batch, events.drop_last());
    }
}

} // verus!
