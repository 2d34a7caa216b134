//! The pipeline of one track: its song stage, then its lyric stage.
//!
//! Resolving URLs and lyrics, fetching, and touching files belong to the
//! caller. A [`Pipeline`] decides: it hands out one [`Request`] at a time,
//! takes the [`Reply`] to it, and answers with the next request, until it
//! hands out [`Request::Finish`] with the outcome of the track. The two
//! stages fail independently: whatever happens in the song stage, the lyric
//! stage runs if lyrics are wanted.

use crate::config::Config;
use crate::download::DownloadOptions;
use crate::metadata::{carries_tags, tag_dialect, CoverMime};
use crate::util::{join, joined, sanitize_each, sanitize_filename, sanitized, sanitized_each};
use url::Url;
use vstd::prelude::*;
use vstd::string::StringExecFns;

verus! {

/// `url::Url`, a parsed URL; it is carried from the parser to the request
/// unseen.
#[verifier::external_type_specification]
#[verifier::external_body]
pub struct ExUrl(Url);

/// What `Url::parse` makes of a text: the URL, or nothing where the text is
/// no absolute URL.
pub uninterp spec fn parsed_url(text: Seq<char>) -> Option<Url>;

/// `Url::parse`, with its error dropped.
#[verifier::external_body]
fn parse_url(text: &str) -> (url: Option<Url>)
    ensures
        url == parsed_url(text@),
{
    Url::parse(text).ok()
}

/// A track of a playlist, as the playlist describes it.
#[derive(Debug, PartialEq, Eq)]
pub struct Track {
    pub id: u64,
    pub name: String,
    pub translated_name: Option<String>,
    pub singer: Vec<String>,
    pub album: String,
    pub pic_url: String,
}

/// What became of a track: for each stage the name of the track if the stage
/// failed, and nothing if it succeeded or was switched off.
#[derive(Debug, PartialEq, Eq)]
pub struct PipelineOutcome {
    pub song_failure: Option<String>,
    pub lyric_failure: Option<String>,
}

/// Where a pipeline stands: which reply it is waiting for.
#[derive(Clone, Copy, Debug, PartialEq, Eq, Structural)]
pub enum Stage {
    /// Song stage: the playable URL is being resolved.
    ResolvingUrl,
    /// Song stage: the audio file is being fetched.
    FetchingSong,
    /// Song stage: the cover is being fetched into its temporary file.
    FetchingCover,
    /// Song stage: the cover is being read back.
    ReadingCover,
    /// Song stage: the tags are being written.
    Tagging,
    /// Song stage: the temporary cover file is being removed.
    RemovingCover,
    /// Lyric stage: the lyric is being resolved.
    ResolvingLyric,
    /// Lyric stage: the lyric file is being written.
    WritingLyric,
    /// Both stages are over.
    Finished,
}

/// What the caller is asked to do next.
#[derive(Debug, PartialEq, Eq)]
pub enum Request {
    /// Resolve the playable URL and the container extension of a track at a
    /// quality level.
    ResolveUrl { id: u64, level: String },
    /// Download a URL into a file of the playlist's directory.
    Fetch { url: Url, file_name: String, options: DownloadOptions },
    /// Read the cover file back.
    ReadCover { file_name: String },
    /// Write the track's data and cover into the tags of the audio file.
    WriteTags {
        extension: String,
        file_name: String,
        title: String,
        artists: Vec<String>,
        album: String,
        cover: Vec<u8>,
        cover_mime: CoverMime,
    },
    /// Remove the temporary cover file.
    RemoveCover { file_name: String },
    /// Resolve the lines of the lyric of a track.
    ResolveLyric { id: u64 },
    /// Write the lyric file.
    WriteLyric { file_name: String, content: String },
    /// Nothing is left to do: this is the outcome.
    Finish(PipelineOutcome),
}

/// What came of the last request.
#[derive(Debug, PartialEq, Eq)]
pub enum Reply {
    /// It was done, and there is nothing to hand back.
    Done,
    /// It failed.
    Failed,
    /// The playable URL and the container extension.
    Url { url: String, extension: String },
    /// The bytes of the cover file.
    Cover(Vec<u8>),
    /// The lines of the lyric.
    Lyric(Vec<String>),
}

/// The model of an outcome.
pub struct OutcomeModel {
    pub song_failure: Option<Seq<char>>,
    pub lyric_failure: Option<Seq<char>>,
}

/// The model of a request.
pub enum RequestModel {
    ResolveUrl { id: u64, level: Seq<char> },
    Fetch { url: Url, file_name: Seq<char>, options: DownloadOptions },
    ReadCover { file_name: Seq<char> },
    WriteTags {
        extension: Seq<char>,
        file_name: Seq<char>,
        title: Seq<char>,
        artists: Seq<Seq<char>>,
        album: Seq<char>,
        cover: Seq<u8>,
        cover_mime: CoverMime,
    },
    RemoveCover { file_name: Seq<char> },
    ResolveLyric { id: u64 },
    WriteLyric { file_name: Seq<char>, content: Seq<char> },
    Finish(OutcomeModel),
}

/// The model of a reply.
pub enum ReplyModel {
    Done,
    Failed,
    Url { url: Seq<char>, extension: Seq<char> },
    Cover(Seq<u8>),
    Lyric(Seq<Seq<char>>),
}

/// The model of a track.
pub struct TrackModel {
    pub id: u64,
    pub name: Seq<char>,
    pub translated_name: Option<Seq<char>>,
    pub singer: Seq<Seq<char>>,
    pub album: Seq<char>,
    pub pic_url: Seq<char>,
}

/// The model of a pipeline: the track, what is wanted of it, and how far it
/// has come.
pub struct PipelineModel {
    pub track: TrackModel,
    pub songs: bool,
    pub lyrics: bool,
    pub level: Seq<char>,
    pub options: DownloadOptions,
    pub stage: Stage,
    pub extension: Seq<char>,
    pub song_failed: bool,
    pub lyric_failed: bool,
}

impl View for Track {
    type V = TrackModel;

    open spec fn view(&self) -> TrackModel {
        TrackModel {
            id: self.id,
            name: self.name@,
            translated_name: match self.translated_name {
                Some(text) => Some(text@),
                None => None,
            },
            singer: self.singer.deep_view(),
            album: self.album@,
            pic_url: self.pic_url@,
        }
    }
}

impl View for PipelineOutcome {
    type V = OutcomeModel;

    open spec fn view(&self) -> OutcomeModel {
        OutcomeModel {
            song_failure: match self.song_failure {
                Some(name) => Some(name@),
                None => None,
            },
            lyric_failure: match self.lyric_failure {
                Some(name) => Some(name@),
                None => None,
            },
        }
    }
}

impl View for Request {
    type V = RequestModel;

    open spec fn view(&self) -> RequestModel {
        match *self {
            Request::ResolveUrl { id, level } => RequestModel::ResolveUrl { id, level: level@ },
            Request::Fetch { url, file_name, options } => RequestModel::Fetch {
                url,
                file_name: file_name@,
                options,
            },
            Request::ReadCover { file_name } => RequestModel::ReadCover { file_name: file_name@ },
            Request::WriteTags {
                extension,
                file_name,
                title,
                artists,
                album,
                cover,
                cover_mime,
            } => RequestModel::WriteTags {
                extension: extension@,
                file_name: file_name@,
                title: title@,
                artists: artists.deep_view(),
                album: album@,
                cover: cover@,
                cover_mime,
            },
            Request::RemoveCover { file_name } => RequestModel::RemoveCover {
                file_name: file_name@,
            },
            Request::ResolveLyric { id } => RequestModel::ResolveLyric { id },
            Request::WriteLyric { file_name, content } => RequestModel::WriteLyric {
                file_name: file_name@,
                content: content@,
            },
            Request::Finish(outcome) => RequestModel::Finish(outcome@),
        }
    }
}

impl View for Reply {
    type V = ReplyModel;

    open spec fn view(&self) -> ReplyModel {
        match *self {
            Reply::Done => ReplyModel::Done,
            Reply::Failed => ReplyModel::Failed,
            Reply::Url { url, extension } => ReplyModel::Url { url: url@, extension: extension@ },
            Reply::Cover(bytes) => ReplyModel::Cover(bytes@),
            Reply::Lyric(lines) => ReplyModel::Lyric(lines.deep_view()),
        }
    }
}

/// The name that the files of a track share: the sanitized name of the
/// track, its sanitized translated name in brackets where it has one, a dash,
/// and its sanitized singers with commas between them.
pub open spec fn file_stem(track: TrackModel) -> Seq<char> {
    sanitized(track.name) + (match track.translated_name {
        Some(text) => "("@ + sanitized(text) + ")"@,
        None => Seq::empty(),
    }) + " - "@ + joined(sanitized_each(track.singer), ", "@)
}

/// The name of the audio file of a track in a container with `extension`.
pub open spec fn song_file(track: TrackModel, extension: Seq<char>) -> Seq<char> {
    file_stem(track) + "."@ + extension
}

/// The name of the temporary cover file of a track.
pub open spec fn cover_file(track: TrackModel) -> Seq<char> {
    file_stem(track) + ".jpg"@
}

/// The name of the lyric file of a track.
pub open spec fn lyric_file(track: TrackModel) -> Seq<char> {
    file_stem(track) + ".lrc"@
}

/// The outcome of a pipeline as it stands: each failed stage is reported
/// under the name of the track.
pub open spec fn outcome_of(state: PipelineModel) -> OutcomeModel {
    OutcomeModel {
        song_failure: if state.song_failed {
            Some(state.track.name)
        } else {
            None
        },
        lyric_failure: if state.lyric_failed {
            Some(state.track.name)
        } else {
            None
        },
    }
}

/// The end of a pipeline: it hands out its outcome.
pub open spec fn finish(state: PipelineModel) -> (PipelineModel, RequestModel) {
    (PipelineModel { stage: Stage::Finished, ..state }, RequestModel::Finish(outcome_of(state)))
}

/// The start of the lyric stage: the lyric is resolved if lyrics are wanted;
/// if not, the pipeline is over.
pub open spec fn enter_lyric_stage(state: PipelineModel) -> (PipelineModel, RequestModel) {
    if state.lyrics {
        (
            PipelineModel { stage: Stage::ResolvingLyric, ..state },
            RequestModel::ResolveLyric { id: state.track.id },
        )
    } else {
        finish(state)
    }
}

/// The failure of the song stage: it is recorded, what is left of the song
/// stage is skipped, and the lyric stage starts.
pub open spec fn fail_song(state: PipelineModel) -> (PipelineModel, RequestModel) {
    enter_lyric_stage(PipelineModel { song_failed: true, ..state })
}

/// The fetch of a text that should be a URL into a file: the pipeline waits
/// in `stage` for it. A text that is no URL cannot be fetched, which fails
/// the song stage like a fetch that failed.
pub open spec fn fetch(
    state: PipelineModel,
    stage: Stage,
    address: Seq<char>,
    file_name: Seq<char>,
) -> (PipelineModel, RequestModel) {
    match parsed_url(address) {
        Some(url) => (
            PipelineModel { stage, ..state },
            RequestModel::Fetch { url, file_name, options: state.options },
        ),
        None => fail_song(state),
    }
}

/// The request for the removal of the temporary cover file.
pub open spec fn remove_cover(state: PipelineModel) -> (PipelineModel, RequestModel) {
    (
        PipelineModel { stage: Stage::RemovingCover, ..state },
        RequestModel::RemoveCover { file_name: cover_file(state.track) },
    )
}

/// The pipeline of a track before anything is done: nothing has failed.
pub open spec fn fresh(
    track: TrackModel,
    songs: bool,
    lyrics: bool,
    level: Seq<char>,
    options: DownloadOptions,
) -> PipelineModel {
    PipelineModel {
        track,
        songs,
        lyrics,
        level,
        options,
        stage: Stage::ResolvingUrl,
        extension: Seq::empty(),
        song_failed: false,
        lyric_failed: false,
    }
}

/// The first request of a pipeline: the song stage starts by resolving the
/// URL if songs are wanted; if not, the lyric stage starts.
pub open spec fn begun(state: PipelineModel) -> (PipelineModel, RequestModel) {
    if state.songs {
        (
            PipelineModel { stage: Stage::ResolvingUrl, ..state },
            RequestModel::ResolveUrl { id: state.track.id, level: state.level },
        )
    } else {
        enter_lyric_stage(state)
    }
}

/// What a pipeline makes of a reply: its next state and its next request. A
/// reply that does not bring what the pipeline is waiting for counts as the
/// failure of what it asked for.
pub open spec fn next(state: PipelineModel, reply: ReplyModel) -> (PipelineModel, RequestModel) {
    match state.stage {
        Stage::ResolvingUrl => match reply {
            ReplyModel::Url { url, extension } => fetch(
                PipelineModel { extension, ..state },
                Stage::FetchingSong,
                url,
                song_file(state.track, extension),
            ),
            _ => fail_song(state),
        },
        Stage::FetchingSong => match reply {
            ReplyModel::Done => if carries_tags(state.extension) {
                fetch(state, Stage::FetchingCover, state.track.pic_url, cover_file(state.track))
            } else {
                enter_lyric_stage(state)
            },
            _ => fail_song(state),
        },
        Stage::FetchingCover => match reply {
            ReplyModel::Done => (
                PipelineModel { stage: Stage::ReadingCover, ..state },
                RequestModel::ReadCover { file_name: cover_file(state.track) },
            ),
            _ => fail_song(state),
        },
        Stage::ReadingCover => match reply {
            ReplyModel::Cover(cover) => (
                PipelineModel { stage: Stage::Tagging, ..state },
                RequestModel::WriteTags {
                    extension: state.extension,
                    file_name: song_file(state.track, state.extension),
                    title: state.track.name,
                    artists: state.track.singer,
                    album: state.track.album,
                    cover,
                    cover_mime: CoverMime::Jpeg,
                },
            ),
            _ => remove_cover(PipelineModel { song_failed: true, ..state }),
        },
        Stage::Tagging => remove_cover(state),
        Stage::RemovingCover => enter_lyric_stage(state),
        Stage::ResolvingLyric => match reply {
            ReplyModel::Lyric(lines) => (
                PipelineModel { stage: Stage::WritingLyric, ..state },
                RequestModel::WriteLyric {
                    file_name: lyric_file(state.track),
                    content: joined(lines, "\n"@),
                },
            ),
            _ => finish(PipelineModel { lyric_failed: true, ..state }),
        },
        Stage::WritingLyric => match reply {
            ReplyModel::Done => finish(state),
            _ => finish(PipelineModel { lyric_failed: true, ..state }),
        },
        Stage::Finished => finish(state),
    }
}

/// Copies a list of texts.
fn copy_texts(texts: &Vec<String>) -> (copy: Vec<String>)
    ensures
        copy.deep_view() == texts.deep_view(),
{
    let mut copy: Vec<String> = Vec::new();
    let mut i: usize = 0;
    while i < texts.len()
        invariant
            i <= texts.len(),
            copy@.len() == i,
            forall|k: int| 0 <= k < i ==> (#[trigger] copy@[k])@ == texts@[k]@,
        decreases texts.len() - i,
    {
        copy.push(texts[i].clone());
        i = i + 1;
    }
    copy
}

/// The pipeline of one track.
pub struct Pipeline {
    track: Track,
    songs: bool,
    lyrics: bool,
    level: String,
    options: DownloadOptions,
    stage: Stage,
    extension: String,
    song_failed: bool,
    lyric_failed: bool,
}

impl View for Pipeline {
    type V = PipelineModel;

    closed spec fn view(&self) -> PipelineModel {
        PipelineModel {
            track: self.track@,
            songs: self.songs,
            lyrics: self.lyrics,
            level: self.level@,
            options: self.options,
            stage: self.stage,
            extension: self.extension@,
            song_failed: self.song_failed,
            lyric_failed: self.lyric_failed,
        }
    }
}

impl Pipeline {
    /// Starts the pipeline of a track under the given settings, and hands
    /// out its first request.
    pub fn begin(track: Track, config: &Config) -> (started: (Pipeline, Request))
        ensures
            (started.0@, started.1@) == begun(
                fresh(
                    track@,
                    config.download_songs,
                    config.download_lyrics,
                    config.max_bitrate_level@,
                    DownloadOptions {
                        max_retries: config.retry,
                        retry_delay: config.retry_delay,
                        timeout: config.timeout,
                    },
                ),
            ),
    {
        let mut pipeline = Pipeline {
            track,
            songs: config.download_songs,
            lyrics: config.download_lyrics,
            level: config.max_bitrate_level.clone(),
            options: config.download_options(),
            stage: Stage::ResolvingUrl,
            extension: String::new(),
            song_failed: false,
            lyric_failed: false,
        };
        if pipeline.songs {
            let request = Request::ResolveUrl {
                id: pipeline.track.id,
                level: pipeline.level.clone(),
            };
            (pipeline, request)
        } else {
            let request = pipeline.enter_lyric_stage();
            (pipeline, request)
        }
    }

    /// Where the pipeline stands.
    pub fn stage(&self) -> (stage: Stage)
        ensures
            stage == self@.stage,
    {
        self.stage
    }

    /// Whether the pipeline has handed out its outcome.
    pub fn is_finished(&self) -> (finished: bool)
        ensures
            finished == (self@.stage == Stage::Finished),
    {
        self.stage == Stage::Finished
    }

    /// Takes the reply to the last request and hands out the next one.
    pub fn advance(&mut self, reply: Reply) -> (request: Request)
        ensures
            (final(self)@, request@) == next(old(self)@, reply@),
    {
        match self.stage {
            Stage::ResolvingUrl => match reply {
                Reply::Url { url, extension } => {
                    let file_name = self.stem().concat(".").concat(extension.as_str());
                    self.extension = extension;
                    self.fetch(Stage::FetchingSong, url.as_str(), file_name)
                },
                _ => self.fail_song(),
            },
            Stage::FetchingSong => match reply {
                Reply::Done => {
                    if tag_dialect(self.extension.as_str()).is_some() {
                        let file_name = self.cover_file();
                        let address = self.track.pic_url.clone();
                        self.fetch(Stage::FetchingCover, address.as_str(), file_name)
                    } else {
                        self.enter_lyric_stage()
                    }
                },
                _ => self.fail_song(),
            },
            Stage::FetchingCover => match reply {
                Reply::Done => {
                    self.stage = Stage::ReadingCover;
                    Request::ReadCover { file_name: self.cover_file() }
                },
                _ => self.fail_song(),
            },
            Stage::ReadingCover => match reply {
                Reply::Cover(cover) => {
                    self.stage = Stage::Tagging;
                    Request::WriteTags {
                        extension: self.extension.clone(),
                        file_name: self.stem().concat(".").concat(self.extension.as_str()),
                        title: self.track.name.clone(),
                        artists: copy_texts(&self.track.singer),
                        album: self.track.album.clone(),
                        cover,
                        cover_mime: CoverMime::Jpeg,
                    }
                },
                _ => {
                    self.song_failed = true;
                    self.remove_cover()
                },
            },
            Stage::Tagging => self.remove_cover(),
            Stage::RemovingCover => self.enter_lyric_stage(),
            Stage::ResolvingLyric => match reply {
                Reply::Lyric(lines) => {
                    self.stage = Stage::WritingLyric;
                    Request::WriteLyric {
                        file_name: self.stem().concat(".lrc"),
                        content: join(&lines, "\n"),
                    }
                },
                _ => {
                    self.lyric_failed = true;
                    self.finish()
                },
            },
            Stage::WritingLyric => match reply {
                Reply::Done => self.finish(),
                _ => {
                    self.lyric_failed = true;
                    self.finish()
                },
            },
            Stage::Finished => self.finish(),
        }
    }

    fn stem(&self) -> (stem: String)
        ensures
            stem@ == file_stem(self@.track),
    {
        let mut stem = sanitize_filename(self.track.name.as_str());
        match &self.track.translated_name {
            Some(text) => {
                let clean = sanitize_filename(text.as_str());
                stem.append("(");
                stem.append(clean.as_str());
                stem.append(")");
            },
            None => {},
        }
        let singers = sanitize_each(&self.track.singer);
        let joined_singers = join(&singers, ", ");
        stem.append(" - ");
        stem.append(joined_singers.as_str());
        stem
    }

    fn cover_file(&self) -> (file_name: String)
        ensures
            file_name@ == cover_file(self@.track),
    {
        self.stem().concat(".jpg")
    }

    fn outcome(&self) -> (outcome: PipelineOutcome)
        ensures
            outcome@ == outcome_of(self@),
    {
        PipelineOutcome {
            song_failure: if self.song_failed {
                Some(self.track.name.clone())
            } else {
                None
            },
            lyric_failure: if self.lyric_failed {
                Some(self.track.name.clone())
            } else {
                None
            },
        }
    }

    fn finish(&mut self) -> (request: Request)
        ensures
            (final(self)@, request@) == finish(old(self)@),
    {
        let outcome = self.outcome();
        self.stage = Stage::Finished;
        Request::Finish(outcome)
    }

    fn enter_lyric_stage(&mut self) -> (request: Request)
        ensures
            (final(self)@, request@) == enter_lyric_stage(old(self)@),
    {
        if self.lyrics {
            self.stage = Stage::ResolvingLyric;
            Request::ResolveLyric { id: self.track.id }
        } else {
            self.finish()
        }
    }

    fn fail_song(&mut self) -> (request: Request)
        ensures
            (final(self)@, request@) == fail_song(old(self)@),
    {
        self.song_failed = true;
        self.enter_lyric_stage()
    }

    fn fetch(&mut self, stage: Stage, address: &str, file_name: String) -> (request: Request)
        ensures
            (final(self)@, request@) == fetch(old(self)@, stage, address@, file_name@),
    {
        match parse_url(address) {
            Some(url) => {
                self.stage = stage;
                Request::Fetch { url, file_name, options: self.options }
            },
            None => self.fail_song(),
        }
    }

    fn remove_cover(&mut self) -> (request: Request)
        ensures
            (final(self)@, request@) == remove_cover(old(self)@),
    {
        let file_name = self.cover_file();
        self.stage = Stage::RemovingCover;
        Request::RemoveCover { file_name }
    }
}

/// The state of a pipeline after it has taken a sequence of replies, one
/// after the other.
pub open spec fn after(state: PipelineModel, replies: Seq<ReplyModel>) -> PipelineModel
    decreases replies.len(),
{
    if replies.len() == 0 {
        state
    } else {
        next(after(state, replies.drop_last()), replies.last()).0
    }
}

/// How many replies a pipeline can still take, at most, before it is over.
pub open spec fn steps_left(stage: Stage) -> nat {
    match stage {
        Stage::ResolvingUrl => 8,
        Stage::FetchingSong => 7,
        Stage::FetchingCover => 6,
        Stage::ReadingCover => 5,
        Stage::Tagging => 4,
        Stage::RemovingCover => 3,
        Stage::ResolvingLyric => 2,
        Stage::WritingLyric => 1,
        Stage::Finished => 0,
    }
}

/// Whether the song stage is behind a pipeline.
pub open spec fn past_song_stage(stage: Stage) -> bool {
    stage == Stage::ResolvingLyric || stage == Stage::WritingLyric || stage == Stage::Finished
}

/// What holds of every state that a pipeline reaches: a failed song stage is
/// not carried on, but for the removal of the cover file that could not be
/// read back.
pub open spec fn sound(state: PipelineModel) -> bool {
    state.song_failed ==> past_song_stage(state.stage) || state.stage == Stage::RemovingCover
}

/// Every state that a pipeline reaches from its start is sound, and the
/// pipeline keeps its track and its settings.
pub proof fn lemma_reached_states_are_sound(start: PipelineModel, replies: Seq<ReplyModel>)
    requires
        !start.song_failed,
        !start.lyric_failed,
    ensures
        sound(after(begun(start).0, replies)),
        after(begun(start).0, replies).track == start.track,
        after(begun(start).0, replies).songs == start.songs,
        after(begun(start).0, replies).lyrics == start.lyrics,
    decreases replies.len(),
{
    if replies.len() > 0 {
        lemma_reached_states_are_sound(start, replies.drop_last());
    }
}

/// A pipeline is over after eight replies at the latest, whatever they are,
/// and stays over.
pub proof fn lemma_pipeline_finishes(state: PipelineModel, replies: Seq<ReplyModel>)
    ensures
        steps_left(after(state, replies).stage) + replies.len() <= steps_left(state.stage)
            || after(state, replies).stage == Stage::Finished,
        replies.len() >= 8 ==> after(state, replies).stage == Stage::Finished,
    decreases replies.len(),
{
    if replies.len() > 0 {
        lemma_pipeline_finishes(state, replies.drop_last());
    }
}

/// A failure, once recorded, stays recorded, and is reported under the name
/// of the track.
pub proof fn lemma_failures_stay(state: PipelineModel, replies: Seq<ReplyModel>)
    ensures
        after(state, replies).track == state.track,
        state.song_failed ==> outcome_of(after(state, replies)).song_failure == Some(
            state.track.name,
        ),
        state.lyric_failed ==> outcome_of(after(state, replies)).lyric_failure == Some(
            state.track.name,
        ),
    decreases replies.len(),
{
    if replies.len() > 0 {
        lemma_failures_stay(state, replies.drop_last());
    }
}

/// A track whose URL is not resolved fails its song stage and nothing else:
/// the failure is recorded under the name of the track and stays in the
/// outcome, and the lyric stage starts at once if lyrics are wanted.
pub proof fn lemma_unresolved_url_fails_song_only(
    state: PipelineModel,
    reply: ReplyModel,
    replies: Seq<ReplyModel>,
)
    requires
        state.stage == Stage::ResolvingUrl,
        !(reply is Url),
    ensures
        next(state, reply).0.song_failed,
        next(state, reply).0.lyric_failed == state.lyric_failed,
        state.lyrics ==> next(state, reply).0.stage == Stage::ResolvingLyric && next(
            state,
            reply,
        ).1 == (RequestModel::ResolveLyric { id: state.track.id }),
        !state.lyrics ==> next(state, reply).1 == RequestModel::Finish(
            OutcomeModel {
                song_failure: Some(state.track.name),
                lyric_failure: outcome_of(state).lyric_failure,
            },
        ),
        outcome_of(after(next(state, reply).0, replies)).song_failure == Some(state.track.name),
{
    lemma_failures_stay(next(state, reply).0, replies);
}

/// The song stage does not fail after the cover has been read back: what
/// comes of writing the tags and of removing the cover file leaves the track
/// out of the song failures, whatever follows.
pub proof fn lemma_tagging_never_fails_song(
    state: PipelineModel,
    reply: ReplyModel,
    replies: Seq<ReplyModel>,
)
    requires
        sound(state),
        state.stage == Stage::Tagging,
    ensures
        !next(state, reply).0.song_failed,
        next(state, reply).1 == (RequestModel::RemoveCover { file_name: cover_file(state.track) }),
        outcome_of(after(next(state, reply).0, replies)).song_failure is None,
{
    lemma_song_stage_done(next(state, reply).0, replies);
}

proof fn lemma_song_stage_done(state: PipelineModel, replies: Seq<ReplyModel>)
    requires
        !state.song_failed,
        past_song_stage(state.stage) || state.stage == Stage::RemovingCover,
    ensures
        !after(state, replies).song_failed,
        past_song_stage(after(state, replies).stage) || after(state, replies).stage
            == Stage::RemovingCover,
    decreases replies.len(),
{
    if replies.len() > 0 {
        lemma_song_stage_done(state, replies.drop_last());
    }
}

/// The stages fail apart: the song stage never records a lyric failure, and
/// the lyric stage never records a song failure.
pub proof fn lemma_stages_fail_apart(state: PipelineModel, reply: ReplyModel)
    ensures
        !past_song_stage(state.stage) ==> next(state, reply).0.lyric_failed
            == state.lyric_failed,
        past_song_stage(state.stage) ==> next(state, reply).0.song_failed == state.song_failed,
{
}

} // verus!
