//! The course of one request, as a state machine.
//!
//! The machine does no work outside the process. Each step takes what the last piece of such
//! work gave ([`Event`]) and says what is to be done next ([`Step`]): effects on the local
//! store to carry out in order, and then either a question whose answer is the next event, or
//! the response. The caller carries out what a step says and nothing else.

use crate::config::AppConfig;
use crate::dispatch::{Outcome, Payload, PayloadView, Processed, ProcessedView};
use crate::fetch::{
    fetched, has_media_type, is_success, status_is_success, FetchError, Fetched, FetchedView,
};
use crate::img::{
    copy_bytes, mp4_plan_of, mp4_to_gif, ExternalPlan, TrackInfo, TransformError,
};
use crate::object::{dirs_for, is_invalid_type, removal_list, texts_view, Object, ObjectView};
use crate::retry::{
    looked_up, normalised, raised, record_address, KvPost, KvPostView, KvReply,
};
use crate::routes::ErrorResponse;
use crate::store::{local_choice, local_type, opened, LocalFile, LocalFileView, LocalSource};
use crate::text::{contains, str_contains};
use vstd::prelude::*;
use vstd::string::StringExecFns;

verus! {

/// The response to a request.
#[derive(Debug)]
pub enum Reply {
    /// Status 200: the payload, its media type, and the cache lifetime in seconds.
    Served { content_type: String, max_age: u32, body: Vec<u8> },
    /// A refusal, sent as JSON with the status it names.
    Refused(ErrorResponse),
    /// Status 500 without a body: the upstream could not be reached.
    Unreachable,
    /// Status 500: a piece of work failed; the text says which.
    Internal(String),
}

/// What contracts say of a [`Reply`].
pub enum ReplyView {
    Served { content_type: Seq<char>, max_age: u32, body: Seq<u8> },
    Refused { status: u32, error: Seq<char> },
    Unreachable,
    Internal(Seq<char>),
}

impl View for Reply {
    type V = ReplyView;

    open spec fn view(&self) -> ReplyView {
        match self {
            Reply::Served { content_type, max_age, body } => ReplyView::Served {
                content_type: content_type@,
                max_age: *max_age,
                body: body@,
            },
            Reply::Refused(e) => ReplyView::Refused { status: e.status, error: e.error@ },
            Reply::Unreachable => ReplyView::Unreachable,
            Reply::Internal(m) => ReplyView::Internal(m@),
        }
    }
}

impl ReplyView {
    /// The HTTP status that the response goes out with.
    pub open spec fn status(self) -> u32 {
        match self {
            ReplyView::Served { .. } => 200,
            ReplyView::Refused { status, .. } => status,
            ReplyView::Unreachable => 500,
            ReplyView::Internal(_) => 500,
        }
    }
}

impl Reply {
    /// The HTTP status that the response goes out with.
    pub fn status(&self) -> (r: u32)
        ensures
            r == self@.status(),
    {
        match self {
            Reply::Served { .. } => 200,
            Reply::Refused(e) => e.status,
            Reply::Unreachable => 500,
            Reply::Internal(_) => 500,
        }
    }
}

/// A change to the local store.
#[derive(Debug)]
pub enum Effect {
    /// Create or overwrite the file with these bytes.
    Write { path: String, data: Vec<u8> },
    /// Delete these files; a file that is missing is no failure.
    Remove(Vec<String>),
}

/// What contracts say of an [`Effect`].
pub enum EffectView {
    Write { path: Seq<char>, data: Seq<u8> },
    Remove(Seq<Seq<char>>),
}

impl View for Effect {
    type V = EffectView;

    open spec fn view(&self) -> EffectView {
        match self {
            Effect::Write { path, data } => EffectView::Write { path: path@, data: data@ },
            Effect::Remove(paths) => EffectView::Remove(texts_view(*paths)),
        }
    }
}

/// A piece of work outside the machine whose result the machine waits for.
#[derive(Debug)]
pub enum Question {
    /// Create the directories, then say which of the two files exist. No rendition path is
    /// given where no rendition is asked for.
    Open { dirs: Vec<String>, base: String, modified: Option<String> },
    /// Read the file and guess its media type.
    ReadLocal(String),
    /// Look the object up in the retry store at this address.
    KvGet(String),
    /// Post the record to the retry store.
    KvPost(KvPost),
    /// GET the URL.
    Download(String),
    /// Run the transform engine on the object.
    Transform,
    /// Have the GIF tool resample `input` to this size and write it to `output`.
    Gifsicle { input: String, output: String, width: u32, height: u32 },
    /// Have the video converter turn `input` into a GIF of this size at `output`.
    Mp4ToGif { input: String, output: String, width: u32, height: u32 },
    /// Read the tracks of the video container that is stored in the file.
    ProbeVideo(String),
    /// Guess the media type of the file.
    GuessType(String),
}

/// What contracts say of a [`Question`].
pub enum QuestionView {
    Open { dirs: Seq<Seq<char>>, base: Seq<char>, modified: Option<Seq<char>> },
    ReadLocal(Seq<char>),
    KvGet(Seq<char>),
    KvPost(KvPostView),
    Download(Seq<char>),
    Transform,
    Gifsicle { input: Seq<char>, output: Seq<char>, width: u32, height: u32 },
    Mp4ToGif { input: Seq<char>, output: Seq<char>, width: u32, height: u32 },
    ProbeVideo(Seq<char>),
    GuessType(Seq<char>),
}

impl View for Question {
    type V = QuestionView;

    open spec fn view(&self) -> QuestionView {
        match self {
            Question::Open { dirs, base, modified } => QuestionView::Open {
                dirs: texts_view(*dirs),
                base: base@,
                modified: match modified {
                    Some(m) => Some(m@),
                    None => None,
                },
            },
            Question::ReadLocal(p) => QuestionView::ReadLocal(p@),
            Question::KvGet(a) => QuestionView::KvGet(a@),
            Question::KvPost(p) => QuestionView::KvPost(p@),
            Question::Download(u) => QuestionView::Download(u@),
            Question::Transform => QuestionView::Transform,
            Question::Gifsicle { input, output, width, height } => QuestionView::Gifsicle {
                input: input@,
                output: output@,
                width: *width,
                height: *height,
            },
            Question::Mp4ToGif { input, output, width, height } => QuestionView::Mp4ToGif {
                input: input@,
                output: output@,
                width: *width,
                height: *height,
            },
            Question::ProbeVideo(p) => QuestionView::ProbeVideo(p@),
            Question::GuessType(p) => QuestionView::GuessType(p@),
        }
    }
}

/// What follows the effects of a step.
#[derive(Debug)]
pub enum Next {
    Ask(Question),
    Respond(Reply),
}

/// What contracts say of [`Next`].
pub enum NextView {
    Ask(QuestionView),
    Respond(ReplyView),
}

impl View for Next {
    type V = NextView;

    open spec fn view(&self) -> NextView {
        match self {
            Next::Ask(q) => NextView::Ask(q@),
            Next::Respond(r) => NextView::Respond(r@),
        }
    }
}

/// What the machine asks for: the effects, in order, and what follows them.
#[derive(Debug)]
pub struct Step {
    pub effects: Vec<Effect>,
    pub next: Next,
}

/// What contracts say of a [`Step`].
pub struct StepView {
    pub effects: Seq<EffectView>,
    pub next: NextView,
}

/// The effects of a list as contracts read them.
pub open spec fn effects_view(effects: Vec<Effect>) -> Seq<EffectView> {
    effects@.map_values(|e: Effect| e@)
}

impl View for Step {
    type V = StepView;

    open spec fn view(&self) -> StepView {
        StepView { effects: effects_view(self.effects), next: self.next@ }
    }
}

/// The result of a piece of work that the machine asked for.
#[derive(Debug)]
pub enum Event {
    /// The directories exist; whether the payload and the rendition are stored.
    Opened { base: bool, modified: bool },
    /// The file that was read; `None` where reading failed.
    LocalRead(Option<LocalFile>),
    /// The retry store's answer to a lookup.
    Kv(KvReply),
    /// The count that the retry store holds after a post; `None` where the post failed.
    Stored(Option<u32>),
    /// What came of the GET.
    Fetched(Fetched),
    /// What the transform engine answered.
    Transformed(Result<Processed, TransformError>),
    /// The rendition that the tool wrote; `None` where the tool failed.
    Tool(Option<Vec<u8>>),
    /// The tracks of the video container, in the order they were read; `None` where the
    /// container could not be read.
    Tracks(Option<Vec<TrackInfo>>),
    /// The guessed media type; `None` where guessing failed.
    Guessed(Option<String>),
}

/// What contracts say of an [`Event`].
pub enum EventView {
    Opened { base: bool, modified: bool },
    LocalRead(Option<LocalFileView>),
    Kv(KvReply),
    Stored(Option<u32>),
    Fetched(FetchedView),
    Transformed(Outcome),
    Tool(Option<Seq<u8>>),
    Tracks(Option<Seq<TrackInfo>>),
    Guessed(Option<Seq<char>>),
}

impl View for Event {
    type V = EventView;

    open spec fn view(&self) -> EventView {
        match self {
            Event::Opened { base, modified } => EventView::Opened {
                base: *base,
                modified: *modified,
            },
            Event::LocalRead(f) => EventView::LocalRead(
                match f {
                    Some(f) => Some(f@),
                    None => None,
                },
            ),
            Event::Kv(r) => EventView::Kv(*r),
            Event::Stored(n) => EventView::Stored(*n),
            Event::Fetched(f) => EventView::Fetched(f@),
            Event::Transformed(r) => EventView::Transformed(
                match r {
                    Ok(p) => Ok(p@),
                    Err(e) => Err(e@),
                },
            ),
            Event::Tool(o) => EventView::Tool(
                match o {
                    Some(b) => Some(b@),
                    None => None,
                },
            ),
            Event::Tracks(t) => EventView::Tracks(
                match t {
                    Some(t) => Some(t@),
                    None => None,
                },
            ),
            Event::Guessed(t) => EventView::Guessed(
                match t {
                    Some(t) => Some(t@),
                    None => None,
                },
            ),
        }
    }
}

/// What the machine waits for.
#[derive(Debug, Clone, Copy, PartialEq, Eq, Structural)]
pub enum Phase {
    /// Whether the object is stored.
    Open,
    /// The stored file.
    Local,
    /// The retry store's answer to the lookup.
    Retries,
    /// The retry store's answer to the post that notes a first failure.
    Seed,
    /// The upstream response.
    Download,
    /// The retry store's answer to the post that notes a failed fetch.
    Count,
    /// The transform engine's answer.
    Engine,
    /// The output of the GIF tool or the video converter.
    Tool,
    /// The tracks of the video container.
    Probe,
    /// The guessed media type.
    Guess,
    /// The upstream response to the second fetch that follows a failed transform.
    Redownload,
    /// Nothing: the response has been given.
    Done,
}

/// The state of one request.
#[derive(Debug)]
pub struct Pipeline {
    pub obj: Object,
    pub phase: Phase,
    /// The request asks for a fresh download.
    pub force: bool,
    /// The request's choice of engine.
    pub engine: u32,
    /// The request's URL carries a query string of its own, which rules out that what is
    /// stored still answers it.
    pub cache_busting: bool,
    /// The rendition was stored when the request came in.
    pub modified_exists: bool,
}

/// What contracts say of a [`Pipeline`].
pub struct PipelineView {
    pub obj: ObjectView,
    pub phase: Phase,
    pub force: bool,
    pub engine: u32,
    pub cache_busting: bool,
    pub modified_exists: bool,
}

impl View for Pipeline {
    type V = PipelineView;

    open spec fn view(&self) -> PipelineView {
        PipelineView {
            obj: self.obj@,
            phase: self.phase,
            force: self.force,
            engine: self.engine,
            cache_busting: self.cache_busting,
            modified_exists: self.modified_exists,
        }
    }
}

/// The machine stops with `reply`, after `effects`.
pub open spec fn finish(s: PipelineView, effects: Seq<EffectView>, reply: ReplyView) -> (
    PipelineView,
    StepView,
) {
    (PipelineView { phase: Phase::Done, ..s }, StepView { effects, next: NextView::Respond(reply) })
}

/// The machine asks `question` after `effects`, and waits in `phase`.
pub open spec fn ask(s: PipelineView, phase: Phase, effects: Seq<EffectView>, question: QuestionView)
    -> (PipelineView, StepView) {
    (PipelineView { phase, ..s }, StepView { effects, next: NextView::Ask(question) })
}

/// The text of the refusal that follows a fetch of something that is no asset.
pub open spec fn invalid_message(origin: Seq<char>, name: Seq<char>) -> Seq<char> {
    "Object downloaded from "@ + origin + "/"@ + name + " is not valid. Trying to proxy to origin"@
}

/// The text of the refusal at the bound of failed fetches.
pub open spec fn max_retries_message(url: Seq<char>) -> Seq<char> {
    "Max retries reached for url: "@ + url
}

/// A failed transform whose message has one of these marks is taken for the sign of a
/// broken payload, which a second fetch may mend.
pub open spec fn asks_for_redownload(message: Seq<char>) -> bool {
    contains(message, "buffer"@) || contains(message, "unexpected EOF"@)
}

/// The response with `payload`, after the payload has been written to the rendition path
/// where a rendition is asked for and the payload is not the bytes at hand.
pub open spec fn served(s: PipelineView, effects: Seq<EffectView>, payload: PayloadView) -> (
    PipelineView,
    StepView,
) {
    let all = if payload.data != s.obj.data && s.obj.scale != 0 {
        effects.push(EffectView::Write { path: s.obj.paths.modified, data: payload.data })
    } else {
        effects
    };
    finish(
        s,
        all,
        ReplyView::Served {
            content_type: payload.content_type,
            max_age: s.obj.origin.max_age,
            body: payload.data,
        },
    )
}

/// The response with the bytes at hand.
pub open spec fn served_as_is(s: PipelineView, effects: Seq<EffectView>) -> (
    PipelineView,
    StepView,
) {
    served(s, effects, PayloadView { content_type: s.obj.content_type, data: s.obj.data })
}

/// What follows once the bytes at hand are known to be an asset: they are served as they
/// are where no rendition is asked for or the rendition was stored already, else the
/// transform engine is asked.
pub open spec fn transform(s: PipelineView, effects: Seq<EffectView>) -> (PipelineView, StepView) {
    if s.obj.scale == 0 || s.modified_exists {
        served_as_is(s, effects)
    } else {
        ask(s, Phase::Engine, effects, QuestionView::Transform)
    }
}

/// What follows the fetch, or the local lookup where no fetch is due.
///
/// Without any status the upstream was not reached. A status outside of 200 to 299, and a
/// plain-text or HTML body, stand for a failed fetch: what is stored of the object is
/// removed, the failure is counted, and the request is refused once the count is posted.
pub open spec fn validate(cfg: &AppConfig, s: PipelineView, effects: Seq<EffectView>) -> (
    PipelineView,
    StepView,
) {
    match s.obj.status {
        None => finish(s, effects, ReplyView::Unreachable),
        Some(status) => if is_success(status) && !is_invalid_type(s.obj.content_type) {
            transform(s, effects)
        } else {
            let removal = effects.push(EffectView::Remove(removal_list(s.obj.paths)));
            let (obj, post) = raised(cfg.kvstore_uri@, s.obj);
            let counted = PipelineView { obj, ..s };
            match post {
                Ok(p) => ask(counted, Phase::Count, removal, QuestionView::KvPost(p)),
                Err(e) => finish(counted, removal, ReplyView::Internal(e)),
            }
        },
    }
}

/// What follows once the count of failed fetches is known: the fetch where the count is
/// below the bound, the refusal where it is not.
pub open spec fn gate(cfg: &AppConfig, s: PipelineView) -> (PipelineView, StepView) {
    match normalised(s.obj.url) {
        Err(e) => finish(s, Seq::empty(), ReplyView::Internal(e)),
        Ok(url) => if s.obj.retries < cfg.max_retries {
            ask(s, Phase::Download, Seq::empty(), QuestionView::Download(url))
        } else {
            finish(
                s,
                Seq::empty(),
                ReplyView::Refused { status: 400, error: max_retries_message(url) },
            )
        },
    }
}

/// Whether a fetch is due after the local lookup: it is where the request forces one,
/// where the URL rules out what is stored, and where nothing was found.
pub open spec fn fetch_is_due(s: PipelineView) -> bool {
    s.force || s.cache_busting || s.obj.data.len() == 0
}

/// What follows the local lookup: the retry store is asked where a fetch is due.
pub open spec fn decide(cfg: &AppConfig, s: PipelineView) -> (PipelineView, StepView) {
    if fetch_is_due(s) {
        match normalised(record_address(cfg.kvstore_uri@, s.obj.url)) {
            Ok(address) => ask(s, Phase::Retries, Seq::empty(), QuestionView::KvGet(address)),
            Err(e) => finish(s, Seq::empty(), ReplyView::Internal(e)),
        }
    } else {
        validate(cfg, s, Seq::empty())
    }
}

/// The write of the bytes at hand to the payload path, where `persist` asks for it.
pub open spec fn payload_write(obj: ObjectView, persist: bool) -> Seq<EffectView> {
    if persist {
        seq![EffectView::Write { path: obj.paths.base, data: obj.data }]
    } else {
        Seq::empty()
    }
}

/// The text of a failed fetch.
pub open spec fn fetch_error_message(e: FetchError) -> Seq<char> {
    match e {
        FetchError::Body => "the upstream body could not be read within the size limit"@,
        FetchError::ContentType => "the upstream response names no media type"@,
    }
}

/// The text that answers an event which the machine did not wait for.
pub open spec fn unexpected_message() -> Seq<char> {
    "unexpected event"@
}

/// The text that answers a failed read from the local store.
pub open spec fn read_failed_message() -> Seq<char> {
    "the stored file could not be read"@
}

/// The text that answers a failed post to the retry store.
pub open spec fn post_failed_message() -> Seq<char> {
    "the retry store did not take the count"@
}

/// The first question of a request: whether the object is stored.
pub open spec fn opening(root: Seq<char>, obj: ObjectView) -> QuestionView {
    QuestionView::Open {
        dirs: dirs_for(root, obj.origin.name, obj.scale),
        base: obj.paths.base,
        modified: if obj.scale == 0 {
            None
        } else {
            Some(obj.paths.modified)
        },
    }
}

/// The machine at the start of a request for `obj`.
pub open spec fn started(
    root: Seq<char>,
    obj: ObjectView,
    force: bool,
    engine: u32,
    cache_busting: bool,
) -> (PipelineView, StepView) {
    (
        PipelineView {
            obj,
            phase: Phase::Open,
            force,
            engine,
            cache_busting,
            modified_exists: false,
        },
        StepView { effects: Seq::empty(), next: NextView::Ask(opening(root, obj)) },
    )
}

/// The machine's step: the state after `event`, and what is to be done next.
///
/// An event that the machine does not wait for in its phase ends the request with status
/// 500.
pub open spec fn step_of(cfg: &AppConfig, s: PipelineView, event: EventView) -> (
    PipelineView,
    StepView,
) {
    match (s.phase, event) {
        (Phase::Open, EventView::Opened { base, modified }) => {
            let stored = modified && s.obj.scale != 0;
            let noted = PipelineView { modified_exists: stored, ..s };
            match local_choice(base, stored, s.obj.scale) {
                LocalSource::Base => ask(
                    noted,
                    Phase::Local,
                    Seq::empty(),
                    QuestionView::ReadLocal(s.obj.paths.base),
                ),
                LocalSource::Modified => ask(
                    noted,
                    Phase::Local,
                    Seq::empty(),
                    QuestionView::ReadLocal(s.obj.paths.modified),
                ),
                LocalSource::Nothing => decide(
                    cfg,
                    PipelineView { obj: opened(s.obj, None), ..noted },
                ),
            }
        },
        (Phase::Local, EventView::LocalRead(Some(file))) => decide(
            cfg,
            PipelineView { obj: opened(s.obj, Some(file)), ..s },
        ),
        (Phase::Local, EventView::LocalRead(None)) => finish(
            s,
            Seq::empty(),
            ReplyView::Internal(read_failed_message()),
        ),
        (Phase::Retries, EventView::Kv(reply)) => {
            let (obj, post) = looked_up(cfg.kvstore_uri@, s.obj, reply);
            let noted = PipelineView { obj, ..s };
            match post {
                Err(e) => finish(noted, Seq::empty(), ReplyView::Internal(e)),
                Ok(Some(p)) => ask(noted, Phase::Seed, Seq::empty(), QuestionView::KvPost(p)),
                Ok(None) => gate(cfg, noted),
            }
        },
        (Phase::Seed, EventView::Stored(Some(n))) => gate(
            cfg,
            PipelineView { obj: ObjectView { retries: n, ..s.obj }, ..s },
        ),
        (Phase::Seed, EventView::Stored(None)) => finish(
            s,
            Seq::empty(),
            ReplyView::Internal(post_failed_message()),
        ),
        (Phase::Download, EventView::Fetched(f)) => {
            let (obj, result) = fetched(s.obj, f);
            let noted = PipelineView { obj, ..s };
            match result {
                Err(e) => finish(noted, Seq::empty(), ReplyView::Internal(fetch_error_message(e))),
                Ok(persist) => validate(cfg, noted, payload_write(obj, persist)),
            }
        },
        (Phase::Count, EventView::Stored(Some(n))) => finish(
            PipelineView { obj: ObjectView { retries: n, ..s.obj }, ..s },
            Seq::empty(),
            ReplyView::Refused {
                status: 500,
                error: invalid_message(s.obj.origin.name, s.obj.name),
            },
        ),
        (Phase::Count, EventView::Stored(None)) => finish(
            s,
            Seq::empty(),
            ReplyView::Internal(post_failed_message()),
        ),
        (Phase::Engine, EventView::Transformed(outcome)) => match outcome {
            Ok(ProcessedView::Done(payload)) => served(s, Seq::empty(), payload),
            Ok(ProcessedView::Gifsicle { width, height }) => ask(
                s,
                Phase::Tool,
                Seq::empty(),
                QuestionView::Gifsicle {
                    input: s.obj.paths.base,
                    output: s.obj.paths.modified,
                    width,
                    height,
                },
            ),
            Ok(ProcessedView::ProbeVideo) => ask(
                s,
                Phase::Probe,
                Seq::empty(),
                QuestionView::ProbeVideo(s.obj.paths.base),
            ),
            Ok(ProcessedView::Guess) => ask(
                s,
                Phase::Guess,
                Seq::empty(),
                QuestionView::GuessType(s.obj.paths.base),
            ),
            Err(e) => if asks_for_redownload(e.message()) && s.obj.retries < cfg.max_retries {
                match normalised(s.obj.url) {
                    Ok(url) => ask(
                        s,
                        Phase::Redownload,
                        Seq::empty(),
                        QuestionView::Download(url),
                    ),
                    Err(_) => served_as_is(s, Seq::empty()),
                }
            } else {
                served_as_is(s, Seq::empty())
            },
        },
        (Phase::Tool, EventView::Tool(output)) => served(
            s,
            Seq::empty(),
            PayloadView {
                content_type: "image/gif"@,
                data: match output {
                    Some(bytes) => bytes,
                    None => s.obj.data,
                },
            },
        ),
        (Phase::Probe, EventView::Tracks(tracks)) => match mp4_plan_of(tracks, s.obj.scale) {
            ExternalPlan::Run(width, height) => ask(
                s,
                Phase::Tool,
                Seq::empty(),
                QuestionView::Mp4ToGif {
                    input: s.obj.paths.base,
                    output: s.obj.paths.modified,
                    width,
                    height,
                },
            ),
            ExternalPlan::Keep => served(
                s,
                Seq::empty(),
                PayloadView { content_type: "image/gif"@, data: s.obj.data },
            ),
        },
        (Phase::Guess, EventView::Guessed(guessed)) => served(
            s,
            Seq::empty(),
            PayloadView { content_type: local_type(guessed), data: s.obj.data },
        ),
        (Phase::Redownload, EventView::Fetched(f)) => {
            let (obj, result) = fetched(s.obj, f);
            match result {
                Ok(true) => served_as_is(PipelineView { obj, ..s }, payload_write(obj, true)),
                _ => served_as_is(s, Seq::empty()),
            }
        },
        _ => finish(s, Seq::empty(), ReplyView::Internal(unexpected_message())),
    }
}

/// Stops the machine with `reply`: see [`finish`].
fn finish_with(s: Pipeline, effects: Vec<Effect>, reply: Reply) -> (r: (Pipeline, Step))
    ensures
        (r.0@, r.1@) == finish(s@, effects_view(effects), reply@),
{
    let mut s = s;
    s.phase = Phase::Done;
    (s, Step { effects, next: Next::Respond(reply) })
}

/// Asks `question` and waits in `phase`: see [`ask`].
fn ask_with(s: Pipeline, phase: Phase, effects: Vec<Effect>, question: Question) -> (r: (
    Pipeline,
    Step,
))
    ensures
        (r.0@, r.1@) == ask(s@, phase, effects_view(effects), question@),
{
    let mut s = s;
    s.phase = phase;
    (s, Step { effects, next: Next::Ask(question) })
}

/// Stops the machine with status 500 and this text.
fn fail_with(s: Pipeline, message: String) -> (r: (Pipeline, Step))
    ensures
        (r.0@, r.1@) == finish(s@, Seq::empty(), ReplyView::Internal(message@)),
{
    let effects: Vec<Effect> = Vec::new();
    assert(effects_view(effects) =~= Seq::empty());
    finish_with(s, effects, Reply::Internal(message))
}

/// No effects.
fn no_effects() -> (r: Vec<Effect>)
    ensures
        effects_view(r) == Seq::<EffectView>::empty(),
{
    let effects: Vec<Effect> = Vec::new();
    assert(effects_view(effects) =~= Seq::empty());
    effects
}

/// A copy of `data`.
fn copy_of(data: &Vec<u8>) -> (r: Vec<u8>)
    ensures
        r@ == data@,
{
    copy_bytes(data.as_slice())
}

/// Responds with `payload`: see [`served`].
fn serve(s: Pipeline, effects: Vec<Effect>, payload: Payload) -> (r: (Pipeline, Step))
    ensures
        (r.0@, r.1@) == served(s@, effects_view(effects), payload@),
{
    let mut effects = effects;
    if s.obj.save(&payload.data) {
        let ghost before = effects_view(effects);
        let write = Effect::Write { path: s.obj.paths.modified.clone(), data: copy_of(&payload.data) };
        effects.push(write);
        assert(effects_view(effects) =~= before.push(write@));
    }
    let reply = Reply::Served {
        content_type: payload.content_type,
        max_age: s.obj.origin.cache.max_age,
        body: payload.data,
    };
    finish_with(s, effects, reply)
}

/// Responds with the bytes at hand: see [`served_as_is`].
fn serve_as_is(s: Pipeline, effects: Vec<Effect>) -> (r: (Pipeline, Step))
    ensures
        (r.0@, r.1@) == served_as_is(s@, effects_view(effects)),
{
    let payload = Payload { content_type: s.obj.content_type.clone(), data: copy_of(&s.obj.data) };
    serve(s, effects, payload)
}

/// Serves the bytes at hand or asks the engine: see [`transform`].
fn to_transform(s: Pipeline, effects: Vec<Effect>) -> (r: (Pipeline, Step))
    ensures
        (r.0@, r.1@) == transform(s@, effects_view(effects)),
{
    if s.obj.scale == 0 || s.modified_exists {
        serve_as_is(s, effects)
    } else {
        ask_with(s, Phase::Engine, effects, Question::Transform)
    }
}

/// Judges what was fetched or found: see [`validate`].
fn to_validate(cfg: &AppConfig, s: Pipeline, effects: Vec<Effect>) -> (r: (Pipeline, Step))
    ensures
        (r.0@, r.1@) == validate(cfg, s@, effects_view(effects)),
{
    let status = match s.obj.status {
        None => {
            return finish_with(s, effects, Reply::Unreachable);
        },
        Some(status) => status,
    };
    if status_is_success(status) && s.obj.is_valid() {
        return to_transform(s, effects);
    }
    let mut s = s;
    let mut effects = effects;
    let ghost before = effects_view(effects);
    let removal = Effect::Remove(s.obj.remove_paths());
    effects.push(removal);
    assert(effects_view(effects) =~= before.push(removal@));
    match s.obj.update_retries(cfg) {
        Ok(post) => ask_with(s, Phase::Count, effects, Question::KvPost(post)),
        Err(e) => finish_with(s, effects, Reply::Internal(e)),
    }
}

/// Fetches or refuses, by the count of failed fetches: see [`gate`].
fn to_gate(cfg: &AppConfig, s: Pipeline) -> (r: (Pipeline, Step))
    ensures
        (r.0@, r.1@) == gate(cfg, s@),
{
    let url = match s.obj.get_url() {
        Ok(url) => url,
        Err(e) => {
            return fail_with(s, e);
        },
    };
    if s.obj.should_retry(cfg.max_retries) {
        ask_with(s, Phase::Download, no_effects(), Question::Download(url))
    } else {
        let mut error = "Max retries reached for url: ".to_owned();
        error.append(url.as_str());
        finish_with(s, no_effects(), Reply::Refused(ErrorResponse { status: 400, error }))
    }
}

/// Asks the retry store or goes on with what was found: see [`decide`].
fn to_decide(cfg: &AppConfig, s: Pipeline) -> (r: (Pipeline, Step))
    ensures
        (r.0@, r.1@) == decide(cfg, s@),
{
    if s.force || s.cache_busting || s.obj.data.len() == 0 {
        match s.obj.retry_endpoint(cfg) {
            Ok(address) => ask_with(s, Phase::Retries, no_effects(), Question::KvGet(address)),
            Err(e) => fail_with(s, e),
        }
    } else {
        to_validate(cfg, s, no_effects())
    }
}

/// The write of the bytes at hand to the payload path: see [`payload_write`].
fn write_payload(obj: &Object, persist: bool) -> (r: Vec<Effect>)
    ensures
        effects_view(r) == payload_write(obj@, persist),
{
    let mut effects: Vec<Effect> = Vec::new();
    if persist {
        let write = Effect::Write { path: obj.paths.base.clone(), data: copy_of(&obj.data) };
        effects.push(write);
        assert(effects_view(effects) =~= seq![write@]);
    } else {
        assert(effects_view(effects) =~= Seq::empty());
    }
    effects
}

/// The text of a failed fetch: see [`fetch_error_message`].
fn fetch_error_text(e: FetchError) -> (r: String)
    ensures
        r@ == fetch_error_message(e),
{
    match e {
        FetchError::Body => "the upstream body could not be read within the size limit".to_owned(),
        FetchError::ContentType => "the upstream response names no media type".to_owned(),
    }
}

/// Whether the message of a failed transform asks for a second fetch: see
/// [`asks_for_redownload`].
pub fn wants_redownload(message: &str) -> (r: bool)
    ensures
        r == asks_for_redownload(message@),
{
    str_contains(message, "buffer") || str_contains(message, "unexpected EOF")
}

/// Starts the machine for a request for `obj`, whose paths lie under the storage root of
/// the configuration: see [`started`].
pub fn start(cfg: &AppConfig, obj: Object, force: bool, engine: u32, cache_busting: bool) -> (r: (
    Pipeline,
    Step,
))
    ensures
        (r.0@, r.1@) == started(cfg.storage_path@, obj@, force, engine, cache_busting),
{
    let question = Question::Open {
        dirs: obj.create_dir(cfg.storage_path.as_str()),
        base: obj.paths.base.clone(),
        modified: if obj.scale == 0 {
            None
        } else {
            Some(obj.paths.modified.clone())
        },
    };
    let s = Pipeline { obj, phase: Phase::Open, force, engine, cache_busting, modified_exists: false };
    (s, Step { effects: no_effects(), next: Next::Ask(question) })
}

/// Takes the machine one step on: see [`step_of`].
pub fn step(cfg: &AppConfig, state: Pipeline, event: Event) -> (r: (Pipeline, Step))
    ensures
        (r.0@, r.1@) == step_of(cfg, state@, event@),
{
    let mut s = state;
    match s.phase {
        Phase::Open => match event {
            Event::Opened { base, modified } => {
                let stored = modified && s.obj.scale != 0;
                s.modified_exists = stored;
                match s.obj.local_source(base, stored) {
                    LocalSource::Base => {
                        let path = s.obj.paths.base.clone();
                        ask_with(s, Phase::Local, no_effects(), Question::ReadLocal(path))
                    },
                    LocalSource::Modified => {
                        let path = s.obj.paths.modified.clone();
                        ask_with(s, Phase::Local, no_effects(), Question::ReadLocal(path))
                    },
                    LocalSource::Nothing => {
                        s.obj.try_open(None);
                        to_decide(cfg, s)
                    },
                }
            },
            _ => fail_with(s, "unexpected event".to_owned()),
        },
        Phase::Local => match event {
            Event::LocalRead(Some(file)) => {
                s.obj.try_open(Some(file));
                to_decide(cfg, s)
            },
            Event::LocalRead(None) => fail_with(s, "the stored file could not be read".to_owned()),
            _ => fail_with(s, "unexpected event".to_owned()),
        },
        Phase::Retries => match event {
            Event::Kv(reply) => match s.obj.get_retries(cfg, reply) {
                Err(e) => fail_with(s, e),
                Ok(Some(post)) => ask_with(s, Phase::Seed, no_effects(), Question::KvPost(post)),
                Ok(None) => to_gate(cfg, s),
            },
            _ => fail_with(s, "unexpected event".to_owned()),
        },
        Phase::Seed => match event {
            Event::Stored(Some(n)) => {
                s.obj.store_retries(n);
                to_gate(cfg, s)
            },
            Event::Stored(None) => fail_with(
                s,
                "the retry store did not take the count".to_owned(),
            ),
            _ => fail_with(s, "unexpected event".to_owned()),
        },
        Phase::Download => match event {
            Event::Fetched(f) => match s.obj.download(f) {
                Err(e) => fail_with(s, fetch_error_text(e)),
                Ok(persist) => {
                    let effects = write_payload(&s.obj, persist);
                    to_validate(cfg, s, effects)
                },
            },
            _ => fail_with(s, "unexpected event".to_owned()),
        },
        Phase::Count => match event {
            Event::Stored(Some(n)) => {
                let mut error = "Object downloaded from ".to_owned();
                error.append(s.obj.origin.name.as_str());
                error.append("/");
                error.append(s.obj.name.as_str());
                error.append(" is not valid. Trying to proxy to origin");
                s.obj.store_retries(n);
                finish_with(s, no_effects(), Reply::Refused(ErrorResponse { status: 500, error }))
            },
            Event::Stored(None) => fail_with(
                s,
                "the retry store did not take the count".to_owned(),
            ),
            _ => fail_with(s, "unexpected event".to_owned()),
        },
        Phase::Engine => match event {
            Event::Transformed(outcome) => match outcome {
                Ok(Processed::Done(payload)) => serve(s, no_effects(), payload),
                Ok(Processed::Gifsicle { width, height }) => {
                    let question = Question::Gifsicle {
                        input: s.obj.paths.base.clone(),
                        output: s.obj.paths.modified.clone(),
                        width,
                        height,
                    };
                    ask_with(s, Phase::Tool, no_effects(), question)
                },
                Ok(Processed::ProbeVideo) => {
                    let path = s.obj.paths.base.clone();
                    ask_with(s, Phase::Probe, no_effects(), Question::ProbeVideo(path))
                },
                Ok(Processed::Guess) => {
                    let path = s.obj.paths.base.clone();
                    ask_with(s, Phase::Guess, no_effects(), Question::GuessType(path))
                },
                Err(e) => {
                    if wants_redownload(e.message().as_str()) && s.obj.should_retry(
                        cfg.max_retries,
                    ) {
                        match s.obj.get_url() {
                            Ok(url) => ask_with(
                                s,
                                Phase::Redownload,
                                no_effects(),
                                Question::Download(url),
                            ),
                            Err(_) => serve_as_is(s, no_effects()),
                        }
                    } else {
                        serve_as_is(s, no_effects())
                    }
                },
            },
            _ => fail_with(s, "unexpected event".to_owned()),
        },
        Phase::Tool => match event {
            Event::Tool(output) => {
                let payload = s.obj.finish_external(output);
                serve(s, no_effects(), payload)
            },
            _ => fail_with(s, "unexpected event".to_owned()),
        },
        Phase::Probe => match event {
            Event::Tracks(tracks) => match mp4_to_gif(&tracks, s.obj.scale) {
                ExternalPlan::Run(width, height) => {
                    let question = Question::Mp4ToGif {
                        input: s.obj.paths.base.clone(),
                        output: s.obj.paths.modified.clone(),
                        width,
                        height,
                    };
                    ask_with(s, Phase::Tool, no_effects(), question)
                },
                ExternalPlan::Keep => {
                    let payload = s.obj.finish_external(None);
                    serve(s, no_effects(), payload)
                },
            },
            _ => fail_with(s, "unexpected event".to_owned()),
        },
        Phase::Guess => match event {
            Event::Guessed(guessed) => {
                let payload = s.obj.finish_guess(guessed);
                serve(s, no_effects(), payload)
            },
            _ => fail_with(s, "unexpected event".to_owned()),
        },
        Phase::Redownload => match event {
            Event::Fetched(f) => {
                if takes_over(&s.obj, &f) {
                    let _ = s.obj.download(f);
                    let effects = write_payload(&s.obj, true);
                    serve_as_is(s, effects)
                } else {
                    serve_as_is(s, no_effects())
                }
            },
            _ => fail_with(s, "unexpected event".to_owned()),
        },
        Phase::Done => fail_with(s, "unexpected event".to_owned()),
    }
}

/// Whether a response would be taken over whole: it is one with a status of success, a
/// body, and a media type.
pub fn takes_over(obj: &Object, f: &Fetched) -> (r: bool)
    ensures
        r == (fetched(obj@, f@).1 == Ok::<bool, FetchError>(true)),
{
    match f {
        Fetched::Unreachable => false,
        Fetched::Response { status, headers, content_type, body } => {
            if !status_is_success(*status) {
                return false;
            }
            if body.is_none() {
                return false;
            }
            has_media_type(content_type)
        },
    }
}

} // verus!
