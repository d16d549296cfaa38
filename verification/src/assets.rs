//! The asset authority: resolves a model name to a local file, downloading it into the
//! cache if need be, and tells the story in events: `Started`, then `Progress` as bytes
//! arrive, then `Complete` or `Error`.
//!
//! A resolution is a state machine. It touches neither disk nor network: it tells its
//! driver what to do next and is told the outcome.

pub mod laws;

use crate::manifest::{ModelSpec, ModelSpecView};
use crate::protocol::{AssetEvent, AssetEventView, ModelDescriptor, descriptor_views};
use crate::redirect::{
    DEFAULT_REDIRECT_LIMIT, Hop, HopView, RedirectMiddleware, spec_is_success, spec_next_hop,
};
use crate::registry::{
    ModelEntry, ModelEntryView, ModelRegistry, entry_views, spec_descriptors, spec_lookup,
    spec_upsert,
};
use crate::text::{
    decimal, join_path, join_text, parse_u64, spec_decimal, spec_join_path, spec_parse_u64,
};
use vstd::prelude::*;
use vstd::string::*;

verus! {

/// Where a model file is fetched from.
pub open spec fn spec_download_url(spec: ModelSpecView) -> Seq<char> {
    "https://huggingface.co/"@ + spec.repo + "/resolve/main/"@ + spec.filename
}

/// Where a model file is fetched from.
pub fn download_url(spec: &ModelSpec) -> (url: String)
    ensures
        url@ == spec_download_url(spec@),
{
    let mut url = String::from_str("https://huggingface.co/");
    url.append(spec.repo.as_str());
    url.append("/resolve/main/");
    url.append(spec.filename.as_str());
    url
}

/// Where a download is kept until it is whole: beside the final path, with `.partial`
/// added to its name.
pub open spec fn spec_partial_path(path: Seq<char>) -> Seq<char> {
    path + ".partial"@
}

/// Where a download is kept until it is whole.
pub fn partial_path(path: &str) -> (partial: String)
    ensures
        partial@ == spec_partial_path(path@),
{
    join_text(path, ".partial")
}

/// The size a `Content-Length` header announces: zero if the header is absent or is no
/// number.
pub open spec fn spec_announced_size(header: Option<Seq<char>>) -> u64 {
    match header {
        Some(text) => match spec_parse_u64(text) {
            Some(size) => size,
            None => 0,
        },
        None => 0,
    }
}

/// The size a `Content-Length` header announces.
pub fn announced_size(header: &Option<String>) -> (size: u64)
    ensures
        size == spec_announced_size(header.deep_view()),
{
    match header {
        Some(text) => match parse_u64(text.as_str()) {
            Some(size) => size,
            None => 0,
        },
        None => 0,
    }
}

/// Counts the bytes of a download as they arrive.
#[derive(Debug, Clone, Copy, PartialEq, Eq)]
pub struct ProgressReader {
    /// Bytes received so far.
    pub current: u64,
    /// Bytes expected in all; zero while unknown.
    pub total: u64,
}

/// The count after `read` more bytes: it stops at the largest number it can hold.
pub open spec fn spec_advanced(current: u64, read: usize) -> u64 {
    if current + read > u64::MAX {
        u64::MAX
    } else {
        (current + read) as u64
    }
}

impl ProgressReader {
    /// A count of zero bytes out of `total`.
    pub fn new(total: u64) -> (reader: Self)
        ensures
            reader == (ProgressReader { current: 0, total }),
    {
        ProgressReader { current: 0, total }
    }

    /// Takes note of `read` bytes more. A read of no bytes changes nothing and is not
    /// reported; any other is reported as progress.
    pub fn advance(&mut self, read: usize) -> (event: Option<AssetEvent>)
        ensures
            final(self).total == old(self).total,
            read == 0 ==> event is None && *final(self) == *old(self),
            read > 0 ==> {
                &&& final(self).current == spec_advanced(old(self).current, read)
                &&& event matches Some(progress)
                &&& progress@ == AssetEventView::Progress(final(self).current, final(self).total)
            },
            final(self).current >= old(self).current,
    {
        if read == 0 {
            return None;
        }
        let room: u64 = u64::MAX - self.current;
        if read as u128 > room as u128 {
            self.current = u64::MAX;
        } else {
            self.current = self.current + read as u64;
        }
        Some(AssetEvent::Progress(self.current, self.total))
    }
}

/// Where a resolution stands.
#[derive(Debug, Clone, Copy, PartialEq, Eq)]
pub enum Stage {
    /// Nothing was done yet.
    Created,
    /// The cache is being looked at.
    Probing,
    /// A request is under way.
    Requesting,
    /// The partial file is being created.
    Creating,
    /// The body is being copied into the partial file.
    Streaming,
    /// The partial file is being renamed to the final path.
    Publishing,
    /// The partial file is being removed after a failure.
    Discarding,
    /// The resolution has ended.
    Finished,
}

/// What the driver of a resolution is to do next; its outcome is the next [`Outcome`].
#[derive(Debug, PartialEq, Eq)]
pub enum Fetch {
    /// Create the directory `dir` with its parents, then tell with `Found` whether `path`
    /// is a regular file.
    Probe { dir: String, path: String },
    /// Request `url` without following redirects and answer with `Response`.
    Request { url: String },
    /// Create the file `path`, empty, and answer with `Done`.
    Create { path: String },
    /// Append the next chunk of the response body to the partial file and answer with
    /// `Chunk`, with 0 at the end of the body.
    Read,
    /// Rename `from` to `to` and answer with `Done`.
    Publish { from: String, to: String },
    /// Remove the file `path` and answer with `Done`, or with `Failed` if it could not be
    /// removed.
    Discard { path: String },
    /// Nothing: the resolution has ended.
    Nothing,
    /// The outcome did not answer what the resolution is waiting for and was ignored.
    Rejected,
}

/// Mathematical content of a [`Fetch`].
pub enum FetchView {
    Probe { dir: Seq<char>, path: Seq<char> },
    Request { url: Seq<char> },
    Create { path: Seq<char> },
    Read,
    Publish { from: Seq<char>, to: Seq<char> },
    Discard { path: Seq<char> },
    Nothing,
    Rejected,
}

impl View for Fetch {
    type V = FetchView;

    open spec fn view(&self) -> FetchView {
        match *self {
            Fetch::Probe { dir, path } => FetchView::Probe { dir: dir@, path: path@ },
            Fetch::Request { url } => FetchView::Request { url: url@ },
            Fetch::Create { path } => FetchView::Create { path: path@ },
            Fetch::Read => FetchView::Read,
            Fetch::Publish { from, to } => FetchView::Publish { from: from@, to: to@ },
            Fetch::Discard { path } => FetchView::Discard { path: path@ },
            Fetch::Nothing => FetchView::Nothing,
            Fetch::Rejected => FetchView::Rejected,
        }
    }
}

/// What the driver of a resolution reports.
#[derive(Debug, PartialEq, Eq)]
pub enum Outcome {
    /// The resolution may begin.
    Begin,
    /// Whether the final path is a regular file.
    Found(bool),
    /// The response to a request: its status, and its `Location` and `Content-Length`
    /// headers if it has them.
    Response { status: u16, location: Option<String>, content_length: Option<String> },
    /// The number of bytes copied; 0 at the end of the body.
    Chunk(usize),
    /// The file operation succeeded.
    Done,
    /// What was asked for failed, with a message.
    Failed(String),
}

/// Mathematical content of an [`Outcome`].
pub enum OutcomeView {
    Begin,
    Found(bool),
    Response { status: u16, location: Option<Seq<char>>, content_length: Option<Seq<char>> },
    Chunk(usize),
    Done,
    Failed(Seq<char>),
}

impl View for Outcome {
    type V = OutcomeView;

    open spec fn view(&self) -> OutcomeView {
        match *self {
            Outcome::Begin => OutcomeView::Begin,
            Outcome::Found(found) => OutcomeView::Found(found),
            Outcome::Response { status, location, content_length } => OutcomeView::Response {
                status,
                location: location.deep_view(),
                content_length: content_length.deep_view(),
            },
            Outcome::Chunk(read) => OutcomeView::Chunk(read),
            Outcome::Done => OutcomeView::Done,
            Outcome::Failed(message) => OutcomeView::Failed(message@),
        }
    }
}

/// A resolution's answer to one outcome.
#[derive(Debug, PartialEq, Eq)]
pub struct Advance {
    /// The events to emit, in order.
    pub events: Vec<AssetEvent>,
    /// What to do next.
    pub next: Fetch,
    /// A line for the driver's log.
    pub notice: Option<String>,
}

/// Mathematical content of an [`Advance`].
pub struct AdvanceView {
    pub events: Seq<AssetEventView>,
    pub next: FetchView,
    pub notice: Option<Seq<char>>,
}

/// The views of a list of asset events, in order.
pub open spec fn asset_views(list: Seq<AssetEvent>) -> Seq<AssetEventView> {
    Seq::new(list.len(), |i: int| list[i]@)
}

impl View for Advance {
    type V = AdvanceView;

    open spec fn view(&self) -> AdvanceView {
        AdvanceView {
            events: asset_views(self.events@),
            next: self.next@,
            notice: self.notice.deep_view(),
        }
    }
}

/// How a resolution ended: with the path of the file, or with a message.
pub open spec fn spec_result_view(result: Option<Result<String, String>>) -> Option<
    Result<Seq<char>, Seq<char>>,
> {
    match result {
        Some(Ok(path)) => Some(Ok(path@)),
        Some(Err(message)) => Some(Err(message@)),
        None => None,
    }
}

/// Mathematical content of a [`Resolution`].
pub struct ResolutionView {
    /// The name being resolved.
    pub name: Seq<char>,
    /// What the registry says of the name.
    pub spec: Option<ModelSpecView>,
    /// The cache directory.
    pub cache_dir: Seq<char>,
    /// Whether the start of a download is kept out of the log.
    pub silent: bool,
    /// The bound on redirects.
    pub redirect_limit: u8,
    /// Where the resolution stands.
    pub stage: Stage,
    /// The URL of the request under way.
    pub url: Seq<char>,
    /// The number of redirects followed.
    pub attempts: u16,
    /// Bytes received so far.
    pub current: u64,
    /// Bytes expected in all; zero while unknown.
    pub total: u64,
    /// The failure to report once the partial file is removed.
    pub failure: Seq<char>,
    /// How the resolution ended, once it has.
    pub result: Option<Result<Seq<char>, Seq<char>>>,
}

impl ResolutionView {
    /// The path the file is published at.
    pub open spec fn final_path(self) -> Seq<char> {
        match self.spec {
            Some(spec) => spec_join_path(self.cache_dir, spec.filename),
            None => Seq::empty(),
        }
    }

    /// The path the file is downloaded to.
    pub open spec fn partial_path(self) -> Seq<char> {
        spec_partial_path(self.final_path())
    }
}

/// A resolution that ends with an error event and no file operation left to do.
pub open spec fn spec_fail(s: ResolutionView, message: Seq<char>) -> (
    ResolutionView,
    AdvanceView,
) {
    (
        ResolutionView { stage: Stage::Finished, result: Some(Err(message)), ..s },
        AdvanceView {
            events: seq![AssetEventView::Error(message)],
            next: FetchView::Nothing,
            notice: None,
        },
    )
}

/// A resolution that ends with the file at its final path.
pub open spec fn spec_succeed(s: ResolutionView) -> (ResolutionView, AdvanceView) {
    (
        ResolutionView { stage: Stage::Finished, result: Some(Ok(s.final_path())), ..s },
        AdvanceView {
            events: seq![AssetEventView::Complete(s.final_path())],
            next: FetchView::Nothing,
            notice: None,
        },
    )
}

/// A resolution that removes the partial file before it reports a failure.
pub open spec fn spec_discard(s: ResolutionView, message: Seq<char>) -> (
    ResolutionView,
    AdvanceView,
) {
    (
        ResolutionView { stage: Stage::Discarding, failure: message, ..s },
        AdvanceView {
            events: Seq::empty(),
            next: FetchView::Discard { path: s.partial_path() },
            notice: None,
        },
    )
}

/// A resolution that moves on without an event.
pub open spec fn spec_go(s: ResolutionView, stage: Stage, next: FetchView) -> (
    ResolutionView,
    AdvanceView,
) {
    (
        ResolutionView { stage, ..s },
        AdvanceView { events: Seq::empty(), next, notice: None },
    )
}

/// A resolution that ignores an outcome.
pub open spec fn spec_ignore(s: ResolutionView) -> (ResolutionView, AdvanceView) {
    (s, AdvanceView { events: Seq::empty(), next: FetchView::Rejected, notice: None })
}

/// The answer to a response.
pub open spec fn spec_on_response(
    s: ResolutionView,
    status: u16,
    location: Option<Seq<char>>,
    content_length: Option<Seq<char>>,
) -> (ResolutionView, AdvanceView) {
    match spec_next_hop(s.redirect_limit, s.attempts, status, location, s.url) {
        HopView::Follow { url, attempts } => (
            ResolutionView { url, attempts, ..s },
            AdvanceView {
                events: Seq::empty(),
                next: FetchView::Request { url },
                notice: None,
            },
        ),
        HopView::Fail { status: _, message } => spec_fail(s, "Surf request failed: "@ + message),
        HopView::Deliver => if spec_is_success(status) {
            spec_go(
                ResolutionView { total: spec_announced_size(content_length), current: 0, ..s },
                Stage::Creating,
                FetchView::Create { path: s.partial_path() },
            )
        } else {
            spec_fail(s, "Download failed with status: "@ + spec_decimal(status as nat))
        },
    }
}

/// A resolution's answer to one outcome: the state it moves to, the events to emit and
/// what to do next.
pub open spec fn spec_advance(s: ResolutionView, outcome: OutcomeView) -> (
    ResolutionView,
    AdvanceView,
) {
    match (s.stage, outcome) {
        (Stage::Created, OutcomeView::Begin) => match s.spec {
            None => {
                let message = "Model '"@ + s.name + "' not found in registry"@;
                (
                    ResolutionView { stage: Stage::Finished, result: Some(Err(message)), ..s },
                    AdvanceView {
                        events: seq![
                            AssetEventView::Started(s.name),
                            AssetEventView::Error(message),
                        ],
                        next: FetchView::Nothing,
                        notice: None,
                    },
                )
            },
            Some(spec) => (
                ResolutionView { stage: Stage::Probing, ..s },
                AdvanceView {
                    events: seq![AssetEventView::Started(s.name)],
                    next: FetchView::Probe { dir: s.cache_dir, path: s.final_path() },
                    notice: None,
                },
            ),
        },
        (Stage::Probing, OutcomeView::Found(true)) => spec_succeed(s),
        (Stage::Probing, OutcomeView::Found(false)) => (
            ResolutionView { stage: Stage::Requesting, ..s },
            AdvanceView {
                events: Seq::empty(),
                next: FetchView::Request { url: s.url },
                notice: if s.silent || s.spec is None {
                    None
                } else {
                    Some(
                        "Downloading "@ + s.spec->0.filename + " from "@ + s.spec->0.repo + "..."@,
                    )
                },
            },
        ),
        (Stage::Probing, OutcomeView::Failed(message)) => spec_fail(s, message),
        (Stage::Requesting, OutcomeView::Response { status, location, content_length }) =>
            spec_on_response(s, status, location, content_length),
        (Stage::Requesting, OutcomeView::Failed(message)) => spec_fail(
            s,
            "Surf request failed: "@ + message,
        ),
        (Stage::Creating, OutcomeView::Done) => spec_go(s, Stage::Streaming, FetchView::Read),
        (Stage::Creating, OutcomeView::Failed(message)) => spec_fail(
            s,
            "Failed to create partial file: "@ + message,
        ),
        (Stage::Streaming, OutcomeView::Chunk(read)) => if read == 0 {
            spec_go(
                s,
                Stage::Publishing,
                FetchView::Publish { from: s.partial_path(), to: s.final_path() },
            )
        } else {
            let current = spec_advanced(s.current, read);
            (
                ResolutionView { current, ..s },
                AdvanceView {
                    events: seq![AssetEventView::Progress(current, s.total)],
                    next: FetchView::Read,
                    notice: None,
                },
            )
        },
        (Stage::Streaming, OutcomeView::Failed(message)) => spec_discard(
            s,
            "Streaming failed: "@ + message,
        ),
        (Stage::Publishing, OutcomeView::Done) => spec_succeed(s),
        (Stage::Publishing, OutcomeView::Failed(message)) => spec_discard(
            s,
            "Failed to finalize model file: "@ + message,
        ),
        (Stage::Discarding, OutcomeView::Done) => spec_fail(s, s.failure),
        (Stage::Discarding, OutcomeView::Failed(_)) => spec_fail(s, s.failure),
        (Stage::Finished, _) => (
            s,
            AdvanceView { events: Seq::empty(), next: FetchView::Nothing, notice: None },
        ),
        _ => spec_ignore(s),
    }
}

/// One resolution of one name.
pub struct Resolution {
    name: String,
    spec: Option<ModelSpec>,
    cache_dir: String,
    silent: bool,
    redirects: RedirectMiddleware,
    stage: Stage,
    url: String,
    attempts: u16,
    meter: ProgressReader,
    failure: String,
    result: Option<Result<String, String>>,
}

impl View for Resolution {
    type V = ResolutionView;

    closed spec fn view(&self) -> ResolutionView {
        ResolutionView {
            name: self.name@,
            spec: match self.spec {
                Some(spec) => Some(spec@),
                None => None,
            },
            cache_dir: self.cache_dir@,
            silent: self.silent,
            redirect_limit: self.redirects.limit(),
            stage: self.stage,
            url: self.url@,
            attempts: self.attempts,
            current: self.meter.current,
            total: self.meter.total,
            failure: self.failure@,
            result: spec_result_view(self.result),
        }
    }
}

/// The state of a resolution of `name` that has not begun.
pub open spec fn spec_created(
    name: Seq<char>,
    spec: Option<ModelSpecView>,
    cache_dir: Seq<char>,
    silent: bool,
) -> ResolutionView {
    ResolutionView {
        name,
        spec,
        cache_dir,
        silent,
        redirect_limit: DEFAULT_REDIRECT_LIMIT,
        stage: Stage::Created,
        url: match spec {
            Some(spec) => spec_download_url(spec),
            None => Seq::empty(),
        },
        attempts: 0,
        current: 0,
        total: 0,
        failure: Seq::empty(),
        result: None,
    }
}

impl Resolution {
    /// A resolution of `name` that has not begun, `spec` being what the registry says of
    /// the name.
    pub fn new(name: &str, spec: Option<ModelSpec>, cache_dir: String, silent: bool) -> (resolution:
        Self)
        ensures
            resolution@ == spec_created(
                name@,
                match spec {
                    Some(spec) => Some(spec@),
                    None => None,
                },
                cache_dir@,
                silent,
            ),
    {
        let url = match &spec {
            Some(spec) => download_url(spec),
            None => String::new(),
        };
        Resolution {
            name: String::from_str(name),
            spec,
            cache_dir,
            silent,
            redirects: RedirectMiddleware::new(DEFAULT_REDIRECT_LIMIT),
            stage: Stage::Created,
            url,
            attempts: 0,
            meter: ProgressReader::new(0),
            failure: String::new(),
            result: None,
        }
    }

    /// Where the resolution stands.
    pub fn stage(&self) -> (stage: Stage)
        ensures
            stage == self@.stage,
    {
        self.stage
    }

    /// Whether the resolution has ended.
    pub fn is_finished(&self) -> (finished: bool)
        ensures
            finished == (self@.stage is Finished),
    {
        match self.stage {
            Stage::Finished => true,
            _ => false,
        }
    }

    /// How the resolution ended, once it has: with the path of the file, or with the
    /// message of its error event.
    pub fn result(&self) -> (result: Option<Result<String, String>>)
        ensures
            spec_result_view(result) == self@.result,
    {
        match &self.result {
            Some(Ok(path)) => Some(Ok(path.clone())),
            Some(Err(message)) => Some(Err(message.clone())),
            None => None,
        }
    }

    /// The path the file is published at.
    fn final_path(&self) -> (path: String)
        ensures
            path@ == self@.final_path(),
    {
        match &self.spec {
            Some(spec) => join_path(self.cache_dir.as_str(), spec.filename.as_str()),
            None => String::new(),
        }
    }

    /// Ends with an error event.
    fn fail(&mut self, message: String) -> (advance: Advance)
        ensures
            (final(self)@, advance@) == spec_fail(old(self)@, message@),
    {
        let mut events: Vec<AssetEvent> = Vec::new();
        events.push(AssetEvent::Error(message.clone()));
        assert(asset_views(events@) =~= seq![AssetEventView::Error(message@)]);
        self.stage = Stage::Finished;
        self.result = Some(Err(message));
        Advance { events, next: Fetch::Nothing, notice: None }
    }

    /// Ends with the file at its final path.
    fn succeed(&mut self) -> (advance: Advance)
        ensures
            (final(self)@, advance@) == spec_succeed(old(self)@),
    {
        let path = self.final_path();
        let mut events: Vec<AssetEvent> = Vec::new();
        events.push(AssetEvent::Complete(path.clone()));
        assert(asset_views(events@) =~= seq![AssetEventView::Complete(path@)]);
        self.stage = Stage::Finished;
        self.result = Some(Ok(path));
        Advance { events, next: Fetch::Nothing, notice: None }
    }

    /// Removes the partial file before reporting a failure.
    fn discard(&mut self, message: String) -> (advance: Advance)
        ensures
            (final(self)@, advance@) == spec_discard(old(self)@, message@),
    {
        let path = partial_path(self.final_path().as_str());
        self.stage = Stage::Discarding;
        self.failure = message;
        Advance { events: Self::quiet(), next: Fetch::Discard { path }, notice: None }
    }

    /// No event.
    fn quiet() -> (events: Vec<AssetEvent>)
        ensures
            asset_views(events@) == Seq::<AssetEventView>::empty(),
    {
        let events: Vec<AssetEvent> = Vec::new();
        assert(asset_views(events@) =~= Seq::<AssetEventView>::empty());
        events
    }

    /// Moves on without an event.
    fn go(&mut self, stage: Stage, next: Fetch) -> (advance: Advance)
        ensures
            (final(self)@, advance@) == spec_go(old(self)@, stage, next@),
    {
        self.stage = stage;
        Advance { events: Self::quiet(), next, notice: None }
    }

    /// Answers a response.
    fn on_response(
        &mut self,
        status: u16,
        location: Option<String>,
        content_length: Option<String>,
    ) -> (advance: Advance)
        ensures
            (final(self)@, advance@) == spec_on_response(
                old(self)@,
                status,
                location.deep_view(),
                content_length.deep_view(),
            ),
    {
        match self.redirects.next_hop(self.attempts, status, location, self.url.as_str()) {
            Hop::Follow { url, attempts } => {
                self.url = url.clone();
                self.attempts = attempts;
                Advance { events: Self::quiet(), next: Fetch::Request { url }, notice: None }
            },
            Hop::Fail { status: _, message } => self.fail(
                join_text("Surf request failed: ", message.as_str()),
            ),
            Hop::Deliver => if status >= 200 && status < 300 {
                let path = partial_path(self.final_path().as_str());
                self.meter = ProgressReader::new(announced_size(&content_length));
                self.go(Stage::Creating, Fetch::Create { path })
            } else {
                self.fail(join_text("Download failed with status: ", decimal(status as u128).as_str()))
            },
        }
    }

    /// Answers one outcome; see [`spec_advance`].
    pub fn advance(&mut self, outcome: Outcome) -> (advance: Advance)
        ensures
            (final(self)@, advance@) == spec_advance(old(self)@, outcome@),
    {
        match (self.stage, outcome) {
            (Stage::Created, Outcome::Begin) => {
                let mut events: Vec<AssetEvent> = Vec::new();
                events.push(AssetEvent::Started(self.name.clone()));
                if self.spec.is_none() {
                    let message = join_text(
                        join_text("Model '", self.name.as_str()).as_str(),
                        "' not found in registry",
                    );
                    events.push(AssetEvent::Error(message.clone()));
                    assert(asset_views(events@) =~= seq![
                        AssetEventView::Started(self.name@),
                        AssetEventView::Error(message@),
                    ]);
                    self.stage = Stage::Finished;
                    self.result = Some(Err(message));
                    Advance { events, next: Fetch::Nothing, notice: None }
                } else {
                    assert(asset_views(events@) =~= seq![AssetEventView::Started(self.name@)]);
                    let path = self.final_path();
                    self.stage = Stage::Probing;
                    Advance {
                        events,
                        next: Fetch::Probe { dir: self.cache_dir.clone(), path },
                        notice: None,
                    }
                }
            },
            (Stage::Probing, Outcome::Found(true)) => self.succeed(),
            (Stage::Probing, Outcome::Found(false)) => {
                let notice = match &self.spec {
                    Some(spec) => if self.silent {
                        None
                    } else {
                        let mut line = String::from_str("Downloading ");
                        line.append(spec.filename.as_str());
                        line.append(" from ");
                        line.append(spec.repo.as_str());
                        line.append("...");
                        Some(line)
                    },
                    None => None,
                };
                self.stage = Stage::Requesting;
                Advance {
                    events: Self::quiet(),
                    next: Fetch::Request { url: self.url.clone() },
                    notice,
                }
            },
            (Stage::Probing, Outcome::Failed(message)) => self.fail(message),
            (Stage::Requesting, Outcome::Response { status, location, content_length }) =>
                self.on_response(status, location, content_length),
            (Stage::Requesting, Outcome::Failed(message)) => self.fail(
                join_text("Surf request failed: ", message.as_str()),
            ),
            (Stage::Creating, Outcome::Done) => self.go(Stage::Streaming, Fetch::Read),
            (Stage::Creating, Outcome::Failed(message)) => self.fail(
                join_text("Failed to create partial file: ", message.as_str()),
            ),
            (Stage::Streaming, Outcome::Chunk(read)) => {
                if read == 0 {
                    let to = self.final_path();
                    let from = partial_path(to.as_str());
                    self.go(Stage::Publishing, Fetch::Publish { from, to })
                } else {
                    let mut meter = self.meter;
                    let progress = meter.advance(read);
                    self.meter = meter;
                    let mut events: Vec<AssetEvent> = Vec::new();
                    match progress {
                        Some(event) => {
                            events.push(event);
                        },
                        None => {},
                    }
                    assert(asset_views(events@) =~= seq![
                        AssetEventView::Progress(self.meter.current, self.meter.total),
                    ]);
                    Advance { events, next: Fetch::Read, notice: None }
                }
            },
            (Stage::Streaming, Outcome::Failed(message)) => self.discard(
                join_text("Streaming failed: ", message.as_str()),
            ),
            (Stage::Publishing, Outcome::Done) => self.succeed(),
            (Stage::Publishing, Outcome::Failed(message)) => self.discard(
                join_text("Failed to finalize model file: ", message.as_str()),
            ),
            (Stage::Discarding, Outcome::Done) => {
                let message = self.failure.clone();
                self.fail(message)
            },
            (Stage::Discarding, Outcome::Failed(_)) => {
                let message = self.failure.clone();
                self.fail(message)
            },
            (Stage::Finished, _) => Advance {
                events: Self::quiet(),
                next: Fetch::Nothing,
                notice: None,
            },
            _ => Advance { events: Self::quiet(), next: Fetch::Rejected, notice: None },
        }
    }
}

/// Resolves model names against a registry and a cache directory.
pub struct AssetAuthority {
    registry: ModelRegistry,
}

impl AssetAuthority {
    /// The registry names are resolved against.
    pub closed spec fn registry(&self) -> ModelRegistry {
        self.registry
    }

    /// An authority over the given registry.
    pub fn new(registry: ModelRegistry) -> (authority: Self)
        ensures
            authority.registry() == registry,
    {
        AssetAuthority { registry }
    }

    /// The registry's entries.
    pub open spec fn entries(&self) -> Seq<ModelEntryView> {
        self.registry().entries()
    }

    /// What the registry says of a name.
    pub open spec fn spec_resolve(&self, name: Seq<char>) -> Option<ModelSpecView> {
        match spec_lookup(self.entries(), name) {
            Some(entry) => Some(entry.spec()),
            None => None,
        }
    }

    /// Every model of the registry, one entry for each name.
    pub fn list_models(&self) -> (list: Vec<ModelEntry>)
        ensures
            entry_views(list@) == self.entries(),
    {
        self.registry.list_models()
    }

    /// Every model of the registry as the protocol lists it.
    pub fn descriptors(&self) -> (list: Vec<ModelDescriptor>)
        ensures
            descriptor_views(list@) == spec_descriptors(self.entries()),
    {
        self.registry.descriptors()
    }

    /// Records a model discovered at run time, in memory and in the list persisted so far;
    /// the returned list is what is to be persisted in its place.
    pub fn record_model(&mut self, entry: ModelEntry, persisted: Vec<ModelEntry>) -> (updated: Vec<
        ModelEntry,
    >)
        ensures
            final(self).entries() == spec_upsert(old(self).entries(), entry@),
            entry_views(updated@) == spec_upsert(entry_views(persisted@), entry@),
            final(self).registry().spec_cache_dir() == old(self).registry().spec_cache_dir(),
            final(self).registry().spec_config_dir() == old(self).registry().spec_config_dir(),
    {
        self.registry.record_model(entry, persisted)
    }

    /// A resolution of `name` whose events are meant to be watched.
    pub fn ensure_model_stream(&self, name: &str) -> (resolution: Resolution)
        ensures
            resolution@ == spec_created(
                name@,
                self.spec_resolve(name@),
                self.registry().spec_cache_dir(),
                false,
            ),
    {
        self.resolution(name, false)
    }

    /// A resolution of `name` that is run for its result alone.
    pub fn ensure_model(&self, name: &str) -> (resolution: Resolution)
        ensures
            resolution@ == spec_created(
                name@,
                self.spec_resolve(name@),
                self.registry().spec_cache_dir(),
                true,
            ),
    {
        self.resolution(name, true)
    }

    /// A resolution of `name`.
    fn resolution(&self, name: &str, silent: bool) -> (resolution: Resolution)
        ensures
            resolution@ == spec_created(
                name@,
                self.spec_resolve(name@),
                self.registry().spec_cache_dir(),
                silent,
            ),
    {
        let spec = self.registry.resolve(name);
        Resolution::new(name, spec, self.registry.get_cache_dir(), silent)
    }
}

} // verus!
