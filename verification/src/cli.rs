//! What the command line decides: how the pre-loading of models is reported and summed
//! up, which address the browser is sent to, and what a line received on the WebSocket
//! asks for.

use crate::manifest::InferenceConfig;
use crate::protocol::{
    AssetEvent, AssetEventView, BrainstemCommand, BrainstemCommandView, BrainstemInput,
    BrainstemInputView,
};
use crate::text::{chars_of, join_text};
use vstd::prelude::*;
use vstd::string::*;

verus! {

/// The share of `current` in `total`, in whole percent; zero while the total is unknown.
pub open spec fn spec_percent(current: u64, total: u64) -> nat {
    if total == 0 {
        0
    } else {
        ((current as nat) * 100 / (total as nat)) as nat
    }
}

/// The share of `current` in `total`, in whole percent; zero while the total is unknown.
pub fn percent(current: u64, total: u64) -> (share: u128)
    ensures
        share == spec_percent(current, total),
{
    if total == 0 {
        0
    } else {
        (current as u128 * 100) / (total as u128)
    }
}

/// How much the share must grow before it is reported again.
pub const REPORT_EVERY: u128 = 10;

/// What is to be shown of one event of a pre-load.
#[derive(Debug, PartialEq, Eq)]
pub enum Show {
    /// The download of the model has begun.
    Downloading,
    /// Bytes received and expected; and the share in percent, if it has grown enough
    /// since it was last reported to be printed as a line.
    Progress { current: u64, total: u64, line: Option<u128> },
    /// The model is ready at this path.
    Ready(String),
    /// The pre-load failed with this message.
    Failed(String),
}

/// Mathematical content of a [`Show`].
pub enum ShowView {
    Downloading,
    Progress { current: u64, total: u64, line: Option<u128> },
    Ready(Seq<char>),
    Failed(Seq<char>),
}

impl View for Show {
    type V = ShowView;

    open spec fn view(&self) -> ShowView {
        match *self {
            Show::Downloading => ShowView::Downloading,
            Show::Progress { current, total, line } => ShowView::Progress { current, total, line },
            Show::Ready(path) => ShowView::Ready(path@),
            Show::Failed(message) => ShowView::Failed(message@),
        }
    }
}

/// Mathematical content of a [`Preload`].
pub struct PreloadView {
    /// The model being pre-loaded.
    pub name: Seq<char>,
    /// The share reported last.
    pub reported: u128,
    /// The path of the model, once it is ready.
    pub path: Option<Seq<char>>,
    /// The failure, once there is one.
    pub failure: Option<Seq<char>>,
}

/// What a pre-load makes of one event, and what is to be shown of it. Progress is printed
/// as a line only when the total is known and the share has grown by ten percent or more
/// since the last line.
pub open spec fn spec_watch(p: PreloadView, event: AssetEventView) -> (PreloadView, ShowView) {
    match event {
        AssetEventView::Started(_) => (p, ShowView::Downloading),
        AssetEventView::Progress(current, total) => {
            let share = spec_percent(current, total);
            if total > 0 && share >= p.reported + REPORT_EVERY {
                (
                    PreloadView { reported: share as u128, ..p },
                    ShowView::Progress { current, total, line: Some(share as u128) },
                )
            } else {
                (p, ShowView::Progress { current, total, line: None })
            }
        },
        AssetEventView::Complete(path) => (
            PreloadView { path: Some(path), ..p },
            ShowView::Ready(path),
        ),
        AssetEventView::Error(message) => (
            PreloadView {
                failure: Some("Failed to download "@ + p.name + ": "@ + message),
                ..p
            },
            ShowView::Failed(message),
        ),
    }
}

/// How a pre-load ended: with the path of the model, or with the reason why there is
/// none.
pub open spec fn spec_preload_outcome(p: PreloadView) -> Result<Seq<char>, Seq<char>> {
    match p.failure {
        Some(message) => Err(message),
        None => match p.path {
            Some(path) => Ok(path),
            None => Err("Stream ended without completion for "@ + p.name),
        },
    }
}

/// The pre-load of one model, as its events arrive.
pub struct Preload {
    name: String,
    reported: u128,
    path: Option<String>,
    failure: Option<String>,
}

impl View for Preload {
    type V = PreloadView;

    closed spec fn view(&self) -> PreloadView {
        PreloadView {
            name: self.name@,
            reported: self.reported,
            path: self.path.deep_view(),
            failure: self.failure.deep_view(),
        }
    }
}

impl Preload {
    /// The pre-load of the named model, before its first event.
    pub fn new(name: String) -> (preload: Self)
        ensures
            preload@ == (PreloadView { name: name@, reported: 0, path: None, failure: None }),
    {
        Preload { name, reported: 0, path: None, failure: None }
    }

    /// Whether the pre-load has failed; no further event is awaited then.
    pub fn has_failed(&self) -> (failed: bool)
        ensures
            failed == (self@.failure is Some),
    {
        self.failure.is_some()
    }

    /// Takes one event and tells what to show of it; see [`spec_watch`].
    pub fn watch(&mut self, event: AssetEvent) -> (show: Show)
        ensures
            (final(self)@, show@) == spec_watch(old(self)@, event@),
    {
        match event {
            AssetEvent::Started(_) => Show::Downloading,
            AssetEvent::Progress(current, total) => {
                let share = percent(current, total);
                if total > 0 && share >= self.reported && share - self.reported >= REPORT_EVERY {
                    self.reported = share;
                    Show::Progress { current, total, line: Some(share) }
                } else {
                    Show::Progress { current, total, line: None }
                }
            },
            AssetEvent::Complete(path) => {
                self.path = Some(path.clone());
                Show::Ready(path)
            },
            AssetEvent::Error(message) => {
                let mut text = String::from_str("Failed to download ");
                text.append(self.name.as_str());
                text.append(": ");
                text.append(message.as_str());
                self.failure = Some(text);
                Show::Failed(message)
            },
        }
    }

    /// How the pre-load ended, the stream of its events being over or abandoned; see
    /// [`spec_preload_outcome`].
    pub fn outcome(&self) -> (outcome: Result<String, String>)
        ensures
            match outcome {
                Ok(path) => spec_preload_outcome(self@) == Ok::<Seq<char>, Seq<char>>(path@),
                Err(message) => spec_preload_outcome(self@) == Err::<Seq<char>, Seq<char>>(
                    message@,
                ),
            },
    {
        match &self.failure {
            Some(message) => Err(message.clone()),
            None => match &self.path {
                Some(path) => Ok(path.clone()),
                None => Err(join_text("Stream ended without completion for ", self.name.as_str())),
            },
        }
    }
}

/// The share reported last never exceeds a hundred percent of a download that stays
/// within its announced size, and never shrinks.
pub proof fn law_reported_share_grows(p: PreloadView, event: AssetEventView)
    ensures
        spec_watch(p, event).0.reported >= p.reported,
        event matches AssetEventView::Progress(current, total) ==> (current <= total
            ==> spec_percent(current, total) <= 100),
        spec_percent(0, 0) == 0,
{
    if let AssetEventView::Progress(current, total) = event {
        if total > 0 && current <= total {
            assert((current as nat) * 100 / (total as nat) <= 100) by (nonlinear_arith)
                requires
                    current <= total,
                    total > 0,
            ;
        }
    }
}

/// The lines that report the failures of a round of pre-loads: for each model that was
/// not loaded, its name and the reason.
pub open spec fn spec_failures(
    names: Seq<Seq<char>>,
    outcomes: Seq<Result<Seq<char>, Seq<char>>>,
) -> Seq<Seq<char>>
    decreases names.len(),
{
    if names.len() == 0 || outcomes.len() == 0 {
        Seq::empty()
    } else {
        let before = spec_failures(names.drop_last(), outcomes.drop_last());
        match outcomes.last() {
            Ok(_) => before,
            Err(message) => before.push(names.last() + ": "@ + message),
        }
    }
}

/// The views of a list of texts.
pub open spec fn text_views(list: Seq<String>) -> Seq<Seq<char>> {
    Seq::new(list.len(), |i: int| list[i]@)
}

/// The views of a list of outcomes.
pub open spec fn outcome_views(list: Seq<Result<String, String>>) -> Seq<
    Result<Seq<char>, Seq<char>>,
> {
    Seq::new(
        list.len(),
        |i: int|
            match list[i] {
                Ok(path) => Ok(path@),
                Err(message) => Err(message@),
            },
    )
}

/// The number of models that have both a name and an outcome.
pub open spec fn spec_paired(names: Seq<String>, outcomes: Seq<Result<String, String>>) -> int {
    if names.len() <= outcomes.len() {
        names.len() as int
    } else {
        outcomes.len() as int
    }
}

/// The lines that report the failures of a round of pre-loads, the outcomes being in the
/// order of the names; the round succeeded if there is none.
pub fn failures(names: &Vec<String>, outcomes: &Vec<Result<String, String>>) -> (lines: Vec<String>)
    ensures
        text_views(lines@) == spec_failures(
            text_views(names@).take(spec_paired(names@, outcomes@)),
            outcome_views(outcomes@).take(spec_paired(names@, outcomes@)),
        ),
{
    let mut lines: Vec<String> = Vec::new();
    let mut i: usize = 0;
    let paired: usize = if names.len() <= outcomes.len() {
        names.len()
    } else {
        outcomes.len()
    };
    let ghost all_names = text_views(names@).take(paired as int);
    let ghost all_outcomes = outcome_views(outcomes@).take(paired as int);
    proof {
        assert(text_views(lines@) =~= Seq::<Seq<char>>::empty());
    }
    while i < paired
        invariant
            i <= paired,
            paired <= names.len(),
            paired <= outcomes.len(),
            all_names == text_views(names@).take(paired as int),
            all_outcomes == outcome_views(outcomes@).take(paired as int),
            text_views(lines@) == spec_failures(all_names.take(i as int), all_outcomes.take(i as int)),
        decreases paired - i,
    {
        proof {
            assert(all_names.take(i + 1).drop_last() =~= all_names.take(i as int));
            assert(all_outcomes.take(i + 1).drop_last() =~= all_outcomes.take(i as int));
        }
        let ghost before = text_views(lines@);
        match &outcomes[i] {
            Ok(_) => {},
            Err(message) => {
                let mut line = names[i].clone();
                line.append(": ");
                line.append(message.as_str());
                lines.push(line);
                assert(text_views(lines@) =~= before.push(line@));
            },
        }
        i += 1;
    }
    proof {
        assert(all_names.take(paired as int) =~= all_names);
        assert(all_outcomes.take(paired as int) =~= all_outcomes);
    }
    lines
}

/// Whether a text holds the character.
pub open spec fn spec_holds(text: Seq<char>, c: char) -> bool {
    exists|i: int| 0 <= i < text.len() && text[i] == c
}

/// The address the browser is sent to for a server listening on `addr`: the address
/// itself if it names host and port, the local host if it names a port alone, and port
/// 8080 if it names a host alone.
pub open spec fn spec_browser_url(addr: Seq<char>) -> Seq<char> {
    if spec_holds(addr, ':') {
        if addr[0] == ':' {
            "http://127.0.0.1"@ + addr
        } else {
            "http://"@ + addr
        }
    } else {
        "http://"@ + addr + ":8080"@
    }
}

/// The address the browser is sent to; see [`spec_browser_url`].
pub fn browser_url(addr: &str) -> (url: String)
    ensures
        url@ == spec_browser_url(addr@),
{
    let chars = chars_of(addr);
    let mut found = false;
    let mut i: usize = 0;
    while i < chars.len() && !found
        invariant
            i <= chars.len(),
            chars@ == addr@,
            !found ==> forall|j: int| 0 <= j < i ==> chars[j] != ':',
            found ==> spec_holds(addr@, ':'),
        decreases chars.len() - i + (if found { 0int } else { 1int }),
    {
        if chars[i] == ':' {
            found = true;
        } else {
            i += 1;
        }
    }
    if found {
        if chars[0] == ':' {
            join_text("http://127.0.0.1", addr)
        } else {
            join_text("http://", addr)
        }
    } else {
        let mut url = join_text("http://", addr);
        url.append(":8080");
        url
    }
}

/// What the JSON document `document` holds as a string under `key` of its top level:
/// `None` if the text is no JSON document, `Some(None)` if the document holds no string
/// there.
pub uninterp spec fn spec_json_string_field(document: Seq<char>, key: Seq<char>) -> Option<
    Option<Seq<char>>,
>;

/// Reads a JSON document and returns the string under `key` of its top level.
///
/// Trusted: calls `serde_json::from_str` for a `serde_json::Value`, then indexes the
/// value by the key and takes it with `Value::as_str`. The result is a function of the
/// two texts alone; the contract names it and claims nothing more.
#[verifier::external_body]
fn json_string_field(document: &str, key: &str) -> (field: Option<Option<String>>)
    ensures
        match field {
            Some(found) => spec_json_string_field(document@, key@) == Some(found.deep_view()),
            None => spec_json_string_field(document@, key@) is None,
        },
{
    match serde_json::from_str::<serde_json::Value>(document) {
        Ok(value) => match value[key].as_str() {
            Some(text) => Some(Some(String::from(text))),
            None => Some(None),
        },
        Err(_) => None,
    }
}

/// The request a client of the WebSocket makes with a prompt and a model: an inference
/// call without id; a missing prompt is the empty prompt.
pub open spec fn spec_ws_input(
    prompt: Option<Seq<char>>,
    model: Option<Seq<char>>,
    config: InferenceConfig,
) -> BrainstemInputView {
    BrainstemInputView {
        id: None,
        command: BrainstemCommandView::Infer {
            model,
            prompt: match prompt {
                Some(text) => text,
                None => Seq::empty(),
            },
            config,
        },
    }
}

/// The request a client of the WebSocket makes; see [`spec_ws_input`].
pub fn ws_input(prompt: Option<String>, model: Option<String>, config: InferenceConfig) -> (input:
    BrainstemInput)
    ensures
        input@ == spec_ws_input(prompt.deep_view(), model.deep_view(), config),
{
    let prompt = match prompt {
        Some(text) => text,
        None => String::new(),
    };
    BrainstemInput { id: None, command: BrainstemCommand::Infer { model, prompt, config } }
}

/// The request a line received on the WebSocket makes: none if the line is no JSON
/// document, else an inference call with the strings under `prompt` and `model`.
pub fn ws_request(line: &str, config: InferenceConfig) -> (input: Option<BrainstemInput>)
    ensures
        match input {
            Some(made) => {
                &&& spec_json_string_field(line@, "prompt"@) matches Some(prompt)
                &&& spec_json_string_field(line@, "model"@) matches Some(model)
                &&& made@ == spec_ws_input(prompt, model, config)
            },
            None => spec_json_string_field(line@, "prompt"@) is None || spec_json_string_field(
                line@,
                "model"@,
            ) is None,
        },
{
    match json_string_field(line, "prompt") {
        Some(prompt) => match json_string_field(line, "model") {
            Some(model) => Some(ws_input(prompt, model, config)),
            None => None,
        },
        None => None,
    }
}

} // verus!
