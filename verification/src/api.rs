//! The HTTP edge: the shapes of its requests and responses, and what a handler makes of
//! the envelopes it is sent while it waits for the answer to its own request.

use crate::protocol::{
    BrainstemBody, BrainstemBodyView, BrainstemOutput, BrainstemOutputView, InferenceEvent,
    InferenceEventView, ModelDescriptor, ModelDescriptorView, descriptor_views,
};
use crate::text::{join_text, decimal, same_text, spec_decimal};
use vstd::prelude::*;
use vstd::string::*;

verus! {

/// One model, as `GET /v1/models` lists it.
#[derive(Debug, PartialEq, Eq)]
pub struct ModelResponse {
    pub id: String,
    pub object: String,
    pub purpose: String,
}

/// The answer to `GET /v1/models`.
#[derive(Debug, PartialEq, Eq)]
pub struct ModelList {
    pub object: String,
    pub data: Vec<ModelResponse>,
}

/// One message of a chat request.
#[derive(Debug, PartialEq, Eq)]
pub struct ChatMessage {
    pub role: String,
    pub content: String,
}

/// The body of `POST /v1/chat/completions`.
#[derive(Debug, PartialEq, Eq)]
pub struct ChatCompletionRequest {
    pub model: String,
    pub messages: Vec<ChatMessage>,
}

/// The message of a chat answer.
#[derive(Debug, PartialEq, Eq)]
pub struct ChatMessageOut {
    pub role: String,
    pub content: String,
}

/// One choice of a chat answer.
#[derive(Debug, PartialEq, Eq)]
pub struct ChatChoice {
    pub index: usize,
    pub message: ChatMessageOut,
    pub finish_reason: String,
}

/// The answer to `POST /v1/chat/completions`.
#[derive(Debug, PartialEq, Eq)]
pub struct ChatCompletionResponse {
    pub id: String,
    pub object: String,
    pub created: u64,
    pub model: String,
    pub choices: Vec<ChatChoice>,
}

/// The body of `POST /v1/embeddings`.
#[derive(Debug, PartialEq, Eq)]
pub struct EmbeddingRequest {
    pub model: String,
    pub input: String,
}

/// One embedding of an answer; its components are single-precision bit patterns.
#[derive(Debug, PartialEq, Eq)]
pub struct EmbeddingData {
    pub object: String,
    pub embedding: Vec<u32>,
    pub index: usize,
}

/// The answer to `POST /v1/embeddings`.
#[derive(Debug, PartialEq, Eq)]
pub struct EmbeddingResponse {
    pub object: String,
    pub data: Vec<EmbeddingData>,
    pub model: String,
}

/// The answer to `GET /v1/config`.
#[derive(Debug, PartialEq, Eq)]
pub struct ApiConfig {
    pub ws_addr: String,
}

/// The correlation id of a request made at `micros` microseconds of the clock.
pub open spec fn spec_request_id(prefix: Seq<char>, micros: u128) -> Seq<char> {
    prefix + spec_decimal(micros as nat)
}

/// The correlation id of a request made at `micros` microseconds of the clock: the
/// prefix of its kind, then the time.
pub fn request_id(prefix: &str, micros: u128) -> (id: String)
    ensures
        id@ == spec_request_id(prefix@, micros),
{
    join_text(prefix, decimal(micros).as_str())
}

/// The prompt of a chat request: the content of its last message, empty if it has none.
pub open spec fn spec_last_prompt(messages: Seq<ChatMessage>) -> Seq<char> {
    if messages.len() == 0 {
        Seq::empty()
    } else {
        messages.last().content@
    }
}

/// The prompt of a chat request: the content of its last message, empty if it has none.
pub fn last_prompt(messages: &Vec<ChatMessage>) -> (prompt: String)
    ensures
        prompt@ == spec_last_prompt(messages@),
{
    if messages.len() == 0 {
        String::new()
    } else {
        messages[messages.len() - 1].content.clone()
    }
}

/// What a handler waits for.
#[derive(Debug, Clone, Copy, PartialEq, Eq)]
pub enum Wanted {
    /// The content of an inference call, up to `Complete`.
    Chat,
    /// The embedding of an embedding call, up to `Complete`.
    Embedding,
    /// The list of models.
    Models,
    /// The acknowledgement of a reset.
    Reset,
}

/// How far a handler's wait has come.
#[derive(Debug, PartialEq, Eq)]
pub enum Status {
    /// The answer is not complete.
    Pending,
    /// The answer is complete.
    Done,
    /// The request failed, with this message.
    Failed(String),
}

/// Mathematical content of a [`Status`].
pub enum StatusView {
    Pending,
    Done,
    Failed(Seq<char>),
}

impl View for Status {
    type V = StatusView;

    open spec fn view(&self) -> StatusView {
        match *self {
            Status::Pending => StatusView::Pending,
            Status::Done => StatusView::Done,
            Status::Failed(message) => StatusView::Failed(message@),
        }
    }
}

/// Mathematical content of a [`Collector`].
pub struct CollectorView {
    /// The id of the handler's request.
    pub request_id: Seq<char>,
    /// What the handler waits for.
    pub wanted: Wanted,
    /// The content gathered.
    pub content: Seq<char>,
    /// The embedding received last.
    pub embedding: Option<Seq<u32>>,
    /// The models listed.
    pub models: Seq<ModelDescriptorView>,
    /// How far the wait has come.
    pub status: StatusView,
}

/// What a collector makes of one envelope. An envelope under another id is not for this
/// handler and changes nothing, and neither does any envelope once the answer is complete
/// or has failed. Of its own envelopes a handler gathers content, keeps the embedding or
/// takes the list, as it wants; `Complete` ends a call and an error fails the request.
pub open spec fn spec_observe(c: CollectorView, output: BrainstemOutputView) -> CollectorView {
    if !(c.status is Pending) || output.id != Some(c.request_id) {
        c
    } else {
        match output.body {
            BrainstemBodyView::Error(message) => CollectorView {
                status: StatusView::Failed(message),
                ..c
            },
            BrainstemBodyView::Event(InferenceEventView::Content(text)) => if c.wanted is Chat {
                CollectorView { content: c.content + text, ..c }
            } else {
                c
            },
            BrainstemBodyView::Event(InferenceEventView::Embedding(components)) => if c.wanted
                is Embedding {
                CollectorView { embedding: Some(components), ..c }
            } else {
                c
            },
            BrainstemBodyView::Event(InferenceEventView::Complete) => if c.wanted is Models {
                c
            } else {
                CollectorView { status: StatusView::Done, ..c }
            },
            BrainstemBodyView::ModelList(models) => if c.wanted is Models {
                CollectorView { models, status: StatusView::Done, ..c }
            } else {
                c
            },
            _ => c,
        }
    }
}

/// What a collector makes of a list of envelopes, taken in order.
pub open spec fn spec_observe_all(c: CollectorView, outputs: Seq<BrainstemOutputView>) -> CollectorView
    decreases outputs.len(),
{
    if outputs.len() == 0 {
        c
    } else {
        spec_observe(spec_observe_all(c, outputs.drop_last()), outputs.last())
    }
}

/// The envelopes of a list that carry the given id, in order.
pub open spec fn spec_own(outputs: Seq<BrainstemOutputView>, id: Seq<char>) -> Seq<
    BrainstemOutputView,
>
    decreases outputs.len(),
{
    if outputs.len() == 0 {
        Seq::empty()
    } else if outputs.last().id == Some(id) {
        spec_own(outputs.drop_last(), id).push(outputs.last())
    } else {
        spec_own(outputs.drop_last(), id)
    }
}

/// A handler sees its own exchange and nothing else: what it makes of everything that is
/// broadcast is what it makes of the envelopes under its own id, whatever was emitted for
/// other requests in between.
pub proof fn law_handlers_filter_by_id(c: CollectorView, outputs: Seq<BrainstemOutputView>)
    ensures
        spec_observe_all(c, outputs) == spec_observe_all(c, spec_own(outputs, c.request_id)),
        spec_observe_all(c, outputs).request_id == c.request_id,
    decreases outputs.len(),
{
    if outputs.len() != 0 {
        law_handlers_filter_by_id(c, outputs.drop_last());
        let own = spec_own(outputs.drop_last(), c.request_id);
        if outputs.last().id == Some(c.request_id) {
            assert(own.push(outputs.last()).drop_last() =~= own);
        }
    }
}

/// Gathers, from everything that is broadcast, the answer to one request.
pub struct Collector {
    request_id: String,
    wanted: Wanted,
    content: String,
    embedding: Option<Vec<u32>>,
    models: Vec<ModelDescriptor>,
    status: Status,
}

impl View for Collector {
    type V = CollectorView;

    closed spec fn view(&self) -> CollectorView {
        CollectorView {
            request_id: self.request_id@,
            wanted: self.wanted,
            content: self.content@,
            embedding: match self.embedding {
                Some(components) => Some(components@),
                None => None,
            },
            models: descriptor_views(self.models@),
            status: self.status@,
        }
    }
}

impl Collector {
    /// A collector for the answer to the request with the given id.
    pub fn new(request_id: String, wanted: Wanted) -> (collector: Self)
        ensures
            collector@ == (CollectorView {
                request_id: request_id@,
                wanted,
                content: Seq::empty(),
                embedding: None,
                models: Seq::empty(),
                status: StatusView::Pending,
            }),
    {
        let collector = Collector {
            request_id,
            wanted,
            content: String::new(),
            embedding: None,
            models: Vec::new(),
            status: Status::Pending,
        };
        assert(descriptor_views(collector.models@) =~= Seq::<ModelDescriptorView>::empty());
        collector
    }

    /// Whether the answer is still incomplete.
    pub fn is_pending(&self) -> (pending: bool)
        ensures
            pending == (self@.status is Pending),
    {
        match self.status {
            Status::Pending => true,
            _ => false,
        }
    }

    /// The message of the failure, if the request failed.
    pub fn failure(&self) -> (message: Option<String>)
        ensures
            match message {
                Some(text) => self@.status == StatusView::Failed(text@),
                None => !(self@.status is Failed),
            },
    {
        match &self.status {
            Status::Failed(message) => Some(message.clone()),
            _ => None,
        }
    }

    /// Takes one envelope; see [`spec_observe`].
    pub fn observe(&mut self, output: BrainstemOutput)
        ensures
            final(self)@ == spec_observe(old(self)@, output@),
    {
        if !self.is_pending() {
            return ;
        }
        let BrainstemOutput { id, body } = output;
        let own = match id {
            Some(id) => same_text(id.as_str(), self.request_id.as_str()),
            None => false,
        };
        if !own {
            return ;
        }
        match body {
            BrainstemBody::Error(message) => {
                self.status = Status::Failed(message);
            },
            BrainstemBody::Event(InferenceEvent::Content(text)) => {
                match self.wanted {
                    Wanted::Chat => {
                        self.content.append(text.as_str());
                    },
                    _ => {},
                }
            },
            BrainstemBody::Event(InferenceEvent::Embedding(components)) => {
                match self.wanted {
                    Wanted::Embedding => {
                        self.embedding = Some(components);
                    },
                    _ => {},
                }
            },
            BrainstemBody::Event(InferenceEvent::Complete) => {
                match self.wanted {
                    Wanted::Models => {},
                    _ => {
                        self.status = Status::Done;
                    },
                }
            },
            BrainstemBody::ModelList(models) => {
                match self.wanted {
                    Wanted::Models => {
                        self.models = models;
                        self.status = Status::Done;
                    },
                    _ => {},
                }
            },
            _ => {},
        }
    }

    /// The chat answer made of the content gathered.
    pub fn chat_response(&self, model: String, created: u64) -> (response: ChatCompletionResponse)
        ensures
            response.id@ == "gen-"@ + self@.request_id,
            response.object@ == "chat.completion"@,
            response.created == created,
            response.model@ == model@,
            response.choices@.len() == 1,
            response.choices@[0].index == 0,
            response.choices@[0].message.role@ == "assistant"@,
            response.choices@[0].message.content@ == self@.content,
            response.choices@[0].finish_reason@ == "stop"@,
    {
        let mut choices: Vec<ChatChoice> = Vec::new();
        choices.push(
            ChatChoice {
                index: 0,
                message: ChatMessageOut {
                    role: String::from_str("assistant"),
                    content: self.content.clone(),
                },
                finish_reason: String::from_str("stop"),
            },
        );
        ChatCompletionResponse {
            id: join_text("gen-", self.request_id.as_str()),
            object: String::from_str("chat.completion"),
            created,
            model,
            choices,
        }
    }

    /// The embedding answer, if an embedding was received.
    pub fn embedding_response(&self, model: String) -> (response: Option<EmbeddingResponse>)
        ensures
            response is Some <==> self@.embedding is Some,
            response matches Some(r) ==> {
                &&& r.object@ == "list"@
                &&& r.model@ == model@
                &&& r.data@.len() == 1
                &&& r.data@[0].object@ == "embedding"@
                &&& r.data@[0].index == 0
                &&& r.data@[0].embedding@ == self@.embedding->0
            },
    {
        match &self.embedding {
            Some(components) => {
                let embedding = components.clone();
                assert(embedding@ =~= components@);
                let mut data: Vec<EmbeddingData> = Vec::new();
                data.push(
                    EmbeddingData { object: String::from_str("embedding"), embedding, index: 0 },
                );
                Some(EmbeddingResponse { object: String::from_str("list"), data, model })
            },
            None => None,
        }
    }

    /// The list of models received.
    pub fn model_list(&self) -> (list: ModelList)
        ensures
            list.object@ == "list"@,
            list.data@.len() == self@.models.len(),
            forall|i: int|
                0 <= i < list.data@.len() ==> {
                    &&& (#[trigger] list.data@[i]).id@ == self@.models[i].id
                    &&& list.data@[i].object@ == "model"@
                    &&& list.data@[i].purpose@ == self@.models[i].purpose
                },
    {
        let mut data: Vec<ModelResponse> = Vec::new();
        let mut i: usize = 0;
        while i < self.models.len()
            invariant
                i <= self.models.len(),
                data.len() == i,
                forall|j: int|
                    0 <= j < i ==> {
                        &&& (#[trigger] data@[j]).id@ == self.models@[j].id@
                        &&& data@[j].object@ == "model"@
                        &&& data@[j].purpose@ == self.models@[j].purpose@
                    },
            decreases self.models.len() - i,
        {
            data.push(
                ModelResponse {
                    id: self.models[i].id.clone(),
                    object: String::from_str("model"),
                    purpose: self.models[i].purpose.clone(),
                },
            );
            i += 1;
        }
        ModelList { object: String::from_str("list"), data }
    }
}

/// What the facade does with one envelope while it relays the events of a call.
#[derive(Debug, PartialEq, Eq)]
pub enum Relay {
    /// Not for this call, or of no interest: go on.
    Skip,
    /// Hand the event on and go on.
    Forward(InferenceEvent),
    /// Hand the event on; it is the last.
    Finish(InferenceEvent),
    /// The call failed with this message; stop.
    Abort(String),
}

/// Mathematical content of a [`Relay`].
pub enum RelayView {
    Skip,
    Forward(InferenceEventView),
    Finish(InferenceEventView),
    Abort(Seq<char>),
}

impl View for Relay {
    type V = RelayView;

    open spec fn view(&self) -> RelayView {
        match *self {
            Relay::Skip => RelayView::Skip,
            Relay::Forward(event) => RelayView::Forward(event@),
            Relay::Finish(event) => RelayView::Finish(event@),
            Relay::Abort(message) => RelayView::Abort(message@),
        }
    }
}

/// What the facade does with one envelope: events under the id of its call are handed
/// on, `Complete` being the last; an error under that id ends the call; all else is
/// skipped.
pub open spec fn spec_relay(request_id: Seq<char>, output: BrainstemOutputView) -> RelayView {
    if output.id != Some(request_id) {
        RelayView::Skip
    } else {
        match output.body {
            BrainstemBodyView::Event(event) => if event is Complete {
                RelayView::Finish(event)
            } else {
                RelayView::Forward(event)
            },
            BrainstemBodyView::Error(message) => RelayView::Abort(message),
            _ => RelayView::Skip,
        }
    }
}

/// What the facade does with one envelope; see [`spec_relay`].
pub fn relay(request_id: &str, output: BrainstemOutput) -> (action: Relay)
    ensures
        action@ == spec_relay(request_id@, output@),
{
    let BrainstemOutput { id, body } = output;
    let own = match id {
        Some(id) => same_text(id.as_str(), request_id),
        None => false,
    };
    if !own {
        return Relay::Skip;
    }
    match body {
        BrainstemBody::Event(event) => match event {
            InferenceEvent::Complete => Relay::Finish(InferenceEvent::Complete),
            other => Relay::Forward(other),
        },
        BrainstemBody::Error(message) => Relay::Abort(message),
        _ => Relay::Skip,
    }
}

} // verus!
