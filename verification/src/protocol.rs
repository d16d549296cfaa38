//! The typed message protocol: request and response envelopes, commands, engine events and
//! asset events, each with its mathematical view.

use crate::manifest::InferenceConfig;
use crate::text::copy_opt_text;
use vstd::prelude::*;
use vstd::string::*;

verus! {

/// A step of the model's visible reasoning.
#[derive(Debug, PartialEq, Eq)]
pub enum ThoughtEvent {
    Start,
    Delta(String),
    Stop,
}

/// Mathematical content of a [`ThoughtEvent`].
pub enum ThoughtEventView {
    Start,
    Delta(Seq<char>),
    Stop,
}

impl View for ThoughtEvent {
    type V = ThoughtEventView;

    open spec fn view(&self) -> ThoughtEventView {
        match *self {
            ThoughtEvent::Start => ThoughtEventView::Start,
            ThoughtEvent::Delta(text) => ThoughtEventView::Delta(text@),
            ThoughtEvent::Stop => ThoughtEventView::Stop,
        }
    }
}

impl Clone for ThoughtEvent {
    fn clone(&self) -> (copy: Self)
        ensures
            copy@ == self@,
    {
        match self {
            ThoughtEvent::Start => ThoughtEvent::Start,
            ThoughtEvent::Delta(text) => ThoughtEvent::Delta(text.clone()),
            ThoughtEvent::Stop => ThoughtEvent::Stop,
        }
    }
}

/// One event of an engine call's stream.
///
/// An embedding is carried as the IEEE-754 single-precision bit patterns of its components.
#[derive(Debug, PartialEq, Eq)]
pub enum InferenceEvent {
    ProcessStart,
    Thought(ThoughtEvent),
    Content(String),
    Embedding(Vec<u32>),
    Complete,
}

/// Mathematical content of an [`InferenceEvent`].
pub enum InferenceEventView {
    ProcessStart,
    Thought(ThoughtEventView),
    Content(Seq<char>),
    Embedding(Seq<u32>),
    Complete,
}

impl View for InferenceEvent {
    type V = InferenceEventView;

    open spec fn view(&self) -> InferenceEventView {
        match *self {
            InferenceEvent::ProcessStart => InferenceEventView::ProcessStart,
            InferenceEvent::Thought(thought) => InferenceEventView::Thought(thought@),
            InferenceEvent::Content(text) => InferenceEventView::Content(text@),
            InferenceEvent::Embedding(components) => InferenceEventView::Embedding(components@),
            InferenceEvent::Complete => InferenceEventView::Complete,
        }
    }
}

impl Clone for InferenceEvent {
    fn clone(&self) -> (copy: Self)
        ensures
            copy@ == self@,
    {
        match self {
            InferenceEvent::ProcessStart => InferenceEvent::ProcessStart,
            InferenceEvent::Thought(thought) => InferenceEvent::Thought(thought.clone()),
            InferenceEvent::Content(text) => InferenceEvent::Content(text.clone()),
            InferenceEvent::Embedding(components) => {
                let copy = components.clone();
                assert(copy@ =~= components@);
                InferenceEvent::Embedding(copy)
            },
            InferenceEvent::Complete => InferenceEvent::Complete,
        }
    }
}

/// The views of a list of events, in order.
pub open spec fn event_views(list: Seq<InferenceEvent>) -> Seq<InferenceEventView> {
    Seq::new(list.len(), |i: int| list[i]@)
}

/// One event in the life of an asset resolution.
#[derive(Debug, PartialEq, Eq)]
pub enum AssetEvent {
    /// Resolution of the named model has begun.
    Started(String),
    /// Bytes received so far, and the expected total (0 while unknown).
    Progress(u64, u64),
    /// The asset is available at this path.
    Complete(String),
    /// Resolution failed, with a message for display.
    Error(String),
}

/// Mathematical content of an [`AssetEvent`].
pub enum AssetEventView {
    Started(Seq<char>),
    Progress(u64, u64),
    Complete(Seq<char>),
    Error(Seq<char>),
}

impl View for AssetEvent {
    type V = AssetEventView;

    open spec fn view(&self) -> AssetEventView {
        match *self {
            AssetEvent::Started(name) => AssetEventView::Started(name@),
            AssetEvent::Progress(current, total) => AssetEventView::Progress(current, total),
            AssetEvent::Complete(path) => AssetEventView::Complete(path@),
            AssetEvent::Error(message) => AssetEventView::Error(message@),
        }
    }
}

impl Clone for AssetEvent {
    fn clone(&self) -> (copy: Self)
        ensures
            copy@ == self@,
    {
        match self {
            AssetEvent::Started(name) => AssetEvent::Started(name.clone()),
            AssetEvent::Progress(current, total) => AssetEvent::Progress(*current, *total),
            AssetEvent::Complete(path) => AssetEvent::Complete(path.clone()),
            AssetEvent::Error(message) => AssetEvent::Error(message.clone()),
        }
    }
}

impl AssetEvent {
    /// Whether this event ends a resolution.
    pub open spec fn spec_is_terminal(&self) -> bool {
        self@.is_terminal()
    }

    /// Whether this event ends a resolution.
    #[verifier::when_used_as_spec(spec_is_terminal)]
    pub fn is_terminal(&self) -> (terminal: bool)
        ensures
            terminal == self@.is_terminal(),
    {
        match self {
            AssetEvent::Complete(_) => true,
            AssetEvent::Error(_) => true,
            _ => false,
        }
    }
}

impl AssetEventView {
    /// Whether this event ends a resolution: `Complete` and `Error` do.
    pub open spec fn is_terminal(self) -> bool {
        self is Complete || self is Error
    }
}

/// A model as the protocol lists it.
#[derive(Debug, PartialEq, Eq)]
pub struct ModelDescriptor {
    pub id: String,
    pub purpose: String,
}

/// Mathematical content of a [`ModelDescriptor`].
pub struct ModelDescriptorView {
    pub id: Seq<char>,
    pub purpose: Seq<char>,
}

impl View for ModelDescriptor {
    type V = ModelDescriptorView;

    open spec fn view(&self) -> ModelDescriptorView {
        ModelDescriptorView { id: self.id@, purpose: self.purpose@ }
    }
}

impl Clone for ModelDescriptor {
    fn clone(&self) -> (copy: Self)
        ensures
            copy@ == self@,
    {
        ModelDescriptor { id: self.id.clone(), purpose: self.purpose.clone() }
    }
}

/// The views of a list of descriptors, in order.
pub open spec fn descriptor_views(list: Seq<ModelDescriptor>) -> Seq<ModelDescriptorView> {
    Seq::new(list.len(), |i: int| list[i]@)
}

/// A copy of a list of descriptors.
pub fn copy_descriptors(list: &Vec<ModelDescriptor>) -> (copy: Vec<ModelDescriptor>)
    ensures
        descriptor_views(copy@) == descriptor_views(list@),
{
    let mut copy: Vec<ModelDescriptor> = Vec::new();
    let mut i: usize = 0;
    while i < list.len()
        invariant
            i <= list.len(),
            copy.len() == i,
            forall|j: int| 0 <= j < i ==> copy[j]@ == list[j]@,
        decreases list.len() - i,
    {
        copy.push(list[i].clone());
        i += 1;
    }
    assert(descriptor_views(copy@) =~= descriptor_views(list@));
    copy
}

/// What a request asks of the runtime.
#[derive(Debug, PartialEq, Eq)]
pub enum BrainstemCommand {
    LoadModel(String),
    Infer { model: Option<String>, prompt: String, config: InferenceConfig },
    Embed { model: Option<String>, input: String, config: InferenceConfig },
    ListModels,
    Reset,
    Stop,
}

/// Mathematical content of a [`BrainstemCommand`].
pub enum BrainstemCommandView {
    LoadModel(Seq<char>),
    Infer { model: Option<Seq<char>>, prompt: Seq<char>, config: InferenceConfig },
    Embed { model: Option<Seq<char>>, input: Seq<char>, config: InferenceConfig },
    ListModels,
    Reset,
    Stop,
}

impl View for BrainstemCommand {
    type V = BrainstemCommandView;

    open spec fn view(&self) -> BrainstemCommandView {
        match *self {
            BrainstemCommand::LoadModel(name) => BrainstemCommandView::LoadModel(name@),
            BrainstemCommand::Infer { model, prompt, config } => BrainstemCommandView::Infer {
                model: model.deep_view(),
                prompt: prompt@,
                config,
            },
            BrainstemCommand::Embed { model, input, config } => BrainstemCommandView::Embed {
                model: model.deep_view(),
                input: input@,
                config,
            },
            BrainstemCommand::ListModels => BrainstemCommandView::ListModels,
            BrainstemCommand::Reset => BrainstemCommandView::Reset,
            BrainstemCommand::Stop => BrainstemCommandView::Stop,
        }
    }
}

impl Clone for BrainstemCommand {
    fn clone(&self) -> (copy: Self)
        ensures
            copy@ == self@,
    {
        match self {
            BrainstemCommand::LoadModel(name) => BrainstemCommand::LoadModel(name.clone()),
            BrainstemCommand::Infer { model, prompt, config } => BrainstemCommand::Infer {
                model: copy_opt_text(model),
                prompt: prompt.clone(),
                config: *config,
            },
            BrainstemCommand::Embed { model, input, config } => BrainstemCommand::Embed {
                model: copy_opt_text(model),
                input: input.clone(),
                config: *config,
            },
            BrainstemCommand::ListModels => BrainstemCommand::ListModels,
            BrainstemCommand::Reset => BrainstemCommand::Reset,
            BrainstemCommand::Stop => BrainstemCommand::Stop,
        }
    }
}

/// The request envelope: a command under an optional correlation id.
#[derive(Debug, PartialEq, Eq)]
pub struct BrainstemInput {
    pub id: Option<String>,
    pub command: BrainstemCommand,
}

/// Mathematical content of a [`BrainstemInput`].
pub struct BrainstemInputView {
    pub id: Option<Seq<char>>,
    pub command: BrainstemCommandView,
}

impl View for BrainstemInput {
    type V = BrainstemInputView;

    open spec fn view(&self) -> BrainstemInputView {
        BrainstemInputView { id: self.id.deep_view(), command: self.command@ }
    }
}

impl Clone for BrainstemInput {
    fn clone(&self) -> (copy: Self)
        ensures
            copy@ == self@,
    {
        BrainstemInput { id: copy_opt_text(&self.id), command: self.command.clone() }
    }
}

/// What a response carries.
#[derive(Debug, PartialEq, Eq)]
pub enum BrainstemBody {
    /// An event of an inference or embedding call.
    Event(InferenceEvent),
    /// Progress or status of an asset resolution.
    Asset(AssetEvent),
    /// The models the registry knows.
    ModelList(Vec<ModelDescriptor>),
    /// A failure of the engine or of the orchestrator, for display.
    Error(String),
}

/// Mathematical content of a [`BrainstemBody`].
pub enum BrainstemBodyView {
    Event(InferenceEventView),
    Asset(AssetEventView),
    ModelList(Seq<ModelDescriptorView>),
    Error(Seq<char>),
}

impl View for BrainstemBody {
    type V = BrainstemBodyView;

    open spec fn view(&self) -> BrainstemBodyView {
        match *self {
            BrainstemBody::Event(event) => BrainstemBodyView::Event(event@),
            BrainstemBody::Asset(event) => BrainstemBodyView::Asset(event@),
            BrainstemBody::ModelList(list) => BrainstemBodyView::ModelList(descriptor_views(list@)),
            BrainstemBody::Error(message) => BrainstemBodyView::Error(message@),
        }
    }
}

impl Clone for BrainstemBody {
    fn clone(&self) -> (copy: Self)
        ensures
            copy@ == self@,
    {
        match self {
            BrainstemBody::Event(event) => BrainstemBody::Event(event.clone()),
            BrainstemBody::Asset(event) => BrainstemBody::Asset(event.clone()),
            BrainstemBody::ModelList(list) => BrainstemBody::ModelList(copy_descriptors(list)),
            BrainstemBody::Error(message) => BrainstemBody::Error(message.clone()),
        }
    }
}

impl BrainstemBodyView {
    /// Whether this body closes the exchange it belongs to: the engine's `Complete`, an
    /// error, a terminal asset event, or a model list.
    pub open spec fn is_terminal(self) -> bool {
        match self {
            BrainstemBodyView::Event(event) => event is Complete,
            BrainstemBodyView::Asset(event) => event.is_terminal(),
            BrainstemBodyView::ModelList(_) => true,
            BrainstemBodyView::Error(_) => true,
        }
    }
}

/// The response envelope: a body under the correlation id of the request it answers.
#[derive(Debug, PartialEq, Eq)]
pub struct BrainstemOutput {
    pub id: Option<String>,
    pub body: BrainstemBody,
}

/// Mathematical content of a [`BrainstemOutput`].
pub struct BrainstemOutputView {
    pub id: Option<Seq<char>>,
    pub body: BrainstemBodyView,
}

impl View for BrainstemOutput {
    type V = BrainstemOutputView;

    open spec fn view(&self) -> BrainstemOutputView {
        BrainstemOutputView { id: self.id.deep_view(), body: self.body@ }
    }
}

impl Clone for BrainstemOutput {
    fn clone(&self) -> (copy: Self)
        ensures
            copy@ == self@,
    {
        BrainstemOutput { id: copy_opt_text(&self.id), body: self.body.clone() }
    }
}

/// The views of a list of responses, in order.
pub open spec fn output_views(list: Seq<BrainstemOutput>) -> Seq<BrainstemOutputView> {
    Seq::new(list.len(), |i: int| list[i]@)
}

} // verus!
