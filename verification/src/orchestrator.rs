//! The orchestrator's decisions, as a state machine: one signal from the outside world in,
//! the envelopes to emit and the next thing to do out.
//!
//! The machine serializes command handling, honours the hibernation policy, reloads a model
//! when a call finds the engine cold, and tags every envelope with the id of the request it
//! answers. It performs no work itself: whoever drives it waits for input, runs the asset
//! authority and calls the engine, and reports what happened as the next signal.
//!
//! Times are readings, in nanoseconds, of one clock that the driver keeps; spans of time
//! are nanoseconds too.

pub mod laws;
pub mod runtime;

use crate::assets::AssetAuthority;
use crate::manifest::InferenceConfig;
use crate::protocol::{
    AssetEvent, AssetEventView, BrainstemBody, BrainstemBodyView, BrainstemCommand,
    BrainstemCommandView, BrainstemInput, BrainstemInputView, BrainstemOutput, BrainstemOutputView,
    InferenceEvent, InferenceEventView, output_views,
};
use crate::registry::{ModelEntryView, spec_descriptors};
use crate::text::{join_text, copy_opt_text};
use vstd::prelude::*;
use vstd::string::*;

verus! {

/// Nanoseconds of inactivity after which a fresh orchestrator unloads its model: 5 minutes.
pub const DEFAULT_HIBERNATION: u128 = 300_000_000_000;

/// When the engine gives its model up.
#[derive(Debug, Clone, Copy, PartialEq, Eq)]
pub enum CortexStrategy {
    /// Unload after every command.
    Immediate,
    /// Unload after this many nanoseconds without a command.
    HibernateAfter(u128),
    /// Never unload.
    KeepAlive,
}

/// A call to the engine that a request asks for.
#[derive(Debug, PartialEq, Eq)]
pub enum EngineCall {
    Infer { prompt: String, config: InferenceConfig },
    Embed { input: String, config: InferenceConfig },
}

/// Mathematical content of an [`EngineCall`].
pub enum EngineCallView {
    Infer { prompt: Seq<char>, config: InferenceConfig },
    Embed { input: Seq<char>, config: InferenceConfig },
}

impl View for EngineCall {
    type V = EngineCallView;

    open spec fn view(&self) -> EngineCallView {
        match *self {
            EngineCall::Infer { prompt, config } => EngineCallView::Infer { prompt: prompt@, config },
            EngineCall::Embed { input, config } => EngineCallView::Embed { input: input@, config },
        }
    }
}

/// What happened outside the machine.
#[derive(Debug, PartialEq, Eq)]
pub enum Signal {
    /// The loop starts, or a wait ended without input.
    Wake,
    /// The inbound channel is closed.
    Closed,
    /// A request arrived. `default_model` is the engine's fallback name.
    Input { message: BrainstemInput, default_model: String },
    /// The streaming resolution produced an event.
    Asset(AssetEvent),
    /// The streaming resolution ended.
    AssetsDone,
    /// The blocking resolution returned a path, or failed.
    Resolved(Result<String, String>),
    /// The engine finished loading, or failed to.
    Loaded(Result<(), String>),
    /// The engine finished unloading, or failed to.
    Unloaded(Result<(), String>),
    /// The engine accepted the call and opened a stream, or refused.
    Started(Result<(), String>),
    /// The engine's stream yielded an item.
    Item(Result<InferenceEvent, String>),
    /// The engine's stream is exhausted.
    Drained,
}

/// Mathematical content of a [`Signal`].
pub enum SignalView {
    Wake,
    Closed,
    Input { message: BrainstemInputView, default_model: Seq<char> },
    Asset(AssetEventView),
    AssetsDone,
    Resolved(Result<Seq<char>, Seq<char>>),
    Loaded(Result<(), Seq<char>>),
    Unloaded(Result<(), Seq<char>>),
    Started(Result<(), Seq<char>>),
    Item(Result<InferenceEventView, Seq<char>>),
    Drained,
}

/// The view of an outcome that carries a message on failure.
pub open spec fn outcome_view(outcome: Result<(), String>) -> Result<(), Seq<char>> {
    match outcome {
        Ok(_) => Ok(()),
        Err(message) => Err(message@),
    }
}

impl View for Signal {
    type V = SignalView;

    open spec fn view(&self) -> SignalView {
        match *self {
            Signal::Wake => SignalView::Wake,
            Signal::Closed => SignalView::Closed,
            Signal::Input { message, default_model } => SignalView::Input {
                message: message@,
                default_model: default_model@,
            },
            Signal::Asset(event) => SignalView::Asset(event@),
            Signal::AssetsDone => SignalView::AssetsDone,
            Signal::Resolved(outcome) => SignalView::Resolved(
                match outcome {
                    Ok(path) => Ok(path@),
                    Err(message) => Err(message@),
                },
            ),
            Signal::Loaded(outcome) => SignalView::Loaded(outcome_view(outcome)),
            Signal::Unloaded(outcome) => SignalView::Unloaded(outcome_view(outcome)),
            Signal::Started(outcome) => SignalView::Started(outcome_view(outcome)),
            Signal::Item(item) => SignalView::Item(
                match item {
                    Ok(event) => Ok(event@),
                    Err(message) => Err(message@),
                },
            ),
            Signal::Drained => SignalView::Drained,
        }
    }
}

/// What the driver is to do next; its outcome is the next signal.
#[derive(Debug, PartialEq, Eq)]
pub enum Directive {
    /// Wait for the next request, for at most this many nanoseconds if a bound is given.
    /// Answer with `Input`, `Closed`, or `Wake` when the bound expires.
    Await(Option<u128>),
    /// Start a streaming resolution of this name and report its first event with `Asset`,
    /// or `AssetsDone` if there is none.
    ResolveStream(String),
    /// Report the next event of the running resolution.
    NextAsset,
    /// Resolve this name in the blocking form and answer with `Resolved`.
    ResolveBlocking(String),
    /// Load the model at this path and answer with `Loaded`.
    Load(String),
    /// Unload the model and answer with `Unloaded`.
    Unload,
    /// Make this call and answer with `Started`.
    Call(EngineCall),
    /// Report the next item of the engine's stream with `Item`, or `Drained`.
    NextItem,
    /// Leave the loop.
    Exit,
    /// The signal did not answer what the machine is waiting for and was ignored.
    Rejected,
}

/// Mathematical content of a [`Directive`].
pub enum DirectiveView {
    Await(Option<u128>),
    ResolveStream(Seq<char>),
    NextAsset,
    ResolveBlocking(Seq<char>),
    Load(Seq<char>),
    Unload,
    Call(EngineCallView),
    NextItem,
    Exit,
    Rejected,
}

impl View for Directive {
    type V = DirectiveView;

    open spec fn view(&self) -> DirectiveView {
        match *self {
            Directive::Await(bound) => DirectiveView::Await(bound),
            Directive::ResolveStream(name) => DirectiveView::ResolveStream(name@),
            Directive::NextAsset => DirectiveView::NextAsset,
            Directive::ResolveBlocking(name) => DirectiveView::ResolveBlocking(name@),
            Directive::Load(path) => DirectiveView::Load(path@),
            Directive::Unload => DirectiveView::Unload,
            Directive::Call(call) => DirectiveView::Call(call@),
            Directive::NextItem => DirectiveView::NextItem,
            Directive::Exit => DirectiveView::Exit,
            Directive::Rejected => DirectiveView::Rejected,
        }
    }
}

/// The machine's answer to one signal.
#[derive(Debug, PartialEq, Eq)]
pub struct Reaction {
    /// The envelopes to emit, in order.
    pub outputs: Vec<BrainstemOutput>,
    /// What to do next.
    pub next: Directive,
    /// A failure that is survived in silence, for the driver's log.
    pub notice: Option<String>,
}

/// Mathematical content of a [`Reaction`].
pub struct ReactionView {
    pub outputs: Seq<BrainstemOutputView>,
    pub next: DirectiveView,
    pub notice: Option<Seq<char>>,
}

impl View for Reaction {
    type V = ReactionView;

    open spec fn view(&self) -> ReactionView {
        ReactionView {
            outputs: output_views(self.outputs@),
            next: self.next@,
            notice: self.notice.deep_view(),
        }
    }
}

/// Where the machine stands in the handling of a request.
#[derive(Debug, PartialEq, Eq)]
pub enum Phase {
    /// No request is being handled.
    Idle,
    /// The idle engine is being unloaded.
    Hibernating,
    /// `LoadModel`: the asset events of this name are being forwarded.
    Resolving { name: String },
    /// `LoadModel`: the engine is loading the resolved file of this name.
    Loading { name: String },
    /// Cold reload: this name is being resolved before the call is made.
    ColdResolving { name: String, call: EngineCall },
    /// Cold reload: the engine is loading the resolved file before the call is made.
    ColdLoading { name: String, call: EngineCall },
    /// The engine was handed a call and has not answered yet.
    Starting,
    /// The engine's stream is being forwarded.
    Streaming,
    /// `Reset`: the engine is being unloaded.
    Resetting,
    /// The loop has ended.
    Stopped,
}

/// Mathematical content of a [`Phase`].
pub enum PhaseView {
    Idle,
    Hibernating,
    Resolving { name: Seq<char> },
    Loading { name: Seq<char> },
    ColdResolving { name: Seq<char>, call: EngineCallView },
    ColdLoading { name: Seq<char>, call: EngineCallView },
    Starting,
    Streaming,
    Resetting,
    Stopped,
}

impl View for Phase {
    type V = PhaseView;

    open spec fn view(&self) -> PhaseView {
        match *self {
            Phase::Idle => PhaseView::Idle,
            Phase::Hibernating => PhaseView::Hibernating,
            Phase::Resolving { name } => PhaseView::Resolving { name: name@ },
            Phase::Loading { name } => PhaseView::Loading { name: name@ },
            Phase::ColdResolving { name, call } => PhaseView::ColdResolving {
                name: name@,
                call: call@,
            },
            Phase::ColdLoading { name, call } => PhaseView::ColdLoading { name: name@, call: call@ },
            Phase::Starting => PhaseView::Starting,
            Phase::Streaming => PhaseView::Streaming,
            Phase::Resetting => PhaseView::Resetting,
            Phase::Stopped => PhaseView::Stopped,
        }
    }
}

/// Mathematical content of the machine's state.
pub struct BrainstemView {
    /// The registry's entries.
    pub registry: Seq<ModelEntryView>,
    /// The hibernation policy.
    pub strategy: CortexStrategy,
    /// When the last request arrived.
    pub last_activity: u128,
    /// The name under which the engine's model was last loaded.
    pub last_model_name: Option<Seq<char>>,
    /// The correlation id of the request being handled.
    pub request_id: Option<Seq<char>>,
    /// Where the handling of that request stands.
    pub phase: PhaseView,
}

/// An envelope under the given id.
pub open spec fn spec_envelope(id: Option<Seq<char>>, body: BrainstemBodyView) -> BrainstemOutputView {
    BrainstemOutputView { id, body }
}

/// Time since the last request, zero if the clock reads earlier than that.
pub open spec fn spec_elapsed(last_activity: u128, now: u128) -> u128 {
    if now >= last_activity {
        (now - last_activity) as u128
    } else {
        0
    }
}

/// The idle time the policy tolerates, if it sets a bound.
pub open spec fn spec_tolerance(strategy: CortexStrategy) -> Option<u128> {
    match strategy {
        CortexStrategy::Immediate => Some(0),
        CortexStrategy::HibernateAfter(bound) => Some(bound),
        CortexStrategy::KeepAlive => None,
    }
}

/// The model a cold reload loads: the one the request names, else the one loaded last,
/// else the engine's default.
pub open spec fn spec_chosen_model(
    requested: Option<Seq<char>>,
    last_model_name: Option<Seq<char>>,
    default_model: Seq<char>,
) -> Seq<char> {
    match requested {
        Some(name) => name,
        None => match last_model_name {
            Some(name) => name,
            None => default_model,
        },
    }
}

/// The machine back at rest after a request, with the envelopes that close it: the idle
/// engine is unloaded if the policy's bound has passed, else the next wait is bounded by
/// what is left of it.
pub open spec fn spec_settle(
    s: BrainstemView,
    outputs: Seq<BrainstemOutputView>,
    now: u128,
    loaded: bool,
) -> (BrainstemView, ReactionView) {
    let rest = BrainstemView { phase: PhaseView::Idle, request_id: None, ..s };
    let elapsed = spec_elapsed(s.last_activity, now);
    match spec_tolerance(s.strategy) {
        None => (rest, ReactionView { outputs, next: DirectiveView::Await(None), notice: None }),
        Some(bound) => if elapsed >= bound {
            if loaded {
                (
                    BrainstemView { phase: PhaseView::Hibernating, ..rest },
                    ReactionView { outputs, next: DirectiveView::Unload, notice: None },
                )
            } else {
                (rest, ReactionView { outputs, next: DirectiveView::Await(None), notice: None })
            }
        } else {
            (
                rest,
                ReactionView {
                    outputs,
                    next: DirectiveView::Await(Some((bound - elapsed) as u128)),
                    notice: None,
                },
            )
        },
    }
}

/// The machine unchanged, the signal ignored.
pub open spec fn spec_rejected(s: BrainstemView) -> (BrainstemView, ReactionView) {
    (s, ReactionView { outputs: Seq::empty(), next: DirectiveView::Rejected, notice: None })
}

/// The machine in a new phase, with no envelope and one directive.
pub open spec fn spec_proceed(s: BrainstemView, phase: PhaseView, next: DirectiveView) -> (
    BrainstemView,
    ReactionView,
) {
    (BrainstemView { phase, ..s }, ReactionView { outputs: Seq::empty(), next, notice: None })
}

/// A call request: made at once on a loaded engine, after a cold reload otherwise.
pub open spec fn spec_engine_request(
    s: BrainstemView,
    requested: Option<Seq<char>>,
    call: EngineCallView,
    loaded: bool,
    default_model: Seq<char>,
) -> (BrainstemView, ReactionView) {
    if loaded {
        spec_proceed(s, PhaseView::Starting, DirectiveView::Call(call))
    } else {
        let name = spec_chosen_model(requested, s.last_model_name, default_model);
        spec_proceed(
            s,
            PhaseView::ColdResolving { name, call },
            DirectiveView::ResolveBlocking(name),
        )
    }
}

/// The resting machine's answer to a signal.
pub open spec fn spec_on_idle(s: BrainstemView, signal: SignalView, now: u128, loaded: bool) -> (
    BrainstemView,
    ReactionView,
) {
    match signal {
        SignalView::Wake => spec_settle(s, Seq::empty(), now, loaded),
        SignalView::Closed => spec_proceed(s, PhaseView::Stopped, DirectiveView::Exit),
        SignalView::Input { message, default_model } => {
            let heard = BrainstemView {
                last_activity: if now >= s.last_activity {
                    now
                } else {
                    s.last_activity
                },
                request_id: message.id,
                ..s
            };
            match message.command {
                BrainstemCommandView::Stop => spec_proceed(
                    BrainstemView { request_id: None, ..heard },
                    PhaseView::Stopped,
                    DirectiveView::Exit,
                ),
                BrainstemCommandView::LoadModel(name) => spec_proceed(
                    heard,
                    PhaseView::Resolving { name },
                    DirectiveView::ResolveStream(name),
                ),
                BrainstemCommandView::Infer { model, prompt, config } => spec_engine_request(
                    heard,
                    model,
                    EngineCallView::Infer { prompt, config },
                    loaded,
                    default_model,
                ),
                BrainstemCommandView::Embed { model, input, config } => spec_engine_request(
                    heard,
                    model,
                    EngineCallView::Embed { input, config },
                    loaded,
                    default_model,
                ),
                BrainstemCommandView::ListModels => spec_settle(
                    heard,
                    seq![
                        spec_envelope(
                            message.id,
                            BrainstemBodyView::ModelList(spec_descriptors(s.registry)),
                        ),
                    ],
                    now,
                    loaded,
                ),
                BrainstemCommandView::Reset => spec_proceed(
                    heard,
                    PhaseView::Resetting,
                    DirectiveView::Unload,
                ),
            }
        },
        _ => spec_rejected(s),
    }
}

/// The busy machine's answer to a signal.
pub open spec fn spec_on_busy(s: BrainstemView, signal: SignalView, now: u128, loaded: bool) -> (
    BrainstemView,
    ReactionView,
) {
    let id = s.request_id;
    match (s.phase, signal) {
        (PhaseView::Hibernating, SignalView::Unloaded(outcome)) => (
            BrainstemView { phase: PhaseView::Idle, ..s },
            ReactionView {
                outputs: Seq::empty(),
                next: DirectiveView::Await(None),
                notice: match outcome {
                    Ok(_) => None,
                    Err(message) => Some("Failed to hibernate engine: "@ + message),
                },
            },
        ),
        (PhaseView::Resolving { name }, SignalView::Asset(event)) => {
            let forwarded = seq![spec_envelope(id, BrainstemBodyView::Asset(event))];
            match event {
                AssetEventView::Complete(path) => (
                    BrainstemView { phase: PhaseView::Loading { name }, ..s },
                    ReactionView {
                        outputs: forwarded,
                        next: DirectiveView::Load(path),
                        notice: None,
                    },
                ),
                AssetEventView::Error(_) => spec_settle(s, forwarded, now, loaded),
                _ => (
                    s,
                    ReactionView {
                        outputs: forwarded,
                        next: DirectiveView::NextAsset,
                        notice: None,
                    },
                ),
            }
        },
        (PhaseView::Resolving { name }, SignalView::AssetsDone) => spec_settle(
            s,
            seq![
                spec_envelope(
                    id,
                    BrainstemBodyView::Error("Stream ended without completion for "@ + name),
                ),
            ],
            now,
            loaded,
        ),
        (PhaseView::Loading { name }, SignalView::Loaded(Ok(_))) => spec_settle(
            BrainstemView { last_model_name: Some(name), ..s },
            Seq::empty(),
            now,
            loaded,
        ),
        (PhaseView::Loading { name }, SignalView::Loaded(Err(message))) => spec_settle(
            s,
            seq![spec_envelope(id, BrainstemBodyView::Error(message))],
            now,
            loaded,
        ),
        (PhaseView::ColdResolving { name, call }, SignalView::Resolved(Ok(path))) => spec_proceed(
            s,
            PhaseView::ColdLoading { name, call },
            DirectiveView::Load(path),
        ),
        (PhaseView::ColdResolving { name, call }, SignalView::Resolved(Err(message))) => spec_settle(
            s,
            seq![
                spec_envelope(id, BrainstemBodyView::Error("Cold reload asset fail: "@ + message)),
            ],
            now,
            loaded,
        ),
        (PhaseView::ColdLoading { name, call }, SignalView::Loaded(Ok(_))) => spec_proceed(
            BrainstemView { last_model_name: Some(name), ..s },
            PhaseView::Starting,
            DirectiveView::Call(call),
        ),
        (PhaseView::ColdLoading { name, call }, SignalView::Loaded(Err(message))) => spec_settle(
            s,
            seq![spec_envelope(id, BrainstemBodyView::Error("Cold reload failed: "@ + message))],
            now,
            loaded,
        ),
        (PhaseView::Starting, SignalView::Started(Ok(_))) => spec_proceed(
            s,
            PhaseView::Streaming,
            DirectiveView::NextItem,
        ),
        (PhaseView::Starting, SignalView::Started(Err(message))) => spec_settle(
            s,
            seq![spec_envelope(id, BrainstemBodyView::Error(message))],
            now,
            loaded,
        ),
        (PhaseView::Streaming, SignalView::Item(Ok(event))) => (
            s,
            ReactionView {
                outputs: seq![spec_envelope(id, BrainstemBodyView::Event(event))],
                next: DirectiveView::NextItem,
                notice: None,
            },
        ),
        (PhaseView::Streaming, SignalView::Item(Err(message))) => (
            s,
            ReactionView {
                outputs: seq![spec_envelope(id, BrainstemBodyView::Error(message))],
                next: DirectiveView::NextItem,
                notice: None,
            },
        ),
        (PhaseView::Streaming, SignalView::Drained) => spec_settle(s, Seq::empty(), now, loaded),
        (PhaseView::Resetting, SignalView::Unloaded(Ok(_))) => spec_settle(
            s,
            seq![spec_envelope(id, BrainstemBodyView::Event(InferenceEventView::Complete))],
            now,
            loaded,
        ),
        (PhaseView::Resetting, SignalView::Unloaded(Err(message))) => spec_settle(
            s,
            seq![spec_envelope(id, BrainstemBodyView::Error(message))],
            now,
            loaded,
        ),
        _ => spec_rejected(s),
    }
}

/// The machine's answer to one signal, received at time `now` while the engine reports
/// `loaded`: the state it moves to, the envelopes to emit and what to do next.
pub open spec fn spec_step(s: BrainstemView, signal: SignalView, now: u128, loaded: bool) -> (
    BrainstemView,
    ReactionView,
) {
    match s.phase {
        PhaseView::Stopped => (
            s,
            ReactionView { outputs: Seq::empty(), next: DirectiveView::Exit, notice: None },
        ),
        PhaseView::Idle => spec_on_idle(s, signal, now, loaded),
        _ => spec_on_busy(s, signal, now, loaded),
    }
}

/// The orchestrator's state machine.
pub struct Brainstem {
    authority: AssetAuthority,
    strategy: CortexStrategy,
    last_activity: u128,
    last_model_name: Option<String>,
    request_id: Option<String>,
    phase: Phase,
}

impl View for Brainstem {
    type V = BrainstemView;

    closed spec fn view(&self) -> BrainstemView {
        BrainstemView {
            registry: self.authority.entries(),
            strategy: self.strategy,
            last_activity: self.last_activity,
            last_model_name: self.last_model_name.deep_view(),
            request_id: self.request_id.deep_view(),
            phase: self.phase@,
        }
    }
}

impl Brainstem {
    /// A resting machine over the given authority, started at time `now`; it unloads the
    /// engine after five minutes without a request.
    pub fn new(authority: AssetAuthority, now: u128) -> (machine: Self)
        ensures
            machine@ == (BrainstemView {
                registry: authority.entries(),
                strategy: CortexStrategy::HibernateAfter(DEFAULT_HIBERNATION),
                last_activity: now,
                last_model_name: None,
                request_id: None,
                phase: PhaseView::Idle,
            }),
    {
        Brainstem {
            authority,
            strategy: CortexStrategy::HibernateAfter(DEFAULT_HIBERNATION),
            last_activity: now,
            last_model_name: None,
            request_id: None,
            phase: Phase::Idle,
        }
    }

    /// Replaces the hibernation policy.
    pub fn set_strategy(&mut self, strategy: CortexStrategy)
        ensures
            final(self)@ == (BrainstemView { strategy, ..old(self)@ }),
    {
        self.strategy = strategy;
    }

    /// The hibernation policy.
    pub fn strategy(&self) -> (strategy: CortexStrategy)
        ensures
            strategy == self@.strategy,
    {
        self.strategy
    }

    /// When the last request arrived.
    pub fn last_activity(&self) -> (at: u128)
        ensures
            at == self@.last_activity,
    {
        self.last_activity
    }

    /// The name under which the engine's model was last loaded.
    pub fn last_model_name(&self) -> (name: Option<String>)
        ensures
            name.deep_view() == self@.last_model_name,
    {
        copy_opt_text(&self.last_model_name)
    }

    /// Whether no request is being handled.
    pub fn is_idle(&self) -> (idle: bool)
        ensures
            idle == (self@.phase is Idle),
    {
        match self.phase {
            Phase::Idle => true,
            _ => false,
        }
    }

    /// Whether the engine's stream is being forwarded.
    pub fn is_streaming(&self) -> (streaming: bool)
        ensures
            streaming == (self@.phase is Streaming),
    {
        match self.phase {
            Phase::Streaming => true,
            _ => false,
        }
    }

    /// Whether the loop has ended.
    pub fn is_stopped(&self) -> (stopped: bool)
        ensures
            stopped == (self@.phase is Stopped),
    {
        match self.phase {
            Phase::Stopped => true,
            _ => false,
        }
    }

    /// The authority the machine lists models from.
    pub fn authority(&self) -> (authority: &AssetAuthority)
        ensures
            authority.entries() == self@.registry,
    {
        &self.authority
    }

    /// Records a model discovered at run time; see [`AssetAuthority::record_model`].
    pub fn record_model(&mut self, entry: crate::registry::ModelEntry, persisted: Vec<
        crate::registry::ModelEntry,
    >) -> (updated: Vec<crate::registry::ModelEntry>)
        ensures
            final(self)@ == (BrainstemView {
                registry: crate::registry::spec_upsert(old(self)@.registry, entry@),
                ..old(self)@
            }),
            crate::registry::entry_views(updated@) == crate::registry::spec_upsert(
                crate::registry::entry_views(persisted@),
                entry@,
            ),
    {
        self.authority.record_model(entry, persisted)
    }

    /// One envelope under the id of the request being handled.
    fn single(&self, body: BrainstemBody) -> (outputs: Vec<BrainstemOutput>)
        ensures
            output_views(outputs@) == seq![spec_envelope(self@.request_id, body@)],
    {
        let mut outputs: Vec<BrainstemOutput> = Vec::new();
        outputs.push(BrainstemOutput { id: copy_opt_text(&self.request_id), body });
        assert(output_views(outputs@) =~= seq![spec_envelope(self@.request_id, body@)]);
        outputs
    }

    /// No envelope.
    fn silent() -> (outputs: Vec<BrainstemOutput>)
        ensures
            output_views(outputs@) == Seq::<BrainstemOutputView>::empty(),
    {
        let outputs: Vec<BrainstemOutput> = Vec::new();
        assert(output_views(outputs@) =~= Seq::<BrainstemOutputView>::empty());
        outputs
    }

    /// Ignores a signal.
    fn rejected() -> (reaction: Reaction)
        ensures
            reaction@ == (ReactionView {
                outputs: Seq::empty(),
                next: DirectiveView::Rejected,
                notice: None,
            }),
    {
        Reaction { outputs: Self::silent(), next: Directive::Rejected, notice: None }
    }

    /// Moves on to `phase` with one directive and no envelope.
    fn proceed(&mut self, phase: Phase, next: Directive) -> (reaction: Reaction)
        ensures
            (final(self)@, reaction@) == spec_proceed(old(self)@, phase@, next@),
    {
        self.phase = phase;
        Reaction { outputs: Self::silent(), next, notice: None }
    }

    /// Comes to rest after a request; see [`spec_settle`].
    fn settle(&mut self, outputs: Vec<BrainstemOutput>, now: u128, loaded: bool) -> (reaction:
        Reaction)
        ensures
            (final(self)@, reaction@) == spec_settle(old(self)@, output_views(outputs@), now, loaded),
    {
        self.request_id = None;
        self.phase = Phase::Idle;
        let elapsed: u128 = if now >= self.last_activity {
            now - self.last_activity
        } else {
            0
        };
        let tolerance: Option<u128> = match self.strategy {
            CortexStrategy::Immediate => Some(0),
            CortexStrategy::HibernateAfter(bound) => Some(bound),
            CortexStrategy::KeepAlive => None,
        };
        let next = match tolerance {
            None => Directive::Await(None),
            Some(bound) => if elapsed >= bound {
                if loaded {
                    self.phase = Phase::Hibernating;
                    Directive::Unload
                } else {
                    Directive::Await(None)
                }
            } else {
                Directive::Await(Some(bound - elapsed))
            },
        };
        Reaction { outputs, next, notice: None }
    }

    /// Answers a call request; see [`spec_engine_request`].
    fn engine_request(
        &mut self,
        requested: Option<String>,
        call: EngineCall,
        loaded: bool,
        default_model: String,
    ) -> (reaction: Reaction)
        ensures
            (final(self)@, reaction@) == spec_engine_request(
                old(self)@,
                requested.deep_view(),
                call@,
                loaded,
                default_model@,
            ),
    {
        if loaded {
            self.proceed(Phase::Starting, Directive::Call(call))
        } else {
            let name = match requested {
                Some(name) => name,
                None => match &self.last_model_name {
                    Some(name) => name.clone(),
                    None => default_model,
                },
            };
            let again = name.clone();
            self.proceed(Phase::ColdResolving { name, call }, Directive::ResolveBlocking(again))
        }
    }

    /// The resting machine's answer; see [`spec_on_idle`].
    fn on_idle(&mut self, signal: Signal, now: u128, loaded: bool) -> (reaction: Reaction)
        requires
            old(self)@.phase is Idle,
        ensures
            (final(self)@, reaction@) == spec_on_idle(old(self)@, signal@, now, loaded),
    {
        match signal {
            Signal::Wake => self.settle(Self::silent(), now, loaded),
            Signal::Closed => self.proceed(Phase::Stopped, Directive::Exit),
            Signal::Input { message, default_model } => {
                if now >= self.last_activity {
                    self.last_activity = now;
                }
                let BrainstemInput { id, command } = message;
                self.request_id = id;
                match command {
                    BrainstemCommand::Stop => {
                        self.request_id = None;
                        self.proceed(Phase::Stopped, Directive::Exit)
                    },
                    BrainstemCommand::LoadModel(name) => {
                        let again = name.clone();
                        self.proceed(Phase::Resolving { name }, Directive::ResolveStream(again))
                    },
                    BrainstemCommand::Infer { model, prompt, config } => self.engine_request(
                        model,
                        EngineCall::Infer { prompt, config },
                        loaded,
                        default_model,
                    ),
                    BrainstemCommand::Embed { model, input, config } => self.engine_request(
                        model,
                        EngineCall::Embed { input, config },
                        loaded,
                        default_model,
                    ),
                    BrainstemCommand::ListModels => {
                        let list = self.authority.descriptors();
                        let outputs = self.single(BrainstemBody::ModelList(list));
                        self.settle(outputs, now, loaded)
                    },
                    BrainstemCommand::Reset => self.proceed(Phase::Resetting, Directive::Unload),
                }
            },
            _ => Self::rejected(),
        }
    }

    /// The busy machine's answer, `phase` being the phase it was found in; see
    /// [`spec_on_busy`].
    fn on_busy(&mut self, phase: Phase, signal: Signal, now: u128, loaded: bool) -> (reaction:
        Reaction)
        ensures
            (final(self)@, reaction@) == spec_on_busy(
                BrainstemView { phase: phase@, ..old(self)@ },
                signal@,
                now,
                loaded,
            ),
    {
        match (phase, signal) {
            (Phase::Hibernating, Signal::Unloaded(outcome)) => {
                self.phase = Phase::Idle;
                let notice = match outcome {
                    Ok(_) => None,
                    Err(message) => Some(join_text("Failed to hibernate engine: ", message.as_str())),
                };
                Reaction { outputs: Self::silent(), next: Directive::Await(None), notice }
            },
            (Phase::Resolving { name }, Signal::Asset(event)) => {
                match event {
                    AssetEvent::Complete(path) => {
                        let outputs = self.single(
                            BrainstemBody::Asset(AssetEvent::Complete(path.clone())),
                        );
                        self.phase = Phase::Loading { name };
                        Reaction { outputs, next: Directive::Load(path), notice: None }
                    },
                    AssetEvent::Error(message) => {
                        let outputs = self.single(BrainstemBody::Asset(AssetEvent::Error(message)));
                        self.settle(outputs, now, loaded)
                    },
                    other => {
                        let outputs = self.single(BrainstemBody::Asset(other));
                        self.phase = Phase::Resolving { name };
                        Reaction { outputs, next: Directive::NextAsset, notice: None }
                    },
                }
            },
            (Phase::Resolving { name }, Signal::AssetsDone) => {
                let message = join_text("Stream ended without completion for ", name.as_str());
                let outputs = self.single(BrainstemBody::Error(message));
                self.settle(outputs, now, loaded)
            },
            (Phase::Loading { name }, Signal::Loaded(Ok(_))) => {
                self.last_model_name = Some(name);
                self.settle(Self::silent(), now, loaded)
            },
            (Phase::Loading { name }, Signal::Loaded(Err(message))) => {
                let outputs = self.single(BrainstemBody::Error(message));
                self.settle(outputs, now, loaded)
            },
            (Phase::ColdResolving { name, call }, Signal::Resolved(Ok(path))) => self.proceed(
                Phase::ColdLoading { name, call },
                Directive::Load(path),
            ),
            (Phase::ColdResolving { name, call }, Signal::Resolved(Err(message))) => {
                let text = join_text("Cold reload asset fail: ", message.as_str());
                let outputs = self.single(BrainstemBody::Error(text));
                self.settle(outputs, now, loaded)
            },
            (Phase::ColdLoading { name, call }, Signal::Loaded(Ok(_))) => {
                self.last_model_name = Some(name);
                self.proceed(Phase::Starting, Directive::Call(call))
            },
            (Phase::ColdLoading { name, call }, Signal::Loaded(Err(message))) => {
                let text = join_text("Cold reload failed: ", message.as_str());
                let outputs = self.single(BrainstemBody::Error(text));
                self.settle(outputs, now, loaded)
            },
            (Phase::Starting, Signal::Started(Ok(_))) => self.proceed(
                Phase::Streaming,
                Directive::NextItem,
            ),
            (Phase::Starting, Signal::Started(Err(message))) => {
                let outputs = self.single(BrainstemBody::Error(message));
                self.settle(outputs, now, loaded)
            },
            (Phase::Streaming, Signal::Item(Ok(event))) => {
                let outputs = self.single(BrainstemBody::Event(event));
                self.phase = Phase::Streaming;
                Reaction { outputs, next: Directive::NextItem, notice: None }
            },
            (Phase::Streaming, Signal::Item(Err(message))) => {
                let outputs = self.single(BrainstemBody::Error(message));
                self.phase = Phase::Streaming;
                Reaction { outputs, next: Directive::NextItem, notice: None }
            },
            (Phase::Streaming, Signal::Drained) => self.settle(Self::silent(), now, loaded),
            (Phase::Resetting, Signal::Unloaded(Ok(_))) => {
                let outputs = self.single(BrainstemBody::Event(InferenceEvent::Complete));
                self.settle(outputs, now, loaded)
            },
            (Phase::Resetting, Signal::Unloaded(Err(message))) => {
                let outputs = self.single(BrainstemBody::Error(message));
                self.settle(outputs, now, loaded)
            },
            (phase, _) => {
                self.phase = phase;
                Self::rejected()
            },
        }
    }

    /// Answers one signal, received at time `now` while the engine reports `loaded`.
    pub fn step(&mut self, signal: Signal, now: u128, loaded: bool) -> (reaction: Reaction)
        ensures
            (final(self)@, reaction@) == spec_step(old(self)@, signal@, now, loaded),
    {
        let mut phase = Phase::Idle;
        std::mem::swap(&mut phase, &mut self.phase);
        match phase {
            Phase::Stopped => {
                self.phase = Phase::Stopped;
                Reaction { outputs: Self::silent(), next: Directive::Exit, notice: None }
            },
            Phase::Idle => self.on_idle(signal, now, loaded),
            busy => self.on_busy(busy, signal, now, loaded),
        }
    }
}

} // verus!
