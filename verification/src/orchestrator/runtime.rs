//! The orchestrator: the state machine together with the engine it owns.
//!
//! One step takes a report from the driver, makes the engine calls the machine asks for
//! and feeds their outcomes back, until the machine asks for something only the driver can
//! do: wait for input, resolve an asset, or come back for the next item of a stream.

use crate::assets::AssetAuthority;
use crate::engine::{Engine, EventStream};
use crate::orchestrator::laws::{
    RunView, Stimulus, all_carry, lemma_run_keeps_request, law_last_activity_monotone,
    spec_handling, spec_react, spec_run,
};
use crate::orchestrator::{
    Brainstem, BrainstemView, CortexStrategy, DEFAULT_HIBERNATION, Directive, DirectiveView,
    EngineCall, PhaseView, Reaction, Signal, SignalView, spec_elapsed, spec_envelope, spec_step,
    spec_tolerance,
};
use crate::protocol::{BrainstemBodyView, BrainstemCommandView, InferenceEventView};
use crate::protocol::{
    AssetEvent, AssetEventView, BrainstemInput, BrainstemInputView, BrainstemOutput,
    BrainstemOutputView, output_views,
};
use vstd::prelude::*;
use vstd::string::*;

verus! {

/// What the driver reports to the orchestrator.
#[derive(Debug, PartialEq, Eq)]
pub enum Report {
    /// The loop starts, or a wait ended without input.
    Wake,
    /// The inbound channel is closed.
    Closed,
    /// A request arrived.
    Input(BrainstemInput),
    /// The streaming resolution produced an event.
    Asset(AssetEvent),
    /// The streaming resolution ended.
    AssetsDone,
    /// The blocking resolution returned a path, or failed.
    Resolved(Result<String, String>),
    /// The envelopes of the last step are sent; the stream may be pulled again.
    Continue,
}

/// Mathematical content of a [`Report`].
pub enum ReportView {
    Wake,
    Closed,
    Input(BrainstemInputView),
    Asset(AssetEventView),
    AssetsDone,
    Resolved(Result<Seq<char>, Seq<char>>),
    Continue,
}

impl View for Report {
    type V = ReportView;

    open spec fn view(&self) -> ReportView {
        match *self {
            Report::Wake => ReportView::Wake,
            Report::Closed => ReportView::Closed,
            Report::Input(message) => ReportView::Input(message@),
            Report::Asset(event) => ReportView::Asset(event@),
            Report::AssetsDone => ReportView::AssetsDone,
            Report::Resolved(outcome) => ReportView::Resolved(
                match outcome {
                    Ok(path) => Ok(path@),
                    Err(message) => Err(message@),
                },
            ),
            Report::Continue => ReportView::Continue,
        }
    }
}

/// What the orchestrator asks of the driver; its outcome is the next report.
#[derive(Debug, PartialEq, Eq)]
pub enum Task {
    /// Wait for the next request, for at most this many nanoseconds if a bound is given.
    Await(Option<u128>),
    /// Start a streaming resolution of this name and report its events.
    ResolveStream(String),
    /// Report the next event of the running resolution.
    NextAsset,
    /// Resolve this name in the blocking form and report the result.
    ResolveBlocking(String),
    /// Send the envelopes, then report `Continue`.
    Continue,
    /// Leave the loop.
    Exit,
    /// The report did not answer what the orchestrator is waiting for and was ignored.
    Rejected,
}

/// Mathematical content of a [`Task`].
pub enum TaskView {
    Await(Option<u128>),
    ResolveStream(Seq<char>),
    NextAsset,
    ResolveBlocking(Seq<char>),
    Continue,
    Exit,
    Rejected,
}

impl View for Task {
    type V = TaskView;

    open spec fn view(&self) -> TaskView {
        match *self {
            Task::Await(bound) => TaskView::Await(bound),
            Task::ResolveStream(name) => TaskView::ResolveStream(name@),
            Task::NextAsset => TaskView::NextAsset,
            Task::ResolveBlocking(name) => TaskView::ResolveBlocking(name@),
            Task::Continue => TaskView::Continue,
            Task::Exit => TaskView::Exit,
            Task::Rejected => TaskView::Rejected,
        }
    }
}

/// The orchestrator's answer to one report.
#[derive(Debug, PartialEq, Eq)]
pub struct Turn {
    /// The envelopes to emit, in order.
    pub outputs: Vec<BrainstemOutput>,
    /// What to do next.
    pub next: Task,
    /// A failure that is survived in silence, for the driver's log.
    pub notice: Option<String>,
}

/// Mathematical content of a [`Turn`].
pub struct TurnView {
    pub outputs: Seq<BrainstemOutputView>,
    pub next: TaskView,
    pub notice: Option<Seq<char>>,
}

impl View for Turn {
    type V = TurnView;

    open spec fn view(&self) -> TurnView {
        TurnView {
            outputs: output_views(self.outputs@),
            next: self.next@,
            notice: self.notice.deep_view(),
        }
    }
}

/// Whether the directive is a call to the engine.
pub open spec fn spec_for_engine(directive: DirectiveView) -> bool {
    directive is Load || directive is Unload || directive is Call
}

/// The task that hands a directive on to the driver.
pub open spec fn spec_task(directive: DirectiveView) -> TaskView {
    match directive {
        DirectiveView::Await(bound) => TaskView::Await(bound),
        DirectiveView::ResolveStream(name) => TaskView::ResolveStream(name),
        DirectiveView::NextAsset => TaskView::NextAsset,
        DirectiveView::ResolveBlocking(name) => TaskView::ResolveBlocking(name),
        DirectiveView::NextItem => TaskView::Continue,
        DirectiveView::Exit => TaskView::Exit,
        _ => TaskView::Rejected,
    }
}

/// Whether `signal` is what the machine is told of `report`. Of a request it also learns
/// the engine's default model, and of `Continue` what the engine's stream yielded.
pub open spec fn spec_reports(report: ReportView, signal: SignalView) -> bool {
    match report {
        ReportView::Wake => signal is Wake,
        ReportView::Closed => signal is Closed,
        ReportView::Input(message) => signal is Input && signal->message == message,
        ReportView::Asset(event) => signal == SignalView::Asset(event),
        ReportView::AssetsDone => signal is AssetsDone,
        ReportView::Resolved(outcome) => signal == SignalView::Resolved(outcome),
        ReportView::Continue => signal is Item || signal is Drained,
    }
}

/// Whether `signal` is an engine's answer to `directive`, the engine reporting
/// `loaded_before` before the call and `loaded_after` after it: a load succeeds exactly if
/// the engine is loaded afterwards, an unload that succeeds leaves it unloaded and does
/// succeed on an unloaded engine, and a call leaves it as it was and fails on an unloaded
/// engine.
pub open spec fn spec_answers(
    directive: DirectiveView,
    signal: SignalView,
    loaded_before: bool,
    loaded_after: bool,
) -> bool {
    match directive {
        DirectiveView::Load(_) => signal is Loaded && (signal->Loaded_0 is Ok <==> loaded_after),
        DirectiveView::Unload => {
            &&& signal is Unloaded
            &&& signal->Unloaded_0 is Ok ==> !loaded_after
            &&& !loaded_before ==> signal->Unloaded_0 is Ok
        },
        DirectiveView::Call(_) => {
            &&& signal is Started
            &&& loaded_after == loaded_before
            &&& !loaded_before ==> signal->Started_0 is Err
        },
        _ => false,
    }
}

/// Whether every stimulus after the first is the engine's answer to the directive issued
/// just before it, all at the time `now`.
pub open spec fn spec_engine_feed(s: BrainstemView, feed: Seq<Stimulus>, now: u128) -> bool
    decreases feed.len(),
{
    if feed.len() == 0 {
        true
    } else if feed.len() == 1 {
        feed[0].now == now
    } else {
        let shorter = feed.drop_last();
        &&& spec_engine_feed(s, shorter, now)
        &&& feed.last().now == now
        &&& spec_answers(
            spec_run(s, shorter).directives.last(),
            feed.last().signal,
            shorter.last().loaded,
            feed.last().loaded,
        )
    }
}

/// Whether `turn` is an answer to `report`: a run of the machine over the report and then
/// over the engine's answer to each directive that asked for one, ending with a directive
/// for the driver.
pub open spec fn spec_is_turn(
    before: BrainstemView,
    loaded_before: bool,
    report: ReportView,
    now: u128,
    feed: Seq<Stimulus>,
    after: BrainstemView,
    loaded_after: bool,
    turn: TurnView,
) -> bool {
    let run = spec_run(before, feed);
    &&& feed.len() > 0
    &&& spec_reports(report, feed[0].signal)
    &&& feed[0].loaded == loaded_before
    &&& spec_engine_feed(before, feed, now)
    &&& forall|i: int| 1 <= i < feed.len() ==> !((#[trigger] feed[i]).signal is Input)
    &&& after == run.state
    &&& loaded_after == feed.last().loaded
    &&& !spec_for_engine(run.directives.last())
    &&& turn == (TurnView {
        outputs: run.outputs,
        next: spec_task(run.directives.last()),
        notice: run.notice,
    })
}

/// The id every envelope of a turn carries: that of the request the report brings, or of
/// the request being handled.
pub open spec fn spec_turn_id(before: BrainstemView, report: ReportView) -> Option<Seq<char>> {
    match report {
        ReportView::Input(message) => if before.phase is Idle {
            message.id
        } else {
            before.request_id
        },
        _ => before.request_id,
    }
}

/// How many engine calls in a row a phase can still lead to.
pub open spec fn spec_engine_rank(phase: PhaseView) -> nat {
    match phase {
        PhaseView::ColdLoading { .. } => 3,
        PhaseView::Loading { .. } => 2,
        PhaseView::Starting => 2,
        PhaseView::Resetting => 2,
        PhaseView::Hibernating => 1,
        _ => 0,
    }
}

/// Whether the directive is one the phase waits on.
pub open spec fn spec_fits(phase: PhaseView, directive: DirectiveView) -> bool {
    match directive {
        DirectiveView::Load(_) => phase is Loading || phase is ColdLoading,
        DirectiveView::Unload => phase is Hibernating || phase is Resetting,
        DirectiveView::Call(_) => phase is Starting,
        _ => true,
    }
}

/// Each directive for the engine leaves the machine in a phase that waits on it, and the
/// engine's answer takes the machine to a phase that can lead to fewer such calls.
proof fn lemma_engine_calls_end(s: BrainstemView, signal: SignalView, now: u128, loaded: bool)
    ensures
        spec_fits(spec_step(s, signal, now, loaded).0.phase, spec_step(s, signal, now, loaded).1.next),
        (s.phase is Loading || s.phase is ColdLoading) && signal is Loaded ==> spec_engine_rank(
            spec_step(s, signal, now, loaded).0.phase,
        ) < spec_engine_rank(s.phase),
        (s.phase is Hibernating || s.phase is Resetting) && signal is Unloaded
            ==> spec_engine_rank(spec_step(s, signal, now, loaded).0.phase) < spec_engine_rank(
            s.phase,
        ),
        s.phase is Starting && signal is Started ==> spec_engine_rank(
            spec_step(s, signal, now, loaded).0.phase,
        ) < spec_engine_rank(s.phase),
{
}

/// One more stimulus extends a run by one step.
proof fn lemma_run_extends(s: BrainstemView, feed: Seq<Stimulus>, last: Stimulus)
    ensures
        ({
            let before = spec_run(s, feed);
            let (state, reaction) = spec_react(before.state, last);
            spec_run(s, feed.push(last)) == (RunView {
                state,
                outputs: before.outputs + reaction.outputs,
                directives: before.directives.push(reaction.next),
                notice: reaction.notice,
            })
        }),
{
    assert(feed.push(last).drop_last() =~= feed);
}

/// The envelopes of a turn carry the id of the request it belongs to.
proof fn lemma_turn_carries_id(before: BrainstemView, report: ReportView, feed: Seq<Stimulus>)
    requires
        feed.len() > 0,
        spec_reports(report, feed[0].signal),
        forall|i: int| 1 <= i < feed.len() ==> !((#[trigger] feed[i]).signal is Input),
    ensures
        all_carry(spec_run(before, feed).outputs, spec_turn_id(before, report)),
    decreases feed.len(),
{
    let id = spec_turn_id(before, report);
    let first = feed[0];
    let (heard, reaction) = spec_react(before, first);
    let rest = feed.skip(1);
    assert(all_carry(reaction.outputs, id) && (spec_handling(heard) ==> heard.request_id == id))
        by {
        reveal(spec_react);
    }
    assert forall|i: int| 0 <= i < rest.len() implies !((#[trigger] rest[i]).signal is Input) by {
        assert(rest[i] == feed[i + 1]);
    }
    lemma_run_keeps_request(heard, rest, id);
    lemma_run_splits(before, first, rest);
    assert(seq![first] + rest =~= feed);
}

/// A run is its first step followed by the run over the rest.
proof fn lemma_run_splits(s: BrainstemView, first: Stimulus, rest: Seq<Stimulus>)
    ensures
        ({
            let (heard, reaction) = spec_react(s, first);
            let whole = spec_run(s, seq![first] + rest);
            let tail = spec_run(heard, rest);
            &&& whole.state == tail.state
            &&& whole.outputs == reaction.outputs + tail.outputs
        }),
    decreases rest.len(),
{
    let (heard, reaction) = spec_react(s, first);
    if rest.len() == 0 {
        lemma_run_extends(s, Seq::empty(), first);
        assert(Seq::<Stimulus>::empty().push(first) =~= seq![first] + rest);
        assert(Seq::<BrainstemOutputView>::empty() + reaction.outputs =~= reaction.outputs);
        assert(reaction.outputs + spec_run(heard, rest).outputs =~= reaction.outputs);
    } else {
        lemma_run_splits(s, first, rest.drop_last());
        assert((seq![first] + rest).drop_last() =~= seq![first] + rest.drop_last());
        let before = spec_run(s, seq![first] + rest.drop_last());
        let tail = spec_run(heard, rest.drop_last());
        let last = rest.last();
        assert((seq![first] + rest).last() == last);
        let step = spec_react(tail.state, last);
        assert(before.outputs + step.1.outputs =~= reaction.outputs + (tail.outputs
            + step.1.outputs));
    }
}

/// The orchestrator: owns the engine and serializes every access to it.
pub struct Orchestrator<E: Engine> {
    engine: E,
    stem: Brainstem,
    stream: Option<E::Stream>,
}

impl<E: Engine> Orchestrator<E> {
    /// The state of the orchestrator's machine.
    pub closed spec fn machine(&self) -> BrainstemView {
        self.stem@
    }

    /// Whether the engine holds a model.
    pub closed spec fn engine_loaded(&self) -> bool {
        self.engine.loaded()
    }

    /// An orchestrator at rest over the given engine and authority, started at time `now`;
    /// it unloads the engine after five minutes without a request.
    pub fn new(engine: E, authority: AssetAuthority, now: u128) -> (orchestrator: Self)
        ensures
            orchestrator.engine_loaded() == engine.loaded(),
            orchestrator.machine() == (BrainstemView {
                registry: authority.entries(),
                strategy: CortexStrategy::HibernateAfter(DEFAULT_HIBERNATION),
                last_activity: now,
                last_model_name: None,
                request_id: None,
                phase: PhaseView::Idle,
            }),
    {
        Orchestrator { engine, stem: Brainstem::new(authority, now), stream: None }
    }

    /// Replaces the hibernation policy.
    pub fn set_strategy(&mut self, strategy: CortexStrategy)
        ensures
            final(self).machine() == (BrainstemView { strategy, ..old(self).machine() }),
            final(self).engine_loaded() == old(self).engine_loaded(),
    {
        self.stem.set_strategy(strategy);
    }

    /// Whether the engine holds a model.
    pub fn is_loaded(&self) -> (loaded: bool)
        ensures
            loaded == self.engine_loaded(),
    {
        self.engine.is_loaded()
    }

    /// The state machine.
    pub fn brainstem(&self) -> (stem: &Brainstem)
        ensures
            stem@ == self.machine(),
    {
        &self.stem
    }

    /// The engine.
    pub fn engine(&self) -> (engine: &E)
        ensures
            engine.loaded() == self.engine_loaded(),
    {
        &self.engine
    }

    /// What the machine is told of a report.
    fn signal_for(&mut self, report: Report) -> (signal: Signal)
        ensures
            spec_reports(report@, signal@),
            final(self).machine() == old(self).machine(),
            final(self).engine_loaded() == old(self).engine_loaded(),
    {
        match report {
            Report::Wake => Signal::Wake,
            Report::Closed => Signal::Closed,
            Report::Input(message) => Signal::Input {
                message,
                default_model: self.engine.default_model(),
            },
            Report::Asset(event) => Signal::Asset(event),
            Report::AssetsDone => Signal::AssetsDone,
            Report::Resolved(outcome) => Signal::Resolved(outcome),
            Report::Continue => {
                if !self.stem.is_streaming() {
                    return Signal::Drained;
                }
                let mut stream: Option<E::Stream> = None;
                std::mem::swap(&mut stream, &mut self.stream);
                match stream {
                    Some(mut open) => match open.next_event() {
                        Some(item) => {
                            self.stream = Some(open);
                            Signal::Item(item)
                        },
                        None => Signal::Drained,
                    },
                    None => Signal::Drained,
                }
            },
        }
    }

    /// Makes the engine call a directive asks for and tells its outcome as a signal.
    fn call_engine(&mut self, directive: Directive) -> (signal: Signal)
        requires
            spec_for_engine(directive@),
        ensures
            spec_answers(
                directive@,
                signal@,
                old(self).engine_loaded(),
                final(self).engine_loaded(),
            ),
            final(self).machine() == old(self).machine(),
    {
        match directive {
            Directive::Load(path) => Signal::Loaded(self.engine.load_model(path.as_str())),
            Directive::Unload => Signal::Unloaded(self.engine.unload_model()),
            Directive::Call(call) => {
                let opened = match call {
                    EngineCall::Infer { prompt, config } => self.engine.infer(
                        prompt.as_str(),
                        config,
                    ),
                    EngineCall::Embed { input, config } => self.engine.embed(input.as_str(), config),
                };
                match opened {
                    Ok(stream) => {
                        self.stream = Some(stream);
                        Signal::Started(Ok(()))
                    },
                    Err(message) => Signal::Started(Err(message)),
                }
            },
            _ => Signal::Drained,
        }
    }

    /// Answers one report, received at time `now`.
    ///
    /// The answer is a run of the machine over the report and over the engine's answers to
    /// the calls the machine asked for. Whatever the engine answers, every envelope
    /// carries the id of the request it belongs to and the time of the last activity does
    /// not move backwards.
    pub fn step(&mut self, report: Report, now: u128) -> (turn: Turn)
        ensures
            exists|feed: Seq<Stimulus>| #[trigger]
                spec_is_turn(
                    old(self).machine(),
                    old(self).engine_loaded(),
                    report@,
                    now,
                    feed,
                    final(self).machine(),
                    final(self).engine_loaded(),
                    turn@,
                ),
            all_carry(turn@.outputs, spec_turn_id(old(self).machine(), report@)),
            final(self).machine().last_activity >= old(self).machine().last_activity,
    {
        let ghost start = self.machine();
        let signal = self.signal_for(report);
        let loaded = self.engine.is_loaded();
        let ghost first = Stimulus { signal: signal@, now, loaded };
        let ghost mut feed = seq![first];
        proof {
            reveal(spec_react);
            lemma_run_extends(start, Seq::empty(), first);
            assert(Seq::<Stimulus>::empty().push(first) =~= feed);
            lemma_engine_calls_end(start, signal@, now, loaded);
        }
        let Reaction { outputs, next, notice } = self.stem.step(signal, now, loaded);
        let mut outputs = outputs;
        let mut next = next;
        let mut notice = notice;
        proof {
            assert(Seq::<BrainstemOutputView>::empty() + output_views(outputs@)
                =~= output_views(outputs@));
        }
        while Self::for_engine(&next)
            invariant
                feed.len() > 0,
                feed[0].signal == signal@,
                feed[0].loaded == old(self).engine_loaded(),
                spec_engine_feed(start, feed, now),
                forall|i: int| 1 <= i < feed.len() ==> !((#[trigger] feed[i]).signal is Input),
                feed.last().loaded == self.engine_loaded(),
                spec_run(start, feed).state == self.machine(),
                spec_run(start, feed).outputs == output_views(outputs@),
                spec_run(start, feed).directives.last() == next@,
                spec_run(start, feed).notice == notice.deep_view(),
                spec_fits(self.machine().phase, next@),
            decreases spec_engine_rank(self.machine().phase),
        {
            let ghost loaded_before = self.engine_loaded();
            let ghost phase_before = self.machine().phase;
            let ghost earlier = output_views(outputs@);
            let mut directive = Directive::Rejected;
            std::mem::swap(&mut directive, &mut next);
            let answer = self.call_engine(directive);
            let loaded_now = self.engine.is_loaded();
            let ghost stimulus = Stimulus { signal: answer@, now, loaded: loaded_now };
            proof {
                reveal(spec_react);
                lemma_run_extends(start, feed, stimulus);
                lemma_engine_calls_end(self.machine(), answer@, now, loaded_now);
                assert(feed.push(stimulus).drop_last() =~= feed);
                feed = feed.push(stimulus);
            }
            let Reaction { outputs: more, next: then, notice: heard } = self.stem.step(
                answer,
                now,
                loaded_now,
            );
            let mut more = more;
            let ghost added = output_views(more@);
            outputs.append(&mut more);
            next = then;
            notice = heard;
            proof {
                assert(output_views(outputs@) =~= earlier + added);
            }
        }
        let task = match next {
            Directive::Await(bound) => Task::Await(bound),
            Directive::ResolveStream(name) => Task::ResolveStream(name),
            Directive::NextAsset => Task::NextAsset,
            Directive::ResolveBlocking(name) => Task::ResolveBlocking(name),
            Directive::NextItem => Task::Continue,
            Directive::Exit => Task::Exit,
            _ => Task::Rejected,
        };
        let turn = Turn { outputs, next: task, notice };
        proof {
            assert(spec_is_turn(
                old(self).machine(),
                old(self).engine_loaded(),
                report@,
                now,
                feed,
                self.machine(),
                self.engine_loaded(),
                turn@,
            ));
            lemma_turn_carries_id(start, report@, feed);
            law_last_activity_monotone(start, feed);
        }
        turn
    }

    /// Whether the directive is a call to the engine.
    fn for_engine(directive: &Directive) -> (yes: bool)
        ensures
            yes == spec_for_engine(directive@),
    {
        match directive {
            Directive::Load(_) => true,
            Directive::Unload => true,
            Directive::Call(_) => true,
            _ => false,
        }
    }
}

/// The first stimulus of a turn comes at the time of the turn.
proof fn lemma_feed_starts_now(s: BrainstemView, feed: Seq<Stimulus>, now: u128)
    requires
        spec_engine_feed(s, feed, now),
        feed.len() >= 1,
    ensures
        feed[0].now == now,
    decreases feed.len(),
{
    if feed.len() >= 2 {
        lemma_feed_starts_now(s, feed.drop_last(), now);
    }
}

/// The run over the first `upto + 1` stimuli is the run over the first `upto` extended by
/// one step.
proof fn lemma_run_take(s: BrainstemView, feed: Seq<Stimulus>, upto: int)
    requires
        0 <= upto < feed.len(),
    ensures
        ({
            let before = spec_run(s, feed.take(upto));
            let (state, reaction) = spec_react(before.state, feed[upto]);
            spec_run(s, feed.take(upto + 1)) == (RunView {
                state,
                outputs: before.outputs + reaction.outputs,
                directives: before.directives.push(reaction.next),
                notice: reaction.notice,
            })
        }),
{
    lemma_run_extends(s, feed.take(upto), feed[upto]);
    assert(feed.take(upto).push(feed[upto]) =~= feed.take(upto + 1));
}

/// In a feed of engine answers, the stimulus at `at` answers the directive issued after
/// the stimuli before it.
proof fn lemma_feed_answers(s: BrainstemView, feed: Seq<Stimulus>, now: u128, at: int)
    requires
        spec_engine_feed(s, feed, now),
        1 <= at < feed.len(),
    ensures
        spec_answers(
            spec_run(s, feed.take(at)).directives.last(),
            feed[at].signal,
            feed[at - 1].loaded,
            feed[at].loaded,
        ),
        feed[at].now == now,
    decreases feed.len(),
{
    let shorter = feed.drop_last();
    if at == feed.len() - 1 {
        assert(shorter =~= feed.take(at));
    } else {
        lemma_feed_answers(s, shorter, now, at);
        assert(shorter.take(at) =~= feed.take(at));
    }
}

/// The steps of a turn, one by one: the run over the first stimuli, for as many as the
/// turn has; each stimulus after the first answers a directive for the engine, and the
/// turn ends with the first directive that is not for the engine.
proof fn lemma_turn_unrolls(
    before: BrainstemView,
    loaded_before: bool,
    report: ReportView,
    now: u128,
    feed: Seq<Stimulus>,
    after: BrainstemView,
    loaded_after: bool,
    turn: TurnView,
    upto: int,
)
    requires
        spec_is_turn(before, loaded_before, report, now, feed, after, loaded_after, turn),
        1 <= upto <= feed.len(),
    ensures
        feed[0].now == now,
        feed[0].loaded == loaded_before,
        spec_run(before, feed.take(upto)).directives.len() == upto,
        ({
            let earlier = spec_run(before, feed.take(upto - 1));
            let (state, reaction) = spec_react(earlier.state, feed[upto - 1]);
            spec_run(before, feed.take(upto)) == (RunView {
                state,
                outputs: earlier.outputs + reaction.outputs,
                directives: earlier.directives.push(reaction.next),
                notice: reaction.notice,
            })
        }),
        upto >= 2 ==> spec_answers(
            spec_run(before, feed.take(upto - 1)).directives.last(),
            feed[upto - 1].signal,
            feed[upto - 2].loaded,
            feed[upto - 1].loaded,
        ) && feed[upto - 1].now == now,
        spec_for_engine(spec_run(before, feed.take(upto)).directives.last()) ==> feed.len()
            > upto,
        !spec_for_engine(spec_run(before, feed.take(upto)).directives.last()) ==> {
            &&& feed.len() == upto
            &&& after == spec_run(before, feed.take(upto)).state
            &&& loaded_after == feed[upto - 1].loaded
            &&& turn == (TurnView {
                outputs: spec_run(before, feed.take(upto)).outputs,
                next: spec_task(spec_run(before, feed.take(upto)).directives.last()),
                notice: spec_run(before, feed.take(upto)).notice,
            })
        },
    decreases upto,
{
    lemma_feed_starts_now(before, feed, now);
    lemma_run_take(before, feed, upto - 1);
    if upto >= 2 {
        lemma_turn_unrolls(
            before,
            loaded_before,
            report,
            now,
            feed,
            after,
            loaded_after,
            turn,
            upto - 1,
        );
        lemma_feed_answers(before, feed, now, upto - 1);
    } else {
        assert(feed.take(0) =~= Seq::<Stimulus>::empty());
    }
    if feed.len() == upto {
        assert(feed.take(upto) =~= feed);
    } else {
        lemma_feed_answers(before, feed, now, upto);
    }
}

/// When the orchestrator is woken at rest and the policy's tolerance has passed, a loaded
/// engine is asked to unload, and it is unloaded afterwards unless a notice says that it
/// refused; the orchestrator then waits without bound. Else the engine is left as it is.
pub proof fn law_hibernation_unloads_the_engine(
    before: BrainstemView,
    loaded_before: bool,
    now: u128,
    feed: Seq<Stimulus>,
    after: BrainstemView,
    loaded_after: bool,
    turn: TurnView,
)
    requires
        spec_is_turn(
            before,
            loaded_before,
            ReportView::Wake,
            now,
            feed,
            after,
            loaded_after,
            turn,
        ),
        before.phase is Idle,
    ensures
        turn.outputs.len() == 0,
        after.phase is Idle,
        ({
            let due = spec_tolerance(before.strategy) is Some && spec_elapsed(
                before.last_activity,
                now,
            ) >= spec_tolerance(before.strategy)->0;
            if due && loaded_before {
                &&& turn.next == TaskView::Await(None)
                &&& turn.notice is None ==> !loaded_after
            } else {
                &&& loaded_after == loaded_before
                &&& turn.notice is None
                &&& due ==> turn.next == TaskView::Await(None)
            }
        }),
{
    let report = ReportView::Wake;
    reveal(spec_react);
    lemma_turn_unrolls(before, loaded_before, report, now, feed, after, loaded_after, turn, 1);
    let one = spec_run(before, feed.take(1));
    assert(spec_run(before, feed.take(0)).outputs + spec_react(before, feed[0]).1.outputs
        =~= spec_react(before, feed[0]).1.outputs);
    if spec_for_engine(one.directives.last()) {
        lemma_turn_unrolls(before, loaded_before, report, now, feed, after, loaded_after, turn, 2);
        let two = spec_run(before, feed.take(2));
        assert(two.outputs =~= Seq::<BrainstemOutputView>::empty());
    }
}

/// When a requested model is resolved, the engine loads it. If it loads, nothing but the
/// `Complete` event is emitted, the model's name is remembered, and the engine holds a
/// model for as long as the policy tolerates. If it does not load, an error follows the
/// `Complete` event, the engine holds no model and the name remembered stays as it was.
pub proof fn law_load_model_loads_the_engine(
    before: BrainstemView,
    loaded_before: bool,
    path: Seq<char>,
    now: u128,
    feed: Seq<Stimulus>,
    after: BrainstemView,
    loaded_after: bool,
    turn: TurnView,
)
    requires
        spec_is_turn(
            before,
            loaded_before,
            ReportView::Asset(AssetEventView::Complete(path)),
            now,
            feed,
            after,
            loaded_after,
            turn,
        ),
        before.phase is Resolving,
    ensures
        turn.outputs.len() == 1 || turn.outputs.len() == 2,
        turn.outputs[0] == spec_envelope(
            before.request_id,
            BrainstemBodyView::Asset(AssetEventView::Complete(path)),
        ),
        turn.outputs.len() == 1 ==> {
            &&& after.last_model_name == Some(before.phase->Resolving_name)
            &&& before.strategy is KeepAlive ==> loaded_after
            &&& turn.next is Await && turn.next->Await_0 is Some ==> loaded_after
        },
        turn.outputs.len() == 2 ==> {
            &&& turn.outputs[1].id == before.request_id
            &&& turn.outputs[1].body is Error
            &&& !loaded_after
            &&& after.last_model_name == before.last_model_name
        },
{
    let report = ReportView::Asset(AssetEventView::Complete(path));
    reveal(spec_react);
    lemma_turn_unrolls(before, loaded_before, report, now, feed, after, loaded_after, turn, 1);
    let first = spec_react(before, feed[0]);
    assert(spec_run(before, feed.take(0)).outputs + first.1.outputs =~= first.1.outputs);
    lemma_turn_unrolls(before, loaded_before, report, now, feed, after, loaded_after, turn, 2);
    let two = spec_run(before, feed.take(2));
    let second = spec_react(first.0, feed[1]);
    if spec_for_engine(two.directives.last()) {
        // The load succeeded and the tolerance has passed: the engine is unloaded again.
        lemma_turn_unrolls(before, loaded_before, report, now, feed, after, loaded_after, turn, 3);
        let third = spec_react(second.0, feed[2]);
        assert(first.1.outputs + second.1.outputs + third.1.outputs =~= first.1.outputs);
    } else if second.1.outputs.len() == 0 {
        assert(first.1.outputs + second.1.outputs =~= first.1.outputs);
    } else {
        assert(first.1.outputs + second.1.outputs =~= seq![
            first.1.outputs[0],
            second.1.outputs[0],
        ]);
    }
}

/// A reset has the engine unload: if the acknowledgement is `Complete`, the engine holds
/// no model afterwards; else the one envelope emitted is the error the engine gave.
pub proof fn law_reset_unloads_the_engine(
    before: BrainstemView,
    loaded_before: bool,
    id: Option<Seq<char>>,
    now: u128,
    feed: Seq<Stimulus>,
    after: BrainstemView,
    loaded_after: bool,
    turn: TurnView,
)
    requires
        spec_is_turn(
            before,
            loaded_before,
            ReportView::Input(BrainstemInputView { id, command: BrainstemCommandView::Reset }),
            now,
            feed,
            after,
            loaded_after,
            turn,
        ),
        before.phase is Idle,
    ensures
        turn.outputs.len() == 1,
        turn.outputs[0].id == id,
        turn.outputs[0].body == BrainstemBodyView::Event(InferenceEventView::Complete)
            || turn.outputs[0].body is Error,
        turn.outputs[0].body == BrainstemBodyView::Event(InferenceEventView::Complete)
            ==> !loaded_after,
        after.phase is Idle,
{
    let report = ReportView::Input(
        BrainstemInputView { id, command: BrainstemCommandView::Reset },
    );
    reveal(spec_react);
    lemma_turn_unrolls(before, loaded_before, report, now, feed, after, loaded_after, turn, 1);
    let first = spec_react(before, feed[0]);
    assert(spec_run(before, feed.take(0)).outputs + first.1.outputs =~= first.1.outputs);
    lemma_turn_unrolls(before, loaded_before, report, now, feed, after, loaded_after, turn, 2);
    let two = spec_run(before, feed.take(2));
    let second = spec_react(first.0, feed[1]);
    if spec_for_engine(two.directives.last()) {
        // The engine refused to unload and the tolerance has passed: it is asked again.
        lemma_turn_unrolls(before, loaded_before, report, now, feed, after, loaded_after, turn, 3);
        let third = spec_react(second.0, feed[2]);
        assert(first.1.outputs + second.1.outputs + third.1.outputs =~= second.1.outputs);
    } else {
        assert(first.1.outputs + second.1.outputs =~= second.1.outputs);
    }
}

/// A call that found the engine cold is made only once the engine has loaded the model
/// that was resolved for it: when the stream of the call is open, the engine holds a
/// model and the model's name is remembered, and nothing was emitted before the first
/// event of the stream. If the engine does not load or refuses the call, one error is
/// emitted and the call is skipped.
pub proof fn law_cold_reload_loads_before_the_call(
    before: BrainstemView,
    loaded_before: bool,
    path: Seq<char>,
    now: u128,
    feed: Seq<Stimulus>,
    after: BrainstemView,
    loaded_after: bool,
    turn: TurnView,
)
    requires
        spec_is_turn(
            before,
            loaded_before,
            ReportView::Resolved(Ok(path)),
            now,
            feed,
            after,
            loaded_after,
            turn,
        ),
        before.phase is ColdResolving,
    ensures
        turn.next is Continue ==> {
            &&& loaded_after
            &&& after.phase is Streaming
            &&& after.last_model_name == Some(before.phase->ColdResolving_name)
            &&& after.request_id == before.request_id
            &&& turn.outputs.len() == 0
        },
        !(turn.next is Continue) ==> {
            &&& turn.outputs.len() == 1
            &&& turn.outputs[0].id == before.request_id
            &&& turn.outputs[0].body is Error
            &&& after.phase is Idle
        },
{
    let report = ReportView::Resolved(Ok(path));
    reveal(spec_react);
    lemma_turn_unrolls(before, loaded_before, report, now, feed, after, loaded_after, turn, 1);
    let first = spec_react(before, feed[0]);
    assert(spec_run(before, feed.take(0)).outputs + first.1.outputs =~= first.1.outputs);
    lemma_turn_unrolls(before, loaded_before, report, now, feed, after, loaded_after, turn, 2);
    let second = spec_react(first.0, feed[1]);
    assert(first.1.outputs + second.1.outputs =~= second.1.outputs);
    if spec_for_engine(spec_run(before, feed.take(2)).directives.last()) {
        lemma_turn_unrolls(before, loaded_before, report, now, feed, after, loaded_after, turn, 3);
        let third = spec_react(second.0, feed[2]);
        // The engine has loaded the model and is handed the call.
        assert(second.0.phase is Starting);
        assert(second.1.outputs + third.1.outputs =~= third.1.outputs);
        if spec_for_engine(spec_run(before, feed.take(3)).directives.last()) {
            // The call was refused and the tolerance has passed: the engine is unloaded.
            lemma_turn_unrolls(
                before,
                loaded_before,
                report,
                now,
                feed,
                after,
                loaded_after,
                turn,
                4,
            );
            let fourth = spec_react(third.0, feed[3]);
            assert(third.1.outputs + fourth.1.outputs =~= third.1.outputs);
        }
    }
}

} // verus!
