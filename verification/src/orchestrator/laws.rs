//! What holds of every run of the orchestrator's state machine.

use crate::orchestrator::{
    BrainstemView, CortexStrategy, DirectiveView, EngineCallView, PhaseView, ReactionView,
    SignalView, spec_step,
};
use crate::protocol::{
    AssetEventView, BrainstemBodyView, BrainstemCommandView, BrainstemInputView,
    BrainstemOutputView, InferenceEventView,
};
use vstd::prelude::*;

verus! {

/// One signal together with the clock reading and the engine's report at its arrival.
pub struct Stimulus {
    pub signal: SignalView,
    pub now: u128,
    pub loaded: bool,
}

/// Where a run has led: the state reached, every envelope emitted and every directive
/// issued, in order, and the notice of the last step.
pub struct RunView {
    pub state: BrainstemView,
    pub outputs: Seq<BrainstemOutputView>,
    pub directives: Seq<DirectiveView>,
    pub notice: Option<Seq<char>>,
}

/// The machine's answer to one stimulus.
#[verifier::opaque]
pub open spec fn spec_react(s: BrainstemView, stimulus: Stimulus) -> (BrainstemView, ReactionView) {
    spec_step(s, stimulus.signal, stimulus.now, stimulus.loaded)
}

/// The run of the machine from state `s` over the stimuli of `feed`, first to last.
pub open spec fn spec_run(s: BrainstemView, feed: Seq<Stimulus>) -> RunView
    decreases feed.len(),
{
    if feed.len() == 0 {
        RunView { state: s, outputs: Seq::empty(), directives: Seq::empty(), notice: None }
    } else {
        let before = spec_run(s, feed.drop_last());
        let (state, reaction) = spec_react(before.state, feed.last());
        RunView {
            state,
            outputs: before.outputs + reaction.outputs,
            directives: before.directives.push(reaction.next),
            notice: reaction.notice,
        }
    }
}

/// Whether a request is being handled.
pub open spec fn spec_handling(s: BrainstemView) -> bool {
    !(s.phase is Idle || s.phase is Hibernating || s.phase is Stopped)
}

/// Every envelope of the list carries the id.
pub open spec fn all_carry(outputs: Seq<BrainstemOutputView>, id: Option<Seq<char>>) -> bool {
    forall|i: int| 0 <= i < outputs.len() ==> (#[trigger] outputs[i]).id == id
}

/// A signal other than a request, met while a request with id `id` is handled or none is:
/// what is emitted carries `id`, and the request still handled afterwards is the same.
proof fn lemma_step_keeps_request(
    s: BrainstemView,
    signal: SignalView,
    now: u128,
    loaded: bool,
    id: Option<Seq<char>>,
)
    requires
        !(signal is Input),
        spec_handling(s) ==> s.request_id == id,
    ensures
        all_carry(spec_step(s, signal, now, loaded).1.outputs, id),
        spec_handling(spec_step(s, signal, now, loaded).0) ==> spec_step(
            s,
            signal,
            now,
            loaded,
        ).0.request_id == id,
{
}

/// Over a run without a new request, everything emitted carries the id of the request
/// that was being handled, and no other request comes to be handled.
pub proof fn lemma_run_keeps_request(s: BrainstemView, feed: Seq<Stimulus>, id: Option<Seq<char>>)
    requires
        forall|i: int| 0 <= i < feed.len() ==> !((#[trigger] feed[i]).signal is Input),
        spec_handling(s) ==> s.request_id == id,
    ensures
        all_carry(spec_run(s, feed).outputs, id),
        spec_handling(spec_run(s, feed).state) ==> spec_run(s, feed).state.request_id == id,
    decreases feed.len(),
{
    if feed.len() != 0 {
        let shorter = feed.drop_last();
        assert forall|i: int| 0 <= i < shorter.len() implies !((#[trigger] shorter[i]).signal
            is Input) by {
            assert(shorter[i] == feed[i]);
        }
        lemma_run_keeps_request(s, shorter, id);
        let before = spec_run(s, shorter);
        let last = feed.last();
        reveal(spec_react);
        lemma_step_keeps_request(before.state, last.signal, last.now, last.loaded, id);
    }
}

/// Every envelope emitted in response to a request carries the id of that request, exactly
/// as it came: from the arrival of the request on, whatever the driver reports, until the
/// next request.
pub proof fn law_responses_carry_request_id(
    s: BrainstemView,
    message: BrainstemInputView,
    default_model: Seq<char>,
    now: u128,
    loaded: bool,
    feed: Seq<Stimulus>,
)
    requires
        s.phase is Idle,
        forall|i: int| 0 <= i < feed.len() ==> !((#[trigger] feed[i]).signal is Input),
    ensures
        ({
            let (heard, first) = spec_step(
                s,
                SignalView::Input { message, default_model },
                now,
                loaded,
            );
            &&& all_carry(first.outputs, message.id)
            &&& all_carry(spec_run(heard, feed).outputs, message.id)
            &&& spec_handling(spec_run(heard, feed).state) ==> spec_run(
                heard,
                feed,
            ).state.request_id == message.id
        }),
{
    let (heard, first) = spec_step(s, SignalView::Input { message, default_model }, now, loaded);
    lemma_run_keeps_request(heard, feed, message.id);
}

/// The time of the last activity never moves backwards in a step.
pub proof fn law_last_activity_never_decreases(
    s: BrainstemView,
    signal: SignalView,
    now: u128,
    loaded: bool,
)
    ensures
        spec_step(s, signal, now, loaded).0.last_activity >= s.last_activity,
        signal is Input && s.phase is Idle ==> spec_step(s, signal, now, loaded).0.last_activity
            >= now,
{
}

/// The time of the last activity never moves backwards over the life of the machine.
pub proof fn law_last_activity_monotone(s: BrainstemView, feed: Seq<Stimulus>)
    ensures
        spec_run(s, feed).state.last_activity >= s.last_activity,
    decreases feed.len(),
{
    if feed.len() != 0 {
        law_last_activity_monotone(s, feed.drop_last());
        let before = spec_run(s, feed.drop_last());
        let last = feed.last();
        reveal(spec_react);
        law_last_activity_never_decreases(before.state, last.signal, last.now, last.loaded);
    }
}

/// Under `HibernateAfter(bound)`, a resting machine that is woken when `bound` or more has
/// passed since the last activity has a loaded engine unloaded; woken earlier, it asks to
/// be woken again no later than when the bound is reached.
pub proof fn law_hibernation(s: BrainstemView, bound: u128, now: u128, loaded: bool)
    requires
        s.phase is Idle,
        s.strategy == CortexStrategy::HibernateAfter(bound),
        now >= s.last_activity,
    ensures
        now - s.last_activity >= bound && loaded ==> spec_step(
            s,
            SignalView::Wake,
            now,
            loaded,
        ).1.next == DirectiveView::Unload,
        now - s.last_activity >= bound && !loaded ==> spec_step(
            s,
            SignalView::Wake,
            now,
            loaded,
        ).1.next == DirectiveView::Await(None),
        now - s.last_activity < bound ==> spec_step(s, SignalView::Wake, now, loaded).1.next
            == DirectiveView::Await(Some((s.last_activity + bound - now) as u128)),
{
}

/// Under `KeepAlive` the machine never asks for the engine to be unloaded, except to
/// answer a `Reset`.
pub proof fn law_keep_alive_never_hibernates(
    s: BrainstemView,
    signal: SignalView,
    now: u128,
    loaded: bool,
)
    requires
        s.strategy == CortexStrategy::KeepAlive,
        !(s.phase is Hibernating),
    ensures
        !(spec_step(s, signal, now, loaded).0.phase is Hibernating),
        spec_step(s, signal, now, loaded).1.next == DirectiveView::Unload ==> spec_step(
            s,
            signal,
            now,
            loaded,
        ).0.phase is Resetting,
{
}

/// While a request is handled no other is dispatched: a request that arrives then is
/// ignored and changes nothing.
pub proof fn law_commands_are_serialized(
    s: BrainstemView,
    message: BrainstemInputView,
    default_model: Seq<char>,
    now: u128,
    loaded: bool,
)
    requires
        !(s.phase is Idle),
    ensures
        spec_step(s, SignalView::Input { message, default_model }, now, loaded).0 == s,
        spec_step(s, SignalView::Input { message, default_model }, now, loaded).1.outputs.len()
            == 0,
{
}

/// A resolution that ends in an error is forwarded, loads nothing and leaves the name of
/// the last loaded model as it was.
pub proof fn law_failed_resolution_loads_nothing(
    s: BrainstemView,
    message: Seq<char>,
    now: u128,
    loaded: bool,
)
    requires
        s.phase is Resolving,
    ensures
        ({
            let (after, reaction) = spec_step(
                s,
                SignalView::Asset(AssetEventView::Error(message)),
                now,
                loaded,
            );
            &&& reaction.outputs == seq![
                BrainstemOutputView {
                    id: s.request_id,
                    body: BrainstemBodyView::Asset(AssetEventView::Error(message)),
                },
            ]
            &&& !(reaction.next is Load)
            &&& after.last_model_name == s.last_model_name
            &&& !spec_handling(after)
        }),
{
}

/// The name of the last loaded model changes only when the engine reports a successful
/// load, and then to the name that was resolved.
pub proof fn law_last_model_follows_loads(
    s: BrainstemView,
    signal: SignalView,
    now: u128,
    loaded: bool,
)
    ensures
        ({
            let after = spec_step(s, signal, now, loaded).0;
            after.last_model_name != s.last_model_name ==> {
                &&& signal matches SignalView::Loaded(Ok(_))
                &&& match s.phase {
                    PhaseView::Loading { name } => after.last_model_name == Some(name),
                    PhaseView::ColdLoading { name, call } => after.last_model_name == Some(name),
                    _ => false,
                }
            }
        }),
{
}

/// A call that finds the engine cold, names no model and follows no earlier load falls
/// back on the engine's default model.
pub proof fn law_cold_reload_falls_back_to_default(
    s: BrainstemView,
    id: Option<Seq<char>>,
    prompt: Seq<char>,
    config: crate::manifest::InferenceConfig,
    default_model: Seq<char>,
    now: u128,
)
    requires
        s.phase is Idle,
        s.last_model_name is None,
    ensures
        ({
            let message = BrainstemInputView {
                id,
                command: BrainstemCommandView::Infer { model: None, prompt, config },
            };
            let (after, reaction) = spec_step(
                s,
                SignalView::Input { message, default_model },
                now,
                false,
            );
            &&& reaction.next == DirectiveView::ResolveBlocking(default_model)
            &&& after.phase == (PhaseView::ColdResolving {
                name: default_model,
                call: EngineCallView::Infer { prompt, config },
            })
            &&& reaction.outputs.len() == 0
        }),
{
}

/// The engine is called only once it is loaded: a call directive follows either a request
/// that found the engine loaded or the report of a successful load.
pub proof fn law_calls_follow_loads(s: BrainstemView, signal: SignalView, now: u128, loaded: bool)
    requires
        spec_step(s, signal, now, loaded).1.next is Call,
    ensures
        (signal is Input && loaded) || signal matches SignalView::Loaded(Ok(_)),
{
}

/// What the engine's stream yields is forwarded item by item, in order and unchanged: an
/// event as an event, a failure as an error, each under the id of the request.
pub proof fn law_stream_is_forwarded(
    s: BrainstemView,
    item: Result<InferenceEventView, Seq<char>>,
    now: u128,
    loaded: bool,
)
    requires
        s.phase is Streaming,
    ensures
        ({
            let (after, reaction) = spec_step(s, SignalView::Item(item), now, loaded);
            &&& after == s
            &&& reaction.next == DirectiveView::NextItem
            &&& reaction.outputs == seq![
                BrainstemOutputView {
                    id: s.request_id,
                    body: match item {
                        Ok(event) => BrainstemBodyView::Event(event),
                        Err(message) => BrainstemBodyView::Error(message),
                    },
                },
            ]
        }),
{
}

/// The stimuli that report the items of an engine's stream, one by one.
pub open spec fn spec_item_feed(
    items: Seq<Result<InferenceEventView, Seq<char>>>,
    now: u128,
    loaded: bool,
) -> Seq<Stimulus> {
    Seq::new(items.len(), |i: int| Stimulus { signal: SignalView::Item(items[i]), now, loaded })
}

/// The envelopes that forward the items of an engine's stream under an id.
pub open spec fn spec_item_envelopes(
    id: Option<Seq<char>>,
    items: Seq<Result<InferenceEventView, Seq<char>>>,
) -> Seq<BrainstemOutputView> {
    Seq::new(
        items.len(),
        |i: int|
            BrainstemOutputView {
                id,
                body: match items[i] {
                    Ok(event) => BrainstemBodyView::Event(event),
                    Err(message) => BrainstemBodyView::Error(message),
                },
            },
    )
}

/// The stream of a call is forwarded whole: what is emitted while the stream is drained
/// is one envelope for each item, in the order of the stream, each under the id of the
/// request. So the envelopes of a call whose stream ends in `Complete` end in `Complete`.
pub proof fn law_stream_is_forwarded_whole(
    s: BrainstemView,
    items: Seq<Result<InferenceEventView, Seq<char>>>,
    now: u128,
    loaded: bool,
)
    requires
        s.phase is Streaming,
    ensures
        spec_run(s, spec_item_feed(items, now, loaded)).state == s,
        spec_run(s, spec_item_feed(items, now, loaded)).outputs == spec_item_envelopes(
            s.request_id,
            items,
        ),
        items.len() > 0 && items.last() == Ok::<InferenceEventView, Seq<char>>(
            InferenceEventView::Complete,
        ) ==> spec_run(s, spec_item_feed(items, now, loaded)).outputs.last().body
            == BrainstemBodyView::Event(InferenceEventView::Complete),
    decreases items.len(),
{
    let feed = spec_item_feed(items, now, loaded);
    if items.len() == 0 {
        assert(spec_item_envelopes(s.request_id, items) =~= Seq::<BrainstemOutputView>::empty());
    } else {
        let fewer = items.drop_last();
        law_stream_is_forwarded_whole(s, fewer, now, loaded);
        assert(feed.drop_last() =~= spec_item_feed(fewer, now, loaded));
        reveal(spec_react);
        law_stream_is_forwarded(s, items.last(), now, loaded);
        assert(spec_item_envelopes(s.request_id, fewer) + seq![
            spec_item_envelopes(s.request_id, items).last(),
        ] =~= spec_item_envelopes(s.request_id, items));
    }
}

/// Whether the signal reports an item that ends a stream: `Complete`, or a failure.
pub open spec fn spec_ends_a_stream(signal: SignalView) -> bool {
    signal is Item && (signal->Item_0 is Err || signal->Item_0 == Ok::<
        InferenceEventView,
        Seq<char>,
    >(InferenceEventView::Complete))
}

/// Whether the last envelope of the list closes an exchange.
pub open spec fn spec_answered(outputs: Seq<BrainstemOutputView>) -> bool {
    outputs.len() > 0 && outputs.last().body.is_terminal()
}

/// Whether every stream the feed reports as exhausted was reported to end with
/// `Complete` or with a failure just before.
pub open spec fn spec_streams_end_well(feed: Seq<Stimulus>) -> bool {
    forall|i: int|
        0 <= i < feed.len() && (#[trigger] feed[i]).signal is Drained ==> i > 0
            && spec_ends_a_stream(feed[i - 1].signal)
}

/// What holds of the envelopes emitted for a request while it is handled and after:
/// once the handling is over the last of them closes the exchange, and so it does while
/// the engine loads a resolved model and right after the stream's last item.
pub open spec fn spec_answer_in_time(
    s: BrainstemView,
    outputs: Seq<BrainstemOutputView>,
    last: Option<SignalView>,
) -> bool {
    &&& !spec_handling(s) ==> spec_answered(outputs)
    &&& s.phase is Loading ==> spec_answered(outputs)
    &&& s.phase is Streaming && last is Some && spec_ends_a_stream(last->0) ==> spec_answered(
        outputs,
    )
}

/// One step keeps the answer in time.
proof fn lemma_step_keeps_answer(
    s: BrainstemView,
    outputs: Seq<BrainstemOutputView>,
    last: Option<SignalView>,
    stimulus: Stimulus,
)
    requires
        spec_answer_in_time(s, outputs, last),
        !(stimulus.signal is Input),
        stimulus.signal is Drained ==> last is Some && spec_ends_a_stream(last->0),
    ensures
        ({
            let (state, reaction) = spec_step(s, stimulus.signal, stimulus.now, stimulus.loaded);
            spec_answer_in_time(state, outputs + reaction.outputs, Some(stimulus.signal))
        }),
{
    let (state, reaction) = spec_step(s, stimulus.signal, stimulus.now, stimulus.loaded);
    let after = outputs + reaction.outputs;
    if reaction.outputs.len() == 0 {
        assert(after =~= outputs);
    } else {
        assert(after.last() == reaction.outputs.last());
    }
}

/// A run without a new request keeps the answer in time.
proof fn lemma_run_keeps_answer(s: BrainstemView, outputs: Seq<BrainstemOutputView>, feed: Seq<Stimulus>)
    requires
        spec_answer_in_time(s, outputs, None),
        forall|i: int| 0 <= i < feed.len() ==> !((#[trigger] feed[i]).signal is Input),
        spec_streams_end_well(feed),
    ensures
        spec_answer_in_time(
            spec_run(s, feed).state,
            outputs + spec_run(s, feed).outputs,
            if feed.len() == 0 {
                None
            } else {
                Some(feed.last().signal)
            },
        ),
    decreases feed.len(),
{
    if feed.len() == 0 {
        assert(outputs + spec_run(s, feed).outputs =~= outputs);
    } else {
        let shorter = feed.drop_last();
        assert forall|i: int| 0 <= i < shorter.len() implies !((#[trigger] shorter[i]).signal
            is Input) by {
            assert(shorter[i] == feed[i]);
        }
        assert(spec_streams_end_well(shorter)) by {
            assert forall|i: int|
                0 <= i < shorter.len() && (#[trigger] shorter[i]).signal is Drained implies i > 0
                && spec_ends_a_stream(shorter[i - 1].signal) by {
                assert(shorter[i] == feed[i]);
                assert(feed[i].signal is Drained);
                assert(shorter[i - 1] == feed[i - 1]);
            }
        }
        lemma_run_keeps_answer(s, outputs, shorter);
        let before = spec_run(s, shorter);
        let last = feed.last();
        let earlier = if shorter.len() == 0 {
            None
        } else {
            Some(shorter.last().signal)
        };
        if last.signal is Drained {
            assert(feed[feed.len() - 1].signal is Drained);
            assert(shorter.last() == feed[feed.len() - 2]);
        }
        reveal(spec_react);
        lemma_step_keeps_answer(before.state, outputs + before.outputs, earlier, last);
        let reaction = spec_react(before.state, last).1;
        assert(outputs + (before.outputs + reaction.outputs) =~= (outputs + before.outputs)
            + reaction.outputs);
    }
}

/// Every request but `Stop` is answered: once its handling is over, the last envelope
/// emitted for it closes the exchange, being `Complete`, an error, a terminal asset event
/// or the list of models. This holds whatever the driver reports, provided that every
/// stream the engine opens ends with `Complete` or with a failure.
pub proof fn law_every_request_is_answered(
    s: BrainstemView,
    message: BrainstemInputView,
    default_model: Seq<char>,
    now: u128,
    loaded: bool,
    feed: Seq<Stimulus>,
)
    requires
        s.phase is Idle,
        !(message.command is Stop),
        forall|i: int| 0 <= i < feed.len() ==> !((#[trigger] feed[i]).signal is Input),
        spec_streams_end_well(feed),
    ensures
        ({
            let (heard, first) = spec_step(
                s,
                SignalView::Input { message, default_model },
                now,
                loaded,
            );
            let run = spec_run(heard, feed);
            !spec_handling(run.state) ==> {
                &&& spec_answered(first.outputs + run.outputs)
                &&& (first.outputs + run.outputs).last().id == message.id
            }
        }),
{
    let (heard, first) = spec_step(s, SignalView::Input { message, default_model }, now, loaded);
    assert(spec_answer_in_time(heard, first.outputs, None));
    lemma_run_keeps_answer(heard, first.outputs, feed);
    lemma_run_keeps_request(heard, feed, message.id);
    let run = spec_run(heard, feed);
    if !spec_handling(run.state) {
        let all = first.outputs + run.outputs;
        if run.outputs.len() == 0 {
            assert(all =~= first.outputs);
        } else {
            assert(all.last() == run.outputs.last());
        }
    }
}

/// The stimuli that report the events of a resolution, one by one.
pub open spec fn spec_asset_feed(events: Seq<AssetEventView>, now: u128, loaded: bool) -> Seq<
    Stimulus,
> {
    Seq::new(events.len(), |i: int| Stimulus { signal: SignalView::Asset(events[i]), now, loaded })
}

/// The envelopes that forward the events of a resolution under an id.
pub open spec fn spec_asset_envelopes(id: Option<Seq<char>>, events: Seq<AssetEventView>) -> Seq<
    BrainstemOutputView,
> {
    Seq::new(
        events.len(),
        |i: int| BrainstemOutputView { id, body: BrainstemBodyView::Asset(events[i]) },
    )
}

/// The events of a resolution are forwarded verbatim: while a requested model is
/// resolved, what is emitted is one envelope for each event, in order, each under the id
/// of the request, up to the event that ends the resolution.
pub proof fn law_asset_events_are_forwarded(
    s: BrainstemView,
    events: Seq<AssetEventView>,
    now: u128,
    loaded: bool,
)
    requires
        s.phase is Resolving,
        forall|i: int| 0 <= i < events.len() ==> !(#[trigger] events[i]).is_terminal(),
    ensures
        spec_run(s, spec_asset_feed(events, now, loaded)).state == s,
        spec_run(s, spec_asset_feed(events, now, loaded)).outputs == spec_asset_envelopes(
            s.request_id,
            events,
        ),
        forall|last: AssetEventView|
            last.is_terminal() ==> (#[trigger] spec_step(
                s,
                SignalView::Asset(last),
                now,
                loaded,
            )).1.outputs == seq![
                BrainstemOutputView { id: s.request_id, body: BrainstemBodyView::Asset(last) },
            ],
    decreases events.len(),
{
    let feed = spec_asset_feed(events, now, loaded);
    if events.len() == 0 {
        assert(spec_asset_envelopes(s.request_id, events) =~= Seq::<BrainstemOutputView>::empty());
    } else {
        let fewer = events.drop_last();
        assert forall|i: int| 0 <= i < fewer.len() implies !(#[trigger] fewer[i]).is_terminal() by {
            assert(fewer[i] == events[i]);
        }
        law_asset_events_are_forwarded(s, fewer, now, loaded);
        assert(feed.drop_last() =~= spec_asset_feed(fewer, now, loaded));
        assert(!events[events.len() - 1].is_terminal());
        reveal(spec_react);
        assert(spec_asset_envelopes(s.request_id, fewer) + seq![
            spec_asset_envelopes(s.request_id, events).last(),
        ] =~= spec_asset_envelopes(s.request_id, events));
    }
}

} // verus!
