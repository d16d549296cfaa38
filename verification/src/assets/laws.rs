//! What holds of every resolution.

use crate::assets::{
    FetchView, OutcomeView, ResolutionView, Stage, spec_advance, spec_created,
};
use crate::manifest::ModelSpecView;
use crate::protocol::AssetEventView;
use vstd::prelude::*;

verus! {

/// Where a run of a resolution has led: the state reached and every event emitted, in
/// order.
pub struct Course {
    pub state: ResolutionView,
    pub events: Seq<AssetEventView>,
}

/// The run of a resolution from state `s` over the given outcomes, first to last.
pub open spec fn spec_course(s: ResolutionView, outcomes: Seq<OutcomeView>) -> Course
    decreases outcomes.len(),
{
    if outcomes.len() == 0 {
        Course { state: s, events: Seq::empty() }
    } else {
        let before = spec_course(s, outcomes.drop_last());
        let (state, advance) = spec_advance(before.state, outcomes.last());
        Course { state, events: before.events + advance.events }
    }
}

/// How far the story of a resolution has been told.
pub enum Life {
    /// No event yet.
    Unborn,
    /// `Started` was emitted, and progress up to this many bytes.
    Running(u64),
    /// A terminal event was emitted.
    Ended,
}

/// Where one more event takes the story: `None` if the event cannot come at this point.
/// `Started` comes first and once; progress never counts backwards; `Complete` or `Error`
/// ends the story, and nothing comes after the end.
pub open spec fn spec_life_step(life: Life, event: AssetEventView) -> Option<Life> {
    match (life, event) {
        (Life::Unborn, AssetEventView::Started(_)) => Some(Life::Running(0)),
        (Life::Running(reported), AssetEventView::Progress(current, _)) => if current
            >= reported {
            Some(Life::Running(current))
        } else {
            None
        },
        (Life::Running(_), AssetEventView::Complete(_)) => Some(Life::Ended),
        (Life::Running(_), AssetEventView::Error(_)) => Some(Life::Ended),
        _ => None,
    }
}

/// Where a list of events takes the story from its beginning.
pub open spec fn spec_life(events: Seq<AssetEventView>) -> Option<Life>
    decreases events.len(),
{
    if events.len() == 0 {
        Some(Life::Unborn)
    } else {
        match spec_life(events.drop_last()) {
            Some(life) => spec_life_step(life, events.last()),
            None => None,
        }
    }
}

/// Where a list of events takes the story from a given point.
pub open spec fn spec_life_from(life: Life, events: Seq<AssetEventView>) -> Option<Life>
    decreases events.len(),
{
    if events.len() == 0 {
        Some(life)
    } else {
        match spec_life_from(life, events.drop_last()) {
            Some(then) => spec_life_step(then, events.last()),
            None => None,
        }
    }
}

/// Telling two lists one after the other is telling the first and then the second.
proof fn lemma_life_concat(first: Seq<AssetEventView>, second: Seq<AssetEventView>)
    ensures
        spec_life(first + second) == match spec_life(first) {
            Some(life) => spec_life_from(life, second),
            None => None,
        },
    decreases second.len(),
{
    if second.len() == 0 {
        assert(first + second =~= first);
    } else {
        lemma_life_concat(first, second.drop_last());
        assert((first + second).drop_last() =~= first + second.drop_last());
    }
}

/// Whether the story told so far fits the stage the resolution is in.
pub open spec fn spec_in_step(s: ResolutionView, life: Life) -> bool {
    match s.stage {
        Stage::Created => life is Unborn,
        Stage::Finished => life is Ended,
        Stage::Probing | Stage::Requesting | Stage::Creating => life == Life::Running(0),
        _ => life is Running && life->Running_0 <= s.current,
    }
}

/// One step keeps the story and the stage together.
proof fn lemma_advance_keeps_step(s: ResolutionView, outcome: OutcomeView, life: Life)
    requires
        spec_in_step(s, life),
    ensures
        ({
            let (state, advance) = spec_advance(s, outcome);
            &&& spec_life_from(life, advance.events) is Some
            &&& spec_in_step(state, spec_life_from(life, advance.events)->0)
        }),
{
    let (state, advance) = spec_advance(s, outcome);
    let events = advance.events;
    reveal_with_fuel(spec_life_from, 3);
    if events.len() == 1 {
        assert(events.drop_last() =~= Seq::<AssetEventView>::empty());
    } else if events.len() == 2 {
        assert(events.drop_last() =~= seq![events[0]]);
        assert(events.drop_last().drop_last() =~= Seq::<AssetEventView>::empty());
    }
}

/// Whatever the driver reports, the events of a resolution tell one story: `Started`
/// first and once, then progress that never counts backwards, then exactly one of
/// `Complete` and `Error`, and nothing after it. The story has ended exactly when the
/// resolution has.
pub proof fn law_one_terminal_event(
    name: Seq<char>,
    spec: Option<ModelSpecView>,
    cache_dir: Seq<char>,
    silent: bool,
    outcomes: Seq<OutcomeView>,
)
    ensures
        ({
            let course = spec_course(spec_created(name, spec, cache_dir, silent), outcomes);
            &&& spec_life(course.events) is Some
            &&& spec_in_step(course.state, spec_life(course.events)->0)
            &&& course.state.stage is Finished <==> spec_life(course.events) == Some(Life::Ended)
            &&& course.state.stage is Created <==> course.events.len() == 0
        }),
    decreases outcomes.len(),
{
    let start = spec_created(name, spec, cache_dir, silent);
    if outcomes.len() != 0 {
        law_one_terminal_event(name, spec, cache_dir, silent, outcomes.drop_last());
        let before = spec_course(start, outcomes.drop_last());
        let life = spec_life(before.events)->0;
        lemma_advance_keeps_step(before.state, outcomes.last(), life);
        let (state, advance) = spec_advance(before.state, outcomes.last());
        lemma_life_concat(before.events, advance.events);
    }
}

/// A step changes neither the name, nor what the registry said of it, nor the cache
/// directory: the path a resolution leads to is fixed when it is created.
pub proof fn law_final_path_is_fixed(s: ResolutionView, outcome: OutcomeView)
    ensures
        spec_advance(s, outcome).0.final_path() == s.final_path(),
        spec_advance(s, outcome).0.name == s.name,
        spec_advance(s, outcome).0.spec == s.spec,
        spec_advance(s, outcome).0.cache_dir == s.cache_dir,
{
}

/// `Complete` always carries the final path, and the result of a resolution that ends
/// with it is that path; `Error` carries the message that is the result.
pub proof fn law_terminal_event_is_the_result(s: ResolutionView, outcome: OutcomeView)
    requires
        !(s.stage is Finished),
    ensures
        ({
            let (state, advance) = spec_advance(s, outcome);
            forall|i: int|
                0 <= i < advance.events.len() ==> match #[trigger] advance.events[i] {
                    AssetEventView::Complete(path) => path == s.final_path() && state.result
                        == Some(Ok::<Seq<char>, Seq<char>>(path)),
                    AssetEventView::Error(message) => state.result == Some(
                        Err::<Seq<char>, Seq<char>>(message),
                    ),
                    _ => true,
                }
        }),
{
}

/// A model that is in the cache resolves at once: `Started`, then `Complete` with the
/// path in the cache, without a request and without progress. So a second resolution of
/// a name, after one that succeeded, returns the same path.
pub proof fn law_cached_model_resolves_at_once(
    name: Seq<char>,
    spec: ModelSpecView,
    cache_dir: Seq<char>,
    silent: bool,
)
    ensures
        ({
            let start = spec_created(name, Some(spec), cache_dir, silent);
            let course = spec_course(start, seq![OutcomeView::Begin, OutcomeView::Found(true)]);
            &&& course.events == seq![
                AssetEventView::Started(name),
                AssetEventView::Complete(start.final_path()),
            ]
            &&& course.state.stage is Finished
            &&& course.state.result == Some(Ok::<Seq<char>, Seq<char>>(start.final_path()))
        }),
{
    let start = spec_created(name, Some(spec), cache_dir, silent);
    let outcomes = seq![OutcomeView::Begin, OutcomeView::Found(true)];
    reveal_with_fuel(spec_course, 3);
    assert(outcomes.drop_last() =~= seq![OutcomeView::Begin]);
    assert(outcomes.drop_last().drop_last() =~= Seq::<OutcomeView>::empty());
    let first = spec_advance(start, OutcomeView::Begin);
    let second = spec_advance(first.0, OutcomeView::Found(true));
    assert(Seq::<AssetEventView>::empty() + first.1.events + second.1.events =~= seq![
        AssetEventView::Started(name),
        AssetEventView::Complete(start.final_path()),
    ]);
}

/// A name the registry does not know yields `Started`, then `Error` with the name in its
/// message, and nothing else is asked of the driver.
pub proof fn law_unknown_name_fails_at_once(name: Seq<char>, cache_dir: Seq<char>, silent: bool)
    ensures
        ({
            let start = spec_created(name, None, cache_dir, silent);
            let (state, advance) = spec_advance(start, OutcomeView::Begin);
            &&& advance.events == seq![
                AssetEventView::Started(name),
                AssetEventView::Error("Model '"@ + name + "' not found in registry"@),
            ]
            &&& advance.next == FetchView::Nothing
            &&& state.stage is Finished
        }),
{
}

/// Whether a partial file may exist while the resolution is in this stage.
pub open spec fn spec_partial_may_exist(stage: Stage) -> bool {
    stage is Streaming || stage is Publishing
}

/// A download that fails leaves nothing behind: while a partial file may exist no error
/// is reported; a failure then has the partial file removed first, and the error is
/// reported only in answer to the removal. The file is renamed to its final path only
/// once the whole body was copied, and never after a failure.
pub proof fn law_failed_download_is_cleaned_up(s: ResolutionView, outcome: OutcomeView)
    ensures
        ({
            let (state, advance) = spec_advance(s, outcome);
            &&& spec_partial_may_exist(s.stage) ==> forall|i: int|
                0 <= i < advance.events.len() ==> !((#[trigger] advance.events[i]) is Error)
            &&& spec_partial_may_exist(s.stage) && outcome is Failed ==> {
                &&& advance.next == FetchView::Discard { path: s.partial_path() }
                &&& state.stage is Discarding
            }
            &&& s.stage is Discarding && !(advance.next is Rejected) ==> {
                &&& state.stage is Finished
                &&& advance.events == seq![AssetEventView::Error(s.failure)]
            }
            &&& advance.next is Publish ==> s.stage is Streaming && outcome == OutcomeView::Chunk(
                0,
            )
            &&& advance.next is Publish ==> advance.next == FetchView::Publish {
                from: s.partial_path(),
                to: s.final_path(),
            }
        }),
{
}

} // verus!
