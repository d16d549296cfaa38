use rusty_genius::assets::{AssetAuthority, Outcome};
use rusty_genius::engine::{Engine, EventStream, Pinky};
use rusty_genius::manifest::InferenceConfig;
use rusty_genius::orchestrator::runtime::{Orchestrator, Report, Task, Turn};
use rusty_genius::orchestrator::{
    Brainstem, CortexStrategy, Directive, EngineCall, Reaction, Signal, DEFAULT_HIBERNATION,
};
use rusty_genius::protocol::{
    AssetEvent, BrainstemBody, BrainstemCommand, BrainstemInput, BrainstemOutput, InferenceEvent,
    ModelDescriptor, ThoughtEvent,
};
use rusty_genius::registry::{ModelEntry, ModelRegistry};

const MS: u128 = 1_000_000;

fn authority() -> AssetAuthority {
    let mut registry = ModelRegistry::new("/config".to_string(), "/cache".to_string());
    registry.load(vec![
        ModelEntry {
            name: "tiny-model".to_string(),
            repo: "org/tiny".to_string(),
            filename: "tiny.gguf".to_string(),
            quantization: "Q4_K_M".to_string(),
        },
        ModelEntry {
            name: "M".to_string(),
            repo: "org/m".to_string(),
            filename: "m.gguf".to_string(),
            quantization: "Q4_K_M".to_string(),
        },
    ]);
    AssetAuthority::new(registry)
}

fn input(id: Option<&str>, command: BrainstemCommand) -> BrainstemInput {
    BrainstemInput { id: id.map(str::to_string), command }
}

fn infer(model: Option<&str>, prompt: &str) -> BrainstemCommand {
    BrainstemCommand::Infer {
        model: model.map(str::to_string),
        prompt: prompt.to_string(),
        config: InferenceConfig::default(),
    }
}

fn out(id: Option<&str>, body: BrainstemBody) -> BrainstemOutput {
    BrainstemOutput { id: id.map(str::to_string), body }
}

fn event(id: Option<&str>, e: InferenceEvent) -> BrainstemOutput {
    out(id, BrainstemBody::Event(e))
}

fn asset(id: Option<&str>, e: AssetEvent) -> BrainstemOutput {
    out(id, BrainstemBody::Asset(e))
}

fn error(id: Option<&str>, message: &str) -> BrainstemOutput {
    out(id, BrainstemBody::Error(message.to_string()))
}

fn signal_input(message: BrainstemInput) -> Signal {
    Signal::Input { message, default_model: "tiny-model".to_string() }
}

fn quiet(next: Directive) -> Reaction {
    Reaction { outputs: Vec::new(), next, notice: None }
}

/// A driver in miniature: it runs the orchestrator over one request, resolves assets
/// from a cache that holds every known model, and returns every envelope emitted.
struct World<E: Engine> {
    orchestrator: Orchestrator<E>,
    now: u128,
    emitted: Vec<BrainstemOutput>,
    loaded_when_first_event_came: Option<bool>,
}

impl<E: Engine> World<E> {
    fn new(engine: E) -> Self {
        World {
            orchestrator: Orchestrator::new(engine, authority(), 0),
            now: 0,
            emitted: Vec::new(),
            loaded_when_first_event_came: None,
        }
    }

    fn take(&mut self, turn: Turn) -> Task {
        for output in turn.outputs {
            if matches!(output.body, BrainstemBody::Event(_)) && self.loaded_when_first_event_came.is_none() {
                self.loaded_when_first_event_came = Some(self.orchestrator.is_loaded());
            }
            self.emitted.push(output);
        }
        turn.next
    }

    /// Runs until the orchestrator waits for input again, and returns the bound of the
    /// wait.
    fn settle(&mut self, mut report: Report) -> Option<u128> {
        loop {
            let turn = self.orchestrator.step(report, self.now);
            report = match self.take(turn) {
                Task::Await(bound) => return bound,
                Task::Exit => return None,
                Task::Continue => Report::Continue,
                Task::ResolveStream(name) => {
                    let mut resolution =
                        self.orchestrator.brainstem().authority().ensure_model_stream(&name);
                    let mut events = resolution.advance(Outcome::Begin).events;
                    if !resolution.is_finished() {
                        events.extend(resolution.advance(Outcome::Found(true)).events);
                    }
                    let mut next = Task::NextAsset;
                    for e in events {
                        assert_eq!(next, Task::NextAsset);
                        let turn = self.orchestrator.step(Report::Asset(e), self.now);
                        next = self.take(turn);
                    }
                    match next {
                        Task::Await(bound) => return bound,
                        other => panic!("unexpected task {:?}", other),
                    }
                }
                Task::ResolveBlocking(name) => {
                    let mut resolution =
                        self.orchestrator.brainstem().authority().ensure_model(&name);
                    resolution.advance(Outcome::Begin);
                    if !resolution.is_finished() {
                        resolution.advance(Outcome::Found(true));
                    }
                    Report::Resolved(resolution.result().unwrap())
                }
                other => panic!("unexpected task {:?}", other),
            };
        }
    }

    fn send(&mut self, id: Option<&str>, command: BrainstemCommand) -> Option<u128> {
        self.settle(Report::Input(input(id, command)))
    }
}

#[test]
fn echo_stub_inference() {
    let mut world = World::new(Pinky::new());
    world.send(Some("r1"), BrainstemCommand::LoadModel("tiny-model".to_string()));
    world.send(Some("r1"), infer(None, "Hello"));
    let id = Some("r1");
    assert_eq!(
        world.emitted,
        vec![
            asset(id, AssetEvent::Started("tiny-model".to_string())),
            asset(id, AssetEvent::Complete("/cache/tiny.gguf".to_string())),
            event(id, InferenceEvent::ProcessStart),
            event(id, InferenceEvent::Thought(ThoughtEvent::Start)),
            event(id, InferenceEvent::Thought(ThoughtEvent::Delta("Narf!".to_string()))),
            event(id, InferenceEvent::Thought(ThoughtEvent::Stop)),
            event(id, InferenceEvent::Content("Pinky says: Hello".to_string())),
            event(id, InferenceEvent::Complete),
        ]
    );
    assert!(world.orchestrator.is_loaded());
    assert_eq!(world.orchestrator.brainstem().last_model_name(), Some("tiny-model".to_string()));
}

#[test]
fn cold_reload_after_hibernation() {
    let mut world = World::new(Pinky::new());
    world.orchestrator.set_strategy(CortexStrategy::HibernateAfter(50 * MS));
    let wait = world.send(Some("load"), BrainstemCommand::LoadModel("M".to_string()));
    assert_eq!(wait, Some(50 * MS));
    assert!(world.orchestrator.is_loaded());
    // 200 ms pass without a request: the wait expires and the engine is unloaded.
    world.now = 200 * MS;
    assert_eq!(world.settle(Report::Wake), None);
    assert!(!world.orchestrator.is_loaded());
    world.emitted.clear();
    world.send(Some("cold"), infer(None, "x"));
    assert_eq!(world.loaded_when_first_event_came, Some(true));
    assert_eq!(world.emitted.first(), Some(&event(Some("cold"), InferenceEvent::ProcessStart)));
    assert_eq!(world.emitted.last(), Some(&event(Some("cold"), InferenceEvent::Complete)));
    assert_eq!(world.orchestrator.brainstem().last_model_name(), Some("M".to_string()));
}

#[test]
fn registry_miss() {
    let mut world = World::new(Pinky::new());
    world.send(Some("r"), BrainstemCommand::LoadModel("nonexistent".to_string()));
    assert_eq!(
        world.emitted,
        vec![
            asset(Some("r"), AssetEvent::Started("nonexistent".to_string())),
            asset(
                Some("r"),
                AssetEvent::Error("Model 'nonexistent' not found in registry".to_string())
            ),
        ]
    );
    assert!(!world.orchestrator.is_loaded());
    assert_eq!(world.orchestrator.brainstem().last_model_name(), None);
}

#[test]
fn a_registry_miss_leaves_the_last_model_name_unchanged() {
    let mut world = World::new(Pinky::new());
    world.send(None, BrainstemCommand::LoadModel("M".to_string()));
    world.send(None, BrainstemCommand::LoadModel("nonexistent".to_string()));
    assert_eq!(world.orchestrator.brainstem().last_model_name(), Some("M".to_string()));
    assert!(world.orchestrator.is_loaded());
}

#[test]
fn concurrent_callers_are_served_one_after_the_other() {
    let mut world = World::new(Pinky::new());
    world.send(None, BrainstemCommand::LoadModel("tiny-model".to_string()));
    world.emitted.clear();
    world.send(Some("A"), infer(None, "from A"));
    world.send(Some("B"), infer(None, "from B"));
    let ids: Vec<Option<String>> = world.emitted.iter().map(|o| o.id.clone()).collect();
    let first_b = ids.iter().position(|id| id.as_deref() == Some("B")).unwrap();
    assert!(ids[..first_b].iter().all(|id| id.as_deref() == Some("A")));
    assert!(ids[first_b..].iter().all(|id| id.as_deref() == Some("B")));
    for (id, prompt) in [("A", "from A"), ("B", "from B")] {
        let own: Vec<&BrainstemOutput> =
            world.emitted.iter().filter(|o| o.id.as_deref() == Some(id)).collect();
        assert_eq!(own.len(), 6);
        assert_eq!(own[0].body, BrainstemBody::Event(InferenceEvent::ProcessStart));
        assert_eq!(
            own[4].body,
            BrainstemBody::Event(InferenceEvent::Content(format!("Pinky says: {}", prompt)))
        );
        assert_eq!(own[5].body, BrainstemBody::Event(InferenceEvent::Complete));
    }
}

#[test]
fn every_envelope_carries_the_id_of_its_request() {
    for id in [Some("x"), Some(""), None, Some("anon")] {
        let mut world = World::new(Pinky::new());
        world.send(id, BrainstemCommand::LoadModel("tiny-model".to_string()));
        world.send(id, infer(None, "p"));
        world.send(id, BrainstemCommand::ListModels);
        world.send(id, BrainstemCommand::Reset);
        world.send(id, BrainstemCommand::LoadModel("nonexistent".to_string()));
        assert_eq!(world.emitted.len(), 2 + 6 + 1 + 1 + 2);
        for output in &world.emitted {
            assert_eq!(output.id.as_deref(), id);
        }
    }
}

#[test]
fn infer_without_any_model_falls_back_on_the_default_model() {
    let mut orchestrator = Orchestrator::new(Pinky::new(), authority(), 0);
    let turn = orchestrator.step(Report::Input(input(Some("q"), infer(None, "x"))), 0);
    assert_eq!(
        turn,
        Turn {
            outputs: Vec::new(),
            next: Task::ResolveBlocking("tiny-model".to_string()),
            notice: None,
        }
    );
}

#[test]
fn a_cold_reload_prefers_the_named_model_then_the_last_one() {
    let mut world = World::new(Pinky::new());
    world.orchestrator.set_strategy(CortexStrategy::Immediate);
    world.send(None, BrainstemCommand::LoadModel("M".to_string()));
    assert!(!world.orchestrator.is_loaded());
    let turn = world.orchestrator.step(Report::Input(input(None, infer(None, "x"))), 0);
    assert_eq!(turn.next, Task::ResolveBlocking("M".to_string()));
    world.settle(Report::Resolved(Ok("/cache/m.gguf".to_string())));
    let turn = world.orchestrator.step(Report::Input(input(None, infer(Some("tiny-model"), "x"))), 0);
    assert_eq!(turn.next, Task::ResolveBlocking("tiny-model".to_string()));
}

#[test]
fn a_cold_reload_that_cannot_resolve_reports_one_error() {
    let mut world = World::new(Pinky::new());
    world.send(Some("q"), infer(Some("nonexistent"), "x"));
    assert_eq!(
        world.emitted,
        vec![error(
            Some("q"),
            "Cold reload asset fail: Model 'nonexistent' not found in registry"
        )]
    );
    assert!(!world.orchestrator.is_loaded());
    assert!(world.orchestrator.brainstem().is_idle());
}

/// An engine that cannot load anything.
struct Broken;

struct Never;

impl EventStream for Never {
    fn next_event(&mut self) -> Option<Result<InferenceEvent, String>> {
        None
    }
}

impl Engine for Broken {
    type Stream = Never;

    fn loaded(&self) -> bool {
        false
    }

    fn load_model(&mut self, model_path: &str) -> Result<(), String> {
        Err(format!("cannot read {}", model_path))
    }

    fn unload_model(&mut self) -> Result<(), String> {
        Ok(())
    }

    fn is_loaded(&self) -> bool {
        false
    }

    fn default_model(&self) -> String {
        "M".to_string()
    }

    fn infer(&mut self, _prompt: &str, _config: InferenceConfig) -> Result<Never, String> {
        Err("no model loaded".to_string())
    }

    fn embed(&mut self, _input: &str, _config: InferenceConfig) -> Result<Never, String> {
        Err("no model loaded".to_string())
    }
}

#[test]
fn a_load_that_fails_is_reported_and_remembers_nothing() {
    let mut world = World::new(Broken);
    world.send(Some("l"), BrainstemCommand::LoadModel("M".to_string()));
    assert_eq!(
        world.emitted,
        vec![
            asset(Some("l"), AssetEvent::Started("M".to_string())),
            asset(Some("l"), AssetEvent::Complete("/cache/m.gguf".to_string())),
            error(Some("l"), "cannot read /cache/m.gguf"),
        ]
    );
    assert_eq!(world.orchestrator.brainstem().last_model_name(), None);
}

#[test]
fn a_cold_reload_that_cannot_load_reports_one_error_and_skips_the_call() {
    let mut world = World::new(Broken);
    world.send(Some("q"), infer(None, "x"));
    assert_eq!(world.emitted, vec![error(Some("q"), "Cold reload failed: cannot read /cache/m.gguf")]);
    assert!(world.orchestrator.brainstem().is_idle());
}

/// An engine whose stream fails in the middle and goes on.
struct Flaky {
    on: bool,
}

struct Items(Vec<Result<InferenceEvent, String>>);

impl EventStream for Items {
    fn next_event(&mut self) -> Option<Result<InferenceEvent, String>> {
        if self.0.is_empty() {
            None
        } else {
            Some(self.0.remove(0))
        }
    }
}

impl Engine for Flaky {
    type Stream = Items;

    fn loaded(&self) -> bool {
        self.on
    }

    fn load_model(&mut self, _model_path: &str) -> Result<(), String> {
        self.on = true;
        Ok(())
    }

    fn unload_model(&mut self) -> Result<(), String> {
        Err("device busy".to_string())
    }

    fn is_loaded(&self) -> bool {
        self.on
    }

    fn default_model(&self) -> String {
        "M".to_string()
    }

    fn infer(&mut self, _prompt: &str, _config: InferenceConfig) -> Result<Items, String> {
        Ok(Items(vec![
            Ok(InferenceEvent::ProcessStart),
            Err("Decode failed: 1".to_string()),
            Ok(InferenceEvent::Complete),
        ]))
    }

    fn embed(&mut self, _input: &str, _config: InferenceConfig) -> Result<Items, String> {
        Err("embeddings are not supported".to_string())
    }
}

#[test]
fn an_error_in_the_stream_is_reported_and_the_stream_goes_on() {
    let mut world = World::new(Flaky { on: true });
    world.send(Some("q"), infer(None, "x"));
    assert_eq!(
        world.emitted,
        vec![
            event(Some("q"), InferenceEvent::ProcessStart),
            error(Some("q"), "Decode failed: 1"),
            event(Some("q"), InferenceEvent::Complete),
        ]
    );
}

#[test]
fn a_call_the_engine_refuses_is_reported() {
    let mut world = World::new(Flaky { on: true });
    world.send(
        Some("e"),
        BrainstemCommand::Embed {
            model: None,
            input: "x".to_string(),
            config: InferenceConfig::default(),
        },
    );
    assert_eq!(world.emitted, vec![error(Some("e"), "embeddings are not supported")]);
}

#[test]
fn a_failed_hibernation_is_survived_and_noticed() {
    let mut orchestrator = Orchestrator::new(Flaky { on: true }, authority(), 0);
    orchestrator.set_strategy(CortexStrategy::Immediate);
    let turn = orchestrator.step(Report::Wake, 10);
    assert_eq!(
        turn,
        Turn {
            outputs: Vec::new(),
            next: Task::Await(None),
            notice: Some("Failed to hibernate engine: device busy".to_string()),
        }
    );
    assert!(orchestrator.is_loaded());
}

#[test]
fn a_reset_that_fails_is_reported() {
    let mut world = World::new(Flaky { on: true });
    world.orchestrator.set_strategy(CortexStrategy::KeepAlive);
    world.send(Some("r"), BrainstemCommand::Reset);
    assert_eq!(world.emitted, vec![error(Some("r"), "device busy")]);
}

#[test]
fn embed_emits_one_embedding_and_complete() {
    let mut world = World::new(Pinky::new());
    world.send(
        Some("e"),
        BrainstemCommand::Embed {
            model: Some("tiny-model".to_string()),
            input: "Hello world".to_string(),
            config: InferenceConfig::default(),
        },
    );
    assert_eq!(world.emitted.len(), 3);
    assert_eq!(world.emitted[0], event(Some("e"), InferenceEvent::ProcessStart));
    match &world.emitted[1].body {
        BrainstemBody::Event(InferenceEvent::Embedding(v)) => assert_eq!(v.len(), 384),
        other => panic!("expected an embedding, got {:?}", other),
    }
    assert_eq!(world.emitted[2], event(Some("e"), InferenceEvent::Complete));
}

#[test]
fn list_models_lists_the_registry() {
    let mut world = World::new(Pinky::new());
    world.send(Some("l"), BrainstemCommand::ListModels);
    let descriptor = |id: &str| ModelDescriptor { id: id.to_string(), purpose: "Inference".to_string() };
    assert_eq!(
        world.emitted,
        vec![out(Some("l"), BrainstemBody::ModelList(vec![descriptor("tiny-model"), descriptor("M")]))]
    );
}

#[test]
fn reset_unloads_and_acknowledges() {
    let mut world = World::new(Pinky::new());
    world.send(None, BrainstemCommand::LoadModel("M".to_string()));
    world.emitted.clear();
    world.send(Some("r"), BrainstemCommand::Reset);
    assert_eq!(world.emitted, vec![event(Some("r"), InferenceEvent::Complete)]);
    assert!(!world.orchestrator.is_loaded());
    // The name of the last model is kept for the next cold reload.
    assert_eq!(world.orchestrator.brainstem().last_model_name(), Some("M".to_string()));
}

#[test]
fn stop_and_a_closed_channel_end_the_loop() {
    let mut orchestrator = Orchestrator::new(Pinky::new(), authority(), 0);
    let turn = orchestrator.step(Report::Input(input(Some("s"), BrainstemCommand::Stop)), 0);
    assert_eq!(turn, Turn { outputs: Vec::new(), next: Task::Exit, notice: None });
    assert!(orchestrator.brainstem().is_stopped());
    // Stopped is stopped.
    assert_eq!(orchestrator.step(Report::Wake, 1).next, Task::Exit);
    let mut orchestrator = Orchestrator::new(Pinky::new(), authority(), 0);
    assert_eq!(orchestrator.step(Report::Closed, 0).next, Task::Exit);
}

#[test]
fn the_default_strategy_hibernates_after_five_minutes() {
    assert_eq!(DEFAULT_HIBERNATION, 300 * 1000 * MS);
    let machine = Brainstem::new(authority(), 7);
    assert_eq!(machine.strategy(), CortexStrategy::HibernateAfter(DEFAULT_HIBERNATION));
    assert_eq!(machine.last_activity(), 7);
    assert!(machine.is_idle());
}

#[test]
fn the_wait_is_bounded_by_what_is_left_of_the_tolerance() {
    let mut machine = Brainstem::new(authority(), 1000);
    machine.set_strategy(CortexStrategy::HibernateAfter(500));
    assert_eq!(machine.step(Signal::Wake, 1000, true), quiet(Directive::Await(Some(500))));
    assert_eq!(machine.step(Signal::Wake, 1200, true), quiet(Directive::Await(Some(300))));
    assert_eq!(machine.step(Signal::Wake, 1499, true), quiet(Directive::Await(Some(1))));
    // A clock that reads earlier than the last activity counts as no time passed.
    assert_eq!(machine.step(Signal::Wake, 10, true), quiet(Directive::Await(Some(500))));
}

#[test]
fn the_engine_is_unloaded_once_the_tolerance_has_passed() {
    let mut machine = Brainstem::new(authority(), 1000);
    machine.set_strategy(CortexStrategy::HibernateAfter(500));
    assert_eq!(machine.step(Signal::Wake, 1500, true), quiet(Directive::Unload));
    assert!(!machine.is_idle());
    assert_eq!(machine.step(Signal::Unloaded(Ok(())), 1500, false), quiet(Directive::Await(None)));
    assert!(machine.is_idle());
    // An engine that is not loaded is left alone.
    assert_eq!(machine.step(Signal::Wake, 9000, false), quiet(Directive::Await(None)));
}

#[test]
fn keep_alive_waits_without_bound() {
    let mut machine = Brainstem::new(authority(), 0);
    machine.set_strategy(CortexStrategy::KeepAlive);
    assert_eq!(machine.step(Signal::Wake, u128::MAX, true), quiet(Directive::Await(None)));
}

#[test]
fn immediate_unloads_after_every_command() {
    let mut world = World::new(Pinky::new());
    world.orchestrator.set_strategy(CortexStrategy::Immediate);
    assert_eq!(world.send(None, BrainstemCommand::LoadModel("M".to_string())), None);
    assert!(!world.orchestrator.is_loaded());
    assert_eq!(world.send(Some("q"), infer(None, "x")), None);
    assert!(!world.orchestrator.is_loaded());
    assert_eq!(world.emitted.last(), Some(&event(Some("q"), InferenceEvent::Complete)));
}

#[test]
fn last_activity_follows_the_requests_and_never_moves_back() {
    let mut machine = Brainstem::new(authority(), 100);
    machine.step(Signal::Wake, 500, false);
    assert_eq!(machine.last_activity(), 100);
    machine.step(signal_input(input(None, BrainstemCommand::ListModels)), 700, false);
    assert_eq!(machine.last_activity(), 700);
    machine.step(signal_input(input(None, BrainstemCommand::ListModels)), 300, false);
    assert_eq!(machine.last_activity(), 700);
}

#[test]
fn a_request_that_arrives_while_another_is_handled_is_rejected() {
    let mut machine = Brainstem::new(authority(), 0);
    let load = input(Some("a"), BrainstemCommand::LoadModel("M".to_string()));
    assert_eq!(
        machine.step(signal_input(load), 0, false),
        quiet(Directive::ResolveStream("M".to_string()))
    );
    let other = input(Some("b"), BrainstemCommand::ListModels);
    assert_eq!(machine.step(signal_input(other), 5, false), quiet(Directive::Rejected));
    assert_eq!(machine.last_activity(), 0);
    // The first request goes on under its own id.
    assert_eq!(
        machine.step(Signal::Asset(AssetEvent::Started("M".to_string())), 6, false),
        Reaction {
            outputs: vec![asset(Some("a"), AssetEvent::Started("M".to_string()))],
            next: Directive::NextAsset,
            notice: None,
        }
    );
}

#[test]
fn progress_is_forwarded_verbatim() {
    let mut machine = Brainstem::new(authority(), 0);
    machine.step(signal_input(input(Some("a"), BrainstemCommand::LoadModel("M".to_string()))), 0, false);
    for e in [AssetEvent::Progress(0, 0), AssetEvent::Progress(5, 10), AssetEvent::Progress(10, 10)] {
        assert_eq!(
            machine.step(Signal::Asset(e.clone()), 1, false),
            Reaction { outputs: vec![asset(Some("a"), e)], next: Directive::NextAsset, notice: None }
        );
    }
    assert_eq!(
        machine.step(Signal::Asset(AssetEvent::Complete("/cache/m.gguf".to_string())), 1, false),
        Reaction {
            outputs: vec![asset(Some("a"), AssetEvent::Complete("/cache/m.gguf".to_string()))],
            next: Directive::Load("/cache/m.gguf".to_string()),
            notice: None,
        }
    );
}

#[test]
fn a_resolution_that_ends_without_a_word_is_an_error() {
    let mut machine = Brainstem::new(authority(), 0);
    machine.set_strategy(CortexStrategy::KeepAlive);
    machine.step(signal_input(input(Some("a"), BrainstemCommand::LoadModel("M".to_string()))), 0, false);
    assert_eq!(
        machine.step(Signal::AssetsDone, 1, false),
        Reaction {
            outputs: vec![error(Some("a"), "Stream ended without completion for M")],
            next: Directive::Await(None),
            notice: None,
        }
    );
    assert!(machine.is_idle());
}

#[test]
fn a_loaded_engine_is_called_at_once() {
    let mut machine = Brainstem::new(authority(), 0);
    assert_eq!(
        machine.step(signal_input(input(Some("q"), infer(Some("ignored"), "hi"))), 0, true),
        quiet(Directive::Call(EngineCall::Infer {
            prompt: "hi".to_string(),
            config: InferenceConfig::default(),
        }))
    );
    assert_eq!(machine.step(Signal::Started(Ok(())), 0, true), quiet(Directive::NextItem));
    assert!(machine.is_streaming());
}

#[test]
fn signals_that_answer_nothing_are_rejected() {
    let mut machine = Brainstem::new(authority(), 0);
    for signal in [
        Signal::AssetsDone,
        Signal::Drained,
        Signal::Loaded(Ok(())),
        Signal::Unloaded(Ok(())),
        Signal::Started(Ok(())),
        Signal::Resolved(Ok("/x".to_string())),
        Signal::Item(Ok(InferenceEvent::Complete)),
        Signal::Asset(AssetEvent::Progress(1, 2)),
    ] {
        assert_eq!(machine.step(signal, 0, false), quiet(Directive::Rejected));
        assert!(machine.is_idle());
    }
}

#[test]
fn continue_without_a_stream_is_rejected() {
    let mut orchestrator = Orchestrator::new(Pinky::new(), authority(), 0);
    assert_eq!(orchestrator.step(Report::Continue, 0).next, Task::Rejected);
}

#[test]
fn recording_a_model_makes_it_listed() {
    let mut machine = Brainstem::new(authority(), 0);
    let entry = ModelEntry {
        name: "found".to_string(),
        repo: "org/found".to_string(),
        filename: "found.gguf".to_string(),
        quantization: "Q8_0".to_string(),
    };
    let updated = machine.record_model(entry.clone(), Vec::new());
    assert_eq!(updated, vec![entry]);
    assert_eq!(machine.authority().list_models().len(), 3);
}
