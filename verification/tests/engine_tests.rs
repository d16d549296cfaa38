use rusty_genius::engine::{create_engine, Engine, EventStream, Pinky, Script, STUB_EMBEDDING};
use rusty_genius::manifest::InferenceConfig;
use rusty_genius::protocol::{InferenceEvent, ThoughtEvent};

const DEFAULT_MODEL: &str = "mock";

fn get_engine_with_default_model() -> Pinky {
    let mut engine = create_engine();
    engine.load_model(DEFAULT_MODEL).unwrap();
    engine
}

fn drain<S: EventStream>(stream: &mut S) -> Vec<InferenceEvent> {
    let mut events = Vec::new();
    while let Some(item) = stream.next_event() {
        events.push(item.expect("stream item"));
    }
    events
}

#[test]
fn test_engine_load_behavior() {
    let mut engine = get_engine_with_default_model();
    // The stub accepts any path.
    let _ = engine.load_model("mock");
    assert!(engine.is_loaded());
}

#[test]
fn test_stub_inference_protocol() {
    let mut engine = get_engine_with_default_model();
    let mut stream = engine.infer("hello", InferenceConfig::default()).unwrap();
    let mut has_content = false;
    let mut has_complete = false;
    for event in drain(&mut stream) {
        match event {
            InferenceEvent::Content(_) => has_content = true,
            InferenceEvent::Complete => has_complete = true,
            _ => {}
        }
    }
    assert!(has_content, "Engine should have emitted content");
    assert!(has_complete, "Engine should have emitted Complete");
}

#[test]
fn test_stub_embedding_protocol() {
    let mut engine = get_engine_with_default_model();
    let mut stream = engine.embed("hello", InferenceConfig::default()).unwrap();
    let mut has_embedding = false;
    let mut has_complete = false;
    for event in drain(&mut stream) {
        match event {
            InferenceEvent::Embedding(emb) => {
                assert!(!emb.is_empty());
                has_embedding = true;
            }
            InferenceEvent::Complete => has_complete = true,
            _ => {}
        }
    }
    assert!(has_embedding, "Engine should have emitted embedding");
    assert!(has_complete, "Engine should have emitted Complete");
}

#[test]
fn test_engine_unload() {
    let mut engine = get_engine_with_default_model();
    engine.unload_model().unwrap();
    assert!(!engine.is_loaded());
}

#[test]
fn a_new_stub_is_not_loaded() {
    assert!(!Pinky::new().is_loaded());
    assert!(!Pinky::default().is_loaded());
    assert!(!create_engine().is_loaded());
}

#[test]
fn the_stub_falls_back_on_the_tiny_model() {
    assert_eq!(Pinky::new().default_model(), "tiny-model");
}

#[test]
fn unloading_an_unloaded_stub_is_a_no_op() {
    let mut engine = Pinky::new();
    assert_eq!(engine.unload_model(), Ok(()));
    assert!(!engine.is_loaded());
}

#[test]
fn the_stub_refuses_calls_without_a_model() {
    let mut engine = Pinky::new();
    assert_eq!(
        engine.infer("hello", InferenceConfig::default()).err(),
        Some("no model loaded".to_string())
    );
    assert_eq!(
        engine.embed("hello", InferenceConfig::default()).err(),
        Some("no model loaded".to_string())
    );
    assert!(!engine.is_loaded());
}

#[test]
fn the_stub_echoes_the_prompt_after_a_thought() {
    let mut engine = get_engine_with_default_model();
    let mut stream = engine.infer("Hello", InferenceConfig::default()).unwrap();
    assert_eq!(
        drain(&mut stream),
        vec![
            InferenceEvent::ProcessStart,
            InferenceEvent::Thought(ThoughtEvent::Start),
            InferenceEvent::Thought(ThoughtEvent::Delta("Narf!".to_string())),
            InferenceEvent::Thought(ThoughtEvent::Stop),
            InferenceEvent::Content("Pinky says: Hello".to_string()),
            InferenceEvent::Complete,
        ]
    );
    // The stream stays exhausted and the engine stays loaded.
    assert!(stream.next_event().is_none());
    assert!(engine.is_loaded());
}

#[test]
fn the_stub_echoes_an_empty_prompt() {
    let mut engine = get_engine_with_default_model();
    let mut stream = engine.infer("", InferenceConfig::default()).unwrap();
    let events = drain(&mut stream);
    assert_eq!(events[4], InferenceEvent::Content("Pinky says: ".to_string()));
}

#[test]
fn the_stub_embedding_has_384_components_of_a_sine() {
    let mut engine = get_engine_with_default_model();
    let mut stream = engine.embed("Hello world", InferenceConfig::default()).unwrap();
    let events = drain(&mut stream);
    assert_eq!(events.len(), 3);
    assert_eq!(events[0], InferenceEvent::ProcessStart);
    assert_eq!(events[2], InferenceEvent::Complete);
    match &events[1] {
        InferenceEvent::Embedding(components) => {
            assert_eq!(components.len(), 384);
            assert_eq!(components[..], STUB_EMBEDDING[..]);
            for (i, bits) in components.iter().enumerate() {
                let expected = (i as f32 * 0.01).sin();
                let got = f32::from_bits(*bits);
                assert!((got - expected).abs() <= 1.0e-6, "component {} is {}", i, got);
            }
            assert_eq!(components[0], 0);
            assert_eq!(components[1], 0x3c23d657);
        }
        other => panic!("expected an embedding, got {:?}", other),
    }
}

#[test]
fn a_script_replays_its_events_in_order() {
    let mut script = Script::new(vec![
        InferenceEvent::ProcessStart,
        InferenceEvent::Content("a".to_string()),
        InferenceEvent::Complete,
    ]);
    assert_eq!(script.next_event(), Some(Ok(InferenceEvent::ProcessStart)));
    assert_eq!(script.next_event(), Some(Ok(InferenceEvent::Content("a".to_string()))));
    assert_eq!(script.next_event(), Some(Ok(InferenceEvent::Complete)));
    assert_eq!(script.next_event(), None);
    assert_eq!(script.next_event(), None);
}

#[test]
fn an_empty_script_is_exhausted_at_once() {
    assert_eq!(Script::new(Vec::new()).next_event(), None);
}

#[test]
fn loading_replaces_the_model_and_keeps_the_engine_loaded() {
    let mut engine = Pinky::new();
    assert_eq!(engine.load_model("/cache/a.gguf"), Ok(()));
    assert_eq!(engine.load_model("/cache/b.gguf"), Ok(()));
    assert!(engine.is_loaded());
}
