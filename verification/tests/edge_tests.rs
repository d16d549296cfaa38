use rusty_genius::api::{last_prompt, request_id, ApiConfig, ChatMessage, Collector, Wanted};
use rusty_genius::assets::{AssetAuthority, Outcome};
use rusty_genius::engine::Pinky;
use rusty_genius::manifest::InferenceConfig;
use rusty_genius::orchestrator::runtime::{Orchestrator, Report, Task};
use rusty_genius::protocol::{
    BrainstemBody, BrainstemCommand, BrainstemInput, BrainstemOutput, InferenceEvent, ThoughtEvent,
};
use rusty_genius::registry::{ModelEntry, ModelRegistry};

fn authority() -> AssetAuthority {
    let mut registry = ModelRegistry::new("/config".to_string(), "/cache".to_string());
    let entry = |name: &str| ModelEntry {
        name: name.to_string(),
        repo: format!("org/{}", name),
        filename: format!("{}.gguf", name),
        quantization: "Q4_K_M".to_string(),
    };
    registry.load(vec![entry("tiny-model"), entry("test-model"), entry("qwen-2.5-3b-instruct")]);
    AssetAuthority::new(registry)
}

/// Serves requests with the stub engine and a cache that holds every known model, and
/// broadcasts what is emitted to every collector.
struct Server {
    orchestrator: Orchestrator<Pinky>,
    broadcast: Vec<BrainstemOutput>,
}

impl Server {
    fn new() -> Self {
        Server { orchestrator: Orchestrator::new(Pinky::new(), authority(), 0), broadcast: Vec::new() }
    }

    fn serve(&mut self, id: Option<String>, command: BrainstemCommand) {
        let mut report = Report::Input(BrainstemInput { id, command });
        loop {
            let turn = self.orchestrator.step(report, 0);
            self.broadcast.extend(turn.outputs);
            report = match turn.next {
                Task::Await(_) | Task::Exit => return,
                Task::Continue => Report::Continue,
                Task::ResolveStream(name) => {
                    let mut resolution =
                        self.orchestrator.brainstem().authority().ensure_model_stream(&name);
                    let mut events = resolution.advance(Outcome::Begin).events;
                    events.extend(resolution.advance(Outcome::Found(true)).events);
                    let mut last = Report::AssetsDone;
                    for event in events {
                        let turn = self.orchestrator.step(Report::Asset(event), 0);
                        self.broadcast.extend(turn.outputs);
                        if turn.next != Task::NextAsset {
                            last = Report::Wake;
                        }
                    }
                    last
                }
                Task::ResolveBlocking(name) => {
                    let mut resolution = self.orchestrator.brainstem().authority().ensure_model(&name);
                    resolution.advance(Outcome::Begin);
                    if !resolution.is_finished() {
                        resolution.advance(Outcome::Found(true));
                    }
                    Report::Resolved(resolution.result().unwrap())
                }
                other => panic!("unexpected task {:?}", other),
            };
        }
    }

    fn collect(&self, id: &str, wanted: Wanted) -> Collector {
        let mut collector = Collector::new(id.to_string(), wanted);
        for output in &self.broadcast {
            collector.observe(output.clone());
        }
        collector
    }
}

#[test]
fn test_inference_flow() {
    let mut server = Server::new();
    server.serve(None, BrainstemCommand::LoadModel("qwen-2.5-3b-instruct".to_string()));
    let prompt = "Tell me a joke about Rust".to_string();
    server.serve(
        None,
        BrainstemCommand::Infer {
            model: None,
            prompt: prompt.clone(),
            config: InferenceConfig::default(),
        },
    );
    let mut collected_output = String::new();
    let mut thought_process = String::new();
    let mut complete = false;
    for output in &server.broadcast {
        match &output.body {
            BrainstemBody::Event(InferenceEvent::Thought(ThoughtEvent::Delta(d))) => {
                thought_process.push_str(d)
            }
            BrainstemBody::Event(InferenceEvent::Content(c)) => collected_output.push_str(c),
            BrainstemBody::Event(InferenceEvent::Complete) => complete = true,
            BrainstemBody::Error(e) => panic!("Received error from brainstem: {}", e),
            _ => {}
        }
    }
    assert!(complete);
    assert!(thought_process.contains("Narf!"));
    assert!(collected_output.contains("Pinky says:"));
    assert!(collected_output.contains(&prompt));
}

#[test]
fn test_list_models() {
    let mut server = Server::new();
    let id = request_id("api-list-", 1);
    server.serve(Some(id.clone()), BrainstemCommand::ListModels);
    let response = server.collect(&id, Wanted::Models).model_list();
    assert_eq!(response.object, "list");
    assert!(!response.data.is_empty(), "Should return at least one model");
    if let Some(first_model) = response.data.first() {
        assert_eq!(first_model.id, "tiny-model");
        assert_eq!(first_model.object, "model");
    }
}

#[test]
fn test_chat_completions() {
    let mut server = Server::new();
    let id = request_id("api-chat-", 2);
    let messages = vec![ChatMessage { role: "user".to_string(), content: "Hello!".to_string() }];
    server.serve(
        Some(id.clone()),
        BrainstemCommand::Infer {
            model: Some("test-model".to_string()),
            prompt: last_prompt(&messages),
            config: InferenceConfig::default(),
        },
    );
    let collector = server.collect(&id, Wanted::Chat);
    assert!(!collector.is_pending());
    let response = collector.chat_response("test-model".to_string(), 1700000000);
    assert_eq!(response.object, "chat.completion");
    assert_eq!(response.choices.len(), 1);
    let choice = &response.choices[0];
    assert_eq!(choice.index, 0);
    assert_eq!(choice.finish_reason, "stop");
    assert_eq!(choice.message.role, "assistant");
    assert!(choice.message.content.contains("Pinky says:"), "Expected Pinky response");
    assert_eq!(choice.message.content, "Pinky says: Hello!");
}

#[test]
fn test_embeddings() {
    let mut server = Server::new();
    let id = request_id("api-embed-", 3);
    server.serve(
        Some(id.clone()),
        BrainstemCommand::Embed {
            model: Some("test-model".to_string()),
            input: "Hello world".to_string(),
            config: InferenceConfig::default(),
        },
    );
    let response = server.collect(&id, Wanted::Embedding).embedding_response("test-model".to_string());
    let response = response.expect("Failed to get embeddings");
    assert_eq!(response.object, "list");
    assert_eq!(response.data.len(), 1);
    let first = &response.data[0];
    assert_eq!(first.object, "embedding");
    assert_eq!(first.index, 0);
    assert_eq!(first.embedding.len(), 384, "Pinky should return 384-dim embeddings");
}

#[test]
fn test_config_endpoint() {
    let config = ApiConfig { ws_addr: "127.0.0.1:9008".to_string() };
    assert!(config.ws_addr.contains("127.0.0.1"), "Should contain localhost address");
}

#[test]
fn two_clients_each_see_their_own_exchange() {
    let mut server = Server::new();
    server.serve(Some("A".to_string()), BrainstemCommand::Infer {
        model: None,
        prompt: "from A".to_string(),
        config: InferenceConfig::default(),
    });
    server.serve(Some("B".to_string()), BrainstemCommand::Infer {
        model: None,
        prompt: "from B".to_string(),
        config: InferenceConfig::default(),
    });
    let a = server.collect("A", Wanted::Chat).chat_response("m".to_string(), 0);
    let b = server.collect("B", Wanted::Chat).chat_response("m".to_string(), 0);
    assert_eq!(a.choices[0].message.content, "Pinky says: from A");
    assert_eq!(b.choices[0].message.content, "Pinky says: from B");
    // A client that asked nothing sees nothing.
    let c = server.collect("C", Wanted::Chat);
    assert!(c.is_pending());
    assert_eq!(c.chat_response("m".to_string(), 0).choices[0].message.content, "");
}

#[test]
fn a_reset_is_acknowledged_over_the_bus() {
    let mut server = Server::new();
    server.serve(None, BrainstemCommand::LoadModel("tiny-model".to_string()));
    let id = request_id("api-reset-", 4);
    server.serve(Some(id.clone()), BrainstemCommand::Reset);
    let collector = server.collect(&id, Wanted::Reset);
    assert!(!collector.is_pending());
    assert_eq!(collector.failure(), None);
    assert!(!server.orchestrator.is_loaded());
}
