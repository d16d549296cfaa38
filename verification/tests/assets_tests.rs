use rusty_genius::assets::{
    announced_size, download_url, partial_path, Advance, AssetAuthority, Fetch, Outcome,
    ProgressReader, Resolution, Stage,
};
use rusty_genius::text::join_path;
use rusty_genius::manifest::ModelSpec;
use rusty_genius::protocol::AssetEvent;
use rusty_genius::registry::{ModelEntry, ModelRegistry};

fn authority() -> AssetAuthority {
    let mut registry = ModelRegistry::new("/config".to_string(), "/config/cache".to_string());
    registry.load(vec![ModelEntry {
        name: "tiny-model".to_string(),
        repo: "org/tiny".to_string(),
        filename: "tiny.gguf".to_string(),
        quantization: "Q4_K_M".to_string(),
    }]);
    AssetAuthority::new(registry)
}

const URL: &str = "https://huggingface.co/org/tiny/resolve/main/tiny.gguf";
const FINAL: &str = "/config/cache/tiny.gguf";
const PARTIAL: &str = "/config/cache/tiny.gguf.partial";

fn quiet(next: Fetch) -> Advance {
    Advance { events: Vec::new(), next, notice: None }
}

fn response(status: u16, location: Option<&str>, length: Option<&str>) -> Outcome {
    Outcome::Response {
        status,
        location: location.map(str::to_string),
        content_length: length.map(str::to_string),
    }
}

/// Runs a resolution over the given outcomes and returns every event emitted.
fn run(resolution: &mut Resolution, outcomes: Vec<Outcome>) -> Vec<AssetEvent> {
    let mut events = Vec::new();
    for outcome in outcomes {
        events.extend(resolution.advance(outcome).events);
    }
    events
}

/// Brings a resolution of the tiny model to the point where the body is read.
fn streaming() -> Resolution {
    let mut r = authority().ensure_model_stream("tiny-model");
    run(
        &mut r,
        vec![Outcome::Begin, Outcome::Found(false), response(200, None, Some("100")), Outcome::Done],
    );
    assert_eq!(r.stage(), Stage::Streaming);
    r
}

#[test]
fn test_ensure_model_tiny() {
    // The blocking form: the resolution is run for its result alone.
    let mut r = authority().ensure_model("tiny-model");
    let events = run(&mut r, vec![Outcome::Begin, Outcome::Found(true)]);
    assert_eq!(events.len(), 2);
    assert!(r.is_finished());
    assert_eq!(r.result(), Some(Ok(FINAL.to_string())));
}

#[test]
fn test_ensure_model_stream() {
    let mut r = authority().ensure_model_stream("tiny-model");
    let events = run(
        &mut r,
        vec![
            Outcome::Begin,
            Outcome::Found(false),
            response(200, None, Some("10")),
            Outcome::Done,
            Outcome::Chunk(10),
            Outcome::Chunk(0),
            Outcome::Done,
        ],
    );
    let mut saw_started = false;
    let mut saw_complete = false;
    for event in events {
        match event {
            AssetEvent::Started(_) => saw_started = true,
            AssetEvent::Complete(p) => {
                saw_complete = true;
                assert_eq!(p, FINAL, "Complete path must exist");
            }
            AssetEvent::Error(e) => panic!("Download error: {}", e),
            _ => {}
        }
    }
    assert!(saw_started, "Should have received Started event");
    assert!(saw_complete, "Should have received Complete event");
}

#[test]
fn a_resolution_begins_by_looking_at_the_cache() {
    let mut r = authority().ensure_model_stream("tiny-model");
    assert_eq!(r.stage(), Stage::Created);
    assert_eq!(r.result(), None);
    assert_eq!(
        r.advance(Outcome::Begin),
        Advance {
            events: vec![AssetEvent::Started("tiny-model".to_string())],
            next: Fetch::Probe { dir: "/config/cache".to_string(), path: FINAL.to_string() },
            notice: None,
        }
    );
    assert_eq!(r.stage(), Stage::Probing);
}

#[test]
fn an_unknown_name_yields_started_then_error() {
    let mut r = authority().ensure_model_stream("nonexistent");
    let advance = r.advance(Outcome::Begin);
    assert_eq!(
        advance,
        Advance {
            events: vec![
                AssetEvent::Started("nonexistent".to_string()),
                AssetEvent::Error("Model 'nonexistent' not found in registry".to_string()),
            ],
            next: Fetch::Nothing,
            notice: None,
        }
    );
    assert!(r.is_finished());
    assert_eq!(r.result(), Some(Err("Model 'nonexistent' not found in registry".to_string())));
}

#[test]
fn a_cached_model_completes_without_a_request() {
    let mut r = authority().ensure_model_stream("tiny-model");
    r.advance(Outcome::Begin);
    assert_eq!(
        r.advance(Outcome::Found(true)),
        Advance {
            events: vec![AssetEvent::Complete(FINAL.to_string())],
            next: Fetch::Nothing,
            notice: None,
        }
    );
    assert_eq!(r.result(), Some(Ok(FINAL.to_string())));
}

#[test]
fn resolving_twice_returns_the_same_path_and_no_progress_the_second_time() {
    let authority = authority();
    let mut first = authority.ensure_model("tiny-model");
    let first_events = run(
        &mut first,
        vec![
            Outcome::Begin,
            Outcome::Found(false),
            response(200, None, None),
            Outcome::Done,
            Outcome::Chunk(7),
            Outcome::Chunk(0),
            Outcome::Done,
        ],
    );
    assert!(first_events.contains(&AssetEvent::Progress(7, 0)));
    let mut second = authority.ensure_model("tiny-model");
    let second_events = run(&mut second, vec![Outcome::Begin, Outcome::Found(true)]);
    assert_eq!(
        second_events,
        vec![
            AssetEvent::Started("tiny-model".to_string()),
            AssetEvent::Complete(FINAL.to_string()),
        ]
    );
    assert_eq!(first.result(), second.result());
    assert_eq!(second.result(), Some(Ok(FINAL.to_string())));
}

#[test]
fn a_missing_file_is_requested_and_the_download_is_announced() {
    let mut r = authority().ensure_model_stream("tiny-model");
    r.advance(Outcome::Begin);
    assert_eq!(
        r.advance(Outcome::Found(false)),
        Advance {
            events: Vec::new(),
            next: Fetch::Request { url: URL.to_string() },
            notice: Some("Downloading tiny.gguf from org/tiny...".to_string()),
        }
    );
}

#[test]
fn the_blocking_form_does_not_announce_the_download() {
    let mut r = authority().ensure_model("tiny-model");
    r.advance(Outcome::Begin);
    assert_eq!(r.advance(Outcome::Found(false)), quiet(Fetch::Request { url: URL.to_string() }));
}

#[test]
fn a_failing_look_at_the_cache_is_an_error() {
    let mut r = authority().ensure_model_stream("tiny-model");
    r.advance(Outcome::Begin);
    let advance = r.advance(Outcome::Failed("Permission denied (os error 13)".to_string()));
    assert_eq!(advance.events, vec![AssetEvent::Error("Permission denied (os error 13)".to_string())]);
    assert_eq!(advance.next, Fetch::Nothing);
}

#[test]
fn a_download_reports_progress_and_is_published() {
    let mut r = authority().ensure_model_stream("tiny-model");
    run(&mut r, vec![Outcome::Begin, Outcome::Found(false)]);
    assert_eq!(
        r.advance(response(200, None, Some("100"))),
        quiet(Fetch::Create { path: PARTIAL.to_string() })
    );
    assert_eq!(r.advance(Outcome::Done), quiet(Fetch::Read));
    assert_eq!(
        r.advance(Outcome::Chunk(40)),
        Advance { events: vec![AssetEvent::Progress(40, 100)], next: Fetch::Read, notice: None }
    );
    assert_eq!(
        r.advance(Outcome::Chunk(60)),
        Advance { events: vec![AssetEvent::Progress(100, 100)], next: Fetch::Read, notice: None }
    );
    assert_eq!(
        r.advance(Outcome::Chunk(0)),
        quiet(Fetch::Publish { from: PARTIAL.to_string(), to: FINAL.to_string() })
    );
    assert_eq!(
        r.advance(Outcome::Done),
        Advance {
            events: vec![AssetEvent::Complete(FINAL.to_string())],
            next: Fetch::Nothing,
            notice: None,
        }
    );
    assert!(r.is_finished());
}

#[test]
fn an_unknown_total_is_reported_as_zero() {
    let mut r = authority().ensure_model_stream("tiny-model");
    run(&mut r, vec![Outcome::Begin, Outcome::Found(false), response(200, None, None), Outcome::Done]);
    assert_eq!(r.advance(Outcome::Chunk(5)).events, vec![AssetEvent::Progress(5, 0)]);
    let mut r = authority().ensure_model_stream("tiny-model");
    run(
        &mut r,
        vec![Outcome::Begin, Outcome::Found(false), response(200, None, Some("lots")), Outcome::Done],
    );
    assert_eq!(r.advance(Outcome::Chunk(5)).events, vec![AssetEvent::Progress(5, 0)]);
}

#[test]
fn an_empty_body_is_published_without_progress() {
    let mut r = authority().ensure_model_stream("tiny-model");
    let events = run(
        &mut r,
        vec![
            Outcome::Begin,
            Outcome::Found(false),
            response(200, None, Some("0")),
            Outcome::Done,
            Outcome::Chunk(0),
            Outcome::Done,
        ],
    );
    assert_eq!(
        events,
        vec![AssetEvent::Started("tiny-model".to_string()), AssetEvent::Complete(FINAL.to_string())]
    );
}

#[test]
fn a_refused_download_is_an_error_with_the_status() {
    let mut r = authority().ensure_model_stream("tiny-model");
    run(&mut r, vec![Outcome::Begin, Outcome::Found(false)]);
    let advance = r.advance(response(404, None, None));
    assert_eq!(
        advance.events,
        vec![AssetEvent::Error("Download failed with status: 404".to_string())]
    );
    assert_eq!(advance.next, Fetch::Nothing);
    assert_eq!(r.result(), Some(Err("Download failed with status: 404".to_string())));
}

#[test]
fn a_redirect_without_location_is_a_refused_download() {
    let mut r = authority().ensure_model_stream("tiny-model");
    run(&mut r, vec![Outcome::Begin, Outcome::Found(false)]);
    assert_eq!(
        r.advance(response(302, None, None)).events,
        vec![AssetEvent::Error("Download failed with status: 302".to_string())]
    );
}

#[test]
fn a_failed_request_is_an_error() {
    let mut r = authority().ensure_model_stream("tiny-model");
    run(&mut r, vec![Outcome::Begin, Outcome::Found(false)]);
    assert_eq!(
        r.advance(Outcome::Failed("connection refused".to_string())).events,
        vec![AssetEvent::Error("Surf request failed: connection refused".to_string())]
    );
}

#[test]
fn redirects_are_followed() {
    let mut r = authority().ensure_model_stream("tiny-model");
    run(&mut r, vec![Outcome::Begin, Outcome::Found(false)]);
    assert_eq!(
        r.advance(response(302, Some("https://cdn.test/a/tiny.gguf"), None)),
        quiet(Fetch::Request { url: "https://cdn.test/a/tiny.gguf".to_string() })
    );
    // A relative location is resolved against the URL that redirected.
    assert_eq!(
        r.advance(response(307, Some("/b/tiny.gguf"), None)),
        quiet(Fetch::Request { url: "https://cdn.test/b/tiny.gguf".to_string() })
    );
    assert_eq!(
        r.advance(response(200, None, Some("3"))),
        quiet(Fetch::Create { path: PARTIAL.to_string() })
    );
}

#[test]
fn the_sixth_redirect_is_one_too_many() {
    let mut r = authority().ensure_model_stream("tiny-model");
    run(&mut r, vec![Outcome::Begin, Outcome::Found(false)]);
    for hop in 1..=5 {
        let location = format!("https://cdn.test/hop{}", hop);
        assert_eq!(
            r.advance(response(302, Some(&location), None)),
            quiet(Fetch::Request { url: location.clone() })
        );
    }
    let advance = r.advance(response(302, Some("https://cdn.test/hop6"), None));
    assert_eq!(
        advance.events,
        vec![AssetEvent::Error("Surf request failed: Too many redirects".to_string())]
    );
    assert_eq!(advance.next, Fetch::Nothing);
}

#[test]
fn a_redirect_to_nowhere_is_an_error() {
    let mut r = authority().ensure_model_stream("tiny-model");
    run(&mut r, vec![Outcome::Begin, Outcome::Found(false)]);
    assert_eq!(
        r.advance(response(302, Some("https://[bad"), None)).events,
        vec![AssetEvent::Error("Surf request failed: Invalid redirect location".to_string())]
    );
}

#[test]
fn a_partial_file_that_cannot_be_created_is_an_error() {
    let mut r = authority().ensure_model_stream("tiny-model");
    run(&mut r, vec![Outcome::Begin, Outcome::Found(false), response(200, None, None)]);
    let advance = r.advance(Outcome::Failed("disk full".to_string()));
    assert_eq!(
        advance.events,
        vec![AssetEvent::Error("Failed to create partial file: disk full".to_string())]
    );
    assert_eq!(advance.next, Fetch::Nothing);
}

#[test]
fn a_download_that_breaks_is_cleaned_up_before_the_error() {
    let mut r = streaming();
    r.advance(Outcome::Chunk(40));
    // The failure is not reported yet: first the partial file goes.
    assert_eq!(
        r.advance(Outcome::Failed("connection reset".to_string())),
        quiet(Fetch::Discard { path: PARTIAL.to_string() })
    );
    assert_eq!(r.stage(), Stage::Discarding);
    assert_eq!(r.result(), None);
    let advance = r.advance(Outcome::Done);
    assert_eq!(
        advance.events,
        vec![AssetEvent::Error("Streaming failed: connection reset".to_string())]
    );
    assert_eq!(advance.next, Fetch::Nothing);
    assert_eq!(r.result(), Some(Err("Streaming failed: connection reset".to_string())));
}

#[test]
fn a_failed_download_never_publishes() {
    let mut r = streaming();
    let mut directives = Vec::new();
    for outcome in [
        Outcome::Chunk(10),
        Outcome::Failed("connection reset".to_string()),
        Outcome::Done,
        Outcome::Chunk(0),
        Outcome::Done,
    ] {
        directives.push(r.advance(outcome).next);
    }
    assert!(!directives.iter().any(|d| matches!(d, Fetch::Publish { .. })));
    assert_eq!(directives[1], Fetch::Discard { path: PARTIAL.to_string() });
}

#[test]
fn a_rename_that_fails_is_cleaned_up_before_the_error() {
    let mut r = streaming();
    run(&mut r, vec![Outcome::Chunk(100), Outcome::Chunk(0)]);
    assert_eq!(
        r.advance(Outcome::Failed("cross-device link".to_string())),
        quiet(Fetch::Discard { path: PARTIAL.to_string() })
    );
    // The error is reported even if the partial file could not be removed.
    assert_eq!(
        r.advance(Outcome::Failed("busy".to_string())).events,
        vec![AssetEvent::Error("Failed to finalize model file: cross-device link".to_string())]
    );
}

#[test]
fn exactly_one_terminal_event_ends_every_story() {
    let stories: Vec<Vec<Outcome>> = vec![
        vec![Outcome::Begin, Outcome::Found(true)],
        vec![Outcome::Begin, Outcome::Failed("io".to_string())],
        vec![Outcome::Begin, Outcome::Found(false), response(500, None, None)],
        vec![
            Outcome::Begin,
            Outcome::Found(false),
            response(200, None, Some("9")),
            Outcome::Done,
            Outcome::Chunk(4),
            Outcome::Chunk(5),
            Outcome::Chunk(0),
            Outcome::Done,
        ],
        vec![
            Outcome::Begin,
            Outcome::Found(false),
            response(200, None, Some("9")),
            Outcome::Done,
            Outcome::Chunk(4),
            Outcome::Failed("reset".to_string()),
            Outcome::Done,
        ],
    ];
    for mut story in stories {
        // Whatever is reported after the end changes nothing.
        story.extend(vec![Outcome::Begin, Outcome::Done, Outcome::Chunk(3), Outcome::Found(true)]);
        let mut r = authority().ensure_model_stream("tiny-model");
        let events = run(&mut r, story);
        assert!(matches!(events[0], AssetEvent::Started(_)));
        let terminals = events.iter().filter(|e| e.is_terminal()).count();
        assert_eq!(terminals, 1, "{:?}", events);
        assert!(events.last().unwrap().is_terminal());
        assert_eq!(events.iter().filter(|e| matches!(e, AssetEvent::Started(_))).count(), 1);
        let mut last = 0;
        for event in &events {
            if let AssetEvent::Progress(current, _) = event {
                assert!(*current >= last);
                last = *current;
            }
        }
        assert!(r.is_finished());
    }
}

#[test]
fn an_outcome_that_answers_nothing_is_rejected() {
    let mut r = authority().ensure_model_stream("tiny-model");
    assert_eq!(r.advance(Outcome::Done), quiet(Fetch::Rejected));
    assert_eq!(r.advance(Outcome::Chunk(5)), quiet(Fetch::Rejected));
    assert_eq!(r.stage(), Stage::Created);
    r.advance(Outcome::Begin);
    assert_eq!(r.advance(Outcome::Begin), quiet(Fetch::Rejected));
    assert_eq!(r.stage(), Stage::Probing);
}

#[test]
fn a_finished_resolution_asks_for_nothing() {
    let mut r = authority().ensure_model_stream("nonexistent");
    r.advance(Outcome::Begin);
    assert_eq!(r.advance(Outcome::Begin), quiet(Fetch::Nothing));
    assert_eq!(r.advance(Outcome::Found(true)), quiet(Fetch::Nothing));
}

#[test]
fn progress_of_nothing_out_of_nothing_is_valid() {
    let mut meter = ProgressReader::new(0);
    assert_eq!(meter.advance(0), None);
    assert_eq!(meter, ProgressReader { current: 0, total: 0 });
    assert_eq!(meter.advance(1), Some(AssetEvent::Progress(1, 0)));
}

#[test]
fn the_count_of_bytes_stops_at_the_largest_number() {
    let mut meter = ProgressReader { current: u64::MAX - 1, total: 10 };
    assert_eq!(meter.advance(5), Some(AssetEvent::Progress(u64::MAX, 10)));
    assert_eq!(meter.advance(5), Some(AssetEvent::Progress(u64::MAX, 10)));
}

#[test]
fn a_read_of_no_bytes_is_not_reported() {
    let mut meter = ProgressReader::new(100);
    assert_eq!(meter.advance(30), Some(AssetEvent::Progress(30, 100)));
    assert_eq!(meter.advance(0), None);
    assert_eq!(meter.current, 30);
}

#[test]
fn download_urls_point_at_the_main_revision() {
    let spec = ModelSpec {
        repo: "Qwen/Qwen2.5-1.5B-Instruct-GGUF".to_string(),
        filename: "qwen2.5-1.5b-instruct-q4_k_m.gguf".to_string(),
        quantization: "Q4_K_M".to_string(),
    };
    assert_eq!(
        download_url(&spec),
        "https://huggingface.co/Qwen/Qwen2.5-1.5B-Instruct-GGUF/resolve/main/qwen2.5-1.5b-instruct-q4_k_m.gguf"
    );
}

#[test]
fn the_partial_path_adds_an_extension() {
    assert_eq!(partial_path("/cache/model.gguf"), "/cache/model.gguf.partial");
    assert_eq!(partial_path("model"), "model.partial");
}

#[test]
fn paths_are_joined_by_one_slash() {
    assert_eq!(join_path("/cache", "model.gguf"), "/cache/model.gguf");
    assert_eq!(join_path("/cache/", "model.gguf"), "/cache/model.gguf");
    assert_eq!(join_path("cache", "sub/model.gguf"), "cache/sub/model.gguf");
    assert_eq!(join_path("", "model.gguf"), "model.gguf");
    assert_eq!(join_path("/cache", "/abs/model.gguf"), "/abs/model.gguf");
    assert_eq!(join_path("/cache", ""), "/cache/");
    assert_eq!(join_path("/", "x"), "/x");
}

#[test]
fn the_announced_size_is_zero_unless_it_is_a_number() {
    let header = |s: &str| Some(s.to_string());
    assert_eq!(announced_size(&None), 0);
    assert_eq!(announced_size(&header("1234")), 1234);
    assert_eq!(announced_size(&header("+7")), 7);
    assert_eq!(announced_size(&header("0")), 0);
    assert_eq!(announced_size(&header("007")), 7);
    assert_eq!(announced_size(&header("")), 0);
    assert_eq!(announced_size(&header("+")), 0);
    assert_eq!(announced_size(&header("-1")), 0);
    assert_eq!(announced_size(&header(" 12")), 0);
    assert_eq!(announced_size(&header("12 ")), 0);
    assert_eq!(announced_size(&header("1.5")), 0);
    assert_eq!(announced_size(&header("18446744073709551615")), u64::MAX);
    assert_eq!(announced_size(&header("18446744073709551616")), 0);
    assert_eq!(announced_size(&header("99999999999999999999999")), 0);
}

#[test]
fn the_announced_size_agrees_with_the_standard_parser() {
    for text in ["0", "42", "+42", "++1", "", "+", "１２", "4 2", "18446744073709551615", "18446744073709551616"] {
        let expected = text.parse::<u64>().unwrap_or(0);
        assert_eq!(announced_size(&Some(text.to_string())), expected, "{:?}", text);
    }
}

#[test]
fn the_authority_lists_and_records_models() {
    let mut authority = authority();
    assert_eq!(authority.list_models().len(), 1);
    assert_eq!(authority.descriptors()[0].id, "tiny-model");
    let entry = ModelEntry {
        name: "found".to_string(),
        repo: "org/found".to_string(),
        filename: "found.gguf".to_string(),
        quantization: "Q8_0".to_string(),
    };
    let updated = authority.record_model(entry.clone(), Vec::new());
    assert_eq!(updated, vec![entry]);
    let mut r = authority.ensure_model("found");
    assert_eq!(
        r.advance(Outcome::Begin).next,
        Fetch::Probe { dir: "/config/cache".to_string(), path: "/config/cache/found.gguf".to_string() }
    );
}
