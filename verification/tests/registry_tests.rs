use rusty_genius::manifest::ModelSpec;
use rusty_genius::registry::{
    layout_from, position, resolve_layout, upsert, DirectoryLayout, ModelEntry, ModelRegistry,
};

fn entry(name: &str, repo: &str, filename: &str) -> ModelEntry {
    ModelEntry {
        name: name.to_string(),
        repo: repo.to_string(),
        filename: filename.to_string(),
        quantization: "Q4_K_M".to_string(),
    }
}

fn spec(repo: &str, filename: &str) -> ModelSpec {
    ModelSpec {
        repo: repo.to_string(),
        filename: filename.to_string(),
        quantization: "Q4_K_M".to_string(),
    }
}

fn registry() -> ModelRegistry {
    ModelRegistry::new("/config".to_string(), "/config/cache".to_string())
}

#[test]
fn empty_registry_resolves_nothing() {
    let r = registry();
    assert_eq!(r.resolve("tiny-model"), None);
    assert!(r.list_models().is_empty());
    assert_eq!(r.get_cache_dir(), "/config/cache");
    assert_eq!(r.get_config_dir(), "/config");
}

#[test]
fn resolve_finds_what_was_loaded() {
    let mut r = registry();
    r.load(vec![entry("tiny-model", "org/tiny", "tiny.gguf"), entry("big", "org/big", "big.gguf")]);
    assert_eq!(r.resolve("tiny-model"), Some(spec("org/tiny", "tiny.gguf")));
    assert_eq!(r.resolve("big"), Some(spec("org/big", "big.gguf")));
    assert_eq!(r.resolve("tiny"), None);
    assert_eq!(r.resolve(""), None);
}

#[test]
fn later_sources_override_earlier_ones() {
    let mut r = registry();
    // Embedded defaults, then the user's manifest, then the dynamic registry.
    r.load(vec![entry("a", "defaults/a", "a0.gguf"), entry("b", "defaults/b", "b0.gguf")]);
    r.load(vec![entry("b", "manifest/b", "b1.gguf"), entry("c", "manifest/c", "c1.gguf")]);
    r.load(vec![entry("c", "dynamic/c", "c2.gguf")]);
    assert_eq!(r.resolve("a"), Some(spec("defaults/a", "a0.gguf")));
    assert_eq!(r.resolve("b"), Some(spec("manifest/b", "b1.gguf")));
    assert_eq!(r.resolve("c"), Some(spec("dynamic/c", "c2.gguf")));
    let names: Vec<String> = r.list_models().into_iter().map(|e| e.name).collect();
    assert_eq!(names, vec!["a", "b", "c"]);
}

#[test]
fn within_one_source_the_last_entry_of_a_name_wins() {
    let mut r = registry();
    r.load(vec![entry("a", "first", "1.gguf"), entry("a", "second", "2.gguf")]);
    assert_eq!(r.resolve("a"), Some(spec("second", "2.gguf")));
    assert_eq!(r.list_models().len(), 1);
}

#[test]
fn record_model_updates_memory_and_the_persisted_list() {
    let mut r = registry();
    r.load(vec![entry("a", "defaults/a", "a.gguf")]);
    let persisted = vec![entry("x", "dyn/x", "x.gguf"), entry("a", "dyn/a-old", "old.gguf")];
    let updated = r.record_model(entry("a", "dyn/a-new", "new.gguf"), persisted);
    assert_eq!(updated, vec![entry("x", "dyn/x", "x.gguf"), entry("a", "dyn/a-new", "new.gguf")]);
    assert_eq!(r.resolve("a"), Some(spec("dyn/a-new", "new.gguf")));
    // A new name is added at the end.
    let updated = r.record_model(entry("z", "dyn/z", "z.gguf"), updated);
    assert_eq!(updated.len(), 3);
    assert_eq!(updated[2], entry("z", "dyn/z", "z.gguf"));
    assert_eq!(r.resolve("z"), Some(spec("dyn/z", "z.gguf")));
}

#[test]
fn record_model_replaces_the_first_entry_of_the_name() {
    let mut r = registry();
    let persisted = vec![entry("a", "one", "1"), entry("a", "two", "2")];
    let updated = r.record_model(entry("a", "new", "n"), persisted);
    assert_eq!(updated, vec![entry("a", "new", "n"), entry("a", "two", "2")]);
}

#[test]
fn record_model_starts_a_list_where_none_was_persisted() {
    let mut r = registry();
    let updated = r.record_model(entry("a", "new", "n"), Vec::new());
    assert_eq!(updated, vec![entry("a", "new", "n")]);
}

#[test]
fn position_is_the_first_match_or_the_length() {
    let list = vec![entry("a", "r", "f"), entry("b", "r", "f"), entry("a", "r2", "f2")];
    assert_eq!(position(&list, "a"), 0);
    assert_eq!(position(&list, "b"), 1);
    assert_eq!(position(&list, "c"), 3);
    assert_eq!(position(&Vec::new(), "a"), 0);
}

#[test]
fn upsert_keeps_the_place_of_a_known_name() {
    let mut list = vec![entry("a", "r", "f"), entry("b", "r", "f")];
    upsert(&mut list, entry("a", "r2", "f2"));
    assert_eq!(list, vec![entry("a", "r2", "f2"), entry("b", "r", "f")]);
    upsert(&mut list, entry("c", "r3", "f3"));
    assert_eq!(list.len(), 3);
    assert_eq!(list[2].name, "c");
}

#[test]
fn descriptors_list_every_model_for_inference() {
    let mut r = registry();
    r.load(vec![entry("a", "r", "f"), entry("b", "r", "f")]);
    let d = r.descriptors();
    assert_eq!(d.len(), 2);
    assert_eq!(d[0].id, "a");
    assert_eq!(d[0].purpose, "Inference");
    assert_eq!(d[1].id, "b");
}

fn layout(config: &str, cache: &str) -> DirectoryLayout {
    DirectoryLayout { config_dir: config.to_string(), cache_dir: cache.to_string() }
}

fn some(s: &str) -> Option<String> {
    Some(s.to_string())
}

#[test]
fn genius_home_comes_first() {
    assert_eq!(
        layout_from(some("/home/genius"), some("/custom"), some("/platform"), None),
        Ok(layout("/home/genius", "/home/genius/cache"))
    );
}

#[test]
fn the_custom_config_dir_comes_second() {
    assert_eq!(
        layout_from(None, some("/custom"), some("/platform"), None),
        Ok(layout("/custom", "/custom/cache"))
    );
}

#[test]
fn the_platform_dir_is_joined_with_the_program_name() {
    assert_eq!(
        layout_from(None, None, some("/home/u/.config"), None),
        Ok(layout("/home/u/.config/rusty-genius", "/home/u/.config/rusty-genius/cache"))
    );
    assert_eq!(
        layout_from(None, None, some("/home/u/.config/"), None),
        Ok(layout("/home/u/.config/rusty-genius", "/home/u/.config/rusty-genius/cache"))
    );
}

#[test]
fn the_cache_override_replaces_the_cache_dir_only() {
    assert_eq!(
        layout_from(some("/home/genius"), None, None, some("/big/disk")),
        Ok(layout("/home/genius", "/big/disk"))
    );
}

#[test]
fn without_any_directory_there_is_no_layout() {
    assert_eq!(
        layout_from(None, None, None, some("/big/disk")),
        Err("Could not find config directory".to_string())
    );
}

#[test]
fn resolve_layout_does_not_ask_the_platform_when_overridden() {
    assert_eq!(
        resolve_layout(some("/home/genius"), None, None),
        Ok(layout("/home/genius", "/home/genius/cache"))
    );
    assert_eq!(
        resolve_layout(None, some("/custom"), some("/cache")),
        Ok(layout("/custom", "/cache"))
    );
}

#[test]
fn resolve_layout_falls_back_on_the_platform() {
    match resolve_layout(None, None, None) {
        Ok(dirs) => {
            assert!(dirs.config_dir.ends_with("/rusty-genius"));
            assert_eq!(dirs.cache_dir, format!("{}/cache", dirs.config_dir));
        }
        Err(message) => assert_eq!(message, "Could not find config directory"),
    }
}
