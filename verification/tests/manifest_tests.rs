use rusty_genius::manifest::{
    InferenceConfig, ModelSpec, UserManifest, DEFAULT_CONTEXT_SIZE, DEFAULT_REPETITION_PENALTY,
    DEFAULT_TEMPERATURE, DEFAULT_TOP_K, DEFAULT_TOP_P,
};

fn manifest(name: &str, model: &str) -> UserManifest {
    UserManifest { name: name.to_string(), model: model.to_string() }
}

#[test]
fn default_manifest_names_the_default_model() {
    let m = UserManifest::default();
    assert_eq!(m.name, "default");
    assert_eq!(m.model, "llama-2-7b");
}

#[test]
fn merge_takes_what_the_other_sets() {
    let base = manifest("base", "llama-2-7b");
    let other = manifest("mine", "qwen");
    assert_eq!(base.merge(&other), manifest("mine", "qwen"));
}

#[test]
fn merge_keeps_the_base_where_the_other_is_empty() {
    let base = manifest("base", "llama-2-7b");
    assert_eq!(base.merge(&manifest("", "")), manifest("base", "llama-2-7b"));
    assert_eq!(base.merge(&manifest("", "qwen")), manifest("base", "qwen"));
    assert_eq!(base.merge(&manifest("mine", "")), manifest("mine", "llama-2-7b"));
}

#[test]
fn merge_treats_the_name_default_as_unset() {
    let base = manifest("base", "llama-2-7b");
    assert_eq!(base.merge(&manifest("default", "qwen")), manifest("base", "qwen"));
    // Only the exact stand-in counts.
    assert_eq!(base.merge(&manifest("Default", "qwen")), manifest("Default", "qwen"));
    assert_eq!(base.merge(&manifest("default ", "")), manifest("default ", "llama-2-7b"));
}

#[test]
fn merge_with_the_default_manifest_changes_only_the_model() {
    let base = manifest("base", "qwen");
    assert_eq!(base.merge(&UserManifest::default()), manifest("base", "llama-2-7b"));
}

#[test]
fn default_config_has_the_documented_values() {
    let c = InferenceConfig::default();
    assert_eq!(f32::from_bits(c.temperature), 0.7);
    assert_eq!(c.top_p.map(f32::from_bits), Some(0.9));
    assert_eq!(c.top_k, Some(40));
    assert_eq!(c.repetition_penalty.map(f32::from_bits), Some(1.1));
    assert_eq!(c.max_tokens, None);
    assert_eq!(c.context_size, Some(2048));
    assert!(c.show_thinking);
}

#[test]
fn default_constants_are_the_bit_patterns_of_the_defaults() {
    assert_eq!(DEFAULT_TEMPERATURE, 0.7f32.to_bits());
    assert_eq!(DEFAULT_TOP_P, 0.9f32.to_bits());
    assert_eq!(DEFAULT_REPETITION_PENALTY, 1.1f32.to_bits());
    assert_eq!(DEFAULT_TOP_K, 40);
    assert_eq!(DEFAULT_CONTEXT_SIZE, 2048);
}

#[test]
fn model_spec_clone_is_equal() {
    let spec = ModelSpec {
        repo: "org/repo".to_string(),
        filename: "model.gguf".to_string(),
        quantization: "Q4_K_M".to_string(),
    };
    assert_eq!(spec.clone(), spec);
}
