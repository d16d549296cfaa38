//! User manifest, model specification and inference configuration records.

use crate::text::same_text;
use vstd::prelude::*;
use vstd::string::*;

verus! {

/// Bit pattern of the single-precision number 0.7, the default sampling temperature.
pub const DEFAULT_TEMPERATURE: u32 = 0x3f33_3333;

/// Bit pattern of the single-precision number 0.9, the default nucleus threshold.
pub const DEFAULT_TOP_P: u32 = 0x3f66_6666;

/// Default number of candidates kept by top-k sampling.
pub const DEFAULT_TOP_K: u32 = 40;

/// Bit pattern of the single-precision number 1.1, the default repetition penalty.
pub const DEFAULT_REPETITION_PENALTY: u32 = 0x3f8c_cccd;

/// Default size of the context window, in tokens.
pub const DEFAULT_CONTEXT_SIZE: u32 = 2048;

/// A user's named choice of model.
#[derive(Debug, PartialEq, Eq)]
pub struct UserManifest {
    pub name: String,
    pub model: String,
}

/// Where a model's weights live: repository, file and quantization label.
#[derive(Debug, PartialEq, Eq)]
pub struct ModelSpec {
    pub repo: String,
    pub filename: String,
    pub quantization: String,
}

/// Mathematical content of a [`ModelSpec`].
pub struct ModelSpecView {
    pub repo: Seq<char>,
    pub filename: Seq<char>,
    pub quantization: Seq<char>,
}

impl View for ModelSpec {
    type V = ModelSpecView;

    open spec fn view(&self) -> ModelSpecView {
        ModelSpecView {
            repo: self.repo@,
            filename: self.filename@,
            quantization: self.quantization@,
        }
    }
}

impl Clone for ModelSpec {
    fn clone(&self) -> (copy: Self)
        ensures
            copy@ == self@,
    {
        ModelSpec {
            repo: self.repo.clone(),
            filename: self.filename.clone(),
            quantization: self.quantization.clone(),
        }
    }
}

/// Sampling and generation options of one engine call.
///
/// The three real-valued options are carried as IEEE-754 single-precision bit patterns, so
/// that the record is made of integers only and is passed through unchanged.
#[derive(Debug, Clone, Copy, PartialEq, Eq)]
pub struct InferenceConfig {
    /// Sampling temperature, as a single-precision bit pattern.
    pub temperature: u32,
    /// Nucleus sampling threshold, as a single-precision bit pattern.
    pub top_p: Option<u32>,
    /// Number of candidates kept by top-k sampling.
    pub top_k: Option<u32>,
    /// Repetition penalty, as a single-precision bit pattern.
    pub repetition_penalty: Option<u32>,
    /// Upper bound on generated tokens; `None` leaves the engine's ceiling in force.
    pub max_tokens: Option<usize>,
    /// Size of the context window, in tokens.
    pub context_size: Option<u32>,
    /// Whether thought events are emitted or suppressed.
    pub show_thinking: bool,
}

/// The configuration used when a caller sets no option.
pub open spec fn spec_default_config() -> InferenceConfig {
    InferenceConfig {
        temperature: DEFAULT_TEMPERATURE,
        top_p: Some(DEFAULT_TOP_P),
        top_k: Some(DEFAULT_TOP_K),
        repetition_penalty: Some(DEFAULT_REPETITION_PENALTY),
        max_tokens: None,
        context_size: Some(DEFAULT_CONTEXT_SIZE),
        show_thinking: true,
    }
}

impl Default for InferenceConfig {
    fn default() -> (config: Self)
        ensures
            config == spec_default_config(),
    {
        InferenceConfig {
            temperature: DEFAULT_TEMPERATURE,
            top_p: Some(DEFAULT_TOP_P),
            top_k: Some(DEFAULT_TOP_K),
            repetition_penalty: Some(DEFAULT_REPETITION_PENALTY),
            max_tokens: None,
            context_size: Some(DEFAULT_CONTEXT_SIZE),
            show_thinking: true,
        }
    }
}

impl Default for UserManifest {
    fn default() -> (manifest: Self)
        ensures
            manifest.name@ == "default"@,
            manifest.model@ == "llama-2-7b"@,
    {
        UserManifest { name: String::from_str("default"), model: String::from_str("llama-2-7b") }
    }
}

/// The name of a merged manifest: the overriding name, unless it is empty or the
/// stand-in `default`.
pub open spec fn spec_merged_name(base: Seq<char>, overriding: Seq<char>) -> Seq<char> {
    if overriding.len() != 0 && overriding != "default"@ {
        overriding
    } else {
        base
    }
}

/// The model of a merged manifest: the overriding model, unless it is empty.
pub open spec fn spec_merged_model(base: Seq<char>, overriding: Seq<char>) -> Seq<char> {
    if overriding.len() != 0 {
        overriding
    } else {
        base
    }
}

impl UserManifest {
    /// Lays `other` over `self`: each field of `other` that carries a choice wins.
    pub fn merge(&self, other: &Self) -> (merged: Self)
        ensures
            merged.name@ == spec_merged_name(self.name@, other.name@),
            merged.model@ == spec_merged_model(self.model@, other.model@),
    {
        let name = if !other.name.as_str().is_empty() && !same_text(
            other.name.as_str(),
            "default",
        ) {
            other.name.clone()
        } else {
            self.name.clone()
        };
        let model = if !other.model.as_str().is_empty() {
            other.model.clone()
        } else {
            self.model.clone()
        };
        UserManifest { name, model }
    }
}

} // verus!
