//! Local-first orchestration runtime for a language-model inference engine.
//!
//! The crate holds the decisions of the runtime, free of disk, network and clock, each
//! with a contract that is proved:
//!
//! - [`protocol`]: the request and response envelopes and the events they carry;
//! - [`orchestrator`]: the event loop as a state machine that serializes access to the
//!   engine, hibernates it when idle and reloads it when a call finds it cold, and
//!   [`orchestrator::runtime::Orchestrator`], which owns an engine and drives the machine
//!   through the engine's answers;
//! - [`engine`]: the engine capability, and the stub engine that echoes its prompt;
//! - [`thought`]: the splitting of decoded text into content and thoughts, and the stream
//!   of one call of a decoding engine;
//! - [`assets`], [`redirect`], [`registry`]: the resolution of a model name to a file in
//!   the cache, redirect following, and the registry of known models;
//! - [`bus`], [`api`], [`cli`]: the fan-out of envelopes to subscribers, what a handler
//!   makes of the envelopes it sees, and what the command line decides.
//!
//! Whoever drives these machines does the waiting and the input and output, and reports
//! what happened; what the machines answer is fixed by their contracts.

pub mod api;
pub mod assets;
pub mod bus;
pub mod cli;
pub mod engine;
pub mod manifest;
pub mod orchestrator;
pub mod protocol;
pub mod redirect;
pub mod registry;
pub mod text;
pub mod thought;
