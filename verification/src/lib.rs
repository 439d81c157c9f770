//! Client-side toolkit for an orchestrator of language-model tasks, and a
//! deterministic engine that applies proposed file changes.
//!
//! The library decides and the caller acts. Whatever touches the file
//! system or a process is left to the caller, which hands the library what
//! it read and carries out the steps the library hands back. The orchestrator
//! is reached only through a trait that the caller implements.

pub mod apply;
pub mod ctx;
pub mod dir;
pub mod exec;
pub mod file;
pub mod llm;
pub mod matcher;
pub mod orch_client;
pub mod paths;
pub mod proofs;
pub mod seqs;
pub mod ui;
