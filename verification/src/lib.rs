//! A verified request-orchestration pipeline that turns an application
//! manifest into a deployable infrastructure-as-code bundle: it fetches the
//! manifest, builds a deterministic generation prompt, interprets the
//! generation service's response into a file set, packs the materialized
//! workspace into a compressed archive, resolves the storage backend's
//! remote path, and records an auditable trail — with the state machine,
//! failure handling and backend abstraction specified and proved. The
//! surrounding process performs the I/O and feeds each stage's outcome back
//! as an event.

pub mod archive;
pub mod config;
pub mod db;
pub mod jsonfmt;
pub mod llm;
pub mod logger;
pub mod orchestrator;
pub mod storage;
pub mod text;
