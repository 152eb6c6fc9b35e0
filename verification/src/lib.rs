//! Task-lifecycle orchestrator for a periodic "discover, fetch, publish"
//! pipeline: a durable task table keyed by job name, the worker decisions
//! that drive each job through its state machine, startup recovery of
//! interrupted jobs, the upload coordinator's publish step, and the
//! retention sweep that reclaims finished jobs.

pub mod cleanup;
pub mod client;
pub mod config;
pub mod kv;
pub mod llama;
pub mod seen;
pub mod store;
pub mod task;
pub mod text;
pub mod tokens;
pub mod upload;
pub mod worker;

pub use task::Task;
pub use task::Task as DownloadTask;
pub use task::TaskState;
pub use task::TaskState as DownloadTaskState;
