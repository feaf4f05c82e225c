//! Verified core of a distributed workflow engine: the status state
//! machines, the scatter-gather bookkeeping of container nodes (Parallel and
//! ForkJoin), the other node plugins, approval voting, accounts, API keys and
//! permission checks, and the decision steps of the orchestrator loop, the
//! task worker and the recovery sweeper, with the state machines that
//! sequence them. Storage, queues and HTTP stay with the caller: each step
//! takes what they produced and says what comes next.

pub mod status;
pub mod text;
pub mod jobs;
pub mod template;
pub mod container;
pub mod approval;
pub mod outside;
pub mod apikey;
pub mod response;
pub mod permission;
pub mod pagination;
pub mod config;
pub mod engine;
pub mod driver;
pub mod sweeper;
pub mod plugins;
pub mod worker;
pub mod account;
pub mod instance_ops;
