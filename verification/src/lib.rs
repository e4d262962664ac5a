//! Orchestration core for long, multi-section research reports: outline
//! planning, the job lifecycle, per-section workers, progress events and the
//! registry of running jobs.

pub mod api;
pub mod artifacts;
pub mod bus;
pub mod citations;
pub mod clock;
pub mod decimal;
pub mod error;
pub mod events;
pub mod generation;
pub mod ident;
pub mod lifecycle;
pub mod manager;
pub mod models;
pub mod outline;
pub mod pages;
pub mod prompts;
pub mod registry;
pub mod research;
pub mod status;
pub mod storage;
pub mod table;
pub mod text;
pub mod utils;
pub mod worker;
