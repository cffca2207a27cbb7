//! A small container orchestrator: tasks and their states, workers that run them in
//! Docker containers one engine answer at a time, a manager, nodes and a scheduler,
//! and the parsing that the command line needs.

pub mod cli;
pub mod clock;
pub mod container;
pub mod ident;
pub mod manager;
pub mod node;
pub mod scheduler;
pub mod task;
pub mod text;
pub mod worker;
