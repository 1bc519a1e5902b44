//! The runtime: its lifecycle and registries, and the decisions it takes
//! on each event, as state machines that the application drives.
pub mod error;
pub mod state;
pub mod registry;
pub mod tool;
pub mod llm;
pub mod engine;
pub mod events;
