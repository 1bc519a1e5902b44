//! Event-driven coordination for disposable runtime workers: the event
//! envelope and payload contracts, the message bus bookkeeping, the runtime
//! state machine with its worker and task registries, the command line and
//! the SDK surface.
pub mod text;
pub mod json;
pub mod protocol;
pub mod keyed;
pub mod external;
pub mod bus;
pub mod runtime;
pub mod cli;
pub mod sdk;
