//! The event protocol: subjects, the event envelope, payload records and
//! the validation that the runtime applies before an event is published.
pub mod schema;
pub mod payload;
pub mod message;
pub mod subject;
pub mod error;
pub mod validation;
