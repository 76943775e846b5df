//! Request-execution core of a document-database wire-protocol gateway:
//! command rules, trace-context propagation and telemetry planning.

pub mod document;
pub mod environment;
pub mod error;
pub mod numbers;
pub mod processor;
pub mod requests;
pub mod telemetry;
pub mod text;
