//! Fetches a batch of remote resources and writes each body to its own file.
//!
//! The library holds the decisions: how endpoints are normalised, which
//! transport a URI needs, how a response status is classified, how one fetch
//! moves from state to state, and what the operator is told at the end. The
//! network and the file system are driven by the caller.
pub mod cli;
pub mod config;
pub mod errors;
pub mod fetch;

pub use cli::Cli;
pub use config::{Config, Endpoint};
pub use errors::{LResult, MockError};
pub use fetch::{FetchEvent, FetchState, FetchTask, Transport};
