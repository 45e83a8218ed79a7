//! A control-plane gateway kernel: a generic reconciliation engine that
//! drives a unit of work through repeated state transitions, together with
//! the validated identifiers and the error taxonomy the gateway exposes.
//!
//! Failures inside the engine are absorbed into the state type itself: a
//! transition of a terminal-inclusive state never returns an error, so every
//! intermediate and terminal condition can be observed and persisted through
//! the same commit port.

pub mod engine;
pub mod error;
pub mod name;
pub mod project;
pub mod service;
pub mod stream;
pub mod worker;

pub use engine::Context;
pub use engine::EndState;
pub use engine::IntoEndState;
pub use engine::Refresh;
pub use engine::Service;
pub use engine::State;
pub use error::Error;
pub use error::ErrorKind;
pub use error::HttpResponse;
pub use name::AccountName;
pub use name::ProjectName;
pub use stream::EndStateExt;
pub use stream::StateStream;
