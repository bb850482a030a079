//! Protocol core of a client for OCI distribution registries.
//!
//! The crate decides what a registry client sends and how it reads the
//! answers: the bearer-token handshake, the content-negotiated manifest
//! request, the classification of manifest responses and the version probe.
//! It performs no I/O itself. Each exchange is a small state machine whose
//! state names the next thing the driver has to do on the wire; the driver
//! reports what happened as an event and receives the next state.

pub mod auth;
pub mod challenge;
pub mod client;
pub mod errors;
pub mod manifest;
pub mod text;
pub mod token;

pub use crate::auth::{AuthEvent, AuthState};
pub use crate::challenge::BearerChallenge;
pub use crate::client::{registry_url, Client, OCI_VERSION_KEY};
pub use crate::errors::OciError;
pub use crate::manifest::{Header, PullEvent, PullState};
pub use crate::token::{RegistryToken, Timestamp};
