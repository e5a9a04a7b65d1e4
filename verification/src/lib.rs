//! Device-side client core for a long-polling device-management update
//! protocol: a controller polls a server for pending actions, resolves them
//! into deployments or confirmation gates, verifies artifact integrity
//! against declared digests, and reports feedback to derived URLs.
//!
//! This crate holds the verified protocol logic: URL construction, polling
//! interval parsing, the deployment/confirmation data model, feedback
//! derivation and checksum verification. The HTTP transport that carries the
//! requests lives outside, in unverified glue that hands plain values in and
//! out.

pub mod auth;
pub mod checksum;
pub mod client;
pub mod confirmation_base;
pub mod deployment_base;
pub mod error;
pub mod http_url;
pub mod poll;

pub use auth::ClientAuthorization;
pub use checksum::DownloadOutcome;
pub use client::Client;
pub use confirmation_base::{
    Confirmation, ConfirmationInfo, ConfirmationRequest, ConfirmationResponse, FeedbackPost,
};
pub use deployment_base::{Artifact, Chunk, Deployment};
pub use error::{ChecksumType, Error};
pub use http_url::HttpUrl;
pub use poll::Reply;
