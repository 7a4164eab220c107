//! A typed client core for the Pinecone vector-database HTTP API.
//!
//! This crate holds the request-dispatch and resource-resolution layer of a
//! Pinecone client: it turns a typed operation into a fully described HTTP
//! request (method, URL, headers, optional body), classifies a raw response
//! into a typed success value or a structured error, and manages the two-tier
//! addressing scheme of the service (a stable controller endpoint for
//! account operations, and a per-index host that is discovered through a
//! describe call and cached on the handle).
//!
//! The crate performs no I/O itself: every operation on [`Client`] and
//! [`Index`] produces a [`http::RequestPlan`] describing exactly one HTTP
//! request, and takes the outcome of that request back as a plain value. A
//! thin unverified driver owns the HTTP transport, executes the plans, and
//! feeds the responses back to the handles.

pub mod error;
pub mod http;

pub use crate::error::Error;
pub use crate::http::models;
pub use crate::http::Client;
pub use crate::http::Index;
