//! Client-side core for a pool of interchangeable media-catalog servers
//! ("instances"): the data model for server capabilities, the registry that
//! tracks known instances and a pinned selection, capability-aware random
//! selection, response decoding from the wire vocabulary, and the pass that
//! rewrites instance-relative URLs into absolute ones.
//!
//! All network traffic stays outside this crate: callers perform the HTTP
//! requests and hand the status code and body text to the functions here.

pub mod client;
pub mod content;
pub mod decode;
pub mod error;
pub mod instance;
pub mod json;
pub mod strutil;
pub mod uri;
pub mod utils;
