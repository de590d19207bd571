//! Stealth client core for a private social-network API.
//!
//! The library holds the verified logic of the client: session-cookie
//! credential parsing, the browser-fingerprint header recipe, tolerant
//! mapping of loosely-schemaed JSON responses, cursor pagination with
//! progress reporting, the not-following-back resolver, request pacing
//! bounds, and the detection-risk ("integrity") score. Transport, file
//! I/O and the UI shell live outside the library and feed it plain
//! values.

pub mod client;
pub mod codec;
pub mod errors;
pub mod headers;
pub mod pacing;
pub mod pagination;
pub mod integrity;
pub mod json;
pub mod model;
pub mod resolver;
pub mod session;

use vstd::prelude::*;

verus! {

} // verus!
