//! A typed client library for the FRED (Federal Reserve Economic Data) REST
//! API.
//!
//! Every endpoint family (series, category, release, source, tags, related
//! tags, observations) gets a parameter builder that accumulates optional
//! query-string arguments, and a response struct that mirrors the JSON payload
//! of that endpoint.  The builders, the URL construction, and the decoding of
//! response bodies — including the fallback to the shared error envelope —
//! are verified here; the HTTP transport itself lives outside the library.

pub mod category;
pub mod decode;
pub mod error;
pub mod fragment;
pub mod json;
pub mod related_tags;
pub mod release;
pub mod releases;
pub mod series;
pub mod source;
pub mod sources;
pub mod tags;
pub mod urls;
