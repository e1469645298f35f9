//! Core of a local HTTP forwarding proxy.
//!
//! The proxy receives a target URL as a query parameter, re-issues the
//! request upstream with a safelisted subset of the inbound headers, and
//! relays the upstream response downstream with a permissive cross-origin
//! header. This crate holds the protocol decisions — header safelists,
//! status mapping, response construction — as verified functions on plain
//! values; the surrounding server (listener, HTTP client, streaming) is
//! unverified plumbing that consults these functions.

pub mod handler;
pub mod headers;
