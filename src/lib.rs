//! Decision logic of an authenticated client for a cloud object-storage API:
//! bearer-token caching and refresh, classification of HTTP responses,
//! decoding of JSON envelopes and single-pass streaming of response bodies.
//! The network itself is driven by the caller, which hands each outcome to
//! the functions here and acts on what they decide.

pub mod error;
pub mod response;
pub mod token;
pub mod body_stream;
pub mod envelope;
