//! A client library for the Open Food Facts web API.
//!
//! The library builds what the API is asked: the builder [`Off`] collects the
//! options of a client, [`OffClient`] turns each call of the API into an
//! [`ApiRequest`] (the URL and the query parameters of a `GET`), and the
//! caller sends it.

pub mod builder;
pub mod client;
pub mod laws;
pub mod web;

pub use builder::{Auth, Off};
pub use client::{ApiRequest, Format, OffClient, OffError, Sorting};
pub use web::{DefaultHeader, HeaderKind};
