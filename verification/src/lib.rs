//! A typed client layer over a remote GraphQL API.
//!
//! Callers select which fields of a remote entity they want through a fluent
//! builder, the builder compiles into a query or mutation document, and a
//! reply decodes back into a strongly typed entity or a precise error.

pub mod bulk;
pub mod common;
pub mod envelope;
pub mod error;
pub mod json;
pub mod product;
pub mod product_variant;
pub mod render;
