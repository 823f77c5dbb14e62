//! The Virtual Motherboard (VMB) wire protocol: a typed message model, a
//! builder that enforces the protocol's cross-field rules, and a streaming
//! codec that encodes messages into a byte buffer and decodes them from an
//! incrementally filled one.

pub mod builder;
pub mod bytebuf;
pub mod codec;
pub mod constants;
pub mod message;
pub mod types;
