//! Decoding, normalisation and acknowledgement rules for contract events
//! that arrive as records on named message streams and leave as rows of a
//! relational store.

pub mod decimal;
pub mod json;
pub mod time;
pub mod amount;
pub mod events;
pub mod record;
pub mod handlers;
pub mod consumer;
pub mod registry;
