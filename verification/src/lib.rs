//! An interactive viewer core for structured log streams: one JSON object per
//! line, in the style of MongoDB log records.
//!
//! The crate holds the verified core of the viewer: decoding raw records into
//! typed entries ([`types`], [`utils`]), the append-only record store with the
//! severity and message filters that derive the visible view from it together
//! with the selection and focus state machine ([`state`]), and the display
//! table handed to a presentation layer ([`table`]). Rendering and terminal
//! handling are a consumer of this state, not part of it.

pub mod state;
pub mod table;
pub mod types;
pub mod utils;
