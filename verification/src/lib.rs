//! Decision logic of the DIM Stream Deck plugin's "metrics" and "pull item"
//! actions: which value a metrics key shows and how it is labelled, what a
//! key press sends, how the pull-item key is drawn and how its loading
//! animation runs, and how messages from the property inspector are routed.
//!
//! Everything that talks to the Stream Deck, downloads images or draws with
//! Skia lives outside this crate; it hands plain values in and carries out
//! the plans that come back.

pub mod thousands;
pub mod metrics;
pub mod pull_item;
pub mod item_render;
pub mod key_update;
pub mod plugin_message;
