//! Capture-and-enrichment core of a clipboard capture agent: hotkey parsing,
//! clipboard polling decisions, enrichment requests and fallbacks, the capture
//! cycle's state machine, the settings cache and the stored record format.

pub mod clip;
pub mod cycle;
pub mod text;
pub mod enrich;
pub mod hotkey;
pub mod json;
pub mod reader;
pub mod settings;
pub mod store;
