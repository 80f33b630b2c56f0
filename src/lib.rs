//! Edge-node runtime logic of a location-aware ambient-audio installation:
//! asset naming, scan deduplication, server-event handling, track selection,
//! proximity interactions and the synchronized playback engine.

pub mod assets;
pub mod engine;
pub mod events;
pub mod fabric;
pub mod interaction;
pub mod locations;
pub mod media;
pub mod scan;
pub mod selector;
pub mod session;
pub mod table;
pub mod text;
