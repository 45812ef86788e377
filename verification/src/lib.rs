//! A small entity-component scheduling core for a sprite demo.
//!
//! The crate owns a `World` of per-entity components, an ordered list of
//! update systems run once per frame, a millisecond timer, and a scene
//! builder that turns component state into render-ready instance batches
//! grouped by sprite key. All coordinates are fixed-point thousandths of a
//! world unit, so every transform is computed and specified exactly.
pub mod asset;
pub mod components;
pub mod game;
pub mod math;
pub mod scene;
pub mod systems;
pub mod time;
pub mod world;
