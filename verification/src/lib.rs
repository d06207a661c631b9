//! The decision logic of a modelling synthesizer and small recording studio:
//! instrument graphs, key-mapped kits, voice allocation, MIDI decoding, presets,
//! projects and the editors' state, each with its behaviour stated and proved.
//!
//! Audio samples and physical parameters are single-precision numbers. The
//! library carries them as [`single::Single`] bit patterns: it stores, compares
//! and clamps them; arithmetic on them is left to the program around it.

pub mod arrangement;
pub mod decimal;
pub mod export;
pub mod factory;
pub mod files;
pub mod graph;
pub mod graph_editor;
pub mod instrument;
pub mod json;
pub mod keyboard;
pub mod kit;
pub mod layering;
pub mod midi;
pub mod models;
pub mod noise;
pub mod panel;
pub mod presets;
pub mod project;
pub mod session;
pub mod single;
pub mod text;
pub mod wav;
