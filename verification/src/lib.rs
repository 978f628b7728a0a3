//! Backend command layer for a catalogue of machine-learning models: a
//! record type for a model's metadata and the three operations a host UI
//! invokes on it (list, create, delete). Persistence is not wired up yet,
//! so the operations fabricate and discard records as the contracts state.

pub mod commands;
pub mod model;
