//! Voce: speaker-identity filtering for a virtual microphone.
//!
//! This crate holds the verified core of the application: the application
//! state machine, the sample windowing and chunking pipeline, the enrollment
//! recorder, the sliding-vote speaker gate, the inference task's mode machine
//! and the small decisions the user interface makes on them.

pub mod app_state;
pub mod filter;
pub mod audio;
pub mod enrollment;
pub mod events;
pub mod inference;
pub mod config;
pub mod text;
pub mod panel;
pub mod ui;
pub mod driver;
pub mod model;
pub mod eval;
