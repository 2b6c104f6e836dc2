//! Rysyn: the verified core of a digital audio workstation.
//!
//! The library holds what the workstation decides: the commands that the
//! interface sends to the audio core, the state snapshot that the core
//! publishes, the bridge that carries both, the project model, and the
//! decisions that the interface panels take on user input.
//!
//! Audio samples, gains, pans and positions are real numbers in the
//! workstation. The library never computes on them: it carries each one as
//! the IEEE-754 bit pattern of its value (`f32::to_bits` / `f64::to_bits`),
//! and the program around the library converts at its edge.

pub mod color;
pub mod commands;
pub mod state;
pub mod bridge;
pub mod text;
pub mod panels;
pub mod project;
pub mod synth;
pub mod loader;
pub mod cache;
