//! A typed error taxonomy for a native inference engine reached over a
//! foreign binary interface.
//!
//! The engine reports failures as integer status codes together with a
//! process-global "last error" message. This crate classifies those codes
//! into a closed set of variants ([`InferenceError`]), describes failures of
//! locating and loading the engine's shared libraries ([`LoadingError`]),
//! and composes both families into a single propagation type
//! ([`SetupError`]). Each type renders to a fixed, documented textual form
//! for diagnostics.

pub mod inference;
pub mod loading;
pub mod setup;
pub mod text;

pub use inference::InferenceError;
pub use loading::LoadingError;
pub use setup::SetupError;
