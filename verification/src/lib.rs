//! Clipboard text normalisation: literal replacement rules, folding of
//! fullwidth characters to their half-width forms, change detection and the
//! decisions of the monitoring loop.

pub mod config;
pub mod detect;
pub mod diff;
pub mod monitor;
pub mod text;
