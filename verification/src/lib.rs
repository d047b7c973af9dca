//! Region resolution and session control for a single-shot screen-region
//! capture toggle.

pub mod config;
pub mod decimal;
pub mod geometry;
pub mod launcher;
pub mod monitors;
pub mod selection;
pub mod session;
pub mod text;
