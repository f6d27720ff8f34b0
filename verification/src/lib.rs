//! Error classification and diagnostics for fallible results, together with
//! the four-way `Direction` used to address neighbouring panes.

pub mod data;
pub mod error;
pub mod failure;
pub mod laws;
pub mod record;
pub mod text;
