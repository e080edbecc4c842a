//! Report renderers.
pub mod sarif;
