//! Renders binder-indexed declarations of a generic type system back into
//! re-parsable surface text.

pub mod text;
pub mod ir;
pub mod state;
pub mod render;
pub mod decls;
pub mod driver;
pub mod error;
pub mod laws;
pub mod wf;
