//! A small directory lister: which entries are shown, in which order, and how
//! each one is rendered.

pub mod clock;
pub mod listing;
pub mod permissions;
pub mod render;
