//! Compact display of a working directory for a shell prompt: the directory is
//! placed under an anchor (repository root, home directory or filesystem root)
//! and what lies below that anchor is shortened to a bounded form.

pub mod anchor;
pub mod path;
pub mod render;
pub mod shorten;
