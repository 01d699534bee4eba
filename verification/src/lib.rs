//! Model download planning, SHARP component management and splat generation
//! planning, verified with Verus.

pub mod download;
pub mod models;
pub mod paths;
pub mod sharp;
pub mod splat;
pub mod text;
