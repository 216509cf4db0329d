//! Presentation layer of a directory-tree listing: terminal color
//! conversion, the layout of the rendered listing, and the scripts that bind
//! a numeric handle to each listed path.

pub mod alias;
pub mod color;
pub mod emit;
pub mod render;
pub mod text;
