//! Parsing of cooked Unreal Engine 4 packages (`.uasset` / `.uexp` / `.ubulk`).
//!
//! Every parser reads from a [`reader::Reader`] and is proved against a spec
//! function that says, for the bytes and the start position, what value comes
//! out and where the reader stops, or which error is reported.
//!
//! - [`reader`], [`text`], [`error`]: bytes, little-endian words, strings,
//!   and the error type.
//! - [`newable`], [`names`], [`summary`]: arrays, the name/import/export
//!   tables and the package summary.
//! - [`structs`], [`properties`]: tagged properties and the structs they hold.
//! - [`objects`], [`mesh`], [`texture`], [`anim`]: the exported classes.
//! - [`package`]: a whole package read from its files' bytes.

pub mod error;
pub mod reader;
pub mod text;
pub mod newable;
pub mod summary;
pub mod names;
pub mod structs;
pub mod properties;
pub mod mesh;
pub mod objects;
pub mod texture;
pub mod anim;
pub mod package;
