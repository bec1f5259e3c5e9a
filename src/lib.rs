//! A WebDAV front end over a flat key-value object store: path handling,
//! directory synthesis from flat keys, DAV property fragments and the
//! per-method decisions, all verified.

pub mod path;
pub mod dav;
pub mod tree;
pub mod gate;
pub mod methods;
pub mod headers;
pub mod laws;
pub mod listing;
