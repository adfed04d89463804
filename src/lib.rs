//! Compact request-item syntax (`name=value`, `name:=json`, `name@file`, ...)
//! and assembly of the items into one request body.

pub mod text;
pub mod syntax;
pub mod json;
pub mod item;
pub mod body;
pub mod header;
pub mod headers;
pub mod media;
pub mod laws;
