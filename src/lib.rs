//! Turns a search-index schema definition into a TypeScript interface
//! declaration.

pub mod text;
pub mod schema;
pub mod mapper;
pub mod render;
