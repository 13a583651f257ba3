//! Rendering of registered Handlebars templates into response bodies.
//!
//! A template registry turns a template name and a JSON context into text.
//! This crate pairs that text with a content type chosen from a file
//! extension, either the one the template name ends in or one the caller
//! names, and wraps the pair in a response with status 200.
pub mod extension;
pub mod content_type;
pub mod error;
pub mod body;
pub mod render;
pub mod prelude;

pub use crate::render::TideHandlebarsExt;
