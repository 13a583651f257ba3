//! The names most callers need.
pub use crate::body::{RenderedBody, RenderedResponse};
pub use crate::error::RenderFailure;
pub use crate::render::TideHandlebarsExt;
