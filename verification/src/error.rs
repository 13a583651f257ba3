//! The failure of a render.
use vstd::prelude::*;

verus! {

/// The registry's own error type. Nothing is known of a value but its
/// identity.
#[verifier::external_type_specification]
#[verifier::external_body]
pub struct ExRegistryError(handlebars::RenderError);

/// A render that the registry could not carry out. The registry's error is
/// carried as it came.
#[derive(Debug)]
pub struct RenderFailure {
    pub cause: handlebars::RenderError,
}

impl RenderFailure {
    /// Wraps the registry's error.
    pub fn new(cause: handlebars::RenderError) -> (err: Self)
        ensures
            err.cause == cause,
    {
        RenderFailure { cause }
    }

    /// Hands the registry's error back.
    pub fn into_cause(self) -> (cause: handlebars::RenderError)
        ensures
            cause == self.cause,
    {
        self.cause
    }
}

} // verus!
