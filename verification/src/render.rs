//! Rendering through a template registry.
use vstd::prelude::*;
use crate::body::{
    body_from_rendered, body_from_rendered_ext, response_from_body, RenderedBody,
    RenderedResponse,
};
use crate::content_type::{content_type_for, mime_for_extension};
use crate::error::RenderFailure;
use crate::extension::extension_of;

verus! {

/// The template registry. It is only handed on to its own `render`.
#[verifier::external_type_specification]
#[verifier::external_body]
pub struct ExRegistry<'reg>(handlebars::Handlebars<'reg>);

/// The JSON value a template is rendered with. It is only handed on to the
/// registry.
#[verifier::external_type_specification]
#[verifier::external_body]
pub struct ExJsonValue(serde_json::Value);

/// Calls `handlebars::Handlebars::render` with the name and the context as
/// they are. Nothing is claimed of the outcome: it depends on what the
/// registry holds and on how it was set up.
#[verifier::external_body]
fn render_template(
    registry: &handlebars::Handlebars<'_>,
    name: &str,
    context: &serde_json::Value,
) -> (rendered: Result<String, handlebars::RenderError>) {
    registry.render(name, context)
}

/// Rendering straight into a body or a response.
pub trait TideHandlebarsExt {
    /// Renders the template `template_name` with `context`. The body's
    /// content type goes by the extension that `template_name` ends in;
    /// without one, or with one that has no content type, it is left unset.
    /// Fails where the registry cannot render, with the registry's error.
    fn render_body(&self, template_name: &str, context: &serde_json::Value) -> (out: Result<
        RenderedBody,
        RenderFailure,
    >)
        ensures
            out is Ok ==> out->Ok_0@.content_type == content_type_for(
                extension_of(template_name@),
            ),
    ;

    /// Renders as `render_body` does, but the content type goes by
    /// `extension` alone, whatever `template_name` ends in.
    fn render_body_ext(
        &self,
        template_name: &str,
        context: &serde_json::Value,
        extension: &str,
    ) -> (out: Result<RenderedBody, RenderFailure>)
        ensures
            out is Ok ==> out->Ok_0@.content_type == mime_for_extension(extension@),
    ;

    /// Renders as `render_body` does and wraps the body in a response with
    /// status 200, whose content type is the body's.
    fn render_response(&self, template_name: &str, context: &serde_json::Value) -> (out: Result<
        RenderedResponse,
        RenderFailure,
    >)
        ensures
            out is Ok ==> out->Ok_0@.status == 200 && out->Ok_0@.content_type()
                == content_type_for(extension_of(template_name@)),
    ;

    /// Renders as `render_body_ext` does and wraps the body in a response
    /// with status 200, whose content type is the body's.
    fn render_response_ext(
        &self,
        template_name: &str,
        context: &serde_json::Value,
        extension: &str,
    ) -> (out: Result<RenderedResponse, RenderFailure>)
        ensures
            out is Ok ==> out->Ok_0@.status == 200 && out->Ok_0@.content_type()
                == mime_for_extension(extension@),
    ;
}

impl<'reg> TideHandlebarsExt for handlebars::Handlebars<'reg> {
    fn render_body(&self, template_name: &str, context: &serde_json::Value) -> (out: Result<
        RenderedBody,
        RenderFailure,
    >) {
        let rendered = render_template(self, template_name, context);
        body_from_rendered(rendered, template_name)
    }

    fn render_body_ext(
        &self,
        template_name: &str,
        context: &serde_json::Value,
        extension: &str,
    ) -> (out: Result<RenderedBody, RenderFailure>) {
        let rendered = render_template(self, template_name, context);
        body_from_rendered_ext(rendered, extension)
    }

    fn render_response(&self, template_name: &str, context: &serde_json::Value) -> (out: Result<
        RenderedResponse,
        RenderFailure,
    >) {
        response_from_body(self.render_body(template_name, context))
    }

    fn render_response_ext(
        &self,
        template_name: &str,
        context: &serde_json::Value,
        extension: &str,
    ) -> (out: Result<RenderedResponse, RenderFailure>) {
        response_from_body(self.render_body_ext(template_name, context, extension))
    }
}

} // verus!
