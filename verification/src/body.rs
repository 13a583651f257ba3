//! Rendered bodies and responses, and how they are made from a render's
//! outcome.
use vstd::prelude::*;
use crate::content_type::{
    content_type_for, lemma_known_extensions_dot_free, lookup_content_type, mime_for_extension,
    option_view,
};
use crate::error::RenderFailure;
use crate::extension::{
    extension_of, lemma_extension_absent, lemma_extension_of_dotted, template_extension,
};

verus! {

/// The status every rendered response carries.
pub const STATUS_OK: u16 = 200;

/// What a rendered body is: its text and, where one was found, its content
/// type.
pub ghost struct BodyView {
    pub text: Seq<char>,
    pub content_type: Option<Seq<char>>,
}

/// What a rendered response is: a status and a body.
pub ghost struct ResponseView {
    pub status: nat,
    pub body: BodyView,
}

impl ResponseView {
    /// The content type of a response is that of its body.
    pub open spec fn content_type(self) -> Option<Seq<char>> {
        self.body.content_type
    }
}

/// Rendered text with its content type. Where `content_type` is `None` the
/// body is left to the default of whoever serves it.
#[derive(Debug, Clone, PartialEq, Eq)]
pub struct RenderedBody {
    pub text: String,
    pub content_type: Option<String>,
}

/// A response around a rendered body.
#[derive(Debug, Clone, PartialEq, Eq)]
pub struct RenderedResponse {
    pub status: u16,
    pub body: RenderedBody,
}

impl View for RenderedBody {
    type V = BodyView;

    open spec fn view(&self) -> BodyView {
        BodyView {
            text: self.text@,
            content_type: match self.content_type {
                Some(m) => Some(m@),
                None => None,
            },
        }
    }
}

impl View for RenderedResponse {
    type V = ResponseView;

    open spec fn view(&self) -> ResponseView {
        ResponseView { status: self.status as nat, body: self.body@ }
    }
}

/// The body made of `text` when the extension `ext` chooses the content type.
pub open spec fn body_with_extension(text: Seq<char>, ext: Option<Seq<char>>) -> BodyView {
    BodyView { text, content_type: content_type_for(ext) }
}

/// The body made of `text` rendered from the template `name`: the content
/// type goes by the extension that `name` ends in.
pub open spec fn body_for_template(text: Seq<char>, name: Seq<char>) -> BodyView {
    body_with_extension(text, extension_of(name))
}

/// The response around `body`: status 200.
pub open spec fn response_around(body: BodyView) -> ResponseView {
    ResponseView { status: 200, body }
}

impl RenderedBody {
    /// The body that holds `text`, with the content type that goes with
    /// `ext`, if any.
    pub fn with_extension(text: String, ext: Option<&str>) -> (body: Self)
        ensures
            body@ == body_with_extension(text@, option_view(ext)),
    {
        let content_type = lookup_content_type(ext);
        RenderedBody { text, content_type }
    }

    /// The body that holds `text` rendered from the template `name`.
    pub fn for_template(text: String, name: &str) -> (body: Self)
        ensures
            body@ == body_for_template(text@, name@),
    {
        let ext = template_extension(name);
        RenderedBody::with_extension(text, ext)
    }
}

impl RenderedResponse {
    /// The response with status 200 around `body`.
    pub fn around(body: RenderedBody) -> (response: Self)
        ensures
            response@ == response_around(body@),
    {
        RenderedResponse { status: STATUS_OK, body }
    }

    /// The content type of the response: that of its body.
    pub fn content_type(&self) -> (mime: Option<&String>)
        ensures
            match mime {
                Some(m) => self@.content_type() == Some(m@),
                None => self@.content_type() is None,
            },
    {
        self.body.content_type.as_ref()
    }
}

/// The outcome of a render as a body for the template `name`: the rendered
/// text unchanged with the content type of the name's extension, or the
/// registry's error unchanged.
pub fn body_from_rendered(
    rendered: Result<String, handlebars::RenderError>,
    name: &str,
) -> (out: Result<RenderedBody, RenderFailure>)
    ensures
        match rendered {
            Ok(text) => out is Ok && out->Ok_0@ == body_for_template(text@, name@),
            Err(cause) => out is Err && out->Err_0.cause == cause,
        },
{
    match rendered {
        Ok(text) => Ok(RenderedBody::for_template(text, name)),
        Err(cause) => Err(RenderFailure::new(cause)),
    }
}

/// The outcome of a render as a body whose content type goes by `ext` alone.
pub fn body_from_rendered_ext(
    rendered: Result<String, handlebars::RenderError>,
    ext: &str,
) -> (out: Result<RenderedBody, RenderFailure>)
    ensures
        match rendered {
            Ok(text) => out is Ok && out->Ok_0@ == body_with_extension(text@, Some(ext@)),
            Err(cause) => out is Err && out->Err_0.cause == cause,
        },
{
    match rendered {
        Ok(text) => Ok(RenderedBody::with_extension(text, Some(ext))),
        Err(cause) => Err(RenderFailure::new(cause)),
    }
}

/// The response for a body that was or was not rendered: status 200 around
/// the body, or the error unchanged.
pub fn response_from_body(body: Result<RenderedBody, RenderFailure>) -> (out: Result<
    RenderedResponse,
    RenderFailure,
>)
    ensures
        match body {
            Ok(b) => out is Ok && out->Ok_0@ == response_around(b@),
            Err(e) => out is Err && out->Err_0 == e,
        },
{
    match body {
        Ok(b) => Ok(RenderedResponse::around(b)),
        Err(e) => Err(e),
    }
}

/// A body keeps the rendered text as it is, whatever the extension.
pub proof fn lemma_text_unchanged(text: Seq<char>, name: Seq<char>, ext: Option<Seq<char>>)
    ensures
        body_for_template(text, name).text == text,
        body_with_extension(text, ext).text == text,
{
}

/// A template name that ends in `.` and an extension of the table gets the
/// content type that the table gives for that extension.
pub proof fn lemma_known_extension(text: Seq<char>, stem: Seq<char>, ext: Seq<char>)
    requires
        mime_for_extension(ext) is Some,
    ensures
        body_for_template(text, stem.push('.') + ext).content_type == mime_for_extension(ext),
{
    lemma_known_extensions_dot_free(ext);
    lemma_extension_of_dotted(stem, ext);
}

/// A template name without a `.`, or with an extension outside the table,
/// gets no content type.
pub proof fn lemma_unknown_extension(text: Seq<char>, name: Seq<char>)
    requires
        !name.contains('.') || (extension_of(name) is Some && mime_for_extension(
            extension_of(name).unwrap(),
        ) is None),
    ensures
        body_for_template(text, name).content_type is None,
{
    lemma_extension_absent(name);
}

/// An extension that the caller names decides alone: whatever the template
/// name ends in, the content type is the table's for that extension, and the
/// text is what it would be without it.
pub proof fn lemma_override_decides(text: Seq<char>, name: Seq<char>, ext: Seq<char>)
    ensures
        body_with_extension(text, Some(ext)).content_type == mime_for_extension(ext),
        body_with_extension(text, Some(ext)).text == body_for_template(text, name).text,
{
}

/// A response holds the body it was made around, and its content type is
/// that body's.
pub proof fn lemma_response_echoes_body(body: BodyView)
    ensures
        response_around(body).body == body,
        response_around(body).content_type() == body.content_type,
        response_around(body).status == 200,
{
}

} // verus!
