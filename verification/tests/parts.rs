use std::str::FromStr;

use handlebars::Handlebars;
use tide::http::{mime, Mime};
use tide_handlebars::body::{
    body_from_rendered, body_from_rendered_ext, response_from_body, RenderedBody,
    RenderedResponse, STATUS_OK,
};
use tide_handlebars::content_type::lookup_content_type;
use tide_handlebars::error::RenderFailure;
use tide_handlebars::extension::template_extension;

fn registry_error() -> handlebars::RenderError {
    Handlebars::new()
        .render("missing", &serde_json::Value::Null)
        .unwrap_err()
}

fn content_type(ext: &str) -> Option<String> {
    lookup_content_type(Some(ext))
}

#[test]
fn extension_is_the_text_after_the_last_dot() {
    assert_eq!(template_extension("simple.html"), Some("html"));
    assert_eq!(template_extension("pages/index.min.js"), Some("js"));
    assert_eq!(template_extension("a.b.c"), Some("c"));
    assert_eq!(template_extension(".html"), Some("html"));
    assert_eq!(template_extension("caf\u{e9}.\u{fc}ber"), Some("\u{fc}ber"));
}

#[test]
fn extension_may_be_empty() {
    assert_eq!(template_extension("simple."), Some(""));
    assert_eq!(template_extension("."), Some(""));
}

#[test]
fn no_dot_no_extension() {
    assert_eq!(template_extension("simple"), None);
    assert_eq!(template_extension(""), None);
    assert_eq!(template_extension("pages/index"), None);
}

#[test]
fn content_type_table() {
    assert_eq!(content_type("html").as_deref(), Some("text/html;charset=utf-8"));
    assert_eq!(
        content_type("js").as_deref(),
        Some("application/javascript;charset=utf-8")
    );
    assert_eq!(
        content_type("mjs").as_deref(),
        Some("application/javascript;charset=utf-8")
    );
    assert_eq!(
        content_type("jsonp").as_deref(),
        Some("application/javascript;charset=utf-8")
    );
    assert_eq!(content_type("json").as_deref(), Some("application/json"));
    assert_eq!(content_type("css").as_deref(), Some("text/css;charset=utf-8"));
    assert_eq!(content_type("svg").as_deref(), Some("image/svg+xml"));
    assert_eq!(
        content_type("xml").as_deref(),
        Some("application/xml;charset=utf-8")
    );
}

#[test]
fn content_type_text_reads_back_as_the_same_media_type() {
    let rows = [
        ("html", mime::HTML),
        ("js", mime::JAVASCRIPT),
        ("mjs", mime::JAVASCRIPT),
        ("jsonp", mime::JAVASCRIPT),
        ("json", mime::JSON),
        ("css", mime::CSS),
        ("svg", mime::SVG),
        ("xml", mime::XML),
    ];
    for (ext, expected) in rows {
        let text = content_type(ext).unwrap();
        assert_eq!(Mime::from_str(&text).unwrap(), expected);
        assert_eq!(Mime::from_extension(ext), Some(expected));
    }
}

#[test]
fn extensions_outside_the_table_have_no_content_type() {
    for ext in ["", "hbs", "HTML", "htm", "txt", "png", "wasm", ".html", "html ", "d/file"] {
        assert_eq!(content_type(ext), None);
        assert_eq!(Mime::from_extension(ext), None);
    }
    assert_eq!(lookup_content_type(None), None);
}

#[test]
fn body_for_template_name() {
    let body = RenderedBody::for_template("body { }".to_string(), "site.css");
    assert_eq!(body.text, "body { }");
    assert_eq!(body.content_type.as_deref(), Some("text/css;charset=utf-8"));
    let body = RenderedBody::for_template("plain".to_string(), "notes");
    assert_eq!(body.text, "plain");
    assert_eq!(body.content_type, None);
    let body = RenderedBody::for_template("x".to_string(), "dir.html/page");
    assert_eq!(body.content_type, None);
}

#[test]
fn body_with_named_extension() {
    let body = RenderedBody::with_extension("{}".to_string(), Some("json"));
    assert_eq!(body.text, "{}");
    assert_eq!(body.content_type.as_deref(), Some("application/json"));
    let body = RenderedBody::with_extension("{}".to_string(), None);
    assert_eq!(body.content_type, None);
}

#[test]
fn rendered_text_becomes_a_body() {
    let body = body_from_rendered(Ok("<p>hi</p>".to_string()), "page.html").unwrap();
    assert_eq!(
        body,
        RenderedBody {
            text: "<p>hi</p>".to_string(),
            content_type: Some("text/html;charset=utf-8".to_string()),
        }
    );
    let body = body_from_rendered_ext(Ok("<p>hi</p>".to_string()), "xml").unwrap();
    assert_eq!(
        body,
        RenderedBody {
            text: "<p>hi</p>".to_string(),
            content_type: Some("application/xml;charset=utf-8".to_string()),
        }
    );
}

#[test]
fn render_error_becomes_a_failure() {
    let expected = registry_error().to_string();
    let failure = body_from_rendered(Err(registry_error()), "page.html").unwrap_err();
    assert_eq!(failure.cause.to_string(), expected);
    let failure = body_from_rendered_ext(Err(registry_error()), "html").unwrap_err();
    assert_eq!(failure.cause.to_string(), expected);
    let failure = response_from_body(Err(RenderFailure::new(registry_error()))).unwrap_err();
    assert_eq!(failure.into_cause().to_string(), expected);
}

#[test]
fn response_has_status_200() {
    let body = RenderedBody::for_template("<p>hi</p>".to_string(), "page.html");
    let response = RenderedResponse::around(body.clone());
    assert_eq!(STATUS_OK, 200);
    assert_eq!(response.status, 200);
    assert_eq!(response.body, body);
    assert_eq!(response.content_type(), body.content_type.as_ref());
    let response = response_from_body(Ok(body.clone())).unwrap();
    assert_eq!(response, RenderedResponse { status: 200, body });
}
