//! Content types by file extension.
use vstd::prelude::*;

verus! {

/// The content type that goes with a file extension, in the text form of a
/// `Content-Type` header value. Extensions outside this table have none.
pub open spec fn mime_for_extension(ext: Seq<char>) -> Option<Seq<char>> {
    if ext == "html"@ {
        Some("text/html;charset=utf-8"@)
    } else if ext == "js"@ || ext == "mjs"@ || ext == "jsonp"@ {
        Some("application/javascript;charset=utf-8"@)
    } else if ext == "json"@ {
        Some("application/json"@)
    } else if ext == "css"@ {
        Some("text/css;charset=utf-8"@)
    } else if ext == "svg"@ {
        Some("image/svg+xml"@)
    } else if ext == "xml"@ {
        Some("application/xml;charset=utf-8"@)
    } else {
        None
    }
}

/// The content type chosen for an optional extension: none without an
/// extension, else what the table gives.
pub open spec fn content_type_for(ext: Option<Seq<char>>) -> Option<Seq<char>> {
    match ext {
        Some(e) => mime_for_extension(e),
        None => None,
    }
}

/// The view of an optional string slice.
pub open spec fn option_view(s: Option<&str>) -> Option<Seq<char>> {
    match s {
        Some(e) => Some(e@),
        None => None,
    }
}

/// No extension of the table holds a `.`.
pub proof fn lemma_known_extensions_dot_free(ext: Seq<char>)
    requires
        mime_for_extension(ext) is Some,
    ensures
        !ext.contains('.'),
{
    reveal_strlit("html");
    reveal_strlit("js");
    reveal_strlit("mjs");
    reveal_strlit("jsonp");
    reveal_strlit("json");
    reveal_strlit("css");
    reveal_strlit("svg");
    reveal_strlit("xml");
}

/// Calls `tide::http::Mime::from_extension` and formats the media type it
/// finds with the type's `Display`. Trusted: the lookup knows the eight
/// extensions of `mime_for_extension` and no other, and each media type it
/// hands out is formatted as its essence, followed by `;charset=utf-8` where
/// the media type is marked as UTF-8.
#[verifier::external_body]
pub(crate) fn mime_from_extension(ext: &str) -> (mime: Option<String>)
    ensures
        match mime {
            Some(m) => mime_for_extension(ext@) == Some(m@),
            None => mime_for_extension(ext@) is None,
        },
{
    match tide::http::Mime::from_extension(ext) {
        Some(m) => Some(m.to_string()),
        None => None,
    }
}

/// The content type for an optional extension.
pub fn lookup_content_type(ext: Option<&str>) -> (mime: Option<String>)
    ensures
        match mime {
            Some(m) => content_type_for(option_view(ext)) == Some(m@),
            None => content_type_for(option_view(ext)) is None,
        },
{
    match ext {
        Some(e) => mime_from_extension(e),
        None => None,
    }
}

} // verus!
