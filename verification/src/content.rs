//! Where the text of a document to ingest comes from, and how fetched HTML
//! and read files are turned into text.
use vstd::prelude::*;
use crate::document::{DocumentType, IngestRequest, RagError};
use crate::text::{lowercase, same_text, to_lowercase};

verus! {

/// The plain text that `nanohtml2text::html2text` makes of an HTML text:
/// tags dropped or rendered, entities decoded, whitespace collapsed.
pub uninterp spec fn html_to_text(html: Seq<char>) -> Seq<char>;

/// The extension that `std::path::Path::extension` finds in a path: the part
/// of its file name after the final `.`, if the file name has an embedded `.`.
pub uninterp spec fn path_extension(path: Seq<char>) -> Option<Seq<char>>;

/// Calls `nanohtml2text::html2text`; its result is `html_to_text` of the
/// argument, a function of the text alone. Nothing more is claimed.
#[verifier::external_body]
pub(crate) fn html2text(html: &str) -> (r: String)
    ensures
        r@ == html_to_text(html@),
{
    nanohtml2text::html2text(html)
}

/// Calls `std::path::Path::extension` on `path` and gives the extension as
/// text; the result is `path_extension` of the path. Claimed besides, as the
/// documentation gives it: a path with no `.` has no extension, and an
/// extension, being the part of a file name after its final `.`, holds
/// neither `.` nor `/`.
#[verifier::external_body]
pub(crate) fn file_extension(path: &str) -> (r: Option<String>)
    ensures
        r.deep_view() == path_extension(path@),
        !path@.contains('.') ==> r is None,
        r matches Some(e) ==> !e@.contains('.') && !e@.contains('/'),
{
    match std::path::Path::new(path).extension() {
        Some(e) => match e.to_str() {
            Some(s) => Some(s.to_string()),
            None => None,
        },
        None => None,
    }
}

/// The next step towards a document's text.
pub enum ContentStep {
    /// The text is at hand.
    Ready { content: String, content_type: DocumentType },
    /// The text is to be fetched from this URL, then passed to `content_from_html`.
    FetchUrl { url: String },
    /// The text is to be read from this file, then passed to `content_from_file`.
    ReadFile { path: String },
}

/// The requested type, or `default` where none was requested.
pub open spec fn type_or(requested: Option<DocumentType>, default: DocumentType) -> DocumentType {
    match requested {
        Some(t) => t,
        None => default,
    }
}

/// Where the text of the requested document comes from: inline content
/// first (typed as requested, else markdown), then a URL, then a file; a
/// request naming none of them is refused.
pub fn resolve_content(req: &IngestRequest) -> (r: Result<ContentStep, RagError>)
    ensures
        match req.content {
            Some(c) => r matches Ok(ContentStep::Ready { content, content_type })
                && content@ == c@ && content_type == type_or(req.content_type, DocumentType::Markdown),
            None => match req.url {
                Some(u) => r matches Ok(ContentStep::FetchUrl { url }) && url@ == u@,
                None => match req.file_path {
                    Some(p) => r matches Ok(ContentStep::ReadFile { path }) && path@ == p@,
                    None => r matches Err(RagError::NoSource),
                },
            },
        },
{
    if let Some(content) = &req.content {
        let content_type = match req.content_type {
            Some(t) => t,
            None => DocumentType::Markdown,
        };
        return Ok(ContentStep::Ready { content: content.clone(), content_type });
    }
    if let Some(url) = &req.url {
        return Ok(ContentStep::FetchUrl { url: url.clone() });
    }
    if let Some(path) = &req.file_path {
        Ok(ContentStep::ReadFile { path: path.clone() })
    } else {
        Err(RagError::NoSource)
    }
}

/// The text of a fetched HTML page: converted to plain text, typed as
/// requested, else as HTML.
pub fn content_from_html(html: &str, requested: Option<DocumentType>) -> (r: (String, DocumentType))
    ensures
        r.0@ == html_to_text(html@),
        r.1 == type_or(requested, DocumentType::Html),
{
    let text = html2text(html);
    let t = match requested {
        Some(t) => t,
        None => DocumentType::Html,
    };
    (text, t)
}

/// The lowercase extension of a path, empty where it has none.
pub open spec fn lowercase_extension(path: Seq<char>) -> Seq<char> {
    match path_extension(path) {
        Some(e) => lowercase(e),
        None => Seq::empty(),
    }
}

/// The text of a file whose lowercase extension is `ext` (empty where it
/// has none): markdown is kept as markdown; HTML is converted to plain text
/// and typed as requested, else as HTML; a PDF is refused; anything else is
/// kept as plain text.
pub fn content_for_extension(ext: &str, raw: String, requested: Option<DocumentType>) -> (r: Result<(String, DocumentType), RagError>)
    ensures
        if ext@ == "md"@ || ext@ == "markdown"@ {
            r matches Ok((t, k)) && t@ == raw@ && k == DocumentType::Markdown
        } else if ext@ == "html"@ || ext@ == "htm"@ {
            r matches Ok((t, k)) && t@ == html_to_text(raw@) && k == type_or(requested, DocumentType::Html)
        } else if ext@ == "pdf"@ {
            r matches Err(RagError::PdfUnsupported)
        } else {
            r matches Ok((t, k)) && t@ == raw@ && k == DocumentType::Text
        },
{
    if same_text(ext, "md") || same_text(ext, "markdown") {
        Ok((raw, DocumentType::Markdown))
    } else if same_text(ext, "html") || same_text(ext, "htm") {
        let (text, t) = content_from_html(raw.as_str(), requested);
        Ok((text, t))
    } else if same_text(ext, "pdf") {
        Err(RagError::PdfUnsupported)
    } else {
        Ok((raw, DocumentType::Text))
    }
}

/// The text of a file, by the lowercase extension of its path, as
/// `content_for_extension` says; a path with no `.` has no extension, and
/// its file is kept as plain text.
pub fn content_from_file(path: &str, raw: String, requested: Option<DocumentType>) -> (r: Result<(String, DocumentType), RagError>)
    ensures
        ({
            let ext = lowercase_extension(path@);
            if ext == "md"@ || ext == "markdown"@ {
                r matches Ok((t, k)) && t@ == raw@ && k == DocumentType::Markdown
            } else if ext == "html"@ || ext == "htm"@ {
                r matches Ok((t, k)) && t@ == html_to_text(raw@) && k == type_or(requested, DocumentType::Html)
            } else if ext == "pdf"@ {
                r matches Err(RagError::PdfUnsupported)
            } else {
                r matches Ok((t, k)) && t@ == raw@ && k == DocumentType::Text
            }
        }),
        !path@.contains('.') ==> (r matches Ok((t, k)) && t@ == raw@ && k == DocumentType::Text),
{
    let ext = match file_extension(path) {
        Some(e) => to_lowercase(e.as_str()),
        None => String::new(),
    };
    proof {
        reveal_strlit("md");
        reveal_strlit("markdown");
        reveal_strlit("html");
        reveal_strlit("htm");
        reveal_strlit("pdf");
        if !path@.contains('.') {
            assert(ext@.len() == 0);
            assert(ext@ != "md"@ && ext@ != "markdown"@ && ext@ != "html"@ && ext@ != "htm"@ && ext@ != "pdf"@);
        }
    }
    content_for_extension(ext.as_str(), raw, requested)
}

} // verus!
