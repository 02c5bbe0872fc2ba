use vstd::prelude::*;

use crate::highlight::{highlight_of, Highlighter};
use crate::listing::{build_listing, listing_ok, FileEntry, IndexContent};
use crate::markdown::{format_of, render_markdown, scan_of, spec_plan, MdError};
use crate::paths::{extension_of, raw_url_of, spec_extension_of, spec_trim_end_slash,
    trim_end_slashes};
use crate::text::str_eq;

verus! {

/// What the file template shows: the rendered body, whether that body is
/// already HTML that must not be escaped again, the canonical path of the
/// file, and the URL of its raw view.
pub struct FileContent {
    pub content: String,
    pub unsafe_content: bool,
    pub file_name: String,
    pub raw_url: String,
}

/// The frame of a file page: the canonical path, or its sentinel when none
/// could be determined, and the raw link formed from the request URL.
pub open spec fn page_frame_ok(fc: FileContent, canonical: Option<String>, url: Seq<char>) -> bool {
    &&& fc.file_name@ == match canonical {
        Some(c) => c@,
        None => "<unknown>"@,
    }
    &&& fc.raw_url@ == url + "?raw=true"@
}

/// A complete file page: its body, its escaping flag, and its frame.
pub open spec fn page_ok(
    fc: FileContent,
    body: Seq<char>,
    pre_escaped: bool,
    canonical: Option<String>,
    url: Seq<char>,
) -> bool {
    &&& fc.content@ == body
    &&& fc.unsafe_content == pre_escaped
    &&& page_frame_ok(fc, canonical, url)
}

/// How a decoded text file is rendered into its page, by the path's
/// extension: `.html` and `.html5` become the page body unmodified, marked
/// pre-escaped (they are HTML already); `.md` and `.markdown` go through the
/// Markdown transformer, pre-escaped, failing only if serialization fails; any
/// other extension is offered to the highlighter as a language token, its HTML
/// pre-escaped when a grammar matches, the text itself to be escaped by the
/// template when none does — likewise for a path with no extension.
pub open spec fn file_render_ok(
    path: Seq<char>,
    text: Seq<char>,
    url: Seq<char>,
    canonical: Option<String>,
    r: Result<FileContent, MdError>,
) -> bool {
    match spec_extension_of(path) {
        Some(e) => {
            if e == "html"@ || e == "html5"@ {
                r matches Ok(fc) && page_ok(fc, text, true, canonical, url)
            } else if e == "md"@ || e == "markdown"@ {
                match format_of(text, spec_plan(scan_of(text))) {
                    Some(h) => r matches Ok(fc) && page_ok(fc, h, true, canonical, url),
                    None => r is Err,
                }
            } else {
                match highlight_of(e, text) {
                    Some(h) => r matches Ok(fc) && page_ok(fc, h, true, canonical, url),
                    None => r matches Ok(fc) && page_ok(fc, text, false, canonical, url),
                }
            }
        },
        None => r matches Ok(fc) && page_ok(fc, text, false, canonical, url),
    }
}

/// Builds the file page around a rendered body.
pub fn make_page(content: String, unsafe_content: bool, canonical: Option<String>, url: &str) -> (fc:
    FileContent)
    ensures
        page_ok(fc, content@, unsafe_content, canonical, url@),
{
    let file_name = match canonical {
        Some(c) => c,
        None => "<unknown>".to_owned(),
    };
    let raw_url = raw_url_of(url);
    FileContent { content, unsafe_content, file_name, raw_url }
}

/// Classifies a decoded text file by its path's extension and renders its
/// page: HTML becomes the body untouched but pre-escaped, Markdown is
/// transformed with highlighted fences, anything else is highlighted by its
/// extension when a grammar matches it and is otherwise returned as plain
/// text for the template to escape.
pub fn render_file(
    path: &str,
    content: String,
    url: &str,
    canonical: Option<String>,
    hl: &Highlighter,
) -> (r: Result<FileContent, MdError>)
    ensures
        file_render_ok(path@, content@, url@, canonical, r),
{
    let ext = extension_of(path);
    match ext {
        Some(e) => {
            if str_eq(e.as_str(), "html") || str_eq(e.as_str(), "html5") {
                Ok(make_page(content, true, canonical, url))
            } else if str_eq(e.as_str(), "md") || str_eq(e.as_str(), "markdown") {
                match render_markdown(content.as_str(), hl) {
                    Ok(h) => Ok(make_page(h, true, canonical, url)),
                    Err(err) => Err(err),
                }
            } else {
                match hl.highlight(e.as_str(), content.as_str()) {
                    Some(h) => Ok(make_page(h, true, canonical, url)),
                    None => Ok(make_page(content, false, canonical, url)),
                }
            }
        },
        None => Ok(make_page(content, false, canonical, url)),
    }
}

/// What the filesystem said about the resolved path, for one request.
pub enum PathProbe {
    /// The path is a readable directory: its immediate children, each name
    /// with whether it is itself a directory, and the directory's canonical
    /// path if it could be determined.
    Directory { entries: Vec<FileEntry>, canonical: Option<String> },
    /// The path is a readable file: its bytes, and its canonical path if it
    /// could be determined.
    File { bytes: Vec<u8>, canonical: Option<String> },
    /// Neither a readable directory nor a readable file.
    Missing,
}

/// One HTTP outcome per request.
pub enum Response {
    /// A directory: input for the index template.
    Listing(IndexContent),
    /// A rendered text file: input for the file template.
    Page(FileContent),
    /// A text file requested raw: its decoded content, sent as plain text.
    PlainText(String),
    /// Content that is not text: its bytes, unchanged.
    Binary(Vec<u8>),
    /// Nothing readable at the path.
    NotFound,
    /// The Markdown renderer failed to serialize.
    RenderFail,
}

/// Relies on `String::from_utf8`: it accepts exactly the valid UTF-8 byte
/// sequences, decodes them, and hands the input back unchanged through its
/// error otherwise.
#[verifier::external_body]
fn decode_text(bytes: Vec<u8>) -> (r: Result<String, Vec<u8>>)
    ensures
        r is Ok <==> vstd::utf8::valid_utf8(bytes@),
        r matches Ok(s) ==> s@ == vstd::utf8::decode_utf8(bytes@),
        r matches Err(b) ==> b@ == bytes@,
{
    String::from_utf8(bytes).map_err(|e| e.into_bytes())
}

/// The file-rendering outcome a response embeds, if it embeds one.
pub open spec fn as_file_result(r: Response) -> Option<Result<FileContent, MdError>> {
    match r {
        Response::Page(fc) => Some(Ok(fc)),
        Response::RenderFail => Some(Err(MdError)),
        _ => None,
    }
}

/// How one request is answered, given what the filesystem said: a missing
/// path is not found, never an error; a directory becomes its listing; a file
/// that is not valid text returns its bytes unchanged; a text file requested
/// raw returns exactly its decoded content; any other text file is classified
/// and rendered by the resolved path's extension, against the request URL
/// without its trailing separators.
pub open spec fn request_ok(
    url: Seq<char>,
    fs_path: Seq<char>,
    raw: bool,
    probe: PathProbe,
    r: Response,
) -> bool {
    match probe {
        PathProbe::Missing => r == Response::NotFound,
        PathProbe::Directory { entries, canonical } => r matches Response::Listing(ic)
            && listing_ok(ic, entries@, url, canonical),
        PathProbe::File { bytes, canonical } => {
            if !vstd::utf8::valid_utf8(bytes@) {
                r matches Response::Binary(b) && b@ == bytes@
            } else {
                let text = vstd::utf8::decode_utf8(bytes@);
                if raw {
                    r matches Response::PlainText(s) && s@ == text
                } else {
                    as_file_result(r) matches Some(rr) && file_render_ok(
                        fs_path,
                        text,
                        spec_trim_end_slash(url),
                        canonical,
                        rr,
                    )
                }
            }
        },
    }
}

/// Answers one request. `url` is the request path as it came in; `fs_path` is
/// the display form of that path joined onto the served root, whose extension
/// classifies files; `raw` is the raw-view query flag; `probe` is what the
/// filesystem said about the resolved path.
pub fn handle_request(
    url: &str,
    fs_path: &str,
    raw: bool,
    probe: PathProbe,
    hl: &Highlighter,
) -> (r: Response)
    ensures
        request_ok(url@, fs_path@, raw, probe, r),
{
    match probe {
        PathProbe::Missing => Response::NotFound,
        PathProbe::Directory { entries, canonical } => Response::Listing(
            build_listing(entries, url, canonical),
        ),
        PathProbe::File { bytes, canonical } => {
            match decode_text(bytes) {
                Err(b) => Response::Binary(b),
                Ok(text) => {
                    if raw {
                        Response::PlainText(text)
                    } else {
                        let trimmed = trim_end_slashes(url);
                        match render_file(fs_path, text, trimmed, canonical, hl) {
                            Ok(fc) => Response::Page(fc),
                            Err(_) => Response::RenderFail,
                        }
                    }
                },
            }
        },
    }
}

} // verus!
