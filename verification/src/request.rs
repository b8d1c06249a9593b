use vstd::prelude::*;

verus! {

/// The HTTP method of a request.
#[derive(Clone, Copy, Debug, PartialEq, Eq, Structural)]
pub enum HttpMethod {
    Get,
    Post,
    Put,
    Delete,
}

/// One HTTP request, fully described: everything the transport needs in order
/// to perform it, and nothing left to its choice. Every request carries the
/// bearer token for authentication.
#[derive(Debug)]
pub struct HttpRequest {
    pub method: HttpMethod,
    pub url: String,
    /// Query parameters, in order, to be encoded onto the URL.
    pub query: Vec<(String, String)>,
    /// Whether the request declares `Accept: text/plain`.
    pub accept_text_plain: bool,
    /// A JSON request body, already rendered as text.
    pub json_body: Option<String>,
    /// The bearer token sent with the request.
    pub bearer_token: String,
}

/// URL of the site collection.
pub open spec fn sites_url(base: Seq<char>) -> Seq<char> {
    base + "/sites"@
}

/// URL of one site, routed by its path.
pub open spec fn site_url(base: Seq<char>, site_path: Seq<char>) -> Seq<char> {
    base + "/sites/"@ + site_path
}

/// URL of a site's note collection.
pub open spec fn notes_url(base: Seq<char>, site_path: Seq<char>) -> Seq<char> {
    site_url(base, site_path) + "/notes"@
}

/// URL of one note, routed by its site's path and its own.
pub open spec fn note_url(
    base: Seq<char>,
    site_path: Seq<char>,
    note_path: Seq<char>,
) -> Seq<char> {
    site_url(base, site_path) + "/notes/"@ + note_path
}

/// URL of a note's outgoing links.
pub open spec fn links_url(
    base: Seq<char>,
    site_path: Seq<char>,
    note_path: Seq<char>,
) -> Seq<char> {
    note_url(base, site_path, note_path) + "/links"@
}

/// URL of a note's body rendered as HTML.
pub open spec fn html_body_url(
    base: Seq<char>,
    site_path: Seq<char>,
    note_path: Seq<char>,
) -> Seq<char> {
    note_url(base, site_path, note_path) + "/body"@
}

/// URL of a note rendered as Markdown.
pub open spec fn markdown_url(
    base: Seq<char>,
    site_path: Seq<char>,
    note_path: Seq<char>,
) -> Seq<char> {
    note_url(base, site_path, note_path) + ".md"@
}

/// URL of a note rendered as plain text.
pub open spec fn plain_text_url(
    base: Seq<char>,
    site_path: Seq<char>,
    note_path: Seq<char>,
) -> Seq<char> {
    note_url(base, site_path, note_path) + ".txt"@
}

/// URL of a site's note search.
pub open spec fn search_url(base: Seq<char>, site_path: Seq<char>) -> Seq<char> {
    notes_url(base, site_path) + "/search"@
}

} // verus!
