use vstd::prelude::*;

use crate::error::ApiError;
use crate::json::{json_of_text, json_to_text, parse_json, rep, text_of_json, JsonRep, JsonVal};
use crate::request::{
    html_body_url, links_url, markdown_url, note_url, notes_url, plain_text_url, search_url,
    site_url, sites_url, HttpMethod, HttpRequest,
};

verus! {

/// The API client: the service's base URL and the bearer token, held verbatim,
/// and one request description per remote operation.
pub struct CollectedNotesClient {
    pub base_url: String,
    pub token: String,
}

/// A request with no query, no body and no Accept override.
pub open spec fn plain_request(
    r: HttpRequest,
    m: HttpMethod,
    url: Seq<char>,
    token: Seq<char>,
) -> bool {
    &&& r.method == m
    &&& r.url@ == url
    &&& r.query@.len() == 0
    &&& !r.accept_text_plain
    &&& r.json_body is None
    &&& r.bearer_token@ == token
}

/// A request that carries a JSON body and nothing else out of the ordinary.
pub open spec fn body_request(
    r: HttpRequest,
    m: HttpMethod,
    url: Seq<char>,
    body: Seq<char>,
    token: Seq<char>,
) -> bool {
    &&& r.method == m
    &&& r.url@ == url
    &&& r.query@.len() == 0
    &&& !r.accept_text_plain
    &&& r.json_body is Some
    &&& r.json_body->0@ == body
    &&& r.bearer_token@ == token
}

/// A GET that declares `Accept: text/plain` and carries nothing else.
pub open spec fn text_request(r: HttpRequest, url: Seq<char>, token: Seq<char>) -> bool {
    &&& r.method == HttpMethod::Get
    &&& r.url@ == url
    &&& r.query@.len() == 0
    &&& r.accept_text_plain
    &&& r.json_body is None
    &&& r.bearer_token@ == token
}

/// The compact JSON rendering of an object of two string fields, in order.
pub open spec fn pair_body(
    k1: Seq<char>,
    v1: Seq<char>,
    k2: Seq<char>,
    v2: Seq<char>,
) -> Seq<char> {
    text_of_json(
        JsonRep::Object(seq![(k1, JsonRep::Text(v1)), (k2, JsonRep::Text(v2))]),
    )
}

/// An object document of two string fields, in order.
fn string_pair_object(k1: &str, v1: &str, k2: &str, v2: &str) -> (j: JsonVal)
    ensures
        rep(j) == JsonRep::Object(seq![(k1@, JsonRep::Text(v1@)), (k2@, JsonRep::Text(v2@))]),
{
    let mut fields: Vec<(String, JsonVal)> = Vec::new();
    fields.push((k1.to_owned(), JsonVal::Text(v1.to_owned())));
    fields.push((k2.to_owned(), JsonVal::Text(v2.to_owned())));
    let j = JsonVal::Object(fields);
    proof {
        let frep = rep(j)->Object_0;
        assert(rep(fields@[0].1) == JsonRep::Text(v1@));
        assert(rep(fields@[1].1) == JsonRep::Text(v2@));
        assert(frep[0] == (k1@, JsonRep::Text(v1@)));
        assert(frep[1] == (k2@, JsonRep::Text(v2@)));
        assert(frep =~= seq![(k1@, JsonRep::Text(v1@)), (k2@, JsonRep::Text(v2@))]);
    }
    j
}

impl CollectedNotesClient {
    /// Holds the base URL and the token verbatim: no validation, no
    /// trailing-slash normalization.
    pub fn new(base_url: &str, token: &str) -> (c: Self)
        ensures
            c.base_url@ == base_url@,
            c.token@ == token@,
    {
        CollectedNotesClient { base_url: base_url.to_owned(), token: token.to_owned() }
    }

    fn assemble(
        &self,
        method: HttpMethod,
        url: String,
        query: Vec<(String, String)>,
        accept_text_plain: bool,
        json_body: Option<String>,
    ) -> (r: HttpRequest)
        ensures
            r.method == method,
            r.url == url,
            r.query == query,
            r.accept_text_plain == accept_text_plain,
            r.json_body == json_body,
            r.bearer_token@ == self.token@,
    {
        HttpRequest {
            method,
            url,
            query,
            accept_text_plain,
            json_body,
            bearer_token: self.token.clone(),
        }
    }

    fn sites_url_of(&self) -> (r: String)
        ensures
            r@ == sites_url(self.base_url@),
    {
        let mut u = self.base_url.clone();
        u.append("/sites");
        u
    }

    fn site_url_of(&self, site_path: &str) -> (r: String)
        ensures
            r@ == site_url(self.base_url@, site_path@),
    {
        let mut u = self.base_url.clone();
        u.append("/sites/");
        u.append(site_path);
        u
    }

    fn notes_url_of(&self, site_path: &str) -> (r: String)
        ensures
            r@ == notes_url(self.base_url@, site_path@),
    {
        let mut u = self.site_url_of(site_path);
        u.append("/notes");
        u
    }

    fn note_url_of(&self, site_path: &str, note_path: &str) -> (r: String)
        ensures
            r@ == note_url(self.base_url@, site_path@, note_path@),
    {
        let mut u = self.site_url_of(site_path);
        u.append("/notes/");
        u.append(note_path);
        u
    }

    /// GET `/sites`: list every site.
    pub fn get_sites(&self) -> (r: HttpRequest)
        ensures
            plain_request(r, HttpMethod::Get, sites_url(self.base_url@), self.token@),
    {
        let url = self.sites_url_of();
        self.assemble(HttpMethod::Get, url, Vec::new(), false, None)
    }

    /// POST `/sites` with the JSON body `{site_path, name}`: create a site.
    pub fn create_site(&self, site_path: &str, name: &str) -> (r: HttpRequest)
        ensures
            body_request(
                r,
                HttpMethod::Post,
                sites_url(self.base_url@),
                pair_body("site_path"@, site_path@, "name"@, name@),
                self.token@,
            ),
    {
        let url = self.sites_url_of();
        let doc = string_pair_object("site_path", site_path, "name", name);
        let body = json_to_text(&doc);
        self.assemble(HttpMethod::Post, url, Vec::new(), false, Some(body))
    }

    /// GET `/sites/{site_path}`: fetch one site.
    pub fn get_site(&self, site_path: &str) -> (r: HttpRequest)
        ensures
            plain_request(
                r,
                HttpMethod::Get,
                site_url(self.base_url@, site_path@),
                self.token@,
            ),
    {
        let url = self.site_url_of(site_path);
        self.assemble(HttpMethod::Get, url, Vec::new(), false, None)
    }

    /// PUT `/sites/{site_path}`: forward a caller-supplied JSON document,
    /// unmodified, as the patch payload. A payload that is not well-formed
    /// JSON is rejected before any request is described.
    pub fn update_site(&self, site_path: &str, data: &str) -> (r: Result<HttpRequest, ApiError>)
        ensures
            r is Ok <==> json_of_text(data@) is Some,
            r is Ok ==> body_request(
                r->Ok_0,
                HttpMethod::Put,
                site_url(self.base_url@, site_path@),
                text_of_json(json_of_text(data@)->Some_0),
                self.token@,
            ),
            r is Err ==> r->Err_0 is InvalidInput,
    {
        match parse_json(data) {
            Ok(doc) => {
                let url = self.site_url_of(site_path);
                let body = json_to_text(&doc);
                Ok(self.assemble(HttpMethod::Put, url, Vec::new(), false, Some(body)))
            },
            Err(cause) => Err(ApiError::InvalidInput { cause }),
        }
    }

    /// DELETE `/sites/{site_path}`: remove one site.
    pub fn delete_site(&self, site_path: &str) -> (r: HttpRequest)
        ensures
            plain_request(
                r,
                HttpMethod::Delete,
                site_url(self.base_url@, site_path@),
                self.token@,
            ),
    {
        let url = self.site_url_of(site_path);
        self.assemble(HttpMethod::Delete, url, Vec::new(), false, None)
    }

    /// GET `/sites/{site_path}/notes`: list a site's notes.
    pub fn get_notes_for_site(&self, site_path: &str) -> (r: HttpRequest)
        ensures
            plain_request(
                r,
                HttpMethod::Get,
                notes_url(self.base_url@, site_path@),
                self.token@,
            ),
    {
        let url = self.notes_url_of(site_path);
        self.assemble(HttpMethod::Get, url, Vec::new(), false, None)
    }

    /// POST `/sites/{site_path}/notes` with the JSON body `{body, visibility}`:
    /// create a note.
    pub fn create_note_for_site(&self, site_path: &str, body: &str, visibility: &str) -> (r:
        HttpRequest)
        ensures
            body_request(
                r,
                HttpMethod::Post,
                notes_url(self.base_url@, site_path@),
                pair_body("body"@, body@, "visibility"@, visibility@),
                self.token@,
            ),
    {
        let url = self.notes_url_of(site_path);
        let doc = string_pair_object("body", body, "visibility", visibility);
        let text = json_to_text(&doc);
        self.assemble(HttpMethod::Post, url, Vec::new(), false, Some(text))
    }

    /// GET `/sites/{site_path}/notes/{note_path}`: fetch one note.
    pub fn get_note_by_path(&self, site_path: &str, note_path: &str) -> (r: HttpRequest)
        ensures
            plain_request(
                r,
                HttpMethod::Get,
                note_url(self.base_url@, site_path@, note_path@),
                self.token@,
            ),
    {
        let url = self.note_url_of(site_path, note_path);
        self.assemble(HttpMethod::Get, url, Vec::new(), false, None)
    }

    /// PUT `/sites/{site_path}/notes/{note_path}` with the JSON body
    /// `{body, visibility}`: update one note.
    pub fn update_note_by_path(
        &self,
        site_path: &str,
        note_path: &str,
        body: &str,
        visibility: &str,
    ) -> (r: HttpRequest)
        ensures
            body_request(
                r,
                HttpMethod::Put,
                note_url(self.base_url@, site_path@, note_path@),
                pair_body("body"@, body@, "visibility"@, visibility@),
                self.token@,
            ),
    {
        let url = self.note_url_of(site_path, note_path);
        let doc = string_pair_object("body", body, "visibility", visibility);
        let text = json_to_text(&doc);
        self.assemble(HttpMethod::Put, url, Vec::new(), false, Some(text))
    }

    /// DELETE `/sites/{site_path}/notes/{note_path}`: remove one note.
    pub fn delete_note_by_path(&self, site_path: &str, note_path: &str) -> (r: HttpRequest)
        ensures
            plain_request(
                r,
                HttpMethod::Delete,
                note_url(self.base_url@, site_path@, note_path@),
                self.token@,
            ),
    {
        let url = self.note_url_of(site_path, note_path);
        self.assemble(HttpMethod::Delete, url, Vec::new(), false, None)
    }

    /// GET `.../notes/{note_path}/links`: the note's outgoing links.
    pub fn get_links_from_note(&self, site_path: &str, note_path: &str) -> (r: HttpRequest)
        ensures
            plain_request(
                r,
                HttpMethod::Get,
                links_url(self.base_url@, site_path@, note_path@),
                self.token@,
            ),
    {
        let mut url = self.note_url_of(site_path, note_path);
        url.append("/links");
        self.assemble(HttpMethod::Get, url, Vec::new(), false, None)
    }

    /// GET `.../notes/{note_path}/body`: the note's body rendered as HTML.
    pub fn get_note_body_as_html(&self, site_path: &str, note_path: &str) -> (r: HttpRequest)
        ensures
            plain_request(
                r,
                HttpMethod::Get,
                html_body_url(self.base_url@, site_path@, note_path@),
                self.token@,
            ),
    {
        let mut url = self.note_url_of(site_path, note_path);
        url.append("/body");
        self.assemble(HttpMethod::Get, url, Vec::new(), false, None)
    }

    /// GET `.../notes/{note_path}.md` with `Accept: text/plain`: the note
    /// rendered as Markdown.
    pub fn get_note_as_markdown(&self, site_path: &str, note_path: &str) -> (r: HttpRequest)
        ensures
            text_request(r, markdown_url(self.base_url@, site_path@, note_path@), self.token@),
    {
        let mut url = self.note_url_of(site_path, note_path);
        url.append(".md");
        self.assemble(HttpMethod::Get, url, Vec::new(), true, None)
    }

    /// GET `.../notes/{note_path}.txt` with `Accept: text/plain`: the note
    /// rendered as plain text.
    pub fn get_note_as_plain_text(&self, site_path: &str, note_path: &str) -> (r: HttpRequest)
        ensures
            text_request(r, plain_text_url(self.base_url@, site_path@, note_path@), self.token@),
    {
        let mut url = self.note_url_of(site_path, note_path);
        url.append(".txt");
        self.assemble(HttpMethod::Get, url, Vec::new(), true, None)
    }

    /// GET `.../notes/search` with the query parameters `term` and `mode`:
    /// search a site's notes.
    pub fn search_notes(&self, site_path: &str, term: &str, mode: &str) -> (r: HttpRequest)
        ensures
            r.method == HttpMethod::Get,
            r.url@ == search_url(self.base_url@, site_path@),
            r.query@.len() == 2,
            r.query@[0].0@ == "term"@,
            r.query@[0].1@ == term@,
            r.query@[1].0@ == "mode"@,
            r.query@[1].1@ == mode@,
            !r.accept_text_plain,
            r.json_body is None,
            r.bearer_token@ == self.token@,
    {
        let mut url = self.notes_url_of(site_path);
        url.append("/search");
        let mut query: Vec<(String, String)> = Vec::new();
        query.push(("term".to_owned(), term.to_owned()));
        query.push(("mode".to_owned(), mode.to_owned()));
        self.assemble(HttpMethod::Get, url, query, false, None)
    }
}

} // verus!
