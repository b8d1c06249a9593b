use vstd::prelude::*;

use crate::decode::{
    links_from_json, links_of_rep, note_from_json, note_of_rep, notes_from_json, notes_of_rep,
    site_from_json, site_of_rep, sites_from_json, sites_of_rep,
};
use crate::error::ApiError;
use crate::is_success_status;
use crate::json::{json_of_text, parse_json};
use crate::status_success;
use crate::text::{check_blank, is_blank};
use crate::types::{Note, Site};

verus! {

/// The fixed description carried when a success body parses as JSON but does
/// not hold the expected shape.
pub open spec fn shape_error_message() -> Seq<char> {
    "response body does not match the expected shape"@
}

/// The outcome of fetching or updating one site: the site record the body
/// holds. A non-success status fails with the status and the body verbatim; a
/// body that is not a site record fails as a decoding error.
pub fn site_response(status: u16, body: String) -> (r: Result<Site, ApiError>)
    ensures
        !status_success(status) ==> r == Err::<Site, ApiError>(
            ApiError::HttpStatus { status, body },
        ),
        status_success(status) ==> {
            &&& r is Ok <==> (json_of_text(body@) matches Some(j) && site_of_rep(j) is Some)
            &&& r is Ok ==> r->Ok_0@ == site_of_rep(json_of_text(body@)->Some_0)->Some_0
            &&& r is Err ==> r->Err_0 is Decode
            &&& (json_of_text(body@) matches Some(j) && site_of_rep(j) is None) ==> (
            r->Err_0 matches ApiError::Decode { cause } && cause@ == shape_error_message())
        },
{
    if !is_success_status(status) {
        return Err(ApiError::HttpStatus { status, body });
    }
    match parse_json(body.as_str()) {
        Err(cause) => Err(ApiError::Decode { cause }),
        Ok(doc) => match site_from_json(&doc) {
            Some(site) => Ok(site),
            None => Err(
                ApiError::Decode {
                    cause: "response body does not match the expected shape".to_owned(),
                },
            ),
        },
    }
}

/// The outcome of creating a site. A success response with a blank body is a
/// failure: a created record is owed back. Otherwise as for fetching a site.
pub fn created_site_response(status: u16, body: String) -> (r: Result<Site, ApiError>)
    ensures
        !status_success(status) ==> r == Err::<Site, ApiError>(
            ApiError::HttpStatus { status, body },
        ),
        status_success(status) && is_blank(body@) ==> r == Err::<Site, ApiError>(
            ApiError::EmptyBody,
        ),
        status_success(status) && !is_blank(body@) ==> {
            &&& r is Ok <==> (json_of_text(body@) matches Some(j) && site_of_rep(j) is Some)
            &&& r is Ok ==> r->Ok_0@ == site_of_rep(json_of_text(body@)->Some_0)->Some_0
            &&& r is Err ==> r->Err_0 is Decode
            &&& (json_of_text(body@) matches Some(j) && site_of_rep(j) is None) ==> (
            r->Err_0 matches ApiError::Decode { cause } && cause@ == shape_error_message())
        },
{
    if is_success_status(status) && check_blank(body.as_str()) {
        return Err(ApiError::EmptyBody);
    }
    site_response(status, body)
}

/// The outcome of listing every site. A success response with a blank body is
/// deliberately read as an empty list, not as a failure; any other body must
/// hold a list of site records.
pub fn sites_response(status: u16, body: String) -> (r: Result<Vec<Site>, ApiError>)
    ensures
        !status_success(status) ==> r == Err::<Vec<Site>, ApiError>(
            ApiError::HttpStatus { status, body },
        ),
        status_success(status) && is_blank(body@) ==> r is Ok && r->Ok_0@.len() == 0,
        status_success(status) && !is_blank(body@) ==> {
            &&& r is Ok <==> (json_of_text(body@) matches Some(j) && sites_of_rep(j) is Some)
            &&& r is Ok ==> r->Ok_0@.map_values(|s: Site| s@) == sites_of_rep(
                json_of_text(body@)->Some_0,
            )->Some_0
            &&& r is Err ==> r->Err_0 is Decode
            &&& (json_of_text(body@) matches Some(j) && sites_of_rep(j) is None) ==> (
            r->Err_0 matches ApiError::Decode { cause } && cause@ == shape_error_message())
        },
{
    if !is_success_status(status) {
        return Err(ApiError::HttpStatus { status, body });
    }
    if check_blank(body.as_str()) {
        return Ok(Vec::new());
    }
    match parse_json(body.as_str()) {
        Err(cause) => Err(ApiError::Decode { cause }),
        Ok(doc) => match sites_from_json(&doc) {
            Some(sites) => Ok(sites),
            None => Err(
                ApiError::Decode {
                    cause: "response body does not match the expected shape".to_owned(),
                },
            ),
        },
    }
}

/// The outcome of creating, fetching or updating one note: the note record the
/// body holds.
pub fn note_response(status: u16, body: String) -> (r: Result<Note, ApiError>)
    ensures
        !status_success(status) ==> r == Err::<Note, ApiError>(
            ApiError::HttpStatus { status, body },
        ),
        status_success(status) ==> {
            &&& r is Ok <==> (json_of_text(body@) matches Some(j) && note_of_rep(j) is Some)
            &&& r is Ok ==> r->Ok_0@ == note_of_rep(json_of_text(body@)->Some_0)->Some_0
            &&& r is Err ==> r->Err_0 is Decode
            &&& (json_of_text(body@) matches Some(j) && note_of_rep(j) is None) ==> (
            r->Err_0 matches ApiError::Decode { cause } && cause@ == shape_error_message())
        },
{
    if !is_success_status(status) {
        return Err(ApiError::HttpStatus { status, body });
    }
    match parse_json(body.as_str()) {
        Err(cause) => Err(ApiError::Decode { cause }),
        Ok(doc) => match note_from_json(&doc) {
            Some(note) => Ok(note),
            None => Err(
                ApiError::Decode {
                    cause: "response body does not match the expected shape".to_owned(),
                },
            ),
        },
    }
}

/// The outcome of listing or searching a site's notes: the list of note
/// records the body holds, with no empty-body tolerance.
pub fn notes_response(status: u16, body: String) -> (r: Result<Vec<Note>, ApiError>)
    ensures
        !status_success(status) ==> r == Err::<Vec<Note>, ApiError>(
            ApiError::HttpStatus { status, body },
        ),
        status_success(status) ==> {
            &&& r is Ok <==> (json_of_text(body@) matches Some(j) && notes_of_rep(j) is Some)
            &&& r is Ok ==> r->Ok_0@.map_values(|n: Note| n@) == notes_of_rep(
                json_of_text(body@)->Some_0,
            )->Some_0
            &&& r is Err ==> r->Err_0 is Decode
            &&& (json_of_text(body@) matches Some(j) && notes_of_rep(j) is None) ==> (
            r->Err_0 matches ApiError::Decode { cause } && cause@ == shape_error_message())
        },
{
    if !is_success_status(status) {
        return Err(ApiError::HttpStatus { status, body });
    }
    match parse_json(body.as_str()) {
        Err(cause) => Err(ApiError::Decode { cause }),
        Ok(doc) => match notes_from_json(&doc) {
            Some(notes) => Ok(notes),
            None => Err(
                ApiError::Decode {
                    cause: "response body does not match the expected shape".to_owned(),
                },
            ),
        },
    }
}

/// The outcome of asking for a note's links: the list of URL strings the body
/// holds, in order.
pub fn links_response(status: u16, body: String) -> (r: Result<Vec<String>, ApiError>)
    ensures
        !status_success(status) ==> r == Err::<Vec<String>, ApiError>(
            ApiError::HttpStatus { status, body },
        ),
        status_success(status) ==> {
            &&& r is Ok <==> (json_of_text(body@) matches Some(j) && links_of_rep(j) is Some)
            &&& r is Ok ==> r->Ok_0@.map_values(|s: String| s@) == links_of_rep(
                json_of_text(body@)->Some_0,
            )->Some_0
            &&& r is Err ==> r->Err_0 is Decode
            &&& (json_of_text(body@) matches Some(j) && links_of_rep(j) is None) ==> (
            r->Err_0 matches ApiError::Decode { cause } && cause@ == shape_error_message())
        },
{
    if !is_success_status(status) {
        return Err(ApiError::HttpStatus { status, body });
    }
    match parse_json(body.as_str()) {
        Err(cause) => Err(ApiError::Decode { cause }),
        Ok(doc) => match links_from_json(&doc) {
            Some(links) => Ok(links),
            None => Err(
                ApiError::Decode {
                    cause: "response body does not match the expected shape".to_owned(),
                },
            ),
        },
    }
}

/// The outcome of a text-rendering fetch: a success body passes through
/// verbatim and unparsed.
pub fn text_response(status: u16, body: String) -> (r: Result<String, ApiError>)
    ensures
        !status_success(status) ==> r == Err::<String, ApiError>(
            ApiError::HttpStatus { status, body },
        ),
        status_success(status) ==> r == Ok::<String, ApiError>(body),
{
    if !is_success_status(status) {
        return Err(ApiError::HttpStatus { status, body });
    }
    Ok(body)
}

/// The outcome of a deletion, which returns no record: success carries
/// nothing, and a non-success status fails with the status and the body.
pub fn unit_response(status: u16, body: String) -> (r: Result<(), ApiError>)
    ensures
        !status_success(status) ==> r == Err::<(), ApiError>(
            ApiError::HttpStatus { status, body },
        ),
        status_success(status) ==> r is Ok,
{
    if !is_success_status(status) {
        return Err(ApiError::HttpStatus { status, body });
    }
    Ok(())
}

} // verus!
