use vstd::prelude::*;

use crate::error::ApiError;
use crate::text::{trim_spaces, trimmed};

verus! {

/// The fixed production endpoint.
pub open spec fn production_url() -> Seq<char> {
    "https://api.collectednotes.com"@
}

/// The fixed local development endpoint.
pub open spec fn development_url() -> Seq<char> {
    "http://localhost:3000"@
}

/// The base URL the environment flag selects: the local development server
/// when the flag is set, the hosted service otherwise. No other endpoint is
/// configurable.
pub fn resolve_base_url(dev: bool) -> (r: &'static str)
    ensures
        dev ==> r@ == development_url(),
        !dev ==> r@ == production_url(),
{
    if dev {
        "http://localhost:3000"
    } else {
        "https://api.collectednotes.com"
    }
}

/// The view of an optional string.
pub open spec fn opt_view(o: Option<String>) -> Option<Seq<char>> {
    match o {
        Some(s) => Some(s@),
        None => None,
    }
}

/// How a token is chosen: an explicit token verbatim; otherwise the token
/// file's contents trimmed of surrounding white space; otherwise none at all.
pub open spec fn resolved_token(
    explicit: Option<Seq<char>>,
    file: Option<Seq<char>>,
) -> Option<Seq<char>> {
    match explicit {
        Some(t) => Some(t),
        None => match file {
            Some(c) => Some(trimmed(c)),
            None => None,
        },
    }
}

/// Whether the dispatcher must consult the token file at all: only when no
/// explicit token was given.
pub fn needs_token_file(explicit: &Option<String>) -> (r: bool)
    ensures
        r == (explicit is None),
{
    match explicit {
        Some(_) => false,
        None => true,
    }
}

/// Chooses the bearer token before any request is made: an explicit token
/// wins; else the token file's contents, trimmed; else resolution fails.
pub fn resolve_token(explicit: Option<String>, file: Option<String>) -> (r: Result<
    String,
    ApiError,
>)
    ensures
        r is Ok <==> resolved_token(opt_view(explicit), opt_view(file)) is Some,
        r is Ok ==> r->Ok_0@ == resolved_token(opt_view(explicit), opt_view(file))->Some_0,
        r is Err ==> r == Err::<String, ApiError>(ApiError::MissingToken),
{
    match explicit {
        Some(t) => Ok(t),
        None => match file {
            Some(c) => Ok(trim_spaces(c.as_str())),
            None => Err(ApiError::MissingToken),
        },
    }
}

/// Law: with an explicit token the token file plays no part in resolution; any
/// two file states resolve alike, to the explicit token itself.
pub proof fn lemma_explicit_token_wins(t: Seq<char>, f1: Option<Seq<char>>, f2: Option<Seq<char>>)
    ensures
        resolved_token(Some(t), f1) == resolved_token(Some(t), f2),
        resolved_token(Some(t), f1) == Some(t),
{
}

} // verus!
