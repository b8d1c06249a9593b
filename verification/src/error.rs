use vstd::prelude::*;

use crate::text::{dec_digits, u16_to_dec};

verus! {

/// The closed set of failures an operation can end in.
#[derive(Debug, PartialEq)]
pub enum ApiError {
    /// The request never completed: a connection or protocol fault, carried
    /// with the transport's own description.
    Transport { cause: String },
    /// The service answered with a status outside the 2xx range; the code and
    /// the raw response body are kept.
    HttpStatus { status: u16, body: String },
    /// A success response's body could not be read as the expected shape; the
    /// cause describes what went wrong.
    Decode { cause: String },
    /// A success response arrived with no body where a created record was owed.
    EmptyBody,
    /// No token was given and none could be read from the token file.
    MissingToken,
    /// A locally supplied payload was not well-formed JSON.
    InvalidInput { cause: String },
}

/// The descriptive message each failure renders as.
pub open spec fn error_message(e: ApiError) -> Seq<char> {
    match e {
        ApiError::Transport { cause } => cause@,
        ApiError::HttpStatus { status, body } => "HTTP error: "@ + dec_digits(
            status as int,
        ) + ". Body: "@ + body@,
        ApiError::Decode { cause } => cause@,
        ApiError::EmptyBody => "Empty response body"@,
        ApiError::MissingToken => "Token not provided and could not read from ~/.collected-notes"@,
        ApiError::InvalidInput { cause } => cause@,
    }
}

impl ApiError {
    /// The failure's description, as the dispatcher prints it.
    pub fn describe(&self) -> (r: String)
        ensures
            r@ == error_message(*self),
    {
        match self {
            ApiError::Transport { cause } => cause.clone(),
            ApiError::HttpStatus { status, body } => {
                let digits = u16_to_dec(*status);
                let mut s = "HTTP error: ".to_owned();
                s.append(digits.as_str());
                s.append(". Body: ");
                s.append(body.as_str());
                s
            },
            ApiError::Decode { cause } => cause.clone(),
            ApiError::EmptyBody => "Empty response body".to_owned(),
            ApiError::MissingToken => "Token not provided and could not read from ~/.collected-notes"
                .to_owned(),
            ApiError::InvalidInput { cause } => cause.clone(),
        }
    }
}

/// Law: the failure for a non-success status renders as a message that carries
/// the status code's decimal digits at a fixed offset and ends with the
/// response body verbatim.
pub proof fn lemma_http_failure_message(status: u16, body: String)
    ensures
        ({
            let m = error_message(ApiError::HttpStatus { status, body });
            let d = dec_digits(status as int);
            &&& m.len() == 20 + d.len() + body@.len()
            &&& m.subrange(12, 12 + d.len() as int) == d
            &&& m.subrange(m.len() - body@.len(), m.len() as int) == body@
        }),
{
    reveal_strlit("HTTP error: ");
    reveal_strlit(". Body: ");
    let m = error_message(ApiError::HttpStatus { status, body });
    let d = dec_digits(status as int);
    assert(m.subrange(12, 12 + d.len() as int) =~= d);
    assert(m.subrange(m.len() - body@.len(), m.len() as int) =~= body@);
}

} // verus!
