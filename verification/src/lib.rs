//! A verified core for a client of a hosted note-taking service. The library
//! describes each remote operation as one HTTP request (URL, method, query,
//! headers, JSON body, bearer token), classifies each response by its status,
//! and decodes response bodies into typed records, all under proved contracts.
//! Performing the requests is left to the caller.

pub mod client;
pub mod config;
pub mod decode;
pub mod error;
pub mod json;
pub mod request;
pub mod response;
pub mod text;
pub mod types;

use vstd::prelude::*;

verus! {

/// A response status counts as success exactly when it lies in the 2xx range.
pub open spec fn status_success(status: u16) -> bool {
    200 <= status < 300
}

/// Runtime test for the 2xx success range.
pub fn is_success_status(status: u16) -> (r: bool)
    ensures
        r == status_success(status),
{
    200 <= status && status < 300
}

} // verus!
