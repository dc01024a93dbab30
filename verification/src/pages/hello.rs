//! The greeting endpoints: both echo what they were sent, once the request is
//! authorized.

use crate::pages::hello::types::PathParams1;
use crate::pages::hello::types::PathParams2;
use crate::pages::hello::types::QueryParams;
use crate::pages::hello::types::RequestBody;
use crate::pages::hello::types::Response;
use crate::AuthorizedUrl;
use crate::ErrorKind;
use vstd::prelude::*;
use vstd::string::StringExecFns;

pub mod types;

verus! {

/// Body of the echo of `GET /hello/{name}.html`.
pub const GREETING: &'static str = "hello";

/// `GET /hello/{name}.html`: for an authorized request the echo of its path
/// and query string with the greeting as body; else the error of the guard,
/// as it came.
pub fn get(path: PathParams1, query: QueryParams, authed: Result<AuthorizedUrl, ErrorKind>) -> (res:
    Result<Response<PathParams1, String>, ErrorKind>)
    ensures
        authed is Ok ==> {
            &&& res matches Ok(echo)
            &&& echo.path == Some(path)
            &&& echo.query == query
            &&& echo.body matches Some(body)
            &&& body@ == GREETING@
        },
        authed matches Err(e) ==> (res matches Err(r) && r == e),
{
    match authed {
        Ok(_) => Ok(Response { path: Some(path), query, body: Some(String::from_str(GREETING)) }),
        Err(e) => Err(e),
    }
}

/// `POST /hello/{id}/set/{tail}`: for an authorized request the echo of its
/// path, query string and body; else the error of the guard, as it came.
pub fn post(
    path: PathParams2,
    query: QueryParams,
    data: RequestBody,
    authed: Result<AuthorizedUrl, ErrorKind>,
) -> (res: Result<Response<PathParams2, RequestBody>, ErrorKind>)
    ensures
        authed is Ok ==> {
            &&& res matches Ok(echo)
            &&& echo.path == Some(path)
            &&& echo.query == query
            &&& echo.body == Some(data)
        },
        authed matches Err(e) ==> (res matches Err(r) && r == e),
{
    match authed {
        Ok(_) => Ok(Response { path: Some(path), query, body: Some(data) }),
        Err(e) => Err(e),
    }
}

} // verus!
