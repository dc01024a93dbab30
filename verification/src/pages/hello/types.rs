//! Shapes of the greeting endpoints' inputs and of their echo.

use vstd::prelude::*;

verus! {

/// Path of `GET /hello/{name}.html`.
#[derive(Debug)]
pub struct PathParams1 {
    pub name: String,
}

/// Path of `POST /hello/{id}/set/{tail}`; the tail may hold slashes.
#[derive(Debug)]
pub struct PathParams2 {
    pub id: u32,
    pub tail: String,
}

/// Query string of the greeting endpoints, as the echo shows it.
#[derive(Debug)]
pub struct QueryParams {
    pub ts: Option<i64>,
    pub code: Option<String>,
}

/// JSON body of `POST /hello/{id}/set/{tail}`. Every field may be left out;
/// `kind` travels under the key `type`.
#[derive(Debug)]
pub struct RequestBody {
    pub kind: Option<String>,
    pub from: Option<String>,
    pub data: Option<String>,
}

/// The echo: what the request carried in its path, its query string and its
/// body.
#[derive(Debug)]
pub struct Response<P, T> {
    pub path: Option<P>,
    pub query: QueryParams,
    pub body: Option<T>,
}

} // verus!
