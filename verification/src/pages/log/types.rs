//! Shapes of the log endpoint's inputs.

use crate::text::chars_of_owned;
use vstd::prelude::*;

verus! {

/// Path of `POST /log/{bucket}/{device_id}`.
#[derive(Debug)]
pub struct PathParams {
    pub bucket: String,
    pub device_id: String,
}

/// Mathematical content of a [`PathParams`].
pub ghost struct PathParamsView {
    pub bucket: Seq<char>,
    pub device_id: Seq<char>,
}

impl View for PathParams {
    type V = PathParamsView;

    open spec fn view(&self) -> PathParamsView {
        PathParamsView { bucket: self.bucket@, device_id: self.device_id@ }
    }
}

/// Optional query parameters of the log endpoint: the category of the
/// payload and its sender.
#[derive(Debug)]
pub struct QueryParams {
    pub cat: Option<String>,
    pub from: Option<String>,
}

/// Mathematical content of a [`QueryParams`].
pub ghost struct QueryParamsView {
    pub cat: Option<Seq<char>>,
    pub from: Option<Seq<char>>,
}

impl View for QueryParams {
    type V = QueryParamsView;

    open spec fn view(&self) -> QueryParamsView {
        QueryParamsView { cat: chars_of_owned(self.cat), from: chars_of_owned(self.from) }
    }
}

} // verus!
