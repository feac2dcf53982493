//! Routing: exact matching of method and path, then the choice of handler.

use vstd::prelude::*;

use crate::form::{lookup_key, query_key};

verus! {

/// What the method and path of a request select, before the query is read.
#[derive(PartialEq, Eq, Structural, Clone, Copy, Debug)]
pub enum Route {
    Ready,
    Category,
    NotFound,
}

/// The handler that serves a request; `Category` carries the lookup key.
#[derive(Debug)]
pub enum Handler {
    Ready,
    Category(String),
    MissingParam,
    NotFound,
}

/// The abstract view of a [`Handler`].
pub enum HandlerModel {
    Ready,
    Category(Seq<char>),
    MissingParam,
    NotFound,
}

impl View for Handler {
    type V = HandlerModel;

    open spec fn view(&self) -> HandlerModel {
        match self {
            Handler::Ready => HandlerModel::Ready,
            Handler::Category(k) => HandlerModel::Category(k@),
            Handler::MissingParam => HandlerModel::MissingParam,
            Handler::NotFound => HandlerModel::NotFound,
        }
    }
}

/// Exact matching of method and path: `GET /ready`, `GET /category`, and
/// nothing else.
pub open spec fn route_of(method: Seq<char>, path: Seq<char>) -> Route {
    if method == "GET"@ && path == "/ready"@ {
        Route::Ready
    } else if method == "GET"@ && path == "/category"@ {
        Route::Category
    } else {
        Route::NotFound
    }
}

/// The abstract view of an optional query string.
pub open spec fn opt_str_view(o: Option<&str>) -> Option<Seq<char>> {
    match o {
        Some(s) => Some(s@),
        None => None,
    }
}

/// The handler for a request. `/category` needs a `url` parameter in its
/// query; without a query, or without that parameter, it is `MissingParam`.
pub open spec fn handler_of(method: Seq<char>, path: Seq<char>, query: Option<Seq<char>>) -> HandlerModel {
    match route_of(method, path) {
        Route::Ready => HandlerModel::Ready,
        Route::NotFound => HandlerModel::NotFound,
        Route::Category => match query {
            None => HandlerModel::MissingParam,
            Some(q) => match query_key(q) {
                Some(k) => HandlerModel::Category(k),
                None => HandlerModel::MissingParam,
            },
        },
    }
}

fn same_text(a: &str, b: &str) -> (r: bool)
    ensures
        r == (a@ == b@),
{
    a.to_owned() == b.to_owned()
}

/// Selects the route of a request by its method and path, compared exactly.
pub fn route(method: &str, path: &str) -> (r: Route)
    ensures
        r == route_of(method@, path@),
{
    if same_text(method, "GET") {
        if same_text(path, "/ready") {
            return Route::Ready;
        } else if same_text(path, "/category") {
            return Route::Category;
        }
    }
    Route::NotFound
}

/// Selects the handler of a request from its method, path and raw query string.
pub fn dispatch(method: &str, path: &str, query: Option<&str>) -> (r: Handler)
    ensures
        r@ == handler_of(method@, path@, opt_str_view(query)),
{
    match route(method, path) {
        Route::Ready => Handler::Ready,
        Route::NotFound => Handler::NotFound,
        Route::Category => match query {
            None => Handler::MissingParam,
            Some(q) => match lookup_key(q) {
                Some(k) => Handler::Category(k),
                None => Handler::MissingParam,
            },
        },
    }
}

} // verus!
