//! The routes of the file listing, as a table that the HTTP layer mounts.

use vstd::prelude::*;

verus! {

/// An HTTP method that the service answers.
#[derive(Clone, Copy, Debug, PartialEq, Eq, Structural)]
pub enum Method {
    Get,
    Post,
    Put,
}

/// What a route leads to.
#[derive(Clone, Copy, Debug, PartialEq, Eq, Structural)]
pub enum Endpoint {
    /// The files shared with the caller.
    ListFiles,
}

/// One line of the table: which method on which path leads where, and
/// whether the caller must be authenticated.
#[derive(Debug)]
pub struct Route {
    pub method: Method,
    pub path: String,
    pub endpoint: Endpoint,
    pub authenticated: bool,
}

/// A table of routes.
#[derive(Debug)]
pub struct Router {
    pub routes: Vec<Route>,
}

/// The routes of the file listing: `GET /files`, for authenticated callers,
/// lists the files shared with the caller.
pub fn get_file_list_handler() -> (router: Router)
    ensures
        router.routes@.len() == 1,
        router.routes@[0].method == Method::Get,
        router.routes@[0].path@ == "/files"@,
        router.routes@[0].endpoint == Endpoint::ListFiles,
        router.routes@[0].authenticated,
{
    let mut routes: Vec<Route> = Vec::new();
    routes.push(
        Route {
            method: Method::Get,
            path: "/files".to_owned(),
            endpoint: Endpoint::ListFiles,
            authenticated: true,
        },
    );
    Router { routes }
}

} // verus!
