//! The route table and the dispatch boundary: which handler a request
//! reaches, the answers the router makes itself, and how a handler's
//! outcome becomes exactly one response.
use vstd::prelude::*;
use crate::context::{Context, RequestHead};
use crate::http::{Method, Response, carries_cors, cors_header, header_view};

verus! {

/// Where a request goes.
#[derive(PartialEq, Eq, Structural, Debug, Clone, Copy)]
pub enum Route {
    /// A CORS preflight, answered by the router itself.
    Preflight,
    AuthRedirect,
    AuthIdentify,
    AuthDestroy,
    AuthCallback,
    HealthCheck,
    FindJobs,
    FindLobbies,
    CreateLobby,
    CreateLobbyMembership,
    DestroyLobbyMembership,
    CreateGame,
    FindGames,
    FindRounds,
    CreateEntryVote,
    CreateEntry,
    /// No handler is registered for the method and path.
    NotFound,
}

/// Why a request head cannot be routed.
#[derive(PartialEq, Eq, Structural, Debug, Clone, Copy)]
pub enum HeadError {
    InvalidMethod,
    InvalidPath,
}

/// A failure inside a handler. Its cause is kept for the log and never sent.
#[derive(PartialEq, Eq, Structural, Debug, Clone, Copy)]
pub enum HandlerError {
    /// The request body was larger than the context allows.
    BodyTooLarge,
    /// The request body was not the expected JSON payload.
    Deserialization,
    /// A stored row lacked a column or held a value of another type.
    Record,
    /// The record or job store could not complete an operation.
    Persistence,
}

/// The route table.
pub open spec fn route_spec(method: Method, path: Seq<char>) -> Route {
    if method == Method::OPTIONS {
        Route::Preflight
    } else if method == Method::GET && path == "/auth/redirect"@ {
        Route::AuthRedirect
    } else if method == Method::GET && path == "/auth/identify"@ {
        Route::AuthIdentify
    } else if method == Method::GET && path == "/auth/destroy"@ {
        Route::AuthDestroy
    } else if method == Method::GET && path == "/auth/callback"@ {
        Route::AuthCallback
    } else if method == Method::GET && path == "/health-check"@ {
        Route::HealthCheck
    } else if method == Method::GET && path == "/jobs"@ {
        Route::FindJobs
    } else if method == Method::GET && path == "/lobbies"@ {
        Route::FindLobbies
    } else if method == Method::POST && path == "/lobbies"@ {
        Route::CreateLobby
    } else if method == Method::POST && path == "/lobby-memberships"@ {
        Route::CreateLobbyMembership
    } else if method == Method::DELETE && path == "/lobby-memberships"@ {
        Route::DestroyLobbyMembership
    } else if method == Method::POST && path == "/games"@ {
        Route::CreateGame
    } else if method == Method::GET && path == "/games"@ {
        Route::FindGames
    } else if method == Method::GET && path == "/rounds"@ {
        Route::FindRounds
    } else if method == Method::POST && path == "/round-entry-votes"@ {
        Route::CreateEntryVote
    } else if method == Method::POST && path == "/round-entries"@ {
        Route::CreateEntry
    } else {
        Route::NotFound
    }
}

/// Whether a route is served by a registered handler.
pub open spec fn is_handled(r: Route) -> bool {
    !(r is Preflight) && !(r is NotFound)
}

/// The status of the answer the router makes itself, for the routes it
/// answers without a handler.
pub open spec fn synthesized_status(r: Route) -> Option<u16> {
    match r {
        Route::Preflight => Some(200),
        Route::NotFound => Some(404),
        _ => None,
    }
}

fn is_path(path: &String, lit: &str) -> (r: bool)
    ensures
        r == (path@ == lit@),
{
    *path == lit.to_owned()
}

/// Looks up the route of a method and a path (without its query).
pub fn dispatch(method: Method, path: &String) -> (r: Route)
    ensures
        r == route_spec(method, path@),
{
    if method == Method::OPTIONS {
        Route::Preflight
    } else if method == Method::GET && is_path(path, "/auth/redirect") {
        Route::AuthRedirect
    } else if method == Method::GET && is_path(path, "/auth/identify") {
        Route::AuthIdentify
    } else if method == Method::GET && is_path(path, "/auth/destroy") {
        Route::AuthDestroy
    } else if method == Method::GET && is_path(path, "/auth/callback") {
        Route::AuthCallback
    } else if method == Method::GET && is_path(path, "/health-check") {
        Route::HealthCheck
    } else if method == Method::GET && is_path(path, "/jobs") {
        Route::FindJobs
    } else if method == Method::GET && is_path(path, "/lobbies") {
        Route::FindLobbies
    } else if method == Method::POST && is_path(path, "/lobbies") {
        Route::CreateLobby
    } else if method == Method::POST && is_path(path, "/lobby-memberships") {
        Route::CreateLobbyMembership
    } else if method == Method::DELETE && is_path(path, "/lobby-memberships") {
        Route::DestroyLobbyMembership
    } else if method == Method::POST && is_path(path, "/games") {
        Route::CreateGame
    } else if method == Method::GET && is_path(path, "/games") {
        Route::FindGames
    } else if method == Method::GET && is_path(path, "/rounds") {
        Route::FindRounds
    } else if method == Method::POST && is_path(path, "/round-entry-votes") {
        Route::CreateEntryVote
    } else if method == Method::POST && is_path(path, "/round-entries") {
        Route::CreateEntry
    } else {
        Route::NotFound
    }
}

/// The method and target of a head, or why it has none.
pub open spec fn parts_spec(head: RequestHead) -> Result<(Method, String), HeadError> {
    match head.method {
        None => Err(HeadError::InvalidMethod),
        Some(m) => match head.path {
            None => Err(HeadError::InvalidPath),
            Some(p) => Ok((m, p)),
        },
    }
}

/// The method and request target of a head; a head without either cannot
/// be answered.
pub fn extract_parts(head: &RequestHead) -> (r: Result<(Method, String), HeadError>)
    ensures
        r == parts_spec(*head),
{
    let method = match head.method {
        Some(m) => m,
        None => return Err(HeadError::InvalidMethod),
    };
    let path = match &head.path {
        Some(p) => p.clone(),
        None => return Err(HeadError::InvalidPath),
    };
    Ok((method, path))
}

/// The answer of a route that no handler serves: an empty preflight answer
/// or a not-found, each naming the context's origin. `None` for a route that
/// a handler must answer.
pub fn synthesize(route: Route, context: &Context) -> (r: Option<Response>)
    ensures
        r is Some <==> !is_handled(route),
        r matches Some(resp) ==> ({
            &&& Some(resp.status) == synthesized_status(route)
            &&& resp.body is None
            &&& header_view(resp.headers@) == seq![(cors_header(), context.cors@)]
            &&& carries_cors(resp, context.cors@)
        }),
{
    match route {
        Route::Preflight => Some(Response::default().cors(context.cors())),
        Route::NotFound => Some(Response::not_found().cors(context.cors())),
        _ => None,
    }
}

/// The one response a handler's outcome is written as: the handler's own
/// response, or a bare failure naming the context's origin.
pub fn finish(outcome: Result<Response, HandlerError>, context: &Context) -> (r: Response)
    ensures
        outcome matches Ok(resp) ==> r == resp,
        outcome is Err ==> r.status == 500 && r.body is None && header_view(r.headers@) == seq![
            (cors_header(), context.cors@),
        ] && carries_cors(r, context.cors@),
{
    match outcome {
        Ok(resp) => resp,
        Err(_) => Response::failed().cors(context.cors()),
    }
}

/// A request whose method and path no handler is registered for, other than
/// a preflight, is answered not-found, naming the configured origin.
pub proof fn law_unregistered_is_not_found(method: Method, path: Seq<char>)
    requires
        method != Method::OPTIONS,
        !is_handled(route_spec(method, path)),
    ensures
        route_spec(method, path) == Route::NotFound,
        synthesized_status(route_spec(method, path)) == Some(404u16),
{
}

/// Every `OPTIONS` request, whatever its path, is a preflight: no handler
/// runs, and the router answers it itself with status 200.
pub proof fn law_options_is_preflight(path: Seq<char>)
    ensures
        route_spec(Method::OPTIONS, path) == Route::Preflight,
        !is_handled(route_spec(Method::OPTIONS, path)),
        synthesized_status(route_spec(Method::OPTIONS, path)) == Some(200u16),
{
}

} // verus!
