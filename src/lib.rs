//! Request routing and deferred job dispatch for a multiplayer party-game server.
//!
//! The library holds the decisions of the server: which handler a request
//! reaches, what each handler answers, how a response is framed on the wire,
//! and how deferred jobs are recorded and observed. Sockets, the relational
//! store and the session store are driven by the surrounding program, which
//! hands their results to these functions as plain values.
pub mod authority;
pub mod authorization;
pub mod context;
pub mod form;
pub mod http;
pub mod interchange;
pub mod jobs;
pub mod records;
pub mod router;
pub mod routes;
pub mod text;

pub use crate::authority::Authority;
pub use crate::context::{Context, ContextBuilder, RequestHead};
pub use crate::http::{Method, Response, Uri};
pub use crate::jobs::JobStore;
