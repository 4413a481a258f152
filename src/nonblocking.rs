//! The client for callers that send requests on their own scheduler.
use vstd::prelude::*;

use crate::client::{prepare, query_of, query_view, Request};
use crate::key::{IntoText, QueryName};
use crate::service::Service;

verus! {

/// A client that makes non-blocking requests with one access token.
#[derive(Debug, Clone)]
pub struct Client {
    pub token: String,
}

impl Client {
    /// A client that sends `access_token` with every request.
    pub fn set_token<T: IntoText>(access_token: T) -> (r: Client)
        ensures
            r.token@ == access_token.spec_text(),
    {
        Client { token: access_token.into_text() }
    }

    /// The request that sends `service` with this client's token.
    pub fn request<K: QueryName>(&self, service: Service<K>) -> (r: Request)
        ensures
            r.method == service.method,
            r.url == service.url,
            query_view(r.query@) == query_of(self.token@, service.spec_params()),
    {
        prepare(&self.token, service)
    }
}

} // verus!
