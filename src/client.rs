//! Clients: a token and the requests made with it.
use vstd::prelude::*;

use crate::key::{IntoText, QueryName};
use crate::service::{pairs_view, HttpMethod, Service};

verus! {

/// A request ready to be sent: method, URL and query string pairs, in order.
#[derive(Debug)]
pub struct Request {
    pub method: HttpMethod,
    pub url: String,
    pub query: Vec<(String, String)>,
}

/// The query pairs of a request as text.
pub open spec fn query_view(v: Seq<(String, String)>) -> Seq<(Seq<char>, Seq<char>)> {
    v.map_values(|x: (String, String)| (x.0@, x.1@))
}

/// Query pairs with each key replaced by its name.
pub open spec fn named<K: QueryName>(ps: Seq<(K, Seq<char>)>) -> Seq<(Seq<char>, Seq<char>)> {
    ps.map_values(|x: (K, Seq<char>)| (x.0.spec_name(), x.1))
}

/// The name of the query parameter that carries the access token.
pub open spec fn token_param() -> Seq<char> {
    seq!['a', 'c', 'c', 'e', 's', 's', '_', 't', 'o', 'k', 'e', 'n']
}

/// The query pairs that send `params` with `token`: the token first, then
/// the pairs of the service in their order.
pub open spec fn query_of<K: QueryName>(
    token: Seq<char>,
    params: Seq<(K, Seq<char>)>,
) -> Seq<(Seq<char>, Seq<char>)> {
    seq![(token_param(), token)] + named(params)
}

/// The request that sends `service` with `token` as its access token. The
/// pairs go in the query string whatever the method.
pub fn prepare<K: QueryName>(token: &String, service: Service<K>) -> (r: Request)
    ensures
        r.method == service.method,
        r.url == service.url,
        query_view(r.query@) == query_of(token@, service.spec_params()),
{
    let ghost params = service.spec_params();
    let mut query: Vec<(String, String)> = Vec::new();
    let name = "access_token".to_owned();
    proof {
        reveal_strlit("access_token");
        assert(name@ =~= token_param());
    }
    query.push((name, token.clone()));
    proof {
        assert(query_view(query@) =~= seq![(token_param(), token@)]);
    }
    match service.params {
        Some(pairs) => {
            let ghost input = pairs@;
            for item in it: pairs.into_iter()
                invariant
                    it.seq() == input,
                    params == pairs_view(input),
                    query_view(query@) == seq![(token_param(), token@)] + named(
                        pairs_view(input.take(it.index() as int)),
                    ),
            {
                let ghost i = it.index() as int;
                let ghost before = query@;
                let (k, v) = item;
                let n = k.name();
                query.push((n, v));
                proof {
                    assert(input.take(i + 1) =~= input.take(i).push(input[i]));
                    assert(pairs_view(input.take(i + 1)) =~= pairs_view(
                        input.take(i),
                    ).push((k, v@)));
                    assert(query_view(query@) =~= query_view(before).push((n@, v@)));
                    assert(named(pairs_view(input.take(i + 1))) =~= named(
                        pairs_view(input.take(i)),
                    ).push((n@, v@)));
                    assert(query_view(query@) =~= seq![(token_param(), token@)] + named(
                        pairs_view(input.take(i + 1)),
                    ));
                }
            }
            proof {
                assert(input.take(input.len() as int) =~= input);
            }
        },
        None => {
            proof {
                assert(named(params) =~= Seq::<(Seq<char>, Seq<char>)>::empty());
                assert(query_view(query@) =~= query_of(token@, params));
            }
        },
    }
    Request { method: service.method, url: service.url, query }
}

/// A client that makes blocking requests with one access token.
#[derive(Debug, Clone)]
pub struct Client {
    pub token: String,
}

impl Client {
    /// A client that sends `access_token` with every request.
    pub fn set_token<T: IntoText>(access_token: T) -> (r: Client)
        ensures
            r.token@ == access_token.spec_text(),
    {
        Client { token: access_token.into_text() }
    }

    /// The request that sends `service` with this client's token.
    pub fn request<K: QueryName>(&self, service: Service<K>) -> (r: Request)
        ensures
            r.method == service.method,
            r.url == service.url,
            query_view(r.query@) == query_of(self.token@, service.spec_params()),
    {
        prepare(&self.token, service)
    }
}

} // verus!
