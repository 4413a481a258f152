//! Service descriptors: one request template per endpoint, and the builder
//! that adds query pairs to it.
use vstd::prelude::*;

use crate::key::{key_named, lemma_key_named_name, IntoText, KeyLike, ParamKey};

verus! {

/// The HTTP method of a request.
#[derive(Clone, Copy, Debug, PartialEq, Eq, Structural)]
pub enum HttpMethod {
    GET,
    POST,
    PATCH,
    DELETE,
}

/// A request template: method, URL, and the query pairs keyed by `P`.
#[derive(Debug)]
pub struct Service<P> {
    pub method: HttpMethod,
    pub url: String,
    pub params: Option<Vec<(P, String)>>,
}

/// The pairs of `v` with each value seen as text.
pub open spec fn pairs_view<P>(v: Seq<(P, String)>) -> Seq<(P, Seq<char>)> {
    v.map_values(|x: (P, String)| (x.0, x.1@))
}

/// The pairs that the caller asked for, each key and value converted.
pub open spec fn requested<P: ParamKey, K: KeyLike<P>, V: IntoText>(ps: Seq<(K, V)>) -> Seq<(P, Seq<char>)> {
    ps.map_values(|x: (K, V)| (x.0.spec_key(), x.1.spec_text()))
}

/// The pairs of `ps` whose key is legal, in their order.
pub open spec fn kept<P: ParamKey>(ps: Seq<(P, Seq<char>)>) -> Seq<(P, Seq<char>)> {
    ps.filter(|x: (P, Seq<char>)| x.0.spec_is_valid())
}

proof fn lemma_kept_push<P: ParamKey>(ps: Seq<(P, Seq<char>)>, x: (P, Seq<char>))
    ensures
        kept(ps.push(x)) == if x.0.spec_is_valid() { kept(ps).push(x) } else { kept(ps) },
{
    reveal(Seq::filter);
    assert(ps.push(x).drop_last() =~= ps);
}

/// Every pair that survives validation has a legal key.
pub proof fn lemma_kept_valid<P: ParamKey>(ps: Seq<(P, Seq<char>)>)
    ensures
        forall|i: int| 0 <= i < kept(ps).len() ==> (#[trigger] kept(ps)[i]).0.spec_is_valid(),
{
    assert forall|i: int| 0 <= i < kept(ps).len() implies (#[trigger] kept(ps)[i]).0.spec_is_valid() by {
        ps.lemma_filter_pred(|x: (P, Seq<char>)| x.0.spec_is_valid(), i);
    }
}

/// Whether some legal key of `P` is named `s`.
pub open spec fn is_key_name<P: ParamKey>(s: Seq<char>) -> bool {
    exists|k: P| k.spec_is_valid() && k.spec_name() == s
}

/// The pairs of `ps` whose key text names a legal key of `P`.
pub open spec fn known_pairs<'a, P: ParamKey, V>(ps: Seq<(&'a str, V)>) -> Seq<(&'a str, V)> {
    ps.filter(|x: (&'a str, V)| is_key_name::<P>(x.0@))
}

/// The pairs of `ps` whose key text names no legal key of `P`.
pub open spec fn unknown_pairs<'a, P: ParamKey, V>(ps: Seq<(&'a str, V)>) -> Seq<(&'a str, V)> {
    ps.filter(|x: (&'a str, V)| !is_key_name::<P>(x.0@))
}

/// A key named by its text stands for the same key as the key itself, so
/// both ways of writing the pairs give the same query pairs.
pub proof fn lemma_names_as_keys<'a, P: ParamKey, V: IntoText>(
    by_name: Seq<(&'a str, V)>,
    by_key: Seq<(P, V)>,
)
    requires
        by_name.len() == by_key.len(),
        forall|i: int|
            0 <= i < by_key.len() ==> (#[trigger] by_key[i]).0.spec_is_valid() && by_name[i].0@
                == by_key[i].0.spec_name() && by_name[i].1 == by_key[i].1,
    ensures
        requested::<P, &'a str, V>(by_name) == requested::<P, P, V>(by_key),
        kept(requested::<P, &'a str, V>(by_name)) == kept(requested::<P, P, V>(by_key)),
{
    assert forall|i: int| 0 <= i < by_key.len() implies requested::<P, &'a str, V>(by_name)[i]
        == requested::<P, P, V>(by_key)[i] by {
        lemma_key_named_name::<P>(by_key[i].0);
    }
    assert(requested::<P, &'a str, V>(by_name) =~= requested::<P, P, V>(by_key));
}

/// Pairs whose key text names no legal key are dropped, and no others: what
/// is kept is exactly the pairs with a known name, so the count falls by the
/// number of unknown names.
pub proof fn lemma_unknown_names_dropped<'a, P: ParamKey, V: IntoText>(ps: Seq<(&'a str, V)>)
    ensures
        kept(requested::<P, &'a str, V>(ps)) == requested::<P, &'a str, V>(known_pairs::<P, V>(ps)),
        kept(requested::<P, &'a str, V>(ps)).len() == ps.len() - unknown_pairs::<P, V>(ps).len(),
    decreases ps.len(),
{
    reveal(Seq::filter);
    if ps.len() == 0 {
        assert(requested::<P, &'a str, V>(ps) =~= Seq::empty());
        assert(known_pairs::<P, V>(ps) =~= Seq::empty());
        assert(requested::<P, &'a str, V>(known_pairs::<P, V>(ps)) =~= Seq::empty());
    } else {
        let init = ps.drop_last();
        let x = ps.last();
        lemma_unknown_names_dropped::<P, V>(init);
        P::lemma_key_set();
        let key: P = key_named::<P>(x.0@);
        let item = (key, x.1.spec_text());
        assert(requested::<P, &'a str, V>(ps) =~= requested::<P, &'a str, V>(init).push(item));
        lemma_kept_push(requested::<P, &'a str, V>(init), item);
        if is_key_name::<P>(x.0@) {
            assert(key.spec_is_valid());
            assert(known_pairs::<P, V>(ps) == known_pairs::<P, V>(init).push(x));
            assert(requested::<P, &'a str, V>(known_pairs::<P, V>(init).push(x))
                =~= requested::<P, &'a str, V>(known_pairs::<P, V>(init)).push(item));
            assert(unknown_pairs::<P, V>(ps) == unknown_pairs::<P, V>(init));
        } else {
            assert(!key.spec_is_valid());
            assert(known_pairs::<P, V>(ps) == known_pairs::<P, V>(init));
            assert(unknown_pairs::<P, V>(ps) == unknown_pairs::<P, V>(init).push(x));
        }
    }
}

/// Adding pairs twice puts the pairs of the second call before those of the
/// first, and both before the pairs the template had.
pub proof fn lemma_params_twice<P: ParamKey, K1: KeyLike<P>, V1: IntoText, K2: KeyLike<P>, V2: IntoText>(
    start: Service<P>,
    once: Service<P>,
    twice: Service<P>,
    first: Seq<(K1, V1)>,
    second: Seq<(K2, V2)>,
)
    requires
        once.spec_params() == kept(requested::<P, K1, V1>(first)) + start.spec_params(),
        twice.spec_params() == kept(requested::<P, K2, V2>(second)) + once.spec_params(),
    ensures
        twice.spec_params() == kept(requested::<P, K2, V2>(second)) + kept(
            requested::<P, K1, V1>(first),
        ) + start.spec_params(),
{
    assert(twice.spec_params() =~= kept(requested::<P, K2, V2>(second)) + kept(
        requested::<P, K1, V1>(first),
    ) + start.spec_params());
}

impl<P> Service<P> {
    /// The query pairs, empty when there are none.
    pub open spec fn spec_params(&self) -> Seq<(P, Seq<char>)> {
        match self.params {
            Some(v) => pairs_view(v@),
            None => Seq::empty(),
        }
    }
}

impl<P: ParamKey> Service<P> {
    /// Adds query pairs: the given pairs whose key is legal come first, in
    /// their order, then the pairs already present.
    pub fn params<K: KeyLike<P>, V: IntoText>(self, params: Vec<(K, V)>) -> (r: Service<P>)
        ensures
            r.method == self.method,
            r.url == self.url,
            r.params is Some,
            r.spec_params() == kept(requested::<P, K, V>(params@)) + self.spec_params(),
    {
        let ghost input = params@;
        let mut fresh: Vec<(P, String)> = Vec::new();
        for item in it: params.into_iter()
            invariant
                it.seq() == input,
                pairs_view(fresh@) == kept(requested::<P, K, V>(input.take(it.index() as int))),
        {
            let ghost done = input.take(it.index() as int);
            let (k, v) = item;
            let key = k.into_key();
            let value = v.into_text();
            proof {
                assert(input.take(it.index() as int + 1) =~= done.push(input[it.index() as int]));
                assert(requested::<P, K, V>(done.push(input[it.index() as int]))
                    =~= requested::<P, K, V>(done).push((key, value@)));
                lemma_kept_push(requested::<P, K, V>(done), (key, value@));
            }
            if key.is_valid() {
                fresh.push((key, value));
                proof {
                    assert(pairs_view(fresh@) =~= kept(requested::<P, K, V>(done)).push((key, value@)));
                }
            }
        }
        proof {
            assert(input.take(input.len() as int) =~= input);
        }
        let ghost first = fresh@;
        match self.params {
            Some(mut prior) => {
                let ghost before = prior@;
                fresh.append(&mut prior);
                proof {
                    assert(pairs_view(fresh@) =~= pairs_view(first) + pairs_view(before));
                }
            },
            None => {
                proof {
                    assert(pairs_view(fresh@) =~= pairs_view(first) + Seq::empty());
                }
            },
        }
        Service { method: self.method, url: self.url, params: Some(fresh) }
    }
}

} // verus!
