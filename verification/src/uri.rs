//! Request-URL construction: an endpoint name plus a set of query parameters,
//! rendered as `http://api.openweathermap.org/data/2.5/<endpoint>[?<query>]`.

use crate::encoding::{decode_query, enc_query, urlencode_component};
use vstd::prelude::*;

verus! {

/// Mathematical value of a `UriBuilder`: the endpoint path segment and the
/// query parameters in insertion order.
pub struct UriModel {
    pub endpoint: Seq<char>,
    pub params: Seq<(Seq<char>, Seq<char>)>,
}

impl UriModel {
    /// Whether some parameter uses the key.
    pub open spec fn has_key(self, k: Seq<char>) -> bool {
        exists|i: int| 0 <= i < self.params.len() && (#[trigger] self.params[i]).0 == k
    }

    /// Insert-or-overwrite: an existing key keeps its position and takes the
    /// new value; a new key is appended. The last write for a key wins.
    pub open spec fn upsert(self, k: Seq<char>, v: Seq<char>) -> UriModel {
        UriModel {
            endpoint: self.endpoint,
            params: if self.has_key(k) {
                self.params.map_values(
                    |p: (Seq<char>, Seq<char>)|
                        if p.0 == k {
                            (k, v)
                        } else {
                            p
                        },
                )
            } else {
                self.params.push((k, v))
            },
        }
    }

    /// The endpoint replaced, the parameters kept.
    pub open spec fn with_endpoint(self, e: Seq<char>) -> UriModel {
        UriModel { endpoint: e, params: self.params }
    }

    /// Parameter keys are pairwise distinct.
    pub open spec fn distinct_keys(self) -> bool {
        forall|i: int, j: int|
            0 <= i < j < self.params.len() ==> (#[trigger] self.params[i]).0 != (
            #[trigger] self.params[j]).0
    }
}

/// Inserting or overwriting a parameter keeps the keys distinct.
pub proof fn lemma_upsert_distinct(m: UriModel, k: Seq<char>, v: Seq<char>)
    requires
        m.distinct_keys(),
    ensures
        m.upsert(k, v).distinct_keys(),
{
    let r = m.upsert(k, v);
    if m.has_key(k) {
        assert forall|i: int, j: int| 0 <= i < j < r.params.len() implies (
        #[trigger] r.params[i]).0 != (#[trigger] r.params[j]).0 by {
            assert(m.params[i].0 != m.params[j].0);
        }
    }
}

/// Writing a key twice keeps only the second value: the parameters after two
/// writes are exactly the parameters after the last one.
pub proof fn lemma_upsert_overwrites(m: UriModel, k: Seq<char>, v1: Seq<char>, v2: Seq<char>)
    ensures
        m.upsert(k, v1).upsert(k, v2) == m.upsert(k, v2),
{
    let m1 = m.upsert(k, v1);
    if m.has_key(k) {
        assert(m1.has_key(k)) by {
            let i = choose|i: int|
                0 <= i < m.params.len() && (#[trigger] m.params[i]).0 == k;
            assert(m1.params[i].0 == k);
        }
        assert(m1.upsert(k, v2).params =~= m.upsert(k, v2).params);
        assert(m1.upsert(k, v2) =~~= m.upsert(k, v2));
    } else {
        assert(m1.params == m.params.push((k, v1)));
        assert(m1.params[m.params.len() as int].0 == k);
        assert(m1.has_key(k));
        assert forall|i: int|
            0 <= i < m1.params.len() implies (#[trigger] m1.upsert(k, v2).params[i]) == m.upsert(
            k,
            v2,
        ).params[i] by {
            if i < m.params.len() {
                assert(!(m.params[i].0 == k));
            }
        }
        assert(m1.upsert(k, v2).params =~= m.upsert(k, v2).params);
        assert(m1.upsert(k, v2) =~~= m.upsert(k, v2));
    }
}

/// The value a key holds among the parameters: that of its first entry.
pub open spec fn lookup_param(ps: Seq<(Seq<char>, Seq<char>)>, k: Seq<char>) -> Option<Seq<char>>
    decreases ps.len(),
{
    if ps.len() == 0 {
        None
    } else if ps[0].0 == k {
        Some(ps[0].1)
    } else {
        lookup_param(ps.skip(1), k)
    }
}

proof fn lemma_lookup_mapped(
    ps: Seq<(Seq<char>, Seq<char>)>,
    qs: Seq<(Seq<char>, Seq<char>)>,
    k: Seq<char>,
    v: Seq<char>,
)
    requires
        qs.len() == ps.len(),
        forall|i: int|
            0 <= i < ps.len() ==> #[trigger] qs[i] == (if ps[i].0 == k {
                (k, v)
            } else {
                ps[i]
            }),
    ensures
        lookup_param(qs, k) == (match lookup_param(ps, k) {
            Some(_) => Some(v),
            None => None::<Seq<char>>,
        }),
    decreases ps.len(),
{
    if ps.len() > 0 {
        assert(qs[0] == (if ps[0].0 == k {
            (k, v)
        } else {
            ps[0]
        }));
        assert forall|i: int|
            0 <= i < ps.skip(1).len() implies #[trigger] qs.skip(1)[i] == (if ps.skip(1)[i].0
                == k {
                (k, v)
            } else {
                ps.skip(1)[i]
            }) by {
            assert(qs.skip(1)[i] == qs[i + 1]);
            assert(ps.skip(1)[i] == ps[i + 1]);
        }
        lemma_lookup_mapped(ps.skip(1), qs.skip(1), k, v);
    }
}

proof fn lemma_lookup_mapped_other(
    ps: Seq<(Seq<char>, Seq<char>)>,
    qs: Seq<(Seq<char>, Seq<char>)>,
    k: Seq<char>,
    v: Seq<char>,
    k2: Seq<char>,
)
    requires
        k2 != k,
        qs.len() == ps.len(),
        forall|i: int|
            0 <= i < ps.len() ==> #[trigger] qs[i] == (if ps[i].0 == k {
                (k, v)
            } else {
                ps[i]
            }),
    ensures
        lookup_param(qs, k2) == lookup_param(ps, k2),
    decreases ps.len(),
{
    if ps.len() > 0 {
        assert(qs[0] == (if ps[0].0 == k {
            (k, v)
        } else {
            ps[0]
        }));
        assert forall|i: int|
            0 <= i < ps.skip(1).len() implies #[trigger] qs.skip(1)[i] == (if ps.skip(1)[i].0
                == k {
                (k, v)
            } else {
                ps.skip(1)[i]
            }) by {
            assert(qs.skip(1)[i] == qs[i + 1]);
            assert(ps.skip(1)[i] == ps[i + 1]);
        }
        lemma_lookup_mapped_other(ps.skip(1), qs.skip(1), k, v, k2);
    }
}

proof fn lemma_lookup_push(ps: Seq<(Seq<char>, Seq<char>)>, k: Seq<char>, v: Seq<char>, k2: Seq<char>)
    ensures
        lookup_param(ps.push((k, v)), k2) == (match lookup_param(ps, k2) {
            Some(x) => Some(x),
            None => if k2 == k {
                Some(v)
            } else {
                None
            },
        }),
    decreases ps.len(),
{
    let q = ps.push((k, v));
    if ps.len() == 0 {
        assert(q.len() == 1);
        assert(q[0] == (k, v));
        assert(q.skip(1) =~= Seq::<(Seq<char>, Seq<char>)>::empty());
        if q[0].0 == k2 {
            assert(lookup_param(q, k2) == Some(v));
            assert(k2 == k);
        } else {
            assert(lookup_param(q, k2) == lookup_param(q.skip(1), k2));
            assert(lookup_param(q.skip(1), k2) == None::<Seq<char>>);
            assert(k2 != k);
        }
        assert(lookup_param(ps, k2) == None::<Seq<char>>);
    } else {
        lemma_lookup_push(ps.skip(1), k, v, k2);
        assert(q.skip(1) =~= ps.skip(1).push((k, v)));
        assert(q[0] == ps[0]);
        assert(q.len() == ps.len() + 1);
        if ps[0].0 == k2 {
            assert(lookup_param(q, k2) == Some(ps[0].1));
            assert(lookup_param(ps, k2) == Some(ps[0].1));
        } else {
            assert(lookup_param(q, k2) == lookup_param(ps.skip(1).push((k, v)), k2));
            assert(lookup_param(ps, k2) == lookup_param(ps.skip(1), k2));
        }
    }
}

proof fn lemma_has_key_lookup(m: UriModel, k: Seq<char>)
    ensures
        m.has_key(k) <==> lookup_param(m.params, k) is Some,
    decreases m.params.len(),
{
    let ps = m.params;
    if ps.len() > 0 && ps[0].0 != k {
        let m2 = UriModel { endpoint: m.endpoint, params: ps.skip(1) };
        lemma_has_key_lookup(m2, k);
        if m.has_key(k) {
            let i = choose|i: int| 0 <= i < ps.len() && (#[trigger] ps[i]).0 == k;
            assert(ps.skip(1)[i - 1].0 == k);
            assert(m2.has_key(k));
        }
        if m2.has_key(k) {
            let i = choose|i: int|
                0 <= i < ps.skip(1).len() && (#[trigger] ps.skip(1)[i]).0 == k;
            assert(ps[i + 1].0 == k);
        }
    }
}

/// After a write, the key holds exactly the written value.
pub proof fn lemma_upsert_value(m: UriModel, k: Seq<char>, v: Seq<char>)
    ensures
        lookup_param(m.upsert(k, v).params, k) == Some(v),
{
    lemma_has_key_lookup(m, k);
    if m.has_key(k) {
        lemma_lookup_mapped(m.params, m.upsert(k, v).params, k, v);
    } else {
        lemma_lookup_push(m.params, k, v, k);
    }
}

/// A write leaves every other key's value unchanged.
pub proof fn lemma_upsert_preserves_others(m: UriModel, k: Seq<char>, v: Seq<char>, k2: Seq<char>)
    requires
        k2 != k,
    ensures
        lookup_param(m.upsert(k, v).params, k2) == lookup_param(m.params, k2),
{
    if m.has_key(k) {
        lemma_lookup_mapped_other(m.params, m.upsert(k, v).params, k, v, k2);
    } else {
        lemma_lookup_push(m.params, k, v, k2);
    }
}

/// The empty builder model: no endpoint, no parameters.
pub open spec fn empty_uri() -> UriModel {
    UriModel { endpoint: Seq::empty(), params: Seq::empty() }
}

/// The fixed scheme, host and API version every request URL starts with.
pub open spec fn base_prefix() -> Seq<char> {
    "http://api.openweathermap.org/data/2.5/"@
}

/// The URL a builder renders: the base prefix, the endpoint, and, when any
/// parameter is set, `?` and the form-urlencoded parameters in insertion
/// order.
pub open spec fn spec_url(m: UriModel) -> Seq<char> {
    if m.params.len() == 0 {
        base_prefix() + m.endpoint
    } else {
        base_prefix() + m.endpoint + seq!['?'] + enc_query(m.params)
    }
}

/// Query-string determinism of semantics: a built URL splits into the fixed
/// prefix, the endpoint and the encoded query, and decoding that query
/// recovers exactly the parameter pairs the builder held — whatever their
/// byte-level escaping.
pub proof fn lemma_url_round_trip(m: UriModel)
    requires
        m.params.len() > 0,
    ensures
        spec_url(m) == base_prefix() + m.endpoint + seq!['?'] + enc_query(m.params),
        decode_query(enc_query(m.params)) == m.params,
{
    crate::encoding::lemma_query_round_trip(m.params);
}

/// Generic URI builder that accumulates an endpoint and query parameters.
pub struct UriBuilder {
    endpoint: String,
    params: Vec<(String, String)>,
}

impl View for UriBuilder {
    type V = UriModel;

    closed spec fn view(&self) -> UriModel {
        UriModel {
            endpoint: self.endpoint@,
            params: self.params@.map_values(|p: (String, String)| (p.0@, p.1@)),
        }
    }
}

/// Implemented by every query builder in the crate: access to the wrapped
/// `UriBuilder`'s parameters.
pub trait HasBuilder: Sized {
    /// Model of the wrapped builder.
    spec fn builder_model(&self) -> UriModel;

    /// Whether the wrapped builder's keys are distinct.
    open spec fn builder_wf(&self) -> bool {
        self.builder_model().distinct_keys()
    }

    /// Insert or overwrite one query parameter of the wrapped builder.
    fn builder_param(&mut self, key: &str, value: &str)
        requires
            old(self).builder_wf(),
        ensures
            final(self).builder_model() == old(self).builder_model().upsert(key@, value@),
            final(self).builder_wf(),
    ;
}

impl UriBuilder {
    /// Whether the builder's parameter keys are distinct.
    pub open spec fn wf(&self) -> bool {
        self@.distinct_keys()
    }

    /// A fresh builder: no endpoint, no parameters.
    pub fn new() -> (r: UriBuilder)
        ensures
            r@ == empty_uri(),
            r.wf(),
    {
        let r = UriBuilder { endpoint: String::new(), params: Vec::new() };
        proof {
            assert(r@.params =~= empty_uri().params);
        }
        r
    }

    /// Set the endpoint method; calling again overwrites.
    pub fn method(&mut self, method: &str)
        ensures
            final(self)@ == old(self)@.with_endpoint(method@),
    {
        self.endpoint = method.to_owned();
        proof {
            assert(self@ =~~= old(self)@.with_endpoint(self.endpoint@));
        }
    }

    /// Insert or overwrite one query parameter; the last write for a key
    /// wins.
    pub fn param(&mut self, key: &str, value: &str)
        requires
            old(self).wf(),
        ensures
            final(self)@ == old(self)@.upsert(key@, value@),
            final(self).wf(),
    {
        proof {
            lemma_upsert_distinct(old(self)@, key@, value@);
        }
        let k = key.to_owned();
        let v = value.to_owned();
        let n = self.params.len();
        let mut i: usize = 0;
        while i < n
            invariant
                0 <= i <= n,
                n == self.params.len(),
                *self == *old(self),
                k@ == key@,
                v@ == value@,
                old(self).wf(),
                forall|j: int| 0 <= j < i ==> (#[trigger] self@.params[j]).0 != key@,
            decreases n - i,
        {
            let hit = self.params[i].0 == k;
            proof {
                assert(self@.params[i as int].0 == self.params@[i as int].0@);
            }
            if hit {
                self.params.set(i, (k, v));
                proof {
                    assert(old(self)@.has_key(key@));
                    assert(self@.params =~= old(self)@.upsert(key@, value@).params);
                    assert(self@ =~~= old(self)@.upsert(key@, value@));
                }
                return ;
            }
            i += 1;
        }
        self.params.push((k, v));
        proof {
            assert(!old(self)@.has_key(key@));
            assert(self@.params =~= old(self)@.upsert(key@, value@).params);
            assert(self@ =~~= old(self)@.upsert(key@, value@));
        }
    }

    /// Consume the builder and render the request URL.
    pub fn build(self) -> (r: String)
        ensures
            r@ == spec_url(self@),
    {
        let mut url = "http://api.openweathermap.org/data/2.5/".to_owned();
        url.append(self.endpoint.as_str());
        let n = self.params.len();
        if n > 0 {
            proof {
                reveal_strlit("?");
                reveal_strlit("&");
                reveal_strlit("=");
            }
            url.append("?");
            proof {
                assert(url@ =~= base_prefix() + self@.endpoint + seq!['?']);
                assert(self@.params.take(0) =~= Seq::<(Seq<char>, Seq<char>)>::empty());
            }
            let mut i: usize = 0;
            while i < n
                invariant
                    0 <= i <= n,
                    n == self.params.len(),
                    url@ == base_prefix() + self@.endpoint + seq!['?'] + enc_query(
                        self@.params.take(i as int),
                    ),
                    "&"@ == seq!['&'],
                    "="@ == seq!['='],
                decreases n - i,
            {
                if i > 0 {
                    url.append("&");
                }
                let ek = urlencode_component(self.params[i].0.as_str());
                url.append(ek.as_str());
                url.append("=");
                let ev = urlencode_component(self.params[i].1.as_str());
                url.append(ev.as_str());
                proof {
                    let ps = self@.params;
                    let done = ps.take(i as int);
                    let now = ps.take(i + 1 as int);
                    assert(ps[i as int] == (self.params@[i as int].0@, self.params@[i as int].1@));
                    assert(now.drop_last() =~= done);
                    assert(now.last() == ps[i as int]);
                    if i == 0 {
                        assert(now.len() == 1);
                        assert(enc_query(now) == crate::encoding::enc_pair(ps[0]));
                        assert(url@ =~= base_prefix() + self@.endpoint + seq!['?'] + enc_query(
                            now,
                        ));
                    } else {
                        assert(enc_query(now) == enc_query(done) + seq!['&']
                            + crate::encoding::enc_pair(ps[i as int]));
                        assert(url@ =~= base_prefix() + self@.endpoint + seq!['?'] + enc_query(
                            now,
                        ));
                    }
                }
                i += 1;
            }
            proof {
                assert(self@.params.take(n as int) =~= self@.params);
            }
        }
        url
    }
}

} // verus!
