//! Endpoints and the addresses they resolve to.

use vstd::prelude::*;

verus! {

/// The HTTP method of a request.
#[derive(Clone, Copy, Debug, PartialEq, Eq, Structural)]
pub enum Method {
    Get,
    Post,
}

/// One query parameter: its key and its value, both unescaped.
pub type Pair = (Seq<char>, Seq<char>);

/// An ordered list of query parameters.
#[derive(Debug, PartialEq)]
pub struct Query {
    pub pairs: Vec<(String, String)>,
}

impl View for Query {
    type V = Seq<Pair>;

    open spec fn view(&self) -> Seq<Pair> {
        Seq::new(self.pairs@.len(), |i: int| (self.pairs@[i].0@, self.pairs@[i].1@))
    }
}

impl Query {
    /// The empty list.
    pub fn new() -> (q: Query)
        ensures
            q@ == Seq::<Pair>::empty(),
    {
        let q = Query { pairs: Vec::new() };
        assert(q@ =~= Seq::<Pair>::empty());
        q
    }

    /// Adds `key=value` at the end.
    pub fn append(&mut self, key: &str, value: &str)
        ensures
            final(self)@ == old(self)@.push((key@, value@)),
    {
        self.pairs.push((String::from_str(key), String::from_str(value)));
        assert(self@ =~= old(self)@.push((key@, value@)));
    }

    /// Whether the list has no parameter.
    pub fn is_empty(&self) -> (r: bool)
        ensures
            r == (self@.len() == 0),
    {
        self.pairs.len() == 0
    }
}

/// Where a request goes: the method, the path below the base address, and
/// the query parameters in the order in which they are written.
#[derive(Debug, PartialEq)]
pub struct Endpoint {
    pub method: Method,
    pub path: String,
    pub query: Query,
}

/// The value of an `Endpoint`.
pub struct EndpointView {
    pub method: Method,
    pub path: Seq<char>,
    pub query: Seq<Pair>,
}

impl View for Endpoint {
    type V = EndpointView;

    open spec fn view(&self) -> EndpointView {
        EndpointView { method: self.method, path: self.path@, query: self.query@ }
    }
}

/// The address that results from resolving `path` against the address
/// `base`; `None` where either is no valid address.
pub uninterp spec fn joined_url(base: Seq<char>, path: Seq<char>) -> Option<Seq<char>>;

/// The address `url` with its query replaced by `query` in form-urlencoded
/// syntax; `None` where `url` is no valid address.
pub uninterp spec fn url_with_query(url: Seq<char>, query: Seq<Pair>) -> Option<Seq<char>>;

/// Calls `url::Url::join` on the `Url` parsed from `base`. The resulting
/// address is a function of the two texts alone, recorded under the name
/// `joined_url`; there is none exactly where parsing or joining returns an
/// error.
#[verifier::external_body]
fn join_url(base: &str, path: &str) -> (r: Option<String>)
    ensures
        match r {
            Some(url) => joined_url(base@, path@) == Some(url@),
            None => joined_url(base@, path@).is_none(),
        },
{
    url::Url::parse(base).ok()?.join(path).ok().map(|joined| joined.into())
}

/// Calls `url::Url::query_pairs_mut` on the `Url` parsed from `address`,
/// clears the query and appends the pairs in order with `extend_pairs`. The
/// resulting address is a function of the address and the pairs alone,
/// recorded under the name `url_with_query`; there is none exactly where
/// parsing returns an error.
#[verifier::external_body]
fn put_query(address: &str, query: &Query) -> (r: Option<String>)
    ensures
        match r {
            Some(url) => url_with_query(address@, query@) == Some(url@),
            None => url_with_query(address@, query@).is_none(),
        },
{
    let mut parsed = url::Url::parse(address).ok()?;
    parsed.query_pairs_mut().clear().extend_pairs(query.pairs.iter());
    Some(parsed.into())
}

/// The address of an endpoint below `base`: the path resolved against the
/// base, and the query written behind it where there is one. An endpoint
/// without parameters gets no query at all.
pub open spec fn located(base: Seq<char>, endpoint: EndpointView) -> Option<Seq<char>> {
    match joined_url(base, endpoint.path) {
        Some(url) => if endpoint.query.len() == 0 {
            Some(url)
        } else {
            url_with_query(url, endpoint.query)
        },
        None => None,
    }
}

impl Endpoint {
    /// Resolves the endpoint against `base`.
    pub fn locate(&self, base: &str) -> (r: Option<String>)
        ensures
            match r {
                Some(url) => located(base@, self@) == Some(url@),
                None => located(base@, self@).is_none(),
            },
    {
        let joined = join_url(base, self.path.as_str())?;
        if self.query.is_empty() {
            Some(joined)
        } else {
            put_query(joined.as_str(), &self.query)
        }
    }
}

} // verus!
