//! The request pipeline: the authentication interceptor that gates the
//! guarded scope behind a shared-secret check, and the router that maps a
//! request to its handler. Each stage either forwards a request unchanged or
//! short-circuits it with a terminal response; the router stops at the first
//! rejection.

use vstd::prelude::*;
use crate::store::CredentialStore;
use crate::strutil::lower_seq;

verus! {

/// The request method, as far as the router distinguishes it.
#[derive(Clone, Copy, Debug, PartialEq, Eq, Structural)]
pub enum Method {
    Get,
    Other,
}

/// An inbound request as the pipeline sees it: a method, a target path, and a
/// header mapping with case-insensitive name lookup. No stage mutates it.
pub struct Request {
    pub method: Method,
    pub path: String,
    pub headers: Vec<(String, String)>,
}

/// The mathematical model of a request.
pub struct RequestModel {
    pub method: Method,
    pub path: Seq<char>,
    pub headers: Seq<(Seq<char>, Seq<char>)>,
}

impl View for Request {
    type V = RequestModel;

    open spec fn view(&self) -> RequestModel {
        RequestModel {
            method: self.method,
            path: self.path@,
            headers: self.headers@.map_values(|p: (String, String)| (p.0@, p.1@)),
        }
    }
}

/// The result of one pipeline stage: continue to the next stage or handler,
/// or short-circuit with a terminal status and body.
pub enum PipelineOutcome {
    Forward,
    Reject(u16, String),
}

/// The name of the header that carries the shared secret.
pub open spec fn api_key_header() -> Seq<char> {
    "x-api-key"@
}

/// The exact body of a rejection, a JSON object with a single error field.
pub open spec fn unauthorized_body() -> Seq<char> {
    "{\"error\":\"Unauthorized: Invalid API Key\"}"@
}

/// The value of the first header whose name equals `name` up to ASCII case,
/// or `None` when no header matches.
pub open spec fn header_lookup(headers: Seq<(Seq<char>, Seq<char>)>, name: Seq<char>) -> Option<
    Seq<char>,
>
    decreases headers.len(),
{
    if headers.len() == 0 {
        None
    } else if lower_seq(headers[0].0) == lower_seq(name) {
        Some(headers[0].1)
    } else {
        header_lookup(headers.drop_first(), name)
    }
}

/// A request is admitted when it carries an `x-api-key` header whose value is
/// one of the stored secrets.
pub open spec fn admitted(store: Set<Seq<char>>, headers: Seq<(Seq<char>, Seq<char>)>) -> bool {
    let k = header_lookup(headers, api_key_header());
    k is Some && store.contains(k.unwrap())
}

/// The value of the request's `x-api-key` header, found by case-insensitive
/// name comparison; `None` when the header is absent.
pub fn api_key_of<'a>(req: &'a Request) -> (r: Option<&'a String>)
    ensures
        match r {
            Some(v) => header_lookup(req@.headers, api_key_header()) == Some(v@),
            None => header_lookup(req@.headers, api_key_header()) is None,
        },
{
    let n = req.headers.len();
    let mut i: usize = 0;
    proof {
        assert(req@.headers.skip(0) =~= req@.headers);
    }
    while i < n
        invariant
            n == req.headers@.len(),
            i <= n,
            req@.headers.len() == n,
            forall|j: int| 0 <= j < n ==> req@.headers[j] == (req.headers@[j].0@, req.headers@[j].1@),
            header_lookup(req@.headers, api_key_header()) == header_lookup(
                req@.headers.skip(i as int),
                api_key_header(),
            ),
        decreases n - i,
    {
        proof {
            assert(req@.headers.skip(i as int)[0] == req@.headers[i as int]);
        }
        if crate::strutil::str_eq_ci(req.headers[i].0.as_str(), "x-api-key") {
            return Some(&req.headers[i].1);
        }
        proof {
            assert(req@.headers.skip(i as int).drop_first() =~= req@.headers.skip(i as int + 1));
        }
        i = i + 1;
    }
    proof {
        assert(req@.headers.skip(n as int) =~= Seq::<(Seq<char>, Seq<char>)>::empty());
    }
    None
}

/// The authentication interceptor. It reads only the immutable store and the
/// request's own headers, never mutates the request, and either forwards it
/// or short-circuits with the exact unauthorized response: status 401 and the
/// single-field JSON error body, produced exactly when the key is absent or
/// not a stored secret.
pub fn auth_gate(store: &CredentialStore, req: &Request) -> (o: PipelineOutcome)
    ensures
        match o {
            PipelineOutcome::Forward => admitted(store@, req@.headers),
            PipelineOutcome::Reject(status, body) => {
                &&& status == 401
                &&& body@ == unauthorized_body()
                &&& !admitted(store@, req@.headers)
            },
        },
{
    let key = api_key_of(req);
    match key {
        Some(k) => {
            if store.contains(k.as_str()) {
                return PipelineOutcome::Forward;
            }
        },
        None => {},
    }
    PipelineOutcome::Reject(401, String::from_str("{\"error\":\"Unauthorized: Invalid API Key\"}"))
}

/// The handler a request is dispatched to.
#[derive(Clone, Copy, Debug, PartialEq, Eq, Structural)]
pub enum RouteTarget {
    Health,
    UserInfo,
    WsUpgrade,
    NotFound,
}

/// The routing table: the unguarded health probe, the guarded profile
/// endpoint, the unguarded channel upgrade; everything else is unmatched.
pub open spec fn route_spec(m: Method, path: Seq<char>) -> RouteTarget {
    if m == Method::Get && path == "/health"@ {
        RouteTarget::Health
    } else if m == Method::Get && path == "/api/user-info"@ {
        RouteTarget::UserInfo
    } else if m == Method::Get && path == "/ws/"@ {
        RouteTarget::WsUpgrade
    } else {
        RouteTarget::NotFound
    }
}

/// Map a method and path to a handler by exact match; `NotFound` is the
/// default outcome of unmatched dispatch.
pub fn route(m: Method, path: &str) -> (t: RouteTarget)
    ensures
        t == route_spec(m, path@),
{
    match m {
        Method::Get => {
            if crate::strutil::str_eq(path, "/health") {
                RouteTarget::Health
            } else if crate::strutil::str_eq(path, "/api/user-info") {
                RouteTarget::UserInfo
            } else if crate::strutil::str_eq(path, "/ws/") {
                RouteTarget::WsUpgrade
            } else {
                RouteTarget::NotFound
            }
        },
        Method::Other => RouteTarget::NotFound,
    }
}

/// The outcome of full dispatch: hand the request to a handler, or stop with
/// a terminal status and body.
pub enum Dispatch {
    Proceed(RouteTarget),
    Rejected(u16, String),
}

/// The mathematical model of a dispatch outcome.
pub enum Decision {
    Proceed(RouteTarget),
    Reject(u16, Seq<char>),
}

impl View for Dispatch {
    type V = Decision;

    open spec fn view(&self) -> Decision {
        match self {
            Dispatch::Proceed(t) => Decision::Proceed(*t),
            Dispatch::Rejected(status, body) => Decision::Reject(*status, body@),
        }
    }
}

/// The outcome of dispatching one request: only the guarded route consults
/// the authentication stage, and its rejection is terminal; every other
/// route proceeds to its handler.
pub open spec fn dispatch_spec(store: Set<Seq<char>>, r: RequestModel) -> Decision {
    let t = route_spec(r.method, r.path);
    if t == RouteTarget::UserInfo && !admitted(store, r.headers) {
        Decision::Reject(401, unauthorized_body())
    } else {
        Decision::Proceed(t)
    }
}

/// Dispatch one request: route it, and apply the authentication gate to the
/// guarded scope. A pure, synchronous lookup over immutable shared state and
/// the request's own fields.
pub fn dispatch(store: &CredentialStore, req: &Request) -> (d: Dispatch)
    ensures
        d@ == dispatch_spec(store@, req@),
{
    let target = route(req.method, req.path.as_str());
    match target {
        RouteTarget::UserInfo => {
            match auth_gate(store, req) {
                PipelineOutcome::Forward => Dispatch::Proceed(RouteTarget::UserInfo),
                PipelineOutcome::Reject(status, body) => Dispatch::Rejected(status, body),
            }
        },
        _ => Dispatch::Proceed(target),
    }
}

/// Every stored secret admits: a request to the guarded endpoint whose
/// `x-api-key` header carries a secret of the store proceeds to the handler.
pub proof fn lemma_valid_key_admitted(store: Set<Seq<char>>, r: RequestModel)
    requires
        route_spec(r.method, r.path) == RouteTarget::UserInfo,
        header_lookup(r.headers, api_key_header()) is Some,
        store.contains(header_lookup(r.headers, api_key_header()).unwrap()),
    ensures
        dispatch_spec(store, r) == Decision::Proceed(RouteTarget::UserInfo),
{
}

/// Every other candidate is rejected: a request to the guarded endpoint whose
/// key is absent or not a stored secret is stopped with status 401 and the
/// exact error body.
pub proof fn lemma_invalid_key_rejected(store: Set<Seq<char>>, r: RequestModel)
    requires
        route_spec(r.method, r.path) == RouteTarget::UserInfo,
        !admitted(store, r.headers),
    ensures
        dispatch_spec(store, r) == Decision::Reject(401, unauthorized_body()),
{
}

/// The health probe and the channel upgrade are unguarded, and unmatched
/// dispatch defaults to not-found: outside the guarded route, the outcome
/// never consults the store or the headers and is the route itself.
pub proof fn lemma_unguarded_routes_skip_the_gate(
    store1: Set<Seq<char>>,
    store2: Set<Seq<char>>,
    r: RequestModel,
)
    requires
        route_spec(r.method, r.path) != RouteTarget::UserInfo,
    ensures
        dispatch_spec(store1, r) == Decision::Proceed(route_spec(r.method, r.path)),
        dispatch_spec(store1, r) == dispatch_spec(store2, r),
{
}

/// No cross-request interference: dispatch is a pure function of the store
/// and the request's own route and key, so two requests that agree on those
/// receive the same outcome, however many others run concurrently and in
/// whatever order they are evaluated.
pub proof fn lemma_no_cross_request_interference(
    store: Set<Seq<char>>,
    a: RequestModel,
    b: RequestModel,
)
    requires
        a.method == b.method,
        a.path == b.path,
        header_lookup(a.headers, api_key_header()) == header_lookup(b.headers, api_key_header()),
    ensures
        dispatch_spec(store, a) == dispatch_spec(store, b),
{
}

} // verus!
