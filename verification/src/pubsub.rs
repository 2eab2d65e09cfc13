//! Notification server core: the route table, the request dispatch decision,
//! and the typed decode-and-invoke pipeline.
//!
//! The surrounding transport (TCP accept loop, TLS handshake, HTTP driver)
//! performs I/O only; every decision it acts on is made here.

use vstd::prelude::*;
use sep2_common::traits::SEType;

verus! {

/// The HTTP method of an inbound request, as far as dispatch cares.
#[derive(Clone, Copy, PartialEq, Eq, Structural, Debug)]
pub enum HttpMethod {
    Get,
    Head,
    Post,
    Put,
    Delete,
    Other,
}

/// A protocol-level response to an inbound notification request.
#[derive(Clone, PartialEq, Eq, Debug)]
pub enum SEPResponse {
    /// The request succeeded and created a resource; carries an optional
    /// location for it.  Handler-defined.
    Created(Option<String>),
    /// The request succeeded with nothing to return.  Handler-defined.
    NoContent,
    /// The request body failed to decode as the route's resource type.
    BadRequest(Option<String>),
    /// No route is registered for the request path.
    NotFound,
    /// The request used a method other than the one write method; carries
    /// the name of the method that is accepted.
    MethodNotAllowed(&'static str),
}

/// How a request body can fail to become a typed notification.
#[derive(Clone, PartialEq, Eq, Debug)]
pub struct DecodeError {
    /// The decoder's description of the failure, for the logging side channel.
    pub message: String,
}

/// One binding in the route table: a path and the handler slot it points to.
struct RouteEntry {
    path: String,
    id: usize,
}

/// The map a sequence of bindings denotes: later bindings shadow earlier
/// ones, so re-registering a path replaces its slot (last registration wins).
spec fn routes_map_of(entries: Seq<RouteEntry>) -> Map<Seq<char>, usize>
    decreases entries.len(),
{
    if entries.len() == 0 {
        Map::empty()
    } else {
        routes_map_of(entries.drop_last()).insert(entries.last().path@, entries.last().id)
    }
}

proof fn lemma_routes_map_no_match(entries: Seq<RouteEntry>, p: Seq<char>)
    requires
        forall|j: int| 0 <= j < entries.len() ==> entries[j].path@ != p,
    ensures
        !routes_map_of(entries).contains_key(p),
    decreases entries.len(),
{
    if entries.len() > 0 {
        assert(forall|j: int|
            0 <= j < entries.drop_last().len() ==> entries.drop_last()[j].path@ != p);
        lemma_routes_map_no_match(entries.drop_last(), p);
    }
}

proof fn lemma_routes_map_last_match(entries: Seq<RouteEntry>, p: Seq<char>, i: int)
    requires
        0 <= i < entries.len(),
        entries[i].path@ == p,
        forall|j: int| i < j < entries.len() ==> entries[j].path@ != p,
    ensures
        routes_map_of(entries).contains_key(p),
        routes_map_of(entries)[p] == entries[i].id,
    decreases entries.len(),
{
    if i < entries.len() - 1 {
        assert(forall|j: int|
            i < j < entries.drop_last().len() ==> entries.drop_last()[j].path@ != p);
        lemma_routes_map_last_match(entries.drop_last(), p, i);
    }
}

/// The route table: an exact-match map from path to handler slot, built
/// before the server starts accepting and read on every request.
pub struct Router {
    entries: Vec<RouteEntry>,
}

impl View for Router {
    type V = Map<Seq<char>, usize>;

    closed spec fn view(&self) -> Map<Seq<char>, usize> {
        routes_map_of(self.entries@)
    }
}

/// What the dispatcher decides for one request line: either a finished
/// response, or the handler slot whose callback must see the body.
#[derive(Clone, PartialEq, Eq, Debug)]
pub enum RouteDecision {
    /// Answer without consulting any handler.
    Respond(SEPResponse),
    /// Decode the body and invoke the handler in this slot.
    Invoke(usize),
}

/// Whether a decision is the finished "method not allowed" response naming
/// the one write method.
pub open spec fn names_write_method(r: RouteDecision) -> bool {
    r matches RouteDecision::Respond(m) && m matches SEPResponse::MethodNotAllowed(name)
        && name@ == "POST"@
}

impl Router {
    /// How many handler slots have been handed out so far; also the slot the
    /// next registration receives.
    pub closed spec fn slot_count(&self) -> nat {
        self.entries@.len()
    }

    /// An empty table.
    pub fn new() -> (r: Self)
        ensures
            r@ == Map::<Seq<char>, usize>::empty(),
            r.slot_count() == 0,
    {
        Router { entries: Vec::new() }
    }

    /// Bind `path` to a fresh handler slot and return that slot.  Registering
    /// a path that is already bound replaces the earlier binding: afterwards
    /// only the new slot is reachable through `path`.
    pub fn register(&mut self, path: String) -> (id: usize)
        requires
            old(self).slot_count() < usize::MAX,
        ensures
            final(self)@ == old(self)@.insert(path@, id),
            id == old(self).slot_count(),
            final(self).slot_count() == old(self).slot_count() + 1,
    {
        let id: usize = self.entries.len();
        self.entries.push(RouteEntry { path, id });
        proof {
            assert(self.entries@.drop_last() =~= old(self).entries@);
        }
        id
    }

    /// Exact-match lookup: the slot bound to `path`, if any.  Concurrent
    /// readers share the table immutably; nothing blocks them.
    pub fn resolve(&self, path: &str) -> (r: Option<usize>)
        ensures
            r matches Some(id) ==> self@.contains_key(path@) && self@[path@] == id,
            r is None ==> !self@.contains_key(path@),
    {
        let p: String = path.to_owned();
        let mut i: usize = self.entries.len();
        while i > 0
            invariant
                i <= self.entries@.len(),
                p@ == path@,
                forall|j: int| i <= j < self.entries@.len() ==> self.entries@[j].path@ != path@,
            decreases i,
        {
            i = i - 1;
            if self.entries[i].path == p {
                proof {
                    lemma_routes_map_last_match(self.entries@, path@, i as int);
                }
                return Some(self.entries[i].id);
            }
        }
        proof {
            lemma_routes_map_no_match(self.entries@, path@);
        }
        None
    }

    /// The dispatch decision for one request: an unregistered path is "not
    /// found" whatever the method; a registered path under any method but the
    /// one write method is "method not allowed", naming that method; a
    /// registered path under the write method goes to its bound slot.  The
    /// body plays no part in this decision.
    pub fn router(&self, method: HttpMethod, path: &str) -> (r: RouteDecision)
        ensures
            (!self@.contains_key(path@) ==> r == RouteDecision::Respond(SEPResponse::NotFound)),
            (self@.contains_key(path@) && method != HttpMethod::Post ==> names_write_method(r)),
            (self@.contains_key(path@) && method == HttpMethod::Post ==> r
                == RouteDecision::Invoke(self@[path@])),
    {
        match self.resolve(path) {
            Some(id) => {
                if matches!(method, HttpMethod::Post) {
                    RouteDecision::Invoke(id)
                } else {
                    RouteDecision::Respond(SEPResponse::MethodNotAllowed("POST"))
                }
            },
            None => RouteDecision::Respond(SEPResponse::NotFound),
        }
    }
}

/// Law: re-registering a path leaves exactly the newer binding in the table,
/// whatever was bound before; every other path is untouched.
pub proof fn lemma_reregistration_replaces(
    m: Map<Seq<char>, usize>,
    path: Seq<char>,
    first: usize,
    second: usize,
)
    ensures
        m.insert(path, first).insert(path, second) == m.insert(path, second),
{
    assert(m.insert(path, first).insert(path, second) =~= m.insert(path, second));
}

/// A registered route's callback: the capability the owning application
/// binds to a path, invoked once per successfully decoded notification.
/// `callback_pre` says which notifications the callback accepts and
/// `callback_post` relates a notification to the responses the callback may
/// return for it; `callback` is held to both.
pub trait RouteCallback<T>: Sized {
    /// Which notifications the callback accepts.
    spec fn callback_pre(&self, notif: T) -> bool;

    /// Which responses the callback stands behind for a notification.
    spec fn callback_post(&self, notif: T, resp: SEPResponse) -> bool;

    /// Handle one decoded notification.
    fn callback(&self, notif: T) -> (r: SEPResponse)
        requires
            self.callback_pre(notif),
        ensures
            self.callback_post(notif, r),
    ;
}

/// Every plain function from notification to response is a callback: its
/// own precondition and postcondition stand in for the two spec functions.
impl<T, F: Fn(T) -> SEPResponse> RouteCallback<T> for F {
    open spec fn callback_pre(&self, notif: T) -> bool {
        call_requires(*self, (notif,))
    }

    open spec fn callback_post(&self, notif: T, resp: SEPResponse) -> bool {
        call_ensures(*self, (notif,), resp)
    }

    fn callback(&self, notif: T) -> (r: SEPResponse) {
        (self)(notif)
    }
}

fn clone_opt_string(o: &Option<String>) -> (r: Option<String>)
    ensures
        r == *o,
{
    match o {
        Some(s) => Some(s.clone()),
        None => None,
    }
}

/// An exact copy of a response.
pub fn clone_response(r: &SEPResponse) -> (c: SEPResponse)
    ensures
        c == *r,
{
    match r {
        SEPResponse::Created(o) => SEPResponse::Created(clone_opt_string(o)),
        SEPResponse::NoContent => SEPResponse::NoContent,
        SEPResponse::BadRequest(o) => SEPResponse::BadRequest(clone_opt_string(o)),
        SEPResponse::NotFound => SEPResponse::NotFound,
        SEPResponse::MethodNotAllowed(m) => SEPResponse::MethodNotAllowed(m),
    }
}

/// A callback that answers every notification it accepts with one fixed
/// response.
pub struct FixedResponseCallback {
    /// The response returned for every notification.
    pub response: SEPResponse,
}

impl<T> RouteCallback<T> for FixedResponseCallback {
    open spec fn callback_pre(&self, notif: T) -> bool {
        true
    }

    open spec fn callback_post(&self, notif: T, resp: SEPResponse) -> bool {
        resp == self.response
    }

    fn callback(&self, notif: T) -> (r: SEPResponse) {
        clone_response(&self.response)
    }
}

/// Relies on `sep2_common::deserialize`: parses an IEEE 2030.5 XML document
/// into the typed resource `R`, failing on any document that is not
/// schema-valid for `R`.  Which documents decode, and to what, is not
/// modelled; callers state what they return for either outcome.
#[verifier::external_body]
fn decode_resource<R: SEType>(body: &str) -> (r: Result<R, DecodeError>) {
    match sep2_common::deserialize::<R>(body) {
        Ok(v) => Ok(v),
        Err(e) => Err(DecodeError { message: format!("{e}") }),
    }
}

/// The step after the body has been decoded, or has failed to: a decode
/// failure never reaches the callback and yields the bodyless bad-request
/// response; a decode success invokes the callback with the decoded value
/// and forwards the callback's response verbatim.
pub fn handle_decoded<T, C: RouteCallback<T>>(cb: &C, outcome: Result<T, DecodeError>) -> (r:
    SEPResponse)
    requires
        forall|n: T| cb.callback_pre(n),
    ensures
        (outcome matches Ok(n) ==> cb.callback_post(n, r)),
        (outcome is Err ==> r == SEPResponse::BadRequest(None::<String>)),
{
    match outcome {
        Ok(n) => cb.callback(n),
        Err(_) => SEPResponse::BadRequest(None),
    }
}

/// One handler slot's whole body pipeline: decode `body` as `R`, then let
/// [`handle_decoded`] finish.  Returns the response together with the decode
/// failure, if any, for the caller's logging side channel: when no failure
/// is reported the callback was reached and the response is one it stands
/// behind; when one is reported the response is the bodyless bad request.
pub fn handle_notif<R: SEType, C: RouteCallback<R>>(cb: &C, body: &str) -> (r: (
    SEPResponse,
    Option<DecodeError>,
))
    requires
        forall|n: R| cb.callback_pre(n),
    ensures
        (r.1 is None ==> exists|n: R| cb.callback_post(n, r.0)),
        (r.1 is Some ==> r.0 == SEPResponse::BadRequest(None::<String>)),
{
    match decode_resource::<R>(body) {
        Ok(n) => {
            let ghost notif = n;
            let resp = handle_decoded(cb, Ok(n));
            proof {
                assert(cb.callback_post(notif, resp));
            }
            (resp, None)
        },
        Err(e) => (SEPResponse::BadRequest(None), Some(e)),
    }
}

} // verus!
