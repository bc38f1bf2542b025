//! The method registry and the per-request pipeline: validate, look the
//! method up, run its handler, and enforce the result/error invariant.

use vstd::prelude::*;
use crate::handlers;
use crate::json::JsonValue;
use crate::rpc::{
    Errors, Request, Response, enforce_exclusivity, error_is, exclusive_ok, id_ok, version_ok,
};

verus! {

/// The handlers a method name can be bound to.
#[derive(Clone, Copy, Debug, PartialEq, Eq, Structural)]
pub enum MethodKind {
    Healthcheck,
    ValidatePhone,
}

/// The method registry: an ordered list of name-to-handler bindings,
/// first match winning.
pub struct Registry {
    pub entries: Vec<(String, MethodKind)>,
}

impl Registry {
    /// The first binding whose name is `name`.
    pub open spec fn spec_find(entries: Seq<(String, MethodKind)>, name: Seq<char>) -> Option<MethodKind>
        decreases entries.len(),
    {
        if entries.len() == 0 {
            None
        } else if entries[0].0@ == name {
            Some(entries[0].1)
        } else {
            Self::spec_find(entries.drop_first(), name)
        }
    }

    /// What lookup yields: nothing for the empty name, else the first
    /// binding for the name.
    pub open spec fn spec_lookup(self, name: Seq<char>) -> Option<MethodKind> {
        if name.len() == 0 {
            None
        } else {
            Self::spec_find(self.entries@, name)
        }
    }

    /// An empty registry.
    pub fn new() -> (r: Self)
        ensures
            r.entries@.len() == 0,
    {
        Self { entries: Vec::new() }
    }

    /// Bind `name` to `kind`; an existing binding for the name keeps
    /// priority.
    pub fn register(&mut self, name: String, kind: MethodKind)
        ensures
            final(self).entries@ == old(self).entries@.push((name, kind)),
    {
        self.entries.push((name, kind));
    }

    /// Resolve a method name; `None` on the empty string and on any
    /// name with no binding.
    pub fn lookup(&self, name: &String) -> (r: Option<MethodKind>)
        ensures
            r == self.spec_lookup(name@),
    {
        if name.as_str().is_empty() {
            return None;
        }
        let entries = &self.entries;
        let mut i: usize = 0;
        proof {
            assert(entries@.skip(0) =~= entries@);
        }
        while i < entries.len()
            invariant
                i <= entries@.len(),
                entries == &self.entries,
                name@.len() != 0,
                Self::spec_find(entries@.skip(i as int), name@) == Self::spec_find(entries@, name@),
            decreases entries@.len() - i,
        {
            proof {
                assert(entries@.skip(i as int).drop_first() =~= entries@.skip(i + 1));
                assert(entries@.skip(i as int)[0] == entries@[i as int]);
            }
            if entries[i].0 == *name {
                return Some(entries[i].1);
            }
            i = i + 1;
        }
        proof {
            assert(entries@.skip(i as int) =~= Seq::<(String, MethodKind)>::empty());
        }
        None
    }

    /// The registry the service starts with: the status probe and the
    /// phone-number validator.
    pub fn standard() -> (r: Self)
        ensures
            r.spec_lookup("healthcheck"@) == Some(MethodKind::Healthcheck),
            r.spec_lookup("validate"@) == Some(MethodKind::ValidatePhone),
            forall|name: Seq<char>|
                name != "healthcheck"@ && name != "validate"@ ==> r.spec_lookup(name) is None,
    {
        let mut r = Self::new();
        r.register(String::from_str("healthcheck"), MethodKind::Healthcheck);
        r.register(String::from_str("validate"), MethodKind::ValidatePhone);
        proof {
            reveal_with_fuel(Registry::spec_find, 4);
            reveal_strlit("healthcheck");
            reveal_strlit("validate");
            assert(r.entries@.len() == 2);
            assert(r.entries@[0].0@ == "healthcheck"@);
            assert(r.entries@[1].0@ == "validate"@);
            assert(r.entries@.drop_first()[0] == r.entries@[1]);
            assert(r.entries@.drop_first().drop_first().len() == 0);
            assert("healthcheck"@.len() == 11);
            assert("validate"@.len() == 8);
            assert forall|name: Seq<char>|
                name != "healthcheck"@ && name != "validate"@ implies r.spec_lookup(
                name,
            ) is None by {
                reveal_with_fuel(Registry::spec_find, 4);
                assert(r.entries@.drop_first()[0] == r.entries@[1]);
                assert(r.entries@.drop_first().drop_first().len() == 0);
            }
        }
        r
    }
}

/// What dispatch leaves in a response that started blank and bound to
/// `id`: the handler's outcome for a bound method, the method-not-found
/// error for an unbound or empty name.
pub open spec fn is_dispatched(
    req: Request,
    reg: Registry,
    now_secs: u64,
    id: JsonValue,
    r: Response,
) -> bool {
    &&& r.jsonrpc@ == "2.0"@
    &&& r.id == id
    &&& match reg.spec_lookup(req.method@) {
        None => r.result is None && (r.error matches Some(e) && error_is(
            e,
            Errors::MethodNotFound,
            None,
        )),
        Some(MethodKind::Healthcheck) => r.error is None && (r.result matches Some(v)
            && handlers::healthcheck_value(v, now_secs)),
        Some(MethodKind::ValidatePhone) => handlers::validated_outcome(req.params, r),
    }
}

/// Route the request to its method's handler — an unbound name gets the
/// method-not-found error — then hold the returned response to the
/// result/error invariant.
pub fn select_method(
    request: &Request,
    response: Response,
    registry: &Registry,
    now_secs: u64,
) -> (r: Response)
    requires
        response.jsonrpc@ == "2.0"@,
        response.result is None,
        response.error is None,
    ensures
        is_dispatched(*request, *registry, now_secs, response.id, r),
        exclusive_ok(r),
{
    let kind = registry.lookup(&request.method);
    let handled = match kind {
        Some(MethodKind::Healthcheck) => handlers::healthcheck_handler(
            request,
            response,
            now_secs,
        ),
        Some(MethodKind::ValidatePhone) => handlers::validate_handler(request, response),
        None => handlers::error_handler(request, response, Errors::MethodNotFound, None),
    };
    enforce_exclusivity(handled)
}

/// What processing one request yields: the invalid-request error when
/// the envelope is bad — with the id nulled when the id itself was the
/// bad part — and the dispatch outcome otherwise.
pub open spec fn is_processed(req: Request, reg: Registry, now_secs: u64, r: Response) -> bool {
    if !version_ok(req) || !id_ok(req.id) {
        &&& r.jsonrpc@ == "2.0"@
        &&& r.id == (if id_ok(req.id) {
            req.id
        } else {
            JsonValue::Null
        })
        &&& r.result is None
        &&& (r.error matches Some(e) && error_is(e, Errors::InvalidRequest, None))
    } else {
        is_dispatched(req, reg, now_secs, req.id, r)
    }
}

/// Run one request through the whole pipeline: envelope validation,
/// dispatch, and the final invariant check.
pub fn process_request(request: &Request, registry: &Registry, now_secs: u64) -> (r: Response)
    ensures
        is_processed(*request, *registry, now_secs, r),
        exclusive_ok(r),
{
    let version_valid = request.version_is_valid();
    let id_valid = request.id_is_valid();
    let id = if id_valid {
        request.id.duplicate()
    } else {
        JsonValue::Null
    };
    let response = Response::new(id, None, None);
    if !version_valid || !id_valid {
        return Response { error: Some(Errors::InvalidRequest.to_error(None)), ..response };
    }
    select_method(request, response, registry, now_secs)
}

/// Every finalized response satisfies the result/error exclusivity
/// invariant, whatever the request looked like.
pub proof fn lemma_finalized_is_exclusive(req: Request, reg: Registry, now_secs: u64, r: Response)
    requires
        is_processed(req, reg, now_secs, r),
    ensures
        exclusive_ok(r),
{
}

/// Every valid request is answered under its own id, with exactly one
/// of result and error set.
pub proof fn lemma_valid_request_outcome(req: Request, reg: Registry, now_secs: u64, r: Response)
    requires
        version_ok(req),
        id_ok(req.id),
        is_processed(req, reg, now_secs, r),
    ensures
        r.id == req.id,
        exclusive_ok(r),
{
}

/// A request with the wrong protocol version is answered with the
/// invalid-request code.
pub proof fn lemma_bad_version_outcome(req: Request, reg: Registry, now_secs: u64, r: Response)
    requires
        !version_ok(req),
        is_processed(req, reg, now_secs, r),
    ensures
        r.error matches Some(e) && e.code == -32600,
{
}

/// A request whose id is not a number, a string or null is answered
/// under a null id with the invalid-request code.
pub proof fn lemma_bad_id_outcome(req: Request, reg: Registry, now_secs: u64, r: Response)
    requires
        !id_ok(req.id),
        is_processed(req, reg, now_secs, r),
    ensures
        r.id is Null,
        r.error matches Some(e) && e.code == -32600,
{
}

/// A valid request naming an unbound or empty method is answered with
/// the method-not-found code.
pub proof fn lemma_unknown_method_outcome(req: Request, reg: Registry, now_secs: u64, r: Response)
    requires
        version_ok(req),
        id_ok(req.id),
        reg.spec_lookup(req.method@) is None,
        is_processed(req, reg, now_secs, r),
    ensures
        r.error matches Some(e) && e.code == -32601,
{
}

} // verus!
