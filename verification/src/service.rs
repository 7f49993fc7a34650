//! The handler abstraction and its adapter: a `Service` turns one request
//! into one response (or fails), a `NewService` produces one fresh
//! `Service` instance per unit of isolation, and `dispatch` is the generic
//! adapter that binds a handler, through an explicit conversion boundary,
//! to the domain frame vocabulary.

use vstd::prelude::*;

use crate::frame::{ErrorKind, Request, Response};

verus! {

/// A handler: turns one request-like value into one response-like value,
/// or fails. `call` resolves exactly once, with the returned `Result`.
pub trait Service {
    /// The handler's declared request vocabulary.
    type Request;

    /// The handler's declared response vocabulary.
    type Response;

    /// The handler's declared failure vocabulary.
    type Error;

    /// The handler's declared contract: every result `call` may return
    /// satisfies this predicate.
    spec fn call_ens(&self, req: Self::Request, r: Result<Self::Response, Self::Error>) -> bool;

    /// Handle one request. The single resolution of the call is the
    /// returned `Result`: a response on success, an error on failure.
    fn call(&self, req: Self::Request) -> (r: Result<Self::Response, Self::Error>)
        ensures
            self.call_ens(req, r),
    ;
}

/// A handler factory: produces a new `Service` instance per unit of
/// isolation (one per accepted connection), with the factory's declared
/// vocabulary equal to what its instances declare.
pub trait NewService {
    /// The request vocabulary every produced instance declares.
    type Request;

    /// The response vocabulary every produced instance declares.
    type Response;

    /// The failure vocabulary every produced instance declares.
    type Error;

    /// The type of the produced handler instances.
    type Instance: Service<
        Request = Self::Request,
        Response = Self::Response,
        Error = Self::Error,
    >;

    /// The factory's declared contract: every instance `new_service` may
    /// produce satisfies this predicate.
    spec fn new_service_ens(&self, inst: Self::Instance) -> bool;

    /// Produce a new handler instance, independent of every instance
    /// produced before.
    fn new_service(&self) -> (inst: Self::Instance)
        ensures
            self.new_service_ens(inst),
    ;
}

/// The declared conversion from the domain request vocabulary into a
/// handler's own request vocabulary.
pub trait FromRequest: Sized {
    /// The conversion's declared contract.
    spec fn from_request_ens(req: Request, r: Self) -> bool;

    /// Convert one domain request into the handler's vocabulary.
    fn from_request(req: Request) -> (r: Self)
        ensures
            Self::from_request_ens(req, r),
    ;
}

/// The declared conversion from a handler's own response vocabulary into
/// the domain response vocabulary.
pub trait IntoResponse: Sized {
    /// The conversion's declared contract.
    spec fn into_response_ens(self, r: Response) -> bool;

    /// Convert one handler response into the domain vocabulary.
    fn into_response(self) -> (r: Response)
        ensures
            self.into_response_ens(r),
    ;
}

/// The declared reduction of a handler's own failure vocabulary to the
/// coarse generic I/O error kind; the reduction may lose detail.
pub trait IntoErrorKind: Sized {
    /// The reduction's declared contract.
    spec fn into_kind_ens(self, kind: ErrorKind) -> bool;

    /// Reduce one handler error to the generic kind.
    fn into_kind(self) -> (kind: ErrorKind)
        ensures
            self.into_kind_ens(kind),
    ;
}

impl FromRequest for Request {
    /// A handler speaking the domain vocabulary receives each request
    /// unchanged.
    open spec fn from_request_ens(req: Request, r: Request) -> bool {
        r == req
    }

    fn from_request(req: Request) -> (r: Request) {
        req
    }
}

impl IntoResponse for Response {
    /// A handler speaking the domain vocabulary has each response passed
    /// through unchanged.
    open spec fn into_response_ens(self, r: Response) -> bool {
        r == self
    }

    fn into_response(self) -> (r: Response) {
        self
    }
}

impl IntoErrorKind for ErrorKind {
    /// An error that already is a generic kind is kept as it is.
    open spec fn into_kind_ens(self, kind: ErrorKind) -> bool {
        kind == self
    }

    fn into_kind(self) -> (kind: ErrorKind) {
        self
    }
}

/// What `dispatch` guarantees: the domain result `r` arises from some
/// request conversion and some resolution of the handler's `call`, with
/// the resolution carried across the conversion boundary unchanged in
/// shape: a response converted on success, an error reduced on failure.
pub open spec fn dispatch_ens<S>(s: S, req: Request, r: Result<Response, ErrorKind>) -> bool where
    S: Service,
    S::Request: FromRequest,
    S::Response: IntoResponse,
    S::Error: IntoErrorKind,
{
    exists|q: S::Request, inner: Result<S::Response, S::Error>|
        {
            &&& <S::Request as FromRequest>::from_request_ens(req, q)
            &&& #[trigger] s.call_ens(q, inner)
            &&& match (inner, r) {
                (Ok(resp), Ok(out)) => resp.into_response_ens(out),
                (Err(e), Err(kind)) => e.into_kind_ens(kind),
                _ => false,
            }
        }
}

/// The adapter: convert one domain request into the handler's vocabulary,
/// invoke the handler, and convert its resolution back — the response into
/// the domain vocabulary on success, the error to the generic kind on
/// failure.
pub fn dispatch<S>(s: &S, req: Request) -> (r: Result<Response, ErrorKind>) where
    S: Service,
    S::Request: FromRequest,
    S::Response: IntoResponse,
    S::Error: IntoErrorKind,

    ensures
        dispatch_ens(*s, req, r),
{
    let q = <S::Request as FromRequest>::from_request(req);
    let ghost gq = q;
    let inner = s.call(q);
    let ghost ginner = inner;
    match inner {
        Ok(resp) => {
            let out = resp.into_response();
            proof {
                assert(s.call_ens(gq, ginner));
            }
            Ok(out)
        },
        Err(e) => {
            let kind = e.into_kind();
            proof {
                assert(s.call_ens(gq, ginner));
            }
            Err(kind)
        },
    }
}

/// A handler that answers every request with one fixed response, and is
/// its own factory: every produced instance carries that same response.
#[derive(Debug, PartialEq, Eq)]
pub struct FixedResponseService {
    /// The response returned for every request.
    pub response: Response,
}

impl Clone for FixedResponseService {
    /// Cloning keeps the abstract value of the fixed response.
    fn clone(&self) -> (r: Self)
        ensures
            r.response@ == self.response@,
    {
        FixedResponseService { response: self.response.clone() }
    }
}

impl Service for FixedResponseService {
    type Request = Request;

    type Response = Response;

    type Error = ErrorKind;

    /// Every call succeeds with the fixed response.
    open spec fn call_ens(&self, req: Request, r: Result<Response, ErrorKind>) -> bool {
        r matches Ok(resp) && resp@ == self.response@
    }

    fn call(&self, req: Request) -> (r: Result<Response, ErrorKind>) {
        Ok(self.response.clone())
    }
}

impl NewService for FixedResponseService {
    type Request = Request;

    type Response = Response;

    type Error = ErrorKind;

    type Instance = FixedResponseService;

    /// Every produced instance carries the factory's fixed response.
    open spec fn new_service_ens(&self, inst: FixedResponseService) -> bool {
        inst.response@ == self.response@
    }

    fn new_service(&self) -> (inst: FixedResponseService) {
        self.clone()
    }
}

/// A handler that rejects every request with one fixed error kind, and is
/// its own factory.
#[derive(Clone, Copy, Debug, PartialEq, Eq, Structural)]
pub struct FixedErrorService {
    /// The error kind returned for every request.
    pub kind: ErrorKind,
}

impl Service for FixedErrorService {
    type Request = Request;

    type Response = Response;

    type Error = ErrorKind;

    /// Every call fails with the fixed kind.
    open spec fn call_ens(&self, req: Request, r: Result<Response, ErrorKind>) -> bool {
        r matches Err(kind) && kind == self.kind
    }

    fn call(&self, req: Request) -> (r: Result<Response, ErrorKind>) {
        Err(self.kind)
    }
}

impl NewService for FixedErrorService {
    type Request = Request;

    type Response = Response;

    type Error = ErrorKind;

    type Instance = FixedErrorService;

    /// Every produced instance equals the factory.
    open spec fn new_service_ens(&self, inst: FixedErrorService) -> bool {
        inst == *self
    }

    fn new_service(&self) -> (inst: FixedErrorService) {
        *self
    }
}

/// The adapter is lossless on a handler that already speaks the domain
/// vocabulary: whatever `dispatch` returns is a resolution the handler
/// itself declares — a response comes out exactly as declared, an error
/// comes out as its declared reduction.
pub proof fn lemma_adapter_identity<S>(s: S, req: Request, r: Result<Response, ErrorKind>) where
    S: Service<Request = Request, Response = Response>,
    S::Error: IntoErrorKind,

    requires
        dispatch_ens(s, req, r),
    ensures
        exists|inner: Result<Response, S::Error>|
            {
                &&& #[trigger] s.call_ens(req, inner)
                &&& match (inner, r) {
                    (Ok(resp), Ok(out)) => out == resp,
                    (Err(e), Err(kind)) => e.into_kind_ens(kind),
                    _ => false,
                }
            },
{
    let (q, inner) = choose|q: Request, inner: Result<Response, S::Error>|
        {
            &&& <Request as FromRequest>::from_request_ens(req, q)
            &&& #[trigger] s.call_ens(q, inner)
            &&& match (inner, r) {
                (Ok(resp), Ok(out)) => resp.into_response_ens(out),
                (Err(e), Err(kind)) => e.into_kind_ens(kind),
                _ => false,
            }
        };
    assert(q == req);
    assert(s.call_ens(req, inner));
}

/// Through the adapter, a fixed-response handler answers every request
/// with exactly its fixed response.
pub proof fn lemma_fixed_response_dispatch(
    s: FixedResponseService,
    req: Request,
    r: Result<Response, ErrorKind>,
)
    requires
        dispatch_ens(s, req, r),
    ensures
        r matches Ok(resp) && resp@ == s.response@,
{
    lemma_adapter_identity(s, req, r);
}

/// Instances are isolated: what the factory guarantees of a produced
/// instance does not depend on the requests other instances have already
/// handled. Whatever history `first` served, `second` still answers every
/// request with the factory's fixed response.
pub proof fn lemma_instance_isolation(
    factory: FixedResponseService,
    first: FixedResponseService,
    second: FixedResponseService,
    history: Seq<Request>,
    answers: Seq<Result<Response, ErrorKind>>,
    req: Request,
    r: Result<Response, ErrorKind>,
)
    requires
        factory.new_service_ens(first),
        factory.new_service_ens(second),
        forall|j: int|
            0 <= j < history.len() && j < answers.len() ==> #[trigger] dispatch_ens(
                first,
                history[j],
                answers[j],
            ),
        dispatch_ens(second, req, r),
    ensures
        r matches Ok(resp) && resp@ == factory.response@,
{
    lemma_fixed_response_dispatch(second, req, r);
}

} // verus!
