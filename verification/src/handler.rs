//! The handler capability: the typed business logic answering one method.

use vstd::prelude::*;

verus! {

/// The business logic of one method: a pure function from a typed request
/// to a typed response.
///
/// The mathematical model is `handle_spec`, a function over the abstract
/// values of the request and response types; the executable `handle` is
/// pinned to it.  The model is a function of the request's abstraction
/// alone, so dispatch through any handler is deterministic per call.
pub trait MethodHandler<Req: View, Resp: View> {
    /// The abstract response that this handler gives to the abstract
    /// request `req`.
    spec fn handle_spec(&self, req: Req::V) -> Resp::V;

    /// Answer one request.
    fn handle(&self, req: Req) -> (resp: Resp)
        ensures
            resp@ == self.handle_spec(req@),
    ;
}

/// The identity handler: answers every request with the request itself.
/// Usable for any single type taken as both request and response; it is
/// the handler of the built-in echo route.
pub struct MethodHandlerEcho;

impl<A: View> MethodHandler<A, A> for MethodHandlerEcho {
    open spec fn handle_spec(&self, req: A::V) -> A::V {
        req
    }

    fn handle(&self, req: A) -> (resp: A)
    {
        req
    }
}

/// The function-adapter handler: wraps any callable value of shape
/// `Req -> Resp`, so an ordinary function can be registered without a
/// dedicated named type.
///
/// The wrapped callable must be total over `Req` and must answer
/// abstractly equal requests with abstractly equal responses; its
/// abstract behaviour is then a function of the request's abstraction,
/// which is what [`MethodHandler`] promises.
#[verifier::reject_recursive_types(Req)]
#[verifier::reject_recursive_types(Resp)]
pub struct MethodHandlerFn<Req: View, Resp: View, F: Fn(Req) -> Resp> {
    f: F,
    model: Ghost<spec_fn(<Req as View>::V) -> <Resp as View>::V>,
}

impl<Req: View, Resp: View, F: Fn(Req) -> Resp> MethodHandlerFn<Req, Resp, F> {
    /// The callable is callable on every request, and its outcomes are a
    /// function of the request's abstraction, given by the model.
    #[verifier::type_invariant]
    spec fn wf(self) -> bool {
        &&& forall|req: Req| call_requires(self.f, (req,))
        &&& forall|req: Req, resp: Resp|
            call_ensures(self.f, (req,), resp) ==> resp@ == (self.model@)(req@)
    }

    /// Wrap the callable `f`.  `f` must accept every request, and two
    /// calls on abstractly equal requests must give abstractly equal
    /// responses.
    pub fn new(f: F) -> (r: Self)
        requires
            forall|req: Req| call_requires(f, (req,)),
            forall|req1: Req, req2: Req, resp1: Resp, resp2: Resp|
                call_ensures(f, (req1,), resp1) && call_ensures(f, (req2,), resp2)
                    && req1@ == req2@ ==> resp1@ == resp2@,
        ensures
            forall|req: Req, resp: Resp|
                call_ensures(f, (req,), resp) ==> resp@ == r.handle_spec(req@),
    {
        let ghost model = |rv: <Req as View>::V|
            {
                let (q, p) = choose|q: Req, p: Resp| call_ensures(f, (q,), p) && q@ == rv;
                p@
            };
        let r = MethodHandlerFn { f, model: Ghost(model) };
        proof {
            assert forall|req: Req, resp: Resp|
                call_ensures(r.f, (req,), resp) implies resp@ == (r.model@)(req@) by {
                let rv = req@;
                assert(call_ensures(f, (req,), resp) && req@ == rv);
                let (q, p) = choose|q: Req, p: Resp| call_ensures(f, (q,), p) && q@ == rv;
            }
        }
        r
    }
}

impl<Req: View, Resp: View, F: Fn(Req) -> Resp> MethodHandler<Req, Resp> for MethodHandlerFn<
    Req,
    Resp,
    F,
> {
    closed spec fn handle_spec(&self, req: <Req as View>::V) -> <Resp as View>::V {
        (self.model@)(req)
    }

    fn handle(&self, req: Req) -> (resp: Resp)
    {
        proof {
            use_type_invariant(&*self);
        }
        (self.f)(req)
    }
}

} // verus!
