//! The registry: named, erased, invocable methods, looked up by name.

use vstd::prelude::*;
use crate::dispatch::EchoDispatch;
use crate::dispatch::MethodDescriptor;
use crate::dispatch::MethodHandlerDispatch;
use crate::dispatch::MethodHandlerDispatchImpl;
use crate::dispatch::lemma_echo_dispatch;
use crate::dispatch::result_bytes_view;
use crate::errors::CallError;
use crate::handler::MethodHandler;
use crate::handler::MethodHandlerEcho;
use crate::marshal::Marshaller;
use crate::marshal::MarshallerBytes;

verus! {

/// One registry entry: a wire-level name together with the erased
/// dispatcher of the method registered under it.  The name is duplicated
/// out of the method's descriptor so that lookup never needs the erased
/// types.  Immutable after construction.
pub struct ServerMethod<D> {
    name: String,
    dispatch: D,
}

impl<D> ServerMethod<D> {
    /// The method's wire-level name.
    pub closed spec fn name_spec(&self) -> Seq<char> {
        self.name@
    }

    /// The method's erased dispatcher.
    pub closed spec fn dispatcher(&self) -> D {
        self.dispatch
    }

    /// The method's wire-level name.
    pub fn name(&self) -> (r: &String)
        ensures
            r@ == self.name_spec(),
    {
        &self.name
    }
}

impl<
    Req: View,
    Resp: View,
    MQ: Marshaller<Req>,
    MS: Marshaller<Resp>,
    H: MethodHandler<Req, Resp>,
> ServerMethod<MethodHandlerDispatchImpl<Req, Resp, MQ, MS, H>> {
    /// Register one method: record its name for lookup and erase the
    /// concrete request/response types behind the uniform dispatcher.
    /// After this point the types are never observable again from
    /// outside.
    pub fn new(method: MethodDescriptor<Req, Resp, MQ, MS>, handler: H) -> (r: Self)
        ensures
            r.name_spec() == method.name@,
            r.dispatcher() == (MethodHandlerDispatchImpl { desc: method, method_handler: handler }),
    {
        let name = method.name.clone();
        ServerMethod {
            name,
            dispatch: MethodHandlerDispatchImpl::new(method, handler),
        }
    }
}

impl<D: MethodHandlerDispatch> ServerMethod<D> {
    /// Invoke the method on a request payload.
    pub fn on_message(&self, message: &[u8]) -> (r: Result<Vec<u8>, CallError>)
        ensures
            result_bytes_view(r) == self.dispatcher().on_message_spec(message@),
    {
        self.dispatch.on_message(message)
    }
}

/// What a service definition stores for each entry: either a method the
/// caller registered, or the built-in echo route that the registry itself
/// appends.
pub enum RegisteredDispatch<D> {
    /// A caller-registered method's dispatcher.
    Method(D),
    /// The dispatcher of the built-in echo route.
    DefaultEcho(EchoDispatch),
}

impl<D: MethodHandlerDispatch> MethodHandlerDispatch for RegisteredDispatch<D> {
    open spec fn on_message_spec(&self, message: Seq<u8>) -> Result<Seq<u8>, CallError> {
        match self {
            RegisteredDispatch::Method(d) => d.on_message_spec(message),
            RegisteredDispatch::DefaultEcho(e) => e.on_message_spec(message),
        }
    }

    fn on_message(&self, message: &[u8]) -> (r: Result<Vec<u8>, CallError>)
    {
        match self {
            RegisteredDispatch::Method(d) => d.on_message(message),
            RegisteredDispatch::DefaultEcho(e) => e.on_message(message),
        }
    }
}

/// The name of the built-in echo route that [`ServerServiceDefinition::new`]
/// appends: a fixed, well-known smoke-test path.
pub open spec fn default_route_name() -> Seq<char> {
    "/helloworld.Greeter/SayHello"@
}

/// The well-known default route's name, as the transport spells it on
/// the wire.
pub fn default_route() -> (r: String)
    ensures
        r@ == default_route_name(),
{
    "/helloworld.Greeter/SayHello".to_owned()
}

/// Entry `i` of `methods` is named `name`.
pub open spec fn match_at<D>(methods: Seq<ServerMethod<D>>, name: Seq<char>, i: int) -> bool {
    0 <= i < methods.len() && methods[i].name_spec() == name
}

/// Entry `i` of `methods` is the first entry named `name`.
pub open spec fn is_first_match<D>(methods: Seq<ServerMethod<D>>, name: Seq<char>, i: int) -> bool {
    match_at(methods, name, i) && (forall|j: int| 0 <= j < i ==> methods[j].name_spec() != name)
}

/// Some entry of `methods` is named `name`.
pub open spec fn has_match<D>(methods: Seq<ServerMethod<D>>, name: Seq<char>) -> bool {
    exists|i: int| match_at(methods, name, i)
}

/// The index of the first entry of `methods` named `name`; meaningful
/// only when `has_match` holds.
pub open spec fn first_match_index<D>(methods: Seq<ServerMethod<D>>, name: Seq<char>) -> int {
    choose|i: int| is_first_match(methods, name, i)
}

/// At most one entry is the first match for a name.
pub proof fn lemma_first_match_unique<D>(
    methods: Seq<ServerMethod<D>>,
    name: Seq<char>,
    i: int,
    j: int,
)
    requires
        is_first_match(methods, name, i),
        is_first_match(methods, name, j),
    ensures
        i == j,
{
}

/// Below any entry named `name` there is a first entry named `name`.
proof fn lemma_first_match_below<D>(methods: Seq<ServerMethod<D>>, name: Seq<char>, i: int)
    requires
        match_at(methods, name, i),
    ensures
        exists|k: int| k <= i && is_first_match(methods, name, k),
    decreases i,
{
    if forall|j: int| 0 <= j < i ==> methods[j].name_spec() != name {
        assert(is_first_match(methods, name, i));
    } else {
        let j = choose|j: int| 0 <= j < i && methods[j].name_spec() == name;
        lemma_first_match_below(methods, name, j);
    }
}

/// When some entry is named `name`, `first_match_index` is the first one.
pub proof fn lemma_has_first_match<D>(methods: Seq<ServerMethod<D>>, name: Seq<char>)
    requires
        has_match(methods, name),
    ensures
        is_first_match(methods, name, first_match_index(methods, name)),
{
    let i = choose|i: int| match_at(methods, name, i);
    lemma_first_match_below(methods, name, i);
}

/// The registry: an ordered, immutable collection of named methods.  The
/// order is registration order; it matters only as the tie-break for
/// duplicate names, where the first-registered entry wins.
pub struct ServerServiceDefinition<D> {
    methods: Vec<ServerMethod<RegisteredDispatch<D>>>,
}

impl<D: MethodHandlerDispatch> ServerServiceDefinition<D> {
    /// The registry's entries, in registration order.
    pub closed spec fn methods_seq(&self) -> Seq<ServerMethod<RegisteredDispatch<D>>> {
        self.methods@
    }

    /// Entry `i` of this registry is caller-supplied entry `i`, wrapped.
    pub open spec fn wraps_at(&self, user: Seq<ServerMethod<D>>, i: int) -> bool {
        &&& self.methods_seq()[i].name_spec() == user[i].name_spec()
        &&& self.methods_seq()[i].dispatcher() == RegisteredDispatch::Method(user[i].dispatcher())
    }

    /// This registry holds exactly the caller-supplied methods, in their
    /// order, and nothing else.
    pub open spec fn registered_without_default(&self, user: Seq<ServerMethod<D>>) -> bool {
        &&& self.methods_seq().len() == user.len()
        &&& forall|i: int| 0 <= i < user.len() ==> #[trigger] self.wraps_at(user, i)
    }

    /// This registry holds exactly the caller-supplied methods, in their
    /// order, followed by the built-in echo route: a method under the
    /// well-known name whose call is the identity on the payload.
    pub open spec fn registered_from(&self, user: Seq<ServerMethod<D>>) -> bool {
        &&& self.methods_seq().len() == user.len() + 1
        &&& forall|i: int| 0 <= i < user.len() ==> #[trigger] self.wraps_at(user, i)
        &&& self.methods_seq()[user.len() as int].name_spec() == default_route_name()
        &&& forall|message: Seq<u8>|
            #[trigger] self.methods_seq()[user.len() as int].dispatcher().on_message_spec(message)
                == Ok::<Seq<u8>, CallError>(message)
    }

    /// Take ownership of the caller's methods and append the built-in
    /// echo route under the well-known name, so that every registry
    /// answers at least one method.  A caller-supplied method under the
    /// same name shadows the appended route, since lookup takes the first
    /// match.  To opt out of the appended route, use
    /// [`Self::new_without_default_route`].
    pub fn new(methods: Vec<ServerMethod<D>>) -> (r: Self)
        ensures
            r.registered_from(methods@),
    {
        let ghost user = methods@;
        let r0 = Self::new_without_default_route(methods);
        let ghost pre = r0.methods@;
        let mut entries = r0.methods;
        let echo = ServerMethod::new(
            MethodDescriptor::new(
                default_route(),
                false,
                false,
                MarshallerBytes,
                MarshallerBytes,
            ),
            MethodHandlerEcho,
        );
        let ServerMethod { name, dispatch } = echo;
        entries.push(ServerMethod { name, dispatch: RegisteredDispatch::DefaultEcho(dispatch) });
        let r = ServerServiceDefinition { methods: entries };
        proof {
            assert forall|i: int| 0 <= i < user.len() implies #[trigger] r.wraps_at(user, i) by {
                assert(r0.wraps_at(user, i));
                assert(r.methods_seq()[i] == pre[i]);
            }
            assert forall|message: Seq<u8>|
                #[trigger] r.methods_seq()[user.len() as int].dispatcher().on_message_spec(message)
                    == Ok::<Seq<u8>, CallError>(message) by {
                match r.methods_seq()[user.len() as int].dispatcher() {
                    RegisteredDispatch::DefaultEcho(e) => {
                        lemma_echo_dispatch(&e, message);
                    }
                    RegisteredDispatch::Method(_) => {}
                }
            }
        }
        r
    }

    /// Take ownership of the caller's methods exactly as supplied, with
    /// no appended route: a registry built from an empty list then
    /// answers no method at all.
    pub fn new_without_default_route(methods: Vec<ServerMethod<D>>) -> (r: Self)
        ensures
            r.registered_without_default(methods@),
    {
        let ghost user = methods@;
        let mut rest = methods;
        let mut wrapped: Vec<ServerMethod<RegisteredDispatch<D>>> = Vec::new();
        while rest.len() > 0
            invariant
                wrapped@.len() + rest@.len() == user.len(),
                forall|k: int| 0 <= k < rest@.len()
                    ==> #[trigger] rest@[k] == user[wrapped@.len() + k],
                forall|k: int| 0 <= k < wrapped@.len()
                    ==> (#[trigger] wrapped@[k]).name_spec() == user[k].name_spec()
                        && wrapped@[k].dispatcher() == RegisteredDispatch::Method(user[k].dispatcher()),
            decreases rest@.len(),
        {
            let m = rest.remove(0);
            let ServerMethod { name, dispatch } = m;
            wrapped.push(ServerMethod { name, dispatch: RegisteredDispatch::Method(dispatch) });
        }
        let r = ServerServiceDefinition { methods: wrapped };
        proof {
            assert forall|i: int| 0 <= i < user.len() implies #[trigger] r.wraps_at(user, i) by {}
        }
        r
    }

    /// Find the first-registered method under `name`: the linear scan
    /// runs in registration order and stops at the first entry whose name
    /// equals the query.  Fails with `UnknownMethod` exactly when no
    /// entry is named `name`.
    pub fn find_method(&self, name: &str) -> (r: Result<
        &ServerMethod<RegisteredDispatch<D>>,
        CallError,
    >)
        ensures
            match r {
                Ok(m) => has_match(self.methods_seq(), name@)
                    && *m == self.methods_seq()[first_match_index(self.methods_seq(), name@)],
                Err(e) => !has_match(self.methods_seq(), name@) && e == CallError::UnknownMethod,
            },
    {
        let query: String = name.to_owned();
        let n = self.methods.len();
        let mut i: usize = 0;
        while i < n
            invariant
                n == self.methods_seq().len(),
                0 <= i <= n,
                query@ == name@,
                forall|j: int| 0 <= j < i ==> self.methods_seq()[j].name_spec() != name@,
            decreases n - i,
        {
            if self.methods[i].name == query {
                proof {
                    let ms = self.methods_seq();
                    assert(is_first_match(ms, name@, i as int));
                    lemma_has_first_match(ms, name@);
                    lemma_first_match_unique(ms, name@, i as int, first_match_index(ms, name@));
                }
                return Ok(&self.methods[i]);
            }
            i += 1;
        }
        proof {
            let ms = self.methods_seq();
            if has_match(ms, name@) {
                let k = choose|k: int| match_at(ms, name@, k);
                assert(ms[k].name_spec() != name@);
            }
        }
        Err(CallError::UnknownMethod)
    }

    /// What `handle_method` answers: the call of the first-registered
    /// method under `name`, or `UnknownMethod` when there is none.
    pub open spec fn handle_method_spec(&self, name: Seq<char>, message: Seq<u8>) -> Result<
        Seq<u8>,
        CallError,
    > {
        if has_match(self.methods_seq(), name) {
            self.methods_seq()[first_match_index(self.methods_seq(), name)]
                .dispatcher().on_message_spec(message)
        } else {
            Err(CallError::UnknownMethod)
        }
    }

    /// The single entry point for the transport: look the method up by
    /// name and invoke it on the payload, returning its result unchanged.
    ///
    /// The registry itself is never mutated: the answer is a function of
    /// the registry, the name and the payload alone, so repeated calls
    /// with the same input yield the same output, and no call changes the
    /// dispatch behaviour of any other method.
    pub fn handle_method(&self, name: &str, message: &[u8]) -> (r: Result<Vec<u8>, CallError>)
        ensures
            result_bytes_view(r) == self.handle_method_spec(name@, message@),
            !has_match(self.methods_seq(), name@)
                ==> r == Err::<Vec<u8>, CallError>(CallError::UnknownMethod),
    {
        match self.find_method(name) {
            Ok(m) => m.on_message(message),
            Err(e) => Err(e),
        }
    }
}

/// Dispatch correctness at the registry: when entry `i` of the
/// caller-supplied methods is the first one named `name`, a call of
/// `name` decodes the payload with that method's request marshaller,
/// applies its handler's model, and encodes the answer with its response
/// marshaller; a payload that the request marshaller rejects fails with
/// a decode failure.  This holds whether or not the built-in echo route
/// was appended, since that route stands behind every caller-supplied
/// method.
pub proof fn lemma_registry_dispatch_correctness<
    Req: View,
    Resp: View,
    MQ: Marshaller<Req>,
    MS: Marshaller<Resp>,
    H: MethodHandler<Req, Resp>,
>(
    sd: &ServerServiceDefinition<MethodHandlerDispatchImpl<Req, Resp, MQ, MS, H>>,
    user: Seq<ServerMethod<MethodHandlerDispatchImpl<Req, Resp, MQ, MS, H>>>,
    name: Seq<char>,
    i: int,
    message: Seq<u8>,
)
    requires
        sd.registered_from(user) || sd.registered_without_default(user),
        0 <= i < user.len(),
        user[i].name_spec() == name,
        forall|j: int| 0 <= j < i ==> (#[trigger] user[j]).name_spec() != name,
    ensures
        sd.handle_method_spec(name, message) == (match user[i].dispatcher().desc.req_marshaller.dec(
            message,
        ) {
            Some(req) => Ok::<Seq<u8>, CallError>(
                user[i].dispatcher().desc.resp_marshaller.enc(
                    user[i].dispatcher().method_handler.handle_spec(req),
                ),
            ),
            None => Err::<Seq<u8>, CallError>(CallError::DecodeFailure),
        }),
{
    let ms = sd.methods_seq();
    assert(sd.wraps_at(user, i));
    assert(match_at(ms, name, i));
    assert forall|j: int| 0 <= j < i implies ms[j].name_spec() != name by {
        assert(sd.wraps_at(user, j));
    }
    assert(is_first_match(ms, name, i));
    lemma_has_first_match(ms, name);
    lemma_first_match_unique(ms, name, i, first_match_index(ms, name));
}

/// Statelessness: the answer of `handle_method` is a function of the
/// registry, the method name and the payload alone, so any two calls
/// with the same inputs agree.  (The registry is immutable: every
/// operation takes it by shared reference, so no call can change the
/// dispatch behaviour of another method.)
pub proof fn lemma_statelessness<D: MethodHandlerDispatch>(
    sd: &ServerServiceDefinition<D>,
    name: Seq<char>,
    message: Seq<u8>,
    r1: Result<Vec<u8>, CallError>,
    r2: Result<Vec<u8>, CallError>,
)
    requires
        result_bytes_view(r1) == sd.handle_method_spec(name, message),
        result_bytes_view(r2) == sd.handle_method_spec(name, message),
    ensures
        result_bytes_view(r1) == result_bytes_view(r2),
{
}

/// Unknown-method failure: on a name under which nothing is registered,
/// `handle_method` fails with `UnknownMethod` whatever the payload is,
/// and never partially succeeds.
pub proof fn lemma_unknown_method<D: MethodHandlerDispatch>(
    sd: &ServerServiceDefinition<D>,
    name: Seq<char>,
    message: Seq<u8>,
)
    requires
        forall|i: int| 0 <= i < sd.methods_seq().len()
            ==> (#[trigger] sd.methods_seq()[i]).name_spec() != name,
    ensures
        sd.handle_method_spec(name, message) == Err::<Seq<u8>, CallError>(CallError::UnknownMethod),
{
    if has_match(sd.methods_seq(), name) {
        let k = choose|k: int| match_at(sd.methods_seq(), name, k);
        assert(sd.methods_seq()[k].name_spec() != name);
    }
}

/// Default route present: a registry built by `new` from methods none of
/// which shadows the well-known name (in particular, from an empty list)
/// answers the well-known name with the identity transform on the
/// payload.
pub proof fn lemma_default_route_present<D: MethodHandlerDispatch>(
    sd: &ServerServiceDefinition<D>,
    user: Seq<ServerMethod<D>>,
    message: Seq<u8>,
)
    requires
        sd.registered_from(user),
        forall|i: int| 0 <= i < user.len() ==> (#[trigger] user[i]).name_spec() != default_route_name(),
    ensures
        sd.handle_method_spec(default_route_name(), message) == Ok::<Seq<u8>, CallError>(message),
{
    let ms = sd.methods_seq();
    let name = default_route_name();
    let last = user.len() as int;
    assert(match_at(ms, name, last));
    assert forall|j: int| 0 <= j < last implies ms[j].name_spec() != name by {
        assert(sd.wraps_at(user, j));
    }
    assert(is_first_match(ms, name, last));
    lemma_has_first_match(ms, name);
    lemma_first_match_unique(ms, name, last, first_match_index(ms, name));
}

/// Name collision, first match wins: when two entries share a name, the
/// dispatched entry is the first-registered one under that name — its
/// index is no later than the earlier of the two, and every call under
/// that name is its call.
pub proof fn lemma_name_collision_first_match<D: MethodHandlerDispatch>(
    sd: &ServerServiceDefinition<D>,
    name: Seq<char>,
    i: int,
    j: int,
    message: Seq<u8>,
)
    requires
        0 <= i < j < sd.methods_seq().len(),
        sd.methods_seq()[i].name_spec() == name,
        sd.methods_seq()[j].name_spec() == name,
    ensures
        is_first_match(sd.methods_seq(), name, first_match_index(sd.methods_seq(), name)),
        first_match_index(sd.methods_seq(), name) <= i,
        sd.handle_method_spec(name, message) == sd.methods_seq()[
            first_match_index(sd.methods_seq(), name)
        ].dispatcher().on_message_spec(message),
{
    let ms = sd.methods_seq();
    assert(match_at(ms, name, i));
    lemma_has_first_match(ms, name);
    let f = first_match_index(ms, name);
    if f > i {
        assert(ms[i].name_spec() != name);
    }
}

} // verus!
