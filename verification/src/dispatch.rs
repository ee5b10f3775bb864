//! The type-erasing dispatcher.
//!
//! Each registered method has its own request/response types, yet the
//! registry must hold a homogeneous collection of invokable methods.  The
//! bridge is [`MethodHandlerDispatch`]: a capability with one operation,
//! `bytes in -> bytes out`, with no type parameters.  For each method,
//! [`MethodHandlerDispatchImpl`] closes over the concrete descriptor and
//! handler (both still strongly typed inside) and implements the
//! capability by decode, handle, encode; the concrete types are visible
//! only inside that adapter.

use core::marker::PhantomData;
use vstd::prelude::*;
use crate::errors::CallError;
use crate::handler::MethodHandler;
use crate::handler::MethodHandlerEcho;
use crate::marshal::Marshaller;
use crate::marshal::MarshallerBytes;

verus! {

/// Immutable metadata for one RPC method: its wire-level name, the
/// streaming flags, and the two marshallers.  `Req` and `Resp` are the
/// method's request and response types; `MQ` and `MS` the types of their
/// marshallers.
///
/// This is a pure data holder: no validation is performed beyond what the
/// caller provides, and it is consumed by the dispatcher at registration
/// time.
pub struct MethodDescriptor<Req, Resp, MQ, MS> {
    /// The wire-level method identifier and lookup key, by convention a
    /// slash-delimited service/method path.
    pub name: String,
    /// Whether the request side is a stream.  Descriptor metadata only;
    /// this core dispatches unary calls.
    pub input_streaming: bool,
    /// Whether the response side is a stream.  Descriptor metadata only.
    pub output_streaming: bool,
    /// The codec for the request type.
    pub req_marshaller: MQ,
    /// The codec for the response type.
    pub resp_marshaller: MS,
    /// Marks the descriptor with the request and response types that its
    /// two marshallers convert.
    pub marker: PhantomData<(Req, Resp)>,
}

impl<Req, Resp, MQ, MS> MethodDescriptor<Req, Resp, MQ, MS> {
    /// Bundle the metadata of one method, taking ownership of both
    /// marshallers.
    pub fn new(
        name: String,
        input_streaming: bool,
        output_streaming: bool,
        req_marshaller: MQ,
        resp_marshaller: MS,
    ) -> (r: Self)
        ensures
            r.name == name,
            r.input_streaming == input_streaming,
            r.output_streaming == output_streaming,
            r.req_marshaller == req_marshaller,
            r.resp_marshaller == resp_marshaller,
    {
        MethodDescriptor {
            name,
            input_streaming,
            output_streaming,
            req_marshaller,
            resp_marshaller,
            marker: PhantomData,
        }
    }
}

/// The view of an executable call result: the payload bytes are abstracted
/// to their byte sequence, the error is kept as it is.
pub open spec fn result_bytes_view(r: Result<Vec<u8>, CallError>) -> Result<Seq<u8>, CallError> {
    match r {
        Ok(v) => Ok(v@),
        Err(e) => Err(e),
    }
}

/// The uniform, type-erased invocation capability: one operation from
/// request bytes to response bytes, with no type parameters.  The registry
/// stores values of this capability only, which is what makes one
/// homogeneous collection of differently-typed methods possible.
pub trait MethodHandlerDispatch: Sized {
    /// The abstract call: what answer (or failure) this dispatcher gives
    /// to a request byte sequence.
    spec fn on_message_spec(&self, message: Seq<u8>) -> Result<Seq<u8>, CallError>;

    /// Answer one call.  No partial output: the result is exactly the
    /// encoded response, or the error of the stage that failed.
    fn on_message(&self, message: &[u8]) -> (r: Result<Vec<u8>, CallError>)
        ensures
            result_bytes_view(r) == self.on_message_spec(message@),
    ;
}

/// The fully-typed adapter behind one registered method: it owns the
/// method's descriptor and handler and implements the erased capability
/// by decode, handle, encode.
pub struct MethodHandlerDispatchImpl<Req, Resp, MQ, MS, H> {
    /// The method's metadata, with the two marshallers.
    pub desc: MethodDescriptor<Req, Resp, MQ, MS>,
    /// The method's business logic.
    pub method_handler: H,
}

impl<Req, Resp, MQ, MS, H> MethodHandlerDispatchImpl<Req, Resp, MQ, MS, H> {
    /// Bind one descriptor to one handler.
    pub fn new(desc: MethodDescriptor<Req, Resp, MQ, MS>, method_handler: H) -> (r: Self)
        ensures
            r.desc == desc,
            r.method_handler == method_handler,
    {
        MethodHandlerDispatchImpl { desc, method_handler }
    }
}

impl<
    Req: View,
    Resp: View,
    MQ: Marshaller<Req>,
    MS: Marshaller<Resp>,
    H: MethodHandler<Req, Resp>,
> MethodHandlerDispatch for MethodHandlerDispatchImpl<Req, Resp, MQ, MS, H> {
    /// Decode the request, apply the handler's model, encode the response.
    /// A malformed request is a decode failure; nothing else can fail.
    open spec fn on_message_spec(&self, message: Seq<u8>) -> Result<Seq<u8>, CallError> {
        match self.desc.req_marshaller.dec(message) {
            Some(req) => Ok(
                self.desc.resp_marshaller.enc(self.method_handler.handle_spec(req)),
            ),
            None => Err(CallError::DecodeFailure),
        }
    }

    fn on_message(&self, message: &[u8]) -> (r: Result<Vec<u8>, CallError>)
    {
        match self.desc.req_marshaller.read(message) {
            Ok(req) => {
                let resp = self.method_handler.handle(req);
                Ok(self.desc.resp_marshaller.write(&resp))
            }
            Err(e) => Err(e),
        }
    }
}

/// Dispatch correctness, spelled out: on bytes that the request marshaller
/// accepts, the adapter's call is exactly encode-of-handle-of-decode; on
/// bytes it rejects, the call is exactly a decode failure.
pub proof fn lemma_dispatch_correctness<
    Req: View,
    Resp: View,
    MQ: Marshaller<Req>,
    MS: Marshaller<Resp>,
    H: MethodHandler<Req, Resp>,
>(d: &MethodHandlerDispatchImpl<Req, Resp, MQ, MS, H>, message: Seq<u8>)
    ensures
        d.desc.req_marshaller.dec(message) matches Some(req)
            ==> d.on_message_spec(message) == Ok::<Seq<u8>, CallError>(
                d.desc.resp_marshaller.enc(d.method_handler.handle_spec(req)),
            ),
        d.desc.req_marshaller.dec(message) is None
            ==> d.on_message_spec(message) == Err::<Seq<u8>, CallError>(CallError::DecodeFailure),
{
}

/// On the encoding of any request value, the adapter answers with the
/// encoding of the handler's response to it: the round-trip law of the
/// request marshaller guarantees the decode step.
pub proof fn lemma_dispatch_on_encoded<
    Req: View,
    Resp: View,
    MQ: Marshaller<Req>,
    MS: Marshaller<Resp>,
    H: MethodHandler<Req, Resp>,
>(d: &MethodHandlerDispatchImpl<Req, Resp, MQ, MS, H>, req: Req::V)
    ensures
        d.on_message_spec(d.desc.req_marshaller.enc(req)) == Ok::<Seq<u8>, CallError>(
            d.desc.resp_marshaller.enc(d.method_handler.handle_spec(req)),
        ),
{
    d.desc.req_marshaller.lemma_round_trip(req);
}

/// The dispatcher of the built-in echo route: raw bytes in and out, the
/// identity codec on both sides, the identity handler in the middle.
pub type EchoDispatch = MethodHandlerDispatchImpl<
    Vec<u8>,
    Vec<u8>,
    MarshallerBytes,
    MarshallerBytes,
    MethodHandlerEcho,
>;

/// The built-in echo dispatcher answers every message with the message
/// itself, and never fails.
pub proof fn lemma_echo_dispatch(d: &EchoDispatch, message: Seq<u8>)
    ensures
        d.on_message_spec(message) == Ok::<Seq<u8>, CallError>(message),
{
}

} // verus!
