//! Method-dispatch core of an RPC server.
//!
//! A registry maps a wire-level method name to a strongly-typed
//! request/response handler while exposing a uniform, type-erased
//! `bytes in -> bytes out` invocation surface to a transport layer.

pub mod dispatch;
pub mod errors;
pub mod handler;
pub mod marshal;
pub mod registry;

pub use dispatch::EchoDispatch;
pub use dispatch::MethodDescriptor;
pub use dispatch::MethodHandlerDispatch;
pub use dispatch::MethodHandlerDispatchImpl;
pub use errors::CallError;
pub use handler::MethodHandler;
pub use handler::MethodHandlerEcho;
pub use handler::MethodHandlerFn;
pub use marshal::Marshaller;
pub use marshal::MarshallerBytes;
pub use marshal::MarshallerU32;
pub use registry::RegisteredDispatch;
pub use registry::default_route;
pub use registry::ServerMethod;
pub use registry::ServerServiceDefinition;
