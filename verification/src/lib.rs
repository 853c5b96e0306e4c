//! A request/response RPC layer over an asynchronous publish/subscribe
//! message transport.
//!
//! The crate holds the verified core of an RPC server: a listener registry
//! that maps resource ids to request handlers and enforces uniqueness and
//! filter validity, a request dispatcher that turns an inbound request
//! envelope and the outcome of a handler invocation into exactly one
//! response envelope, and the status model carried by error responses,
//! together with its wire encoding.
//!
//! Delivery mechanics, handler execution and the deadline timer are the
//! embedding application's concern: they are reached through the
//! [`server::Transport`] and [`server::LocalUriProvider`] capabilities, and
//! the dispatcher is driven with the values those produce.

pub mod codec;
pub mod dispatch;
pub mod errors;
pub mod message;
pub mod server;
pub mod ucode;
pub mod uri;
pub mod ustatus;

pub use dispatch::AttributeValidator;
pub use dispatch::DispatchStep;
pub use dispatch::RequestContext;
pub use errors::RegistrationError;
pub use errors::ServiceInvocationError;
pub use message::UAttributes;
pub use message::UMessage;
pub use message::UMessageType;
pub use message::UPayload;
pub use message::UPayloadFormat;
pub use message::UPriority;
pub use message::UUID;
pub use server::InMemoryRpcServer;
pub use server::LocalUriProvider;
pub use server::Transport;
pub use ucode::UCode;
pub use uri::UUri;
pub use ustatus::ProtoAny;
pub use ustatus::UStatus;
