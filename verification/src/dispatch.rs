//! The request dispatcher: what the server decides for every inbound
//! message. It validates the envelope, extracts the invocation context of
//! a valid request, and turns the outcome of the raced handler invocation
//! into exactly one response envelope — or none, when an invalid message
//! carries too little addressing information to answer.
//!
//! Running the handler against its deadline, and sending what is built
//! here, is the embedding application's part; the functions here supply
//! every decision on the way.

use vstd::prelude::*;

use crate::codec::encode_status;
use crate::codec::model_bytes;
use crate::codec::status_model;
use crate::codec::AnyModel;
use crate::codec::StatusModel;
use crate::errors::invocation_error_code;
use crate::errors::invocation_error_message;
use crate::errors::status_for_invocation_error;
use crate::errors::ServiceInvocationError;
use crate::message::UAttributes;
use crate::message::UMessage;
use crate::message::UMessageType;
use crate::message::UPayload;
use crate::message::UPayloadFormat;
use crate::message::UPriority;
use crate::message::UUID;
use crate::ucode::code_value;
use crate::ucode::UCode;
use crate::uri::duplicate_uri_option;
use crate::uri::is_rpc_response_spec;

verus! {

/// The deadline, in the protocol's time unit, given to a request that
/// carries no time-to-live of its own.
pub const DEFAULT_TTL: u32 = 10_000;

/// What the dispatcher extracts from a valid request envelope: the
/// resource id addressed by the sink, the id to correlate the response
/// with, the deadline for the handler, and the request payload.
pub struct RequestContext {
    pub resource_id: u16,
    pub request_id: UUID,
    pub ttl: u32,
    pub payload: Option<UPayload>,
}

/// True when two optional payloads carry the same format and bytes.
pub open spec fn payload_like(a: Option<UPayload>, b: Option<UPayload>) -> bool {
    match (a, b) {
        (Some(x), Some(y)) => x.payload_format == y.payload_format && x.data@ == y.data@,
        (None, None) => true,
        _ => false,
    }
}

/// The invocation context that a message denotes: present when the
/// message has attributes and a sink whose resource id fits the method
/// selector width. The correlation id falls back to the all-zero id, and
/// the deadline to [`DEFAULT_TTL`], when the envelope leaves them out.
pub open spec fn context_model(msg: UMessage) -> Option<RequestContext> {
    match msg.attributes {
        None => None,
        Some(a) => match a.sink {
            None => None,
            Some(sink) => {
                if sink.resource_id > 0xFFFF {
                    None
                } else {
                    Some(
                        RequestContext {
                            resource_id: sink.resource_id as u16,
                            request_id: match a.id {
                                Some(id) => id,
                                None => UUID { msb: 0, lsb: 0 },
                            },
                            ttl: match a.ttl {
                                Some(t) => t,
                                None => DEFAULT_TTL,
                            },
                            payload: match msg.payload {
                                Some(data) => Some(
                                    UPayload { payload_format: a.payload_format, data },
                                ),
                                None => None,
                            },
                        },
                    )
                }
            },
        },
    }
}

/// Extracts the invocation context of a valid request message, exactly as
/// [`context_model`] assigns it.
pub fn request_context(msg: &UMessage) -> (r: Option<RequestContext>)
    ensures
        (r is Some) == (context_model(*msg) is Some),
        r matches Some(c) ==> (context_model(*msg) matches Some(m) && {
            &&& c.resource_id == m.resource_id
            &&& c.request_id == m.request_id
            &&& c.ttl == m.ttl
            &&& payload_like(c.payload, m.payload)
        }),
{
    let attributes = match msg.attributes.as_ref() {
        Some(a) => a,
        None => {
            return None;
        },
    };
    let sink = match attributes.sink.as_ref() {
        Some(s) => s,
        None => {
            return None;
        },
    };
    if sink.resource_id > 0xFFFF {
        return None;
    }
    let payload = match msg.payload.as_ref() {
        Some(data) => {
            let copy = data.clone();
            assert(copy@ =~= data@);
            Some(UPayload::new(copy, attributes.payload_format))
        },
        None => None,
    };
    Some(
        RequestContext {
            resource_id: sink.resource_id as u16,
            request_id: match attributes.id {
                Some(id) => id,
                None => UUID { msb: 0, lsb: 0 },
            },
            ttl: match attributes.ttl {
                Some(t) => t,
                None => DEFAULT_TTL,
            },
            payload,
        },
    )
}

/// The status model carried by an error response: the mapped code, the
/// preserved free text, no details.
pub open spec fn invocation_error_status(e: ServiceInvocationError) -> StatusModel {
    StatusModel {
        code: code_value(invocation_error_code(e)),
        message: invocation_error_message(e),
        details: Seq::<AnyModel>::empty(),
    }
}

/// Builds the one response envelope for a request whose invocation ended
/// in the given outcome.
///
/// The response mirrors the request: its correlation id is the request's
/// id, its source and sink are the request's sink and source swapped, and
/// priority and time-to-live are carried over. A successful outcome
/// echoes the reply payload and leaves the comm-status out; a failed one
/// carries the mapped status code and the serialized status object as its
/// payload.
pub fn response_for_outcome(
    request_attrs: &UAttributes,
    outcome: Result<Option<UPayload>, ServiceInvocationError>,
    response_id: UUID,
) -> (r: UMessage)
    requires
        request_attrs.id is Some,
        request_attrs.source is Some,
        request_attrs.sink is Some,
    ensures
        r.attributes matches Some(ra) && {
            &&& ra.type_ == UMessageType::UMESSAGE_TYPE_RESPONSE
            &&& ra.id == Some(response_id)
            &&& ra.reqid == request_attrs.id
            &&& ra.source == request_attrs.sink
            &&& ra.sink == request_attrs.source
            &&& ra.priority == request_attrs.priority
            &&& ra.ttl == request_attrs.ttl
            &&& match outcome {
                Ok(reply) => {
                    &&& ra.commstatus is None
                    &&& match reply {
                        Some(pl) => ra.payload_format == pl.payload_format && (
                        r.payload matches Some(data) && data@ == pl.data@)
                        ,
                        None => ra.payload_format == UPayloadFormat::UPAYLOAD_FORMAT_UNSPECIFIED
                            && r.payload is None,
                    }
                },
                Err(e) => {
                    &&& (ra.commstatus matches Some(cs) && cs == code_value(
                        invocation_error_code(e),
                    ))
                    &&& ra.payload_format == UPayloadFormat::UPAYLOAD_FORMAT_PROTOBUF
                    &&& (r.payload matches Some(data) && data@ == model_bytes(
                        invocation_error_status(e),
                    ))
                },
            }
        },
{
    let (commstatus, payload_format, payload): (Option<i32>, UPayloadFormat, Option<Vec<u8>>) =
        match outcome {
        Ok(reply) => match reply {
            Some(pl) => {
                let format = pl.payload_format();
                (None, format, Some(pl.payload()))
            },
            None => (None, UPayloadFormat::UPAYLOAD_FORMAT_UNSPECIFIED, None),
        },
        Err(e) => {
            let status = status_for_invocation_error(&e);
            let bytes = encode_status(&status);
            proof {
                assert(status_model(status).details =~= Seq::<AnyModel>::empty());
                assert(status_model(status) == invocation_error_status(e));
            }
            (Some(status.code), UPayloadFormat::UPAYLOAD_FORMAT_PROTOBUF, Some(bytes))
        },
    };
    let attributes = UAttributes {
        type_: UMessageType::UMESSAGE_TYPE_RESPONSE,
        id: Some(response_id),
        source: duplicate_uri_option(&request_attrs.sink),
        sink: duplicate_uri_option(&request_attrs.source),
        priority: request_attrs.priority,
        ttl: request_attrs.ttl,
        commstatus,
        reqid: request_attrs.id,
        payload_format,
    };
    UMessage { attributes: Some(attributes), payload }
}

/// True when an invalid message still carries what a reply needs: an id
/// to correlate with, and a response-capable source address to send to.
pub open spec fn invalid_request_addressable(msg: UMessage) -> bool {
    match msg.attributes {
        Some(a) => a.id is Some && match a.source {
            Some(src) => is_rpc_response_spec(src),
            None => false,
        },
        None => false,
    }
}

/// The shape of the error response synthesized for an invalid request
/// that carries the given reason text.
pub open spec fn invalid_request_response(
    msg: UMessage,
    resp: UMessage,
    response_id: UUID,
    reason: Seq<char>,
) -> bool {
    msg.attributes matches Some(a) && resp.attributes matches Some(ra) && {
        &&& ra.type_ == UMessageType::UMESSAGE_TYPE_RESPONSE
        &&& ra.id == Some(response_id)
        &&& ra.reqid == a.id
        &&& ra.sink == a.source
        &&& ra.source == a.sink
        &&& ra.priority == UPriority::UPRIORITY_CS4
        &&& ra.ttl is None
        &&& (ra.commstatus matches Some(cs) && cs == code_value(UCode::INVALID_ARGUMENT))
        &&& ra.payload_format == UPayloadFormat::UPAYLOAD_FORMAT_PROTOBUF
        &&& (resp.payload matches Some(data) && data@ == model_bytes(
            StatusModel {
                code: code_value(UCode::INVALID_ARGUMENT),
                message: Some(reason),
                details: Seq::<AnyModel>::empty(),
            },
        ))
    }
}

/// Synthesizes the error response for a structurally invalid request, or
/// nothing when the message carries too little addressing information.
///
/// A response is produced exactly when the message has an id and a
/// response-capable source; it correlates with that id, goes back to that
/// source, and carries the validator's reason text inside a serialized
/// status object with the invalid-argument code.
pub fn error_response_for_invalid_request(
    msg: &UMessage,
    error_message: &str,
    response_id: UUID,
) -> (r: Option<UMessage>)
    ensures
        (r is Some) == invalid_request_addressable(*msg),
        r matches Some(resp) ==> invalid_request_response(*msg, resp, response_id, error_message@),
{
    let attributes = match msg.attributes.as_ref() {
        Some(a) => a,
        None => {
            return None;
        },
    };
    if attributes.id.is_none() {
        return None;
    }
    let source_ok = match attributes.source.as_ref() {
        Some(src) => src.is_rpc_response(),
        None => false,
    };
    if !source_ok {
        return None;
    }
    let status = crate::ustatus::UStatus::fail_with_code(UCode::INVALID_ARGUMENT, error_message);
    let bytes = encode_status(&status);
    proof {
        assert(status_model(status).details =~= Seq::<AnyModel>::empty());
        assert(status_model(status) == StatusModel {
            code: code_value(UCode::INVALID_ARGUMENT),
            message: Some(error_message@),
            details: Seq::<AnyModel>::empty(),
        });
    }
    let response_attributes = UAttributes {
        type_: UMessageType::UMESSAGE_TYPE_RESPONSE,
        id: Some(response_id),
        source: duplicate_uri_option(&attributes.sink),
        sink: duplicate_uri_option(&attributes.source),
        priority: UPriority::UPRIORITY_CS4,
        ttl: None,
        commstatus: Some(status.code),
        reqid: attributes.id,
        payload_format: UPayloadFormat::UPAYLOAD_FORMAT_PROTOBUF,
    };
    Some(UMessage { attributes: Some(response_attributes), payload: Some(bytes) })
}

/// The structural well-formedness check for inbound request attributes.
/// The rule set itself is an external capability: implementations are
/// supplied by the embedding application, and the dispatcher only acts on
/// the result.
pub trait AttributeValidator {
    /// Checks a request's attributes, returning the reason text on
    /// failure.
    fn validate_request(&self, attributes: &UAttributes) -> Result<(), String>;
}

/// What the dispatcher decides for one inbound message.
pub enum DispatchStep {
    /// A valid request: invoke the handler under the context's deadline,
    /// then build the response with [`response_for_outcome`].
    Invoke(RequestContext),
    /// An invalid but addressable request: send this error response.
    Respond(UMessage),
    /// A message that cannot be answered: drop it.
    Ignore,
}

/// The step that the dispatcher owes for a message under a given
/// validation result: the handler is invoked if and only if validation
/// passed and the message denotes a context; a message that failed
/// validation is answered with the synthesized error response carrying
/// the validator's reason if and only if it is addressable; everything
/// else is dropped.
pub open spec fn step_for_validation(
    msg: UMessage,
    validation: Result<(), String>,
    response_id: UUID,
    r: DispatchStep,
) -> bool {
    match validation {
        Ok(()) => match context_model(msg) {
            Some(m) => r matches DispatchStep::Invoke(ctx) && {
                &&& ctx.resource_id == m.resource_id
                &&& ctx.request_id == m.request_id
                &&& ctx.ttl == m.ttl
                &&& payload_like(ctx.payload, m.payload)
            },
            None => r is Ignore,
        },
        Err(reason) => {
            if invalid_request_addressable(msg) {
                r matches DispatchStep::Respond(resp) && invalid_request_response(
                    msg,
                    resp,
                    response_id,
                    reason@,
                )
            } else {
                r is Ignore
            }
        },
    }
}

/// Decides what to do with one inbound message once validation has
/// spoken: a message that passed yields its invocation context and never
/// an error response; one that failed never reaches a handler, and is
/// answered exactly when it is addressable.
pub fn dispatch_validated(
    msg: &UMessage,
    validation: Result<(), String>,
    response_id: UUID,
) -> (r: DispatchStep)
    ensures
        step_for_validation(*msg, validation, response_id, r),
{
    match validation {
        Ok(()) => match request_context(msg) {
            Some(ctx) => DispatchStep::Invoke(ctx),
            None => DispatchStep::Ignore,
        },
        Err(reason) => match error_response_for_invalid_request(msg, reason.as_str(), response_id) {
            Some(resp) => DispatchStep::Respond(resp),
            None => DispatchStep::Ignore,
        },
    }
}

/// Decides what to do with one inbound message: a message without
/// attributes is dropped; everything else is routed through
/// [`dispatch_validated`], so the step follows [`step_for_validation`]
/// for whatever the validator returned.
pub fn dispatch_inbound<V: AttributeValidator>(
    validator: &V,
    msg: &UMessage,
    response_id: UUID,
) -> (r: DispatchStep)
    ensures
        msg.attributes is None ==> r is Ignore,
        msg.attributes is Some ==> exists|validation: Result<(), String>|
            #[trigger] step_for_validation(*msg, validation, response_id, r),
        match r {
            DispatchStep::Ignore => !invalid_request_addressable(*msg) || context_model(*msg)
                is None,
            DispatchStep::Respond(resp) => invalid_request_addressable(*msg) && (exists|
                reason: Seq<char>,
            |
                invalid_request_response(*msg, resp, response_id, reason)),
            DispatchStep::Invoke(ctx) => context_model(*msg) matches Some(m) && {
                &&& ctx.resource_id == m.resource_id
                &&& ctx.request_id == m.request_id
                &&& ctx.ttl == m.ttl
                &&& payload_like(ctx.payload, m.payload)
            },
        },
{
    let attributes = match msg.attributes.as_ref() {
        Some(a) => a,
        None => {
            return DispatchStep::Ignore;
        },
    };
    let validation = validator.validate_request(attributes);
    let ghost given_validation = validation;
    let step = dispatch_validated(msg, validation, response_id);
    proof {
        assert(step_for_validation(*msg, given_validation, response_id, step));
        match given_validation {
            Err(reason) => {
                let s = step;
                match s {
                    DispatchStep::Respond(resp) => {
                        assert(invalid_request_response(*msg, resp, response_id, reason@));
                    },
                    _ => {},
                }
            },
            _ => {},
        }
    }
    step
}

} // verus!
