use up_rpc_server::codec::decode_status;
use up_rpc_server::dispatch::dispatch_inbound;
use up_rpc_server::dispatch::dispatch_validated;
use up_rpc_server::dispatch::error_response_for_invalid_request;
use up_rpc_server::dispatch::request_context;
use up_rpc_server::dispatch::response_for_outcome;
use up_rpc_server::AttributeValidator;
use up_rpc_server::DispatchStep;
use up_rpc_server::InMemoryRpcServer;
use up_rpc_server::LocalUriProvider;
use up_rpc_server::ServiceInvocationError;
use up_rpc_server::Transport;
use up_rpc_server::UAttributes;
use up_rpc_server::UCode;
use up_rpc_server::UMessage;
use up_rpc_server::UMessageType;
use up_rpc_server::UPayload;
use up_rpc_server::UPayloadFormat;
use up_rpc_server::UPriority;
use up_rpc_server::UStatus;
use up_rpc_server::UUri;
use up_rpc_server::UUID;

/// The structural rules for request attributes, as the embedding
/// application's validator applies them in these tests: a request must
/// carry its kind, an id, a time-to-live, a method sink and a
/// response-capable source.
struct RequestRuleValidator;

impl AttributeValidator for RequestRuleValidator {
    fn validate_request(&self, attributes: &UAttributes) -> Result<(), String> {
        if attributes.type_ != UMessageType::UMESSAGE_TYPE_REQUEST {
            return Err("not a request message".to_string());
        }
        if attributes.id.is_none() {
            return Err("attributes must contain a message id".to_string());
        }
        if attributes.ttl.is_none() {
            return Err("attributes must contain a TTL".to_string());
        }
        match attributes.sink.as_ref() {
            Some(sink) if sink.is_rpc_method() => {}
            _ => return Err("sink must denote a method".to_string()),
        }
        match attributes.source.as_ref() {
            Some(source) if source.is_rpc_response() => {}
            _ => return Err("source must be response-capable".to_string()),
        }
        Ok(())
    }
}

fn method_sink() -> UUri {
    // up://localhost/A200/1/7000
    UUri {
        authority_name: "localhost".to_string(),
        ue_id: 0xA200,
        ue_version_major: 0x01,
        resource_id: 0x7000,
    }
}

fn response_source() -> UUri {
    // up://localhost/A100/1/0
    UUri {
        authority_name: "localhost".to_string(),
        ue_id: 0xA100,
        ue_version_major: 0x01,
        resource_id: 0,
    }
}

fn message_id() -> UUID {
    UUID {
        msb: 0x0123_4567_89AB_CDEF,
        lsb: 0x8877_6655_4433_2211,
    }
}

fn response_id() -> UUID {
    UUID {
        msb: 0x1111_2222_3333_4444,
        lsb: 0x8000_0000_0000_0001,
    }
}

fn request_attributes(id: Option<UUID>, ttl: Option<u32>) -> UAttributes {
    UAttributes {
        type_: UMessageType::UMESSAGE_TYPE_REQUEST,
        id,
        source: Some(response_source()),
        sink: Some(method_sink()),
        priority: UPriority::UPRIORITY_CS5,
        ttl,
        commstatus: None,
        reqid: None,
        payload_format: UPayloadFormat::UPAYLOAD_FORMAT_TEXT,
    }
}

#[test]
fn test_request_listener_returns_response_for_invalid_request() {
    // a request without a TTL is invalid, but it carries an id and a
    // response-capable source, so it can be answered
    let invalid_request_message = UMessage {
        attributes: Some(request_attributes(Some(message_id()), None)),
        payload: None,
    };

    let step = dispatch_inbound(
        &RequestRuleValidator,
        &invalid_request_message,
        response_id(),
    );
    let response_message = match step {
        DispatchStep::Respond(msg) => msg,
        _ => panic!("expected an error response"),
    };

    assert!(response_message.is_response());
    let attributes = response_message.attributes.as_ref().unwrap();
    assert_eq!(attributes.reqid, Some(message_id()));
    assert_eq!(attributes.commstatus, Some(UCode::INVALID_ARGUMENT.value()));
    let error: UStatus = decode_status(response_message.payload.as_ref().unwrap()).unwrap();
    assert_eq!(error.get_code(), UCode::INVALID_ARGUMENT);
}

#[test]
fn test_request_listener_ignores_invalid_request() {
    // a request without an id is invalid and cannot be answered
    let invalid_request_message = UMessage {
        attributes: Some(request_attributes(None, Some(5_000))),
        payload: None,
    };

    let step = dispatch_inbound(
        &RequestRuleValidator,
        &invalid_request_message,
        response_id(),
    );
    assert!(matches!(step, DispatchStep::Ignore));

    // so is a message without attributes
    let no_attributes = UMessage {
        attributes: None,
        payload: None,
    };
    let step = dispatch_inbound(&RequestRuleValidator, &no_attributes, response_id());
    assert!(matches!(step, DispatchStep::Ignore));
}

#[test]
fn test_request_listener_invokes_operation_successfully() {
    let request_message = UMessage {
        attributes: Some(request_attributes(Some(message_id()), Some(5_000))),
        payload: Some(b"Hello".to_vec()),
    };

    let step = dispatch_inbound(&RequestRuleValidator, &request_message, response_id());
    let context = match step {
        DispatchStep::Invoke(context) => context,
        _ => panic!("expected a handler invocation"),
    };
    assert_eq!(context.resource_id, 0x7000);
    assert_eq!(context.request_id, message_id());
    assert_eq!(context.ttl, 5_000);
    let request_payload = context.payload.expect("request payload missing");
    assert_eq!(request_payload.data, b"Hello".to_vec());

    // the handler answers within the deadline
    let outcome = Ok(Some(UPayload::new(
        b"Hello World".to_vec(),
        UPayloadFormat::UPAYLOAD_FORMAT_TEXT,
    )));
    let response_message = response_for_outcome(
        request_message.attributes.as_ref().unwrap(),
        outcome,
        response_id(),
    );

    assert!(response_message.is_response());
    let attributes = response_message.attributes.as_ref().unwrap();
    assert_eq!(attributes.reqid, Some(message_id()));
    assert!(attributes.commstatus.is_none());
    assert_eq!(response_message.payload, Some(b"Hello World".to_vec()));
}

#[test]
fn test_request_listener_invokes_operation_erroneously() {
    let request_message = UMessage {
        attributes: Some(request_attributes(Some(message_id()), Some(5_000))),
        payload: None,
    };

    let step = dispatch_inbound(&RequestRuleValidator, &request_message, response_id());
    assert!(matches!(step, DispatchStep::Invoke(_)));

    let outcome = Err(ServiceInvocationError::NotFound(
        "no such object".to_string(),
    ));
    let response_message = response_for_outcome(
        request_message.attributes.as_ref().unwrap(),
        outcome,
        response_id(),
    );

    assert!(response_message.is_response());
    let attributes = response_message.attributes.as_ref().unwrap();
    assert_eq!(attributes.reqid, Some(message_id()));
    assert_eq!(attributes.commstatus, Some(UCode::NOT_FOUND.value()));
    let error: UStatus = decode_status(response_message.payload.as_ref().unwrap()).unwrap();
    assert_eq!(error.get_code(), UCode::NOT_FOUND);
    assert_eq!(error.get_message(), "no such object");
}

#[test]
fn test_unspecific_handler_error_maps_to_unknown() {
    let request_message = UMessage {
        attributes: Some(request_attributes(Some(message_id()), Some(5_000))),
        payload: None,
    };
    let outcome = Err(ServiceInvocationError::Other("boom".to_string()));
    let response_message = response_for_outcome(
        request_message.attributes.as_ref().unwrap(),
        outcome,
        response_id(),
    );
    let attributes = response_message.attributes.as_ref().unwrap();
    assert_eq!(attributes.commstatus, Some(UCode::UNKNOWN.value()));
    let error: UStatus = decode_status(response_message.payload.as_ref().unwrap()).unwrap();
    assert_eq!(error.get_code(), UCode::UNKNOWN);
    assert_eq!(error.get_message(), "boom");
}

#[test]
fn test_request_listener_times_out() {
    // make sure this request times out very quickly
    let request_message = UMessage {
        attributes: Some(request_attributes(Some(message_id()), Some(100))),
        payload: None,
    };

    let step = dispatch_inbound(&RequestRuleValidator, &request_message, response_id());
    let context = match step {
        DispatchStep::Invoke(context) => context,
        _ => panic!("expected a handler invocation"),
    };
    assert_eq!(context.ttl, 100);

    // the deadline elapses before the handler completes
    let outcome = Err(ServiceInvocationError::DeadlineExceeded);
    let response_message = response_for_outcome(
        request_message.attributes.as_ref().unwrap(),
        outcome,
        response_id(),
    );

    assert!(response_message.is_response());
    let attributes = response_message.attributes.as_ref().unwrap();
    assert_eq!(attributes.reqid, Some(message_id()));
    assert_eq!(
        attributes.commstatus,
        Some(UCode::DEADLINE_EXCEEDED.value())
    );
    let error: UStatus = decode_status(response_message.payload.as_ref().unwrap()).unwrap();
    assert_eq!(error.get_code(), UCode::DEADLINE_EXCEEDED);
}

/// A request the validator rejects is never handed to a handler, however
/// well-shaped it is: the dispatcher answers it with the synthesized
/// error response instead.
#[test]
fn test_rejected_request_never_reaches_handler() {
    struct RejectingValidator;

    impl AttributeValidator for RejectingValidator {
        fn validate_request(&self, _attributes: &UAttributes) -> Result<(), String> {
            Err("rejected by policy".to_string())
        }
    }

    // fully well-shaped: id, ttl, method sink, response-capable source
    let request_message = UMessage {
        attributes: Some(request_attributes(Some(message_id()), Some(5_000))),
        payload: Some(b"Hello".to_vec()),
    };
    assert!(RequestRuleValidator
        .validate_request(request_message.attributes.as_ref().unwrap())
        .is_ok());

    let step = dispatch_inbound(&RejectingValidator, &request_message, response_id());
    let response_message = match step {
        DispatchStep::Respond(msg) => msg,
        DispatchStep::Invoke(_) => panic!("rejected request must not reach the handler"),
        DispatchStep::Ignore => panic!("addressable rejected request must be answered"),
    };
    let attributes = response_message.attributes.as_ref().unwrap();
    assert_eq!(attributes.commstatus, Some(UCode::INVALID_ARGUMENT.value()));
    let error: UStatus = decode_status(response_message.payload.as_ref().unwrap()).unwrap();
    assert_eq!(error.get_message(), "rejected by policy");
}

/// Each validation result selects exactly one kind of step: a pass
/// invokes when a context exists and ignores otherwise; a failure
/// responds when addressable and ignores otherwise.
#[test]
fn test_step_follows_validation() {
    let well_shaped = UMessage {
        attributes: Some(request_attributes(Some(message_id()), Some(5_000))),
        payload: None,
    };
    let step = dispatch_validated(&well_shaped, Ok(()), response_id());
    assert!(matches!(step, DispatchStep::Invoke(_)));
    let step = dispatch_validated(&well_shaped, Err("bad".to_string()), response_id());
    assert!(matches!(step, DispatchStep::Respond(_)));

    // no sink: no context to invoke on
    let mut no_sink = request_attributes(Some(message_id()), Some(5_000));
    no_sink.sink = None;
    let no_sink_message = UMessage {
        attributes: Some(no_sink),
        payload: None,
    };
    let step = dispatch_validated(&no_sink_message, Ok(()), response_id());
    assert!(matches!(step, DispatchStep::Ignore));

    // no id: a rejection cannot be answered
    let unaddressable = UMessage {
        attributes: Some(request_attributes(None, Some(5_000))),
        payload: None,
    };
    let step = dispatch_validated(&unaddressable, Err("bad".to_string()), response_id());
    assert!(matches!(step, DispatchStep::Ignore));
}

#[test]
fn test_ttl_defaults_when_absent() {
    let request_message = UMessage {
        attributes: Some(request_attributes(Some(message_id()), None)),
        payload: None,
    };
    let context = request_context(&request_message).unwrap();
    assert_eq!(context.ttl, 10_000);
}

#[test]
fn test_error_response_swaps_source_and_sink() {
    let msg = UMessage {
        attributes: Some(request_attributes(Some(message_id()), None)),
        payload: None,
    };
    let response = error_response_for_invalid_request(&msg, "bad request", response_id()).unwrap();
    let attributes = response.attributes.as_ref().unwrap();
    assert_eq!(attributes.sink, Some(response_source()));
    assert_eq!(attributes.source, Some(method_sink()));
    assert_eq!(attributes.priority, UPriority::UPRIORITY_CS4);
    assert_eq!(attributes.id, Some(response_id()));
    let error: UStatus = decode_status(response.payload.as_ref().unwrap()).unwrap();
    assert_eq!(error.get_message(), "bad request");
}

struct AcceptingTransport;

impl Transport for AcceptingTransport {
    fn send(&self, _message: UMessage) -> Result<(), UStatus> {
        Ok(())
    }

    fn register_listener(
        &self,
        _source_filter: &UUri,
        _sink_filter: Option<&UUri>,
    ) -> Result<(), UStatus> {
        Ok(())
    }

    fn unregister_listener(
        &self,
        _source_filter: &UUri,
        _sink_filter: Option<&UUri>,
    ) -> Result<(), UStatus> {
        Ok(())
    }
}

struct LocalProvider;

impl LocalUriProvider for LocalProvider {
    fn get_authority(&self) -> String {
        "localhost".to_string()
    }

    fn get_source_uri(&self) -> UUri {
        response_source()
    }

    fn get_resource_uri(&self, resource_id: u16) -> UUri {
        UUri {
            authority_name: "localhost".to_string(),
            ue_id: 0xA200,
            ue_version_major: 0x01,
            resource_id: resource_id as u32,
        }
    }
}

/// The request/response scenario end to end: an endpoint is registered
/// for resource 0x7000, a request addressed to it is dispatched, the
/// handler greets back, and the response mirrors the request envelope.
#[test]
fn test_request_response_scenario() {
    struct GreetingHandler;

    let mut rpc_server = InMemoryRpcServer::new(AcceptingTransport, LocalProvider);
    assert!(rpc_server
        .register_endpoint(None, 0x7000, GreetingHandler)
        .is_ok());

    let request_message = UMessage {
        attributes: Some(request_attributes(Some(message_id()), Some(5_000))),
        payload: Some(b"Hello".to_vec()),
    };
    let step = dispatch_inbound(&RequestRuleValidator, &request_message, response_id());
    let context = match step {
        DispatchStep::Invoke(context) => context,
        _ => panic!("expected a handler invocation"),
    };
    assert!(rpc_server.contains_endpoint(context.resource_id));

    // the registered handler computes the reply
    let input = String::from_utf8(context.payload.unwrap().payload()).unwrap();
    let reply = format!("{} World", input);
    let outcome = Ok(Some(UPayload::new(
        reply.into_bytes(),
        UPayloadFormat::UPAYLOAD_FORMAT_TEXT,
    )));

    let response_message = response_for_outcome(
        request_message.attributes.as_ref().unwrap(),
        outcome,
        response_id(),
    );
    let attributes = response_message.attributes.as_ref().unwrap();
    assert_eq!(attributes.reqid, Some(message_id()));
    assert_eq!(attributes.sink, Some(response_source()));
    assert_eq!(attributes.source, Some(method_sink()));
    assert!(attributes.commstatus.is_none());
    assert_eq!(response_message.payload, Some(b"Hello World".to_vec()));
}
