//! The listener registry: one handler per resource id, validated filters,
//! and a check-then-insert transaction around the transport's listener
//! registration capability.

use std::collections::HashMap;

use vstd::prelude::*;

use crate::errors::RegistrationError;
use crate::message::UMessage;
use crate::uri::is_rpc_method_spec;
use crate::uri::is_rpc_response_spec;
use crate::uri::UUri;
use crate::ustatus::UStatus;

verus! {

broadcast use vstd::std_specs::hash::group_hash_axioms;

/// The message transport underneath the RPC server. Implementations are
/// supplied by the embedding application; nothing is assumed of their
/// behaviour beyond their signatures, and the registry handles every
/// outcome they can produce.
pub trait Transport {
    /// Sends a message.
    fn send(&self, message: UMessage) -> Result<(), UStatus>;

    /// Starts delivering messages that match the given filters.
    fn register_listener(&self, source_filter: &UUri, sink_filter: Option<&UUri>) -> Result<
        (),
        UStatus,
    >;

    /// Stops delivering messages that match the given filters.
    fn unregister_listener(&self, source_filter: &UUri, sink_filter: Option<&UUri>) -> Result<
        (),
        UStatus,
    >;
}

/// The local addressing authority: it turns a resource id into the address
/// under which the local participant serves that resource.
pub trait LocalUriProvider {
    /// The authority name of the local participant.
    fn get_authority(&self) -> String;

    /// The address of the local participant itself.
    fn get_source_uri(&self) -> UUri;

    /// The address of a resource of the local participant. An
    /// implementation is obliged to embed the given resource id in the
    /// address's resource-id field; everything else about the address is
    /// its own.
    fn get_resource_uri(&self, resource_id: u16) -> (r: UUri)
        ensures
            r.resource_id == resource_id as u32,
    ;
}

/// True when an origin filter is acceptable: absent, or denoting a
/// response-capable address.
pub open spec fn origin_filter_ok(filter: Option<UUri>) -> bool {
    match filter {
        Some(uri) => is_rpc_response_spec(uri),
        None => true,
    }
}

/// True when a resource id lies in the method range.
pub open spec fn method_resource_id_ok(resource_id: u16) -> bool {
    1 <= resource_id <= 0x7FFF
}

/// The value of an optional borrowed address, for use in contracts.
pub open spec fn filter_value(filter: Option<&UUri>) -> Option<UUri> {
    match filter {
        Some(uri) => Some(*uri),
        None => None,
    }
}

/// What the registry decides for a registration or deregistration
/// attempt, before the transport is consulted.
#[derive(Clone, Copy, Debug, PartialEq, Eq, Structural)]
pub enum RegistrationDecision {
    /// The origin filter does not denote a response-capable address.
    RejectOrigin,
    /// The resource id lies outside the method range.
    RejectResource,
    /// The resource id already has a handler (registration only).
    RejectDuplicate,
    /// The resource id has no handler (deregistration only).
    RejectMissing,
    /// The attempt passes validation; the outcome now rests with the
    /// transport.
    Proceed,
}

/// The registry's decision for a registration attempt against the set of
/// already-registered resource ids.
pub open spec fn register_decision(
    registered: Set<u16>,
    origin_filter: Option<UUri>,
    resource_id: u16,
) -> RegistrationDecision {
    if !origin_filter_ok(origin_filter) {
        RegistrationDecision::RejectOrigin
    } else if !method_resource_id_ok(resource_id) {
        RegistrationDecision::RejectResource
    } else if registered.contains(resource_id) {
        RegistrationDecision::RejectDuplicate
    } else {
        RegistrationDecision::Proceed
    }
}

/// The registry's decision for a deregistration attempt against the set
/// of already-registered resource ids.
pub open spec fn unregister_decision(
    registered: Set<u16>,
    origin_filter: Option<UUri>,
    resource_id: u16,
) -> RegistrationDecision {
    if !origin_filter_ok(origin_filter) {
        RegistrationDecision::RejectOrigin
    } else if !method_resource_id_ok(resource_id) {
        RegistrationDecision::RejectResource
    } else if !registered.contains(resource_id) {
        RegistrationDecision::RejectMissing
    } else {
        RegistrationDecision::Proceed
    }
}

/// The reason text carried when an origin filter fails validation.
pub open spec fn origin_filter_error_text() -> Seq<char> {
    "origin filter's resource ID must be 0"@
}

/// The reason text carried when a sink filter fails validation.
pub open spec fn sink_filter_error_text() -> Seq<char> {
    "RPC endpoint's resource ID must be in range [0x0001, 0x7FFF]"@
}

/// Validates that a sink filter denotes a method endpoint.
pub fn validate_sink_filter(filter: &UUri) -> (r: Result<(), RegistrationError>)
    ensures
        is_rpc_method_spec(*filter) ==> r is Ok,
        !is_rpc_method_spec(*filter) ==> (r matches Err(RegistrationError::InvalidFilter(m))
            && m@ == sink_filter_error_text()),
{
    if !filter.is_rpc_method() {
        return Err(
            RegistrationError::InvalidFilter(
                "RPC endpoint's resource ID must be in range [0x0001, 0x7FFF]".to_owned(),
            ),
        );
    }
    Ok(())
}

/// Validates that an origin filter, if present, denotes a
/// response-capable address.
pub fn validate_origin_filter(filter: Option<&UUri>) -> (r: Result<(), RegistrationError>)
    ensures
        origin_filter_ok(filter_value(filter)) ==> r is Ok,
        !origin_filter_ok(filter_value(filter)) ==> (r matches Err(
            RegistrationError::InvalidFilter(m),
        ) && m@ == origin_filter_error_text()),
{
    if let Some(uri) = filter {
        if !uri.is_rpc_response() {
            return Err(
                RegistrationError::InvalidFilter("origin filter's resource ID must be 0".to_owned()),
            );
        }
    }
    Ok(())
}

/// An RPC server over a transport: it owns the resource-id → handler map
/// and bridges endpoint (de)registration to the transport's listener
/// capability.
///
/// The registry itself is touched only at setup and teardown; an
/// embedding that registers endpoints concurrently must serialize the
/// calls, so that the check-then-insert sequence stays atomic.
pub struct InMemoryRpcServer<T: Transport, P: LocalUriProvider, H> {
    transport: T,
    uri_provider: P,
    request_listeners: HashMap<u16, H>,
}

impl<T: Transport, P: LocalUriProvider, H> InMemoryRpcServer<T, P, H> {
    /// The resource-id → handler map, as a spec-level projection.
    pub closed spec fn endpoints(&self) -> Map<u16, H> {
        self.request_listeners@
    }

    /// Creates a new RPC server for a given transport, with no endpoint
    /// registered.
    pub fn new(transport: T, uri_provider: P) -> (r: Self)
        ensures
            r.endpoints() == Map::<u16, H>::empty(),
    {
        InMemoryRpcServer { transport, uri_provider, request_listeners: HashMap::new() }
    }

    /// Checks whether a handler is registered for a resource id.
    pub fn contains_endpoint(&self, resource_id: u16) -> (r: bool)
        ensures
            r == self.endpoints().contains_key(resource_id),
    {
        self.request_listeners.contains_key(&resource_id)
    }

    /// Registers a handler as the endpoint for a resource id.
    ///
    /// The origin filter, if given, must denote a response-capable
    /// address, and the local addressing authority's address for the
    /// resource id must denote a method endpoint; otherwise the attempt is
    /// rejected as `InvalidFilter` without consulting the transport. A
    /// resource id that already has a handler is rejected as
    /// `MaxListenersExceeded`. Otherwise the transport is asked to deliver
    /// matching requests, and only on its success is the handler recorded;
    /// a transport failure leaves the registry unchanged and is surfaced
    /// as `TransportError`.
    pub fn register_endpoint(
        &mut self,
        origin_filter: Option<&UUri>,
        resource_id: u16,
        request_handler: H,
    ) -> (r: Result<(), RegistrationError>)
        ensures
            ({
                let decision = register_decision(
                    old(self).endpoints().dom(),
                    filter_value(origin_filter),
                    resource_id,
                );
                &&& decision == RegistrationDecision::RejectOrigin ==> (r matches Err(
                    RegistrationError::InvalidFilter(m),
                ) && m@ == origin_filter_error_text())
                &&& decision == RegistrationDecision::RejectResource ==> (r matches Err(
                    RegistrationError::InvalidFilter(m),
                ) && m@ == sink_filter_error_text())
                &&& decision == RegistrationDecision::RejectDuplicate ==> r == Err::<
                    (),
                    RegistrationError,
                >(RegistrationError::MaxListenersExceeded)
                &&& decision != RegistrationDecision::Proceed ==> final(self).endpoints()
                    == old(self).endpoints()
                &&& decision == RegistrationDecision::Proceed ==> match r {
                    Ok(()) => final(self).endpoints() == old(self).endpoints().insert(
                        resource_id,
                        request_handler,
                    ),
                    Err(e) => (e matches RegistrationError::TransportError(_))
                        && final(self).endpoints() == old(self).endpoints(),
                }
            }),
    {
        if let Err(e) = validate_origin_filter(origin_filter) {
            return Err(e);
        }
        let sink_filter = self.uri_provider.get_resource_uri(resource_id);
        if let Err(e) = validate_sink_filter(&sink_filter) {
            return Err(e);
        }
        if self.request_listeners.contains_key(&resource_id) {
            return Err(RegistrationError::MaxListenersExceeded);
        }
        let result = match origin_filter {
            Some(uri) => self.transport.register_listener(uri, Some(&sink_filter)),
            None => {
                let any_uri = UUri::any();
                self.transport.register_listener(&any_uri, Some(&sink_filter))
            },
        };
        match result {
            Ok(()) => {
                self.request_listeners.insert(resource_id, request_handler);
                Ok(())
            },
            Err(status) => Err(RegistrationError::from_transport_status(status)),
        }
    }

    /// Removes the endpoint registered for a resource id.
    ///
    /// The filters are validated as for registration. A resource id
    /// without a handler is rejected as `NoSuchListener`. Otherwise the
    /// transport is asked to stop delivery, and only on its success is the
    /// entry removed; a transport failure retains the entry and is
    /// surfaced as `TransportError`.
    pub fn unregister_endpoint(
        &mut self,
        origin_filter: Option<&UUri>,
        resource_id: u16,
        _request_handler: &H,
    ) -> (r: Result<(), RegistrationError>)
        ensures
            ({
                let decision = unregister_decision(
                    old(self).endpoints().dom(),
                    filter_value(origin_filter),
                    resource_id,
                );
                &&& decision == RegistrationDecision::RejectOrigin ==> (r matches Err(
                    RegistrationError::InvalidFilter(m),
                ) && m@ == origin_filter_error_text())
                &&& decision == RegistrationDecision::RejectResource ==> (r matches Err(
                    RegistrationError::InvalidFilter(m),
                ) && m@ == sink_filter_error_text())
                &&& decision == RegistrationDecision::RejectMissing ==> r == Err::<
                    (),
                    RegistrationError,
                >(RegistrationError::NoSuchListener)
                &&& decision != RegistrationDecision::Proceed ==> final(self).endpoints()
                    == old(self).endpoints()
                &&& decision == RegistrationDecision::Proceed ==> match r {
                    Ok(()) => final(self).endpoints() == old(self).endpoints().remove(resource_id),
                    Err(e) => (e matches RegistrationError::TransportError(_))
                        && final(self).endpoints() == old(self).endpoints(),
                }
            }),
    {
        if let Err(e) = validate_origin_filter(origin_filter) {
            return Err(e);
        }
        let sink_filter = self.uri_provider.get_resource_uri(resource_id);
        if let Err(e) = validate_sink_filter(&sink_filter) {
            return Err(e);
        }
        if !self.request_listeners.contains_key(&resource_id) {
            return Err(RegistrationError::NoSuchListener);
        }
        let result = match origin_filter {
            Some(uri) => self.transport.unregister_listener(uri, Some(&sink_filter)),
            None => {
                let any_uri = UUri::any();
                self.transport.unregister_listener(&any_uri, Some(&sink_filter))
            },
        };
        match result {
            Ok(()) => {
                self.request_listeners.remove(&resource_id);
                Ok(())
            },
            Err(status) => Err(RegistrationError::from_transport_status(status)),
        }
    }
}

/// Law: once a handler is registered for a resource id, a further
/// registration attempt for the same id is rejected as a duplicate,
/// whatever acceptable origin filter it carries — and the recorded handler
/// is still the original one.
pub proof fn lemma_register_twice_rejected<H>(
    registered: Map<u16, H>,
    origin_filter: Option<UUri>,
    resource_id: u16,
    handler: H,
)
    requires
        origin_filter_ok(origin_filter),
        method_resource_id_ok(resource_id),
    ensures
        register_decision(registered.insert(resource_id, handler).dom(), origin_filter, resource_id)
            == RegistrationDecision::RejectDuplicate,
        registered.insert(resource_id, handler)[resource_id] == handler,
{
}

/// Law: a deregistration attempt for a resource id that has no handler is
/// rejected as missing, whatever acceptable origin filter it carries.
pub proof fn lemma_unregister_unknown_rejected(
    registered: Set<u16>,
    origin_filter: Option<UUri>,
    resource_id: u16,
)
    requires
        origin_filter_ok(origin_filter),
        method_resource_id_ok(resource_id),
        !registered.contains(resource_id),
    ensures
        unregister_decision(registered, origin_filter, resource_id)
            == RegistrationDecision::RejectMissing,
{
}

/// Law: a resource id outside the method range, or an origin filter whose
/// resource id is not zero, is rejected by both registration and
/// deregistration before the registry or the transport is touched,
/// whatever the state of the registry.
pub proof fn lemma_invalid_filter_rejected(
    registered: Set<u16>,
    origin_filter: Option<UUri>,
    resource_id: u16,
)
    requires
        !origin_filter_ok(origin_filter) || !method_resource_id_ok(resource_id),
    ensures
        register_decision(registered, origin_filter, resource_id)
            == RegistrationDecision::RejectOrigin || register_decision(
            registered,
            origin_filter,
            resource_id,
        ) == RegistrationDecision::RejectResource,
        register_decision(registered, origin_filter, resource_id) == unregister_decision(
            registered,
            origin_filter,
            resource_id,
        ),
{
}

} // verus!
