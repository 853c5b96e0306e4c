//! Message envelopes: the attribute set and optional payload that travel
//! over the transport.

use vstd::prelude::*;

use crate::uri::UUri;

verus! {

/// A unique message identifier.
#[allow(clippy::upper_case_acronyms)]
#[derive(Clone, Copy, Debug, PartialEq, Eq, Structural)]
pub struct UUID {
    pub msb: u64,
    pub lsb: u64,
}

/// The kind of a message.
#[allow(non_camel_case_types)]
#[derive(Clone, Copy, Debug, PartialEq, Eq, Structural)]
pub enum UMessageType {
    UMESSAGE_TYPE_UNSPECIFIED,
    UMESSAGE_TYPE_PUBLISH,
    UMESSAGE_TYPE_NOTIFICATION,
    UMESSAGE_TYPE_REQUEST,
    UMESSAGE_TYPE_RESPONSE,
}

/// A message's quality-of-service class. `UPRIORITY_CS4` is the highest
/// non-emergency control class, used for synthesized error responses.
#[allow(non_camel_case_types)]
#[derive(Clone, Copy, Debug, PartialEq, Eq, Structural)]
pub enum UPriority {
    UPRIORITY_UNSPECIFIED,
    UPRIORITY_CS0,
    UPRIORITY_CS1,
    UPRIORITY_CS2,
    UPRIORITY_CS3,
    UPRIORITY_CS4,
    UPRIORITY_CS5,
    UPRIORITY_CS6,
}

/// The declared format of a payload.
#[allow(non_camel_case_types)]
#[derive(Clone, Copy, Debug, PartialEq, Eq, Structural)]
pub enum UPayloadFormat {
    UPAYLOAD_FORMAT_UNSPECIFIED,
    UPAYLOAD_FORMAT_PROTOBUF_WRAPPED_IN_ANY,
    UPAYLOAD_FORMAT_PROTOBUF,
    UPAYLOAD_FORMAT_JSON,
    UPAYLOAD_FORMAT_SOMEIP,
    UPAYLOAD_FORMAT_SOMEIP_TLV,
    UPAYLOAD_FORMAT_RAW,
    UPAYLOAD_FORMAT_TEXT,
    UPAYLOAD_FORMAT_SHM,
}

/// A payload together with its declared format.
#[derive(Clone, Debug, PartialEq, Eq)]
pub struct UPayload {
    pub payload_format: UPayloadFormat,
    pub data: Vec<u8>,
}

impl UPayload {
    /// Creates a payload from raw bytes and their format.
    pub fn new(data: Vec<u8>, payload_format: UPayloadFormat) -> (r: UPayload)
        ensures
            r.data@ == data@,
            r.payload_format == payload_format,
    {
        UPayload { payload_format, data }
    }

    /// The declared format of the payload.
    pub fn payload_format(&self) -> (r: UPayloadFormat)
        ensures
            r == self.payload_format,
    {
        self.payload_format
    }

    /// The payload bytes.
    pub fn payload(self) -> (r: Vec<u8>)
        ensures
            r@ == self.data@,
    {
        self.data
    }
}

/// The attribute set of a message envelope.
#[derive(Clone, Debug, PartialEq, Eq)]
pub struct UAttributes {
    pub type_: UMessageType,
    pub id: Option<UUID>,
    pub source: Option<UUri>,
    pub sink: Option<UUri>,
    pub priority: UPriority,
    pub ttl: Option<u32>,
    pub commstatus: Option<i32>,
    pub reqid: Option<UUID>,
    pub payload_format: UPayloadFormat,
}

/// A message envelope: attributes plus optional payload bytes.
#[derive(Clone, Debug, PartialEq, Eq)]
pub struct UMessage {
    pub attributes: Option<UAttributes>,
    pub payload: Option<Vec<u8>>,
}

impl UMessage {
    /// Checks whether this message is a response envelope.
    pub fn is_response(&self) -> (r: bool)
        ensures
            r == (self.attributes matches Some(a) && a.type_
                == UMessageType::UMESSAGE_TYPE_RESPONSE),
    {
        match self.attributes.as_ref() {
            Some(a) => a.type_ == UMessageType::UMESSAGE_TYPE_RESPONSE,
            None => false,
        }
    }
}

} // verus!
