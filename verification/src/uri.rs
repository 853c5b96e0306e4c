//! Addresses in the local participant's address space.

use vstd::prelude::*;

verus! {

/// The upper end of the resource-id range that denotes a method endpoint.
pub const METHOD_ID_MAX: u32 = 0x7FFF;

/// An address: an authority, an entity id, an entity version and a
/// resource id.
///
/// The resource id selects what the address denotes: `0` is a
/// response-capable address, a value in `[1, 0x7FFF]` a method endpoint.
#[derive(Clone, Debug, PartialEq, Eq)]
pub struct UUri {
    pub authority_name: String,
    pub ue_id: u32,
    pub ue_version_major: u32,
    pub resource_id: u32,
}

/// True when the address denotes a method endpoint: its resource id lies
/// in `[1, 0x7FFF]`.
pub open spec fn is_rpc_method_spec(uri: UUri) -> bool {
    1 <= uri.resource_id <= METHOD_ID_MAX
}

/// True when the address is response-capable: its resource id is zero.
pub open spec fn is_rpc_response_spec(uri: UUri) -> bool {
    uri.resource_id == 0
}

impl UUri {
    /// Checks whether this address denotes a method endpoint.
    pub fn is_rpc_method(&self) -> (r: bool)
        ensures
            r == is_rpc_method_spec(*self),
    {
        1 <= self.resource_id && self.resource_id <= METHOD_ID_MAX
    }

    /// Checks whether this address is response-capable.
    pub fn is_rpc_response(&self) -> (r: bool)
        ensures
            r == is_rpc_response_spec(*self),
    {
        self.resource_id == 0
    }

    /// Returns the wildcard address, which matches any origin.
    pub fn any() -> (r: UUri)
        ensures
            r.authority_name@ == "*"@,
            r.ue_id == 0xFFFF_FFFFu32,
            r.ue_version_major == 0xFFu32,
            r.resource_id == 0xFFFFu32,
    {
        UUri {
            authority_name: "*".to_owned(),
            ue_id: 0xFFFF_FFFF,
            ue_version_major: 0xFF,
            resource_id: 0xFFFF,
        }
    }

    /// Returns a copy of this address.
    pub fn duplicate(&self) -> (r: UUri)
        ensures
            r == *self,
    {
        UUri {
            authority_name: self.authority_name.clone(),
            ue_id: self.ue_id,
            ue_version_major: self.ue_version_major,
            resource_id: self.resource_id,
        }
    }
}

/// Returns a copy of an optional address.
pub fn duplicate_uri_option(uri: &Option<UUri>) -> (r: Option<UUri>)
    ensures
        r == *uri,
{
    match uri {
        Some(u) => Some(u.duplicate()),
        None => None,
    }
}

} // verus!
