//! The virtual network service.
use crate::json::JsonValue;
use vstd::prelude::*;

verus! {

/// The service that manages virtual networks.
#[derive(Debug)]
pub struct VirtualNetworkService;

impl VirtualNetworkService {
    /// The path segment the service is mounted under.
    pub fn name(&self) -> (r: &'static str)
        ensures
            r@ == "virtual_network"@,
    {
        "virtual_network"
    }
}

/// The body of the virtual network endpoint's reply: `{"service": <the service's name>}`.
pub fn virtual_network() -> (r: JsonValue)
    ensures
        r matches JsonValue::Object(members) && members@.len() == 1 && members@[0].0@ == "service"@
            && (members@[0].1 matches JsonValue::String(s) && s@ == "virtual_network"@),
{
    let mut members: Vec<(String, JsonValue)> = Vec::new();
    members.push(
        (String::from_str("service"), JsonValue::String(String::from_str(VirtualNetworkService.name()))),
    );
    JsonValue::Object(members)
}

} // verus!
