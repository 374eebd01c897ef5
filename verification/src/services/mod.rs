//! The services the portal offers.
pub mod container;
pub mod virtual_network;

use vstd::prelude::*;

use self::container::ContainerService;
use self::virtual_network::VirtualNetworkService;

verus! {

/// The names of the services mounted under `/api/<name>` and listed in the portal, in
/// order: the container service and the virtual network service.
pub fn all_service_names() -> (r: Vec<String>)
    ensures
        r@.len() == 2,
        r@[0]@ == "container"@,
        r@[1]@ == "virtual_network"@,
{
    let mut r: Vec<String> = Vec::new();
    r.push(String::from_str(ContainerService.name()));
    r.push(String::from_str(VirtualNetworkService.name()));
    r
}

} // verus!
