//! The container service.
use vstd::prelude::*;

verus! {

/// A running container, as the listing playbook reports it.
#[derive(Debug)]
pub struct Container {
    pub names: String,
    pub image: String,
    pub state: String,
}

/// The service that lists containers.
#[derive(Debug)]
pub struct ContainerService;

impl ContainerService {
    /// The path segment the service is mounted under.
    pub fn name(&self) -> (r: &'static str)
        ensures
            r@ == "container"@,
    {
        "container"
    }
}

/// The body of the reply when the containers could not be listed.
pub fn listing_error_body() -> (r: &'static str)
    ensures
        r@ == "{\"error\":\"Failed to retrieve container information.\"}"@,
{
    "{\"error\":\"Failed to retrieve container information.\"}"
}

} // verus!
