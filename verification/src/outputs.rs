//! What the broker hands back, reduced to the fields the client reads, and
//! the shapes in which results are handed to the presenter.

use vstd::prelude::*;

verus! {

/// A service instance as the broker represents it.
pub struct ServiceInstance {
    pub service_id: Option<String>,
    pub plan_id: Option<String>,
    pub dashboard_url: Option<String>,
}

/// A service binding as the broker represents it; the credentials travel as
/// raw JSON text.
pub struct ServiceBinding {
    pub credentials: Option<String>,
}

/// A provisioned instance paired with the identifier the client generated
/// for it.
pub struct ServiceInstanceOutput {
    pub service_instance_id: Option<String>,
    pub service_instance_resource: Option<ServiceInstance>,
}

impl ServiceInstanceOutput {
    pub fn new() -> (r: ServiceInstanceOutput)
        ensures
            r.service_instance_id is None,
            r.service_instance_resource is None,
    {
        ServiceInstanceOutput { service_instance_id: None, service_instance_resource: None }
    }
}

/// A binding paired with the identifier the client generated or was given
/// for it.
pub struct ServiceBindingOutput {
    pub service_binding_id: Option<String>,
    pub service_binding_resource: Option<ServiceBinding>,
}

impl ServiceBindingOutput {
    pub fn new() -> (r: ServiceBindingOutput)
        ensures
            r.service_binding_id is None,
            r.service_binding_resource is None,
    {
        ServiceBindingOutput { service_binding_id: None, service_binding_resource: None }
    }
}

} // verus!
