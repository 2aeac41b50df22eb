//! The broker HTTP gateway's request surface, as data.
//!
//! Every call the client makes is described here as a value: method, URL,
//! headers, query hints and body. The unverified driver turns each
//! description into an actual HTTP round-trip; the descriptions themselves,
//! and the URLs they carry, are pinned down exactly.

use vstd::prelude::*;
use crate::requests::{ProvisionBody, BindBody};

verus! {

/// The fixed User-Agent header the client sends.
pub const USER_AGENT: &'static str = "ROCS v0.2";

/// The fixed X-Broker-API-Version header value the client sends.
pub const DEFAULT_API_VERSION: &'static str = "2.15";

/// How the broker is reached: base URL and credentials.
pub struct Configuration {
    pub base_path: String,
    pub user_agent: Option<String>,
    pub basic_auth: Option<(String, Option<String>)>,
}

impl Configuration {
    pub fn new(base_path: String, user_agent: Option<String>, basic_auth: Option<
        (String, Option<String>),
    >) -> (r: Configuration)
        ensures
            r.base_path == base_path,
            r.user_agent == user_agent,
            r.basic_auth == basic_auth,
    {
        Configuration { base_path, user_agent, basic_auth }
    }
}

fn clone_opt_string(s: &Option<String>) -> (r: Option<String>)
    ensures
        r == *s,
{
    match s {
        Some(v) => Some(v.clone()),
        None => None,
    }
}

fn clone_basic_auth(a: &Option<(String, Option<String>)>) -> (r: Option<(String, Option<String>)>)
    ensures
        r == *a,
{
    match a {
        Some(pair) => Some((pair.0.clone(), clone_opt_string(&pair.1))),
        None => None,
    }
}

/// A field-for-field copy of a configuration.
pub fn clone_configuration(c: &Configuration) -> (r: Configuration)
    ensures
        r == *c,
{
    Configuration {
        base_path: c.base_path.clone(),
        user_agent: clone_opt_string(&c.user_agent),
        basic_auth: clone_basic_auth(&c.basic_auth),
    }
}

/// An HTTP method the client uses.
#[derive(Clone, Copy, PartialEq, Eq, Structural, Debug)]
pub enum Method {
    Get,
    Put,
    Delete,
}

/// One broker call, described: everything the driver needs to make the
/// round-trip.
pub struct HttpRequest {
    pub method: Method,
    pub url: String,
    pub api_version: String,
    pub user_agent: Option<String>,
    pub basic_auth: Option<(String, Option<String>)>,
    /// Sent as the `accepts_incomplete` query parameter when present.
    pub accepts_incomplete: Option<bool>,
    /// Sent as the `service_id` query parameter when present.
    pub service_id: Option<String>,
    /// Sent as the `plan_id` query parameter when present.
    pub plan_id: Option<String>,
    /// JSON text sent as the request body when present.
    pub body: Option<String>,
}

/// The URL of the catalog endpoint.
pub open spec fn catalog_url(base: Seq<char>) -> Seq<char> {
    base + "/v2/catalog"@
}

/// The URL of one service instance.
pub open spec fn instance_url(base: Seq<char>, instance_id: Seq<char>) -> Seq<char> {
    base + "/v2/service_instances/"@ + instance_id
}

/// The URL of one instance's last-operation endpoint.
pub open spec fn instance_last_operation_url(base: Seq<char>, instance_id: Seq<char>) -> Seq<char> {
    instance_url(base, instance_id) + "/last_operation"@
}

/// The URL of one service binding.
pub open spec fn binding_url(base: Seq<char>, instance_id: Seq<char>, binding_id: Seq<char>) -> Seq<
    char,
> {
    instance_url(base, instance_id) + "/service_bindings/"@ + binding_id
}

/// The URL of one binding's last-operation endpoint.
pub open spec fn binding_last_operation_url(
    base: Seq<char>,
    instance_id: Seq<char>,
    binding_id: Seq<char>,
) -> Seq<char> {
    binding_url(base, instance_id, binding_id) + "/last_operation"@
}

/// The header and credential fields every request shares.
pub open spec fn carries_configuration(r: HttpRequest, c: Configuration, api_version: Seq<char>) -> bool {
    &&& r.api_version@ == api_version
    &&& r.user_agent == c.user_agent
    &&& r.basic_auth == c.basic_auth
}

/// Requests against the catalog endpoint.
pub struct CatalogApi {
    pub configuration: Configuration,
}

impl CatalogApi {
    /// GET the catalog.
    pub fn catalog_get(&self, api_version: &str) -> (r: HttpRequest)
        ensures
            r.method == Method::Get,
            r.url@ == catalog_url(self.configuration.base_path@),
            carries_configuration(r, self.configuration, api_version@),
            r.accepts_incomplete is None,
            r.service_id is None,
            r.plan_id is None,
            r.body is None,
    {
        let mut url = self.configuration.base_path.clone();
        url.append("/v2/catalog");
        HttpRequest {
            method: Method::Get,
            url,
            api_version: api_version.to_owned(),
            user_agent: clone_opt_string(&self.configuration.user_agent),
            basic_auth: clone_basic_auth(&self.configuration.basic_auth),
            accepts_incomplete: None,
            service_id: None,
            plan_id: None,
            body: None,
        }
    }
}

/// Requests against the service-instance endpoints.
pub struct ServiceInstancesApi {
    pub configuration: Configuration,
}

impl ServiceInstancesApi {
    /// PUT a new service instance.
    pub fn service_instance_provision(
        &self,
        api_version: &str,
        instance_id: &str,
        body: &ProvisionBody,
        accepts_incomplete: bool,
    ) -> (r: HttpRequest)
        ensures
            r.method == Method::Put,
            r.url@ == instance_url(self.configuration.base_path@, instance_id@),
            carries_configuration(r, self.configuration, api_version@),
            r.accepts_incomplete == Some(accepts_incomplete),
            r.service_id is None,
            r.plan_id is None,
            r.body matches Some(b) && b@ == body.json_spec(),
    {
        let mut url = self.configuration.base_path.clone();
        url.append("/v2/service_instances/");
        url.append(instance_id);
        HttpRequest {
            method: Method::Put,
            url,
            api_version: api_version.to_owned(),
            user_agent: clone_opt_string(&self.configuration.user_agent),
            basic_auth: clone_basic_auth(&self.configuration.basic_auth),
            accepts_incomplete: Some(accepts_incomplete),
            service_id: None,
            plan_id: None,
            body: Some(body.to_json()),
        }
    }

    /// GET one service instance.
    pub fn service_instance_get(&self, api_version: &str, instance_id: &str) -> (r: HttpRequest)
        ensures
            r.method == Method::Get,
            r.url@ == instance_url(self.configuration.base_path@, instance_id@),
            carries_configuration(r, self.configuration, api_version@),
            r.accepts_incomplete is None,
            r.service_id is None,
            r.plan_id is None,
            r.body is None,
    {
        let mut url = self.configuration.base_path.clone();
        url.append("/v2/service_instances/");
        url.append(instance_id);
        HttpRequest {
            method: Method::Get,
            url,
            api_version: api_version.to_owned(),
            user_agent: clone_opt_string(&self.configuration.user_agent),
            basic_auth: clone_basic_auth(&self.configuration.basic_auth),
            accepts_incomplete: None,
            service_id: None,
            plan_id: None,
            body: None,
        }
    }

    /// DELETE one service instance.
    pub fn service_instance_deprovision(
        &self,
        api_version: &str,
        instance_id: &str,
        service_id: &str,
        plan_id: &str,
        accepts_incomplete: bool,
    ) -> (r: HttpRequest)
        ensures
            r.method == Method::Delete,
            r.url@ == instance_url(self.configuration.base_path@, instance_id@),
            carries_configuration(r, self.configuration, api_version@),
            r.accepts_incomplete == Some(accepts_incomplete),
            r.service_id matches Some(s) && s@ == service_id@,
            r.plan_id matches Some(p) && p@ == plan_id@,
            r.body is None,
    {
        let mut url = self.configuration.base_path.clone();
        url.append("/v2/service_instances/");
        url.append(instance_id);
        HttpRequest {
            method: Method::Delete,
            url,
            api_version: api_version.to_owned(),
            user_agent: clone_opt_string(&self.configuration.user_agent),
            basic_auth: clone_basic_auth(&self.configuration.basic_auth),
            accepts_incomplete: Some(accepts_incomplete),
            service_id: Some(service_id.to_owned()),
            plan_id: Some(plan_id.to_owned()),
            body: None,
        }
    }

    /// GET one instance's last operation, with optional disambiguation hints.
    pub fn service_instance_last_operation_get(
        &self,
        api_version: &str,
        instance_id: &str,
        service_id: Option<&str>,
        plan_id: Option<&str>,
    ) -> (r: HttpRequest)
        ensures
            r.method == Method::Get,
            r.url@ == instance_last_operation_url(self.configuration.base_path@, instance_id@),
            carries_configuration(r, self.configuration, api_version@),
            r.accepts_incomplete is None,
            match service_id {
                Some(s) => r.service_id matches Some(rs) && rs@ == s@,
                None => r.service_id is None,
            },
            match plan_id {
                Some(p) => r.plan_id matches Some(rp) && rp@ == p@,
                None => r.plan_id is None,
            },
            r.body is None,
    {
        let mut url = self.configuration.base_path.clone();
        url.append("/v2/service_instances/");
        url.append(instance_id);
        url.append("/last_operation");
        HttpRequest {
            method: Method::Get,
            url,
            api_version: api_version.to_owned(),
            user_agent: clone_opt_string(&self.configuration.user_agent),
            basic_auth: clone_basic_auth(&self.configuration.basic_auth),
            accepts_incomplete: None,
            service_id: match service_id {
                Some(s) => Some(s.to_owned()),
                None => None,
            },
            plan_id: match plan_id {
                Some(p) => Some(p.to_owned()),
                None => None,
            },
            body: None,
        }
    }
}

/// Requests against the service-binding endpoints.
pub struct ServiceBindingsApi {
    pub configuration: Configuration,
}

impl ServiceBindingsApi {
    /// PUT a new service binding under an instance.
    pub fn service_binding_binding(
        &self,
        api_version: &str,
        instance_id: &str,
        binding_id: &str,
        body: &BindBody,
        accepts_incomplete: bool,
    ) -> (r: HttpRequest)
        ensures
            r.method == Method::Put,
            r.url@ == binding_url(self.configuration.base_path@, instance_id@, binding_id@),
            carries_configuration(r, self.configuration, api_version@),
            r.accepts_incomplete == Some(accepts_incomplete),
            r.service_id is None,
            r.plan_id is None,
            r.body matches Some(b) && b@ == body.json_spec(),
    {
        let mut url = self.configuration.base_path.clone();
        url.append("/v2/service_instances/");
        url.append(instance_id);
        url.append("/service_bindings/");
        url.append(binding_id);
        HttpRequest {
            method: Method::Put,
            url,
            api_version: api_version.to_owned(),
            user_agent: clone_opt_string(&self.configuration.user_agent),
            basic_auth: clone_basic_auth(&self.configuration.basic_auth),
            accepts_incomplete: Some(accepts_incomplete),
            service_id: None,
            plan_id: None,
            body: Some(body.to_json()),
        }
    }

    /// GET one service binding.
    pub fn service_binding_get(&self, api_version: &str, instance_id: &str, binding_id: &str) -> (r:
        HttpRequest)
        ensures
            r.method == Method::Get,
            r.url@ == binding_url(self.configuration.base_path@, instance_id@, binding_id@),
            carries_configuration(r, self.configuration, api_version@),
            r.accepts_incomplete is None,
            r.service_id is None,
            r.plan_id is None,
            r.body is None,
    {
        let mut url = self.configuration.base_path.clone();
        url.append("/v2/service_instances/");
        url.append(instance_id);
        url.append("/service_bindings/");
        url.append(binding_id);
        HttpRequest {
            method: Method::Get,
            url,
            api_version: api_version.to_owned(),
            user_agent: clone_opt_string(&self.configuration.user_agent),
            basic_auth: clone_basic_auth(&self.configuration.basic_auth),
            accepts_incomplete: None,
            service_id: None,
            plan_id: None,
            body: None,
        }
    }

    /// DELETE one service binding.
    pub fn service_binding_unbinding(
        &self,
        api_version: &str,
        instance_id: &str,
        binding_id: &str,
        service_id: &str,
        plan_id: &str,
        accepts_incomplete: bool,
    ) -> (r: HttpRequest)
        ensures
            r.method == Method::Delete,
            r.url@ == binding_url(self.configuration.base_path@, instance_id@, binding_id@),
            carries_configuration(r, self.configuration, api_version@),
            r.accepts_incomplete == Some(accepts_incomplete),
            r.service_id matches Some(s) && s@ == service_id@,
            r.plan_id matches Some(p) && p@ == plan_id@,
            r.body is None,
    {
        let mut url = self.configuration.base_path.clone();
        url.append("/v2/service_instances/");
        url.append(instance_id);
        url.append("/service_bindings/");
        url.append(binding_id);
        HttpRequest {
            method: Method::Delete,
            url,
            api_version: api_version.to_owned(),
            user_agent: clone_opt_string(&self.configuration.user_agent),
            basic_auth: clone_basic_auth(&self.configuration.basic_auth),
            accepts_incomplete: Some(accepts_incomplete),
            service_id: Some(service_id.to_owned()),
            plan_id: Some(plan_id.to_owned()),
            body: None,
        }
    }

    /// GET one binding's last operation, with optional disambiguation hints.
    pub fn service_binding_last_operation_get(
        &self,
        api_version: &str,
        instance_id: &str,
        binding_id: &str,
        service_id: Option<&str>,
        plan_id: Option<&str>,
    ) -> (r: HttpRequest)
        ensures
            r.method == Method::Get,
            r.url@ == binding_last_operation_url(
                self.configuration.base_path@,
                instance_id@,
                binding_id@,
            ),
            carries_configuration(r, self.configuration, api_version@),
            r.accepts_incomplete is None,
            match service_id {
                Some(s) => r.service_id matches Some(rs) && rs@ == s@,
                None => r.service_id is None,
            },
            match plan_id {
                Some(p) => r.plan_id matches Some(rp) && rp@ == p@,
                None => r.plan_id is None,
            },
            r.body is None,
    {
        let mut url = self.configuration.base_path.clone();
        url.append("/v2/service_instances/");
        url.append(instance_id);
        url.append("/service_bindings/");
        url.append(binding_id);
        url.append("/last_operation");
        HttpRequest {
            method: Method::Get,
            url,
            api_version: api_version.to_owned(),
            user_agent: clone_opt_string(&self.configuration.user_agent),
            basic_auth: clone_basic_auth(&self.configuration.basic_auth),
            accepts_incomplete: None,
            service_id: match service_id {
                Some(s) => Some(s.to_owned()),
                None => None,
            },
            plan_id: match plan_id {
                Some(p) => Some(p.to_owned()),
                None => None,
            },
            body: None,
        }
    }
}

/// One handle per endpoint family, all sharing one configuration.
pub struct APIClient {
    pub catalog: CatalogApi,
    pub service_bindings: ServiceBindingsApi,
    pub service_instances: ServiceInstancesApi,
}

impl APIClient {
    pub fn new(configuration: Configuration) -> (r: APIClient)
        ensures
            r.catalog.configuration == configuration,
            r.service_bindings.configuration == configuration,
            r.service_instances.configuration == configuration,
    {
        APIClient {
            catalog: CatalogApi { configuration: clone_configuration(&configuration) },
            service_bindings: ServiceBindingsApi {
                configuration: clone_configuration(&configuration),
            },
            service_instances: ServiceInstancesApi { configuration },
        }
    }

    pub fn catalog_api(&self) -> (r: &CatalogApi)
        ensures
            r == &self.catalog,
    {
        &self.catalog
    }

    pub fn service_bindings_api(&self) -> (r: &ServiceBindingsApi)
        ensures
            r == &self.service_bindings,
    {
        &self.service_bindings
    }

    pub fn service_instances_api(&self) -> (r: &ServiceInstancesApi)
        ensures
            r == &self.service_instances,
    {
        &self.service_instances
    }
}

} // verus!
