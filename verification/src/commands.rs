//! Plans for the single-call commands: catalog, info, deprovision, unbind.
//!
//! Each plan is either the dry-run command to print, or the one described
//! broker request to send; the driver executes it and presents the result.
//! A dry run makes no network call.

use vstd::prelude::*;
use crate::curl::{curl_command_spec, generate_curl_command};
use crate::flows::Options;
use crate::gateway::{
    APIClient,
    HttpRequest,
    Method,
    DEFAULT_API_VERSION,
    carries_configuration,
    catalog_url,
    instance_url,
    binding_url,
};

verus! {

/// What one single-call command comes to.
pub enum CommandPlan {
    /// Print this dry-run command.
    PrintCurl(String),
    /// Send this request and present the response.
    Send(HttpRequest),
}

/// The catalog command: GET the catalog, or print the equivalent command.
/// The dry run always announces the asynchronous query parameter for this
/// read, whatever the synchronous option says.
pub fn plan_catalog(client: &APIClient, options: &Options) -> (r: CommandPlan)
    ensures
        options.curl_output ==> (r matches CommandPlan::PrintCurl(c) && c@ == curl_command_spec(
            "catalog"@,
            "GET"@,
            Seq::<char>::empty(),
            false,
            Seq::<char>::empty(),
            Seq::<char>::empty(),
        )),
        !options.curl_output ==> (r matches CommandPlan::Send(q) && q.method == Method::Get
            && q.url@ == catalog_url(client.catalog.configuration.base_path@)
            && carries_configuration(q, client.catalog.configuration, DEFAULT_API_VERSION@)
            && q.accepts_incomplete is None && q.body is None),
{
    if options.curl_output {
        CommandPlan::PrintCurl(
            generate_curl_command(
                "catalog".to_owned(),
                "GET".to_owned(),
                String::new(),
                false,
                String::new(),
                String::new(),
            ),
        )
    } else {
        CommandPlan::Send(client.catalog_api().catalog_get(DEFAULT_API_VERSION))
    }
}

/// The info command: GET one service instance, or print the equivalent
/// command. As with the catalog, the dry run always announces the
/// asynchronous query parameter for this read.
pub fn plan_info(client: &APIClient, instance_id: &String, options: &Options) -> (r: CommandPlan)
    ensures
        options.curl_output ==> (r matches CommandPlan::PrintCurl(c) && c@ == curl_command_spec(
            "service_instance"@,
            "GET"@,
            Seq::<char>::empty(),
            false,
            instance_id@,
            Seq::<char>::empty(),
        )),
        !options.curl_output ==> (r matches CommandPlan::Send(q) && q.method == Method::Get
            && q.url@ == instance_url(
            client.service_instances.configuration.base_path@,
            instance_id@,
        ) && carries_configuration(q, client.service_instances.configuration, DEFAULT_API_VERSION@)
            && q.accepts_incomplete is None && q.body is None),
{
    if options.curl_output {
        CommandPlan::PrintCurl(
            generate_curl_command(
                "service_instance".to_owned(),
                "GET".to_owned(),
                String::new(),
                false,
                instance_id.clone(),
                String::new(),
            ),
        )
    } else {
        CommandPlan::Send(
            client.service_instances_api().service_instance_get(
                DEFAULT_API_VERSION,
                instance_id.as_str(),
            ),
        )
    }
}

/// The deprovision command: DELETE one service instance, or print the
/// equivalent command; `accepts_incomplete` is the negation of the
/// synchronous option.
pub fn plan_deprovision(
    client: &APIClient,
    instance_id: &String,
    service_id: &String,
    plan_id: &String,
    options: &Options,
) -> (r: CommandPlan)
    ensures
        options.curl_output ==> (r matches CommandPlan::PrintCurl(c) && c@ == curl_command_spec(
            "service_instance"@,
            "DELETE"@,
            Seq::<char>::empty(),
            options.synchronous,
            instance_id@,
            Seq::<char>::empty(),
        )),
        !options.curl_output ==> (r matches CommandPlan::Send(q) && q.method == Method::Delete
            && q.url@ == instance_url(
            client.service_instances.configuration.base_path@,
            instance_id@,
        ) && carries_configuration(q, client.service_instances.configuration, DEFAULT_API_VERSION@)
            && q.accepts_incomplete == Some(!options.synchronous) && (
        q.service_id matches Some(s) && s@ == service_id@) && (q.plan_id matches Some(p) && p@
            == plan_id@) && q.body is None),
{
    if options.curl_output {
        CommandPlan::PrintCurl(
            generate_curl_command(
                "service_instance".to_owned(),
                "DELETE".to_owned(),
                String::new(),
                options.synchronous,
                instance_id.clone(),
                String::new(),
            ),
        )
    } else {
        CommandPlan::Send(
            client.service_instances_api().service_instance_deprovision(
                DEFAULT_API_VERSION,
                instance_id.as_str(),
                service_id.as_str(),
                plan_id.as_str(),
                !options.synchronous,
            ),
        )
    }
}

/// The unbind command: DELETE one service binding, or print the equivalent
/// command; `accepts_incomplete` is the negation of the synchronous option.
pub fn plan_unbind(
    client: &APIClient,
    instance_id: &String,
    binding_id: &String,
    service_id: &String,
    plan_id: &String,
    options: &Options,
) -> (r: CommandPlan)
    ensures
        options.curl_output ==> (r matches CommandPlan::PrintCurl(c) && c@ == curl_command_spec(
            "service_binding"@,
            "DELETE"@,
            Seq::<char>::empty(),
            options.synchronous,
            instance_id@,
            binding_id@,
        )),
        !options.curl_output ==> (r matches CommandPlan::Send(q) && q.method == Method::Delete
            && q.url@ == binding_url(
            client.service_bindings.configuration.base_path@,
            instance_id@,
            binding_id@,
        ) && carries_configuration(q, client.service_bindings.configuration, DEFAULT_API_VERSION@)
            && q.accepts_incomplete == Some(!options.synchronous) && (
        q.service_id matches Some(s) && s@ == service_id@) && (q.plan_id matches Some(p) && p@
            == plan_id@) && q.body is None),
{
    if options.curl_output {
        CommandPlan::PrintCurl(
            generate_curl_command(
                "service_binding".to_owned(),
                "DELETE".to_owned(),
                String::new(),
                options.synchronous,
                instance_id.clone(),
                binding_id.clone(),
            ),
        )
    } else {
        CommandPlan::Send(
            client.service_bindings_api().service_binding_unbinding(
                DEFAULT_API_VERSION,
                instance_id.as_str(),
                binding_id.as_str(),
                service_id.as_str(),
                plan_id.as_str(),
                !options.synchronous,
            ),
        )
    }
}

} // verus!
