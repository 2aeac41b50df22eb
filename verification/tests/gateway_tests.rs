use rocs::commands::{plan_catalog, plan_deprovision, plan_info, plan_unbind, CommandPlan};
use rocs::flows::Options;
use rocs::gateway::{APIClient, Configuration, Method, DEFAULT_API_VERSION, USER_AGENT};
use rocs::requests::{BindBody, ProvisionBody};

fn client() -> APIClient {
    APIClient::new(Configuration::new(
        "http://broker".to_string(),
        Some(USER_AGENT.to_string()),
        Some(("user".to_string(), Some("pass".to_string()))),
    ))
}

fn options(curl: bool, sync: bool) -> Options {
    Options { json_output: false, curl_output: curl, synchronous: sync }
}

#[test]
fn api_constants() {
    assert_eq!(USER_AGENT, "ROCS v0.2");
    assert_eq!(DEFAULT_API_VERSION, "2.15");
}

#[test]
fn catalog_request_url_and_headers() {
    let c = client();
    let q = c.catalog_api().catalog_get(DEFAULT_API_VERSION);
    assert!(matches!(q.method, Method::Get));
    assert_eq!(q.url, "http://broker/v2/catalog");
    assert_eq!(q.api_version, "2.15");
    assert_eq!(q.user_agent, Some("ROCS v0.2".to_string()));
    assert_eq!(q.basic_auth, Some(("user".to_string(), Some("pass".to_string()))));
    assert_eq!(q.accepts_incomplete, None);
    assert!(q.body.is_none());
}

#[test]
fn provision_request_url_body_and_flag() {
    let c = client();
    let body = ProvisionBody::new(
        "svc-1".to_string(),
        "plan-1".to_string(),
        String::new(),
        String::new(),
    );
    let q = c.service_instances_api().service_instance_provision(
        DEFAULT_API_VERSION,
        "inst-1",
        &body,
        true,
    );
    assert!(matches!(q.method, Method::Put));
    assert_eq!(q.url, "http://broker/v2/service_instances/inst-1");
    assert_eq!(q.accepts_incomplete, Some(true));
    assert_eq!(q.body.as_deref(), Some(body.to_json().as_str()));
}

#[test]
fn instance_get_and_last_operation_urls() {
    let c = client();
    let q = c.service_instances_api().service_instance_get(DEFAULT_API_VERSION, "inst-1");
    assert_eq!(q.url, "http://broker/v2/service_instances/inst-1");
    let q = c.service_instances_api().service_instance_last_operation_get(
        DEFAULT_API_VERSION,
        "inst-1",
        Some("svc-1"),
        None,
    );
    assert_eq!(q.url, "http://broker/v2/service_instances/inst-1/last_operation");
    assert_eq!(q.service_id, Some("svc-1".to_string()));
    assert_eq!(q.plan_id, None);
}

#[test]
fn deprovision_request_carries_query_hints() {
    let c = client();
    let q = c.service_instances_api().service_instance_deprovision(
        DEFAULT_API_VERSION,
        "inst-1",
        "svc-1",
        "plan-1",
        false,
    );
    assert!(matches!(q.method, Method::Delete));
    assert_eq!(q.url, "http://broker/v2/service_instances/inst-1");
    assert_eq!(q.accepts_incomplete, Some(false));
    assert_eq!(q.service_id, Some("svc-1".to_string()));
    assert_eq!(q.plan_id, Some("plan-1".to_string()));
}

#[test]
fn binding_request_urls() {
    let c = client();
    let body = BindBody::new(String::new(), String::new());
    let q = c.service_bindings_api().service_binding_binding(
        DEFAULT_API_VERSION,
        "inst-1",
        "bind-1",
        &body,
        true,
    );
    assert!(matches!(q.method, Method::Put));
    assert_eq!(q.url, "http://broker/v2/service_instances/inst-1/service_bindings/bind-1");
    assert_eq!(q.body.as_deref(), Some(body.to_json().as_str()));

    let q = c.service_bindings_api().service_binding_get(DEFAULT_API_VERSION, "inst-1", "bind-1");
    assert_eq!(q.url, "http://broker/v2/service_instances/inst-1/service_bindings/bind-1");

    let q = c.service_bindings_api().service_binding_last_operation_get(
        DEFAULT_API_VERSION,
        "inst-1",
        "bind-1",
        None,
        None,
    );
    assert_eq!(
        q.url,
        "http://broker/v2/service_instances/inst-1/service_bindings/bind-1/last_operation"
    );

    let q = c.service_bindings_api().service_binding_unbinding(
        DEFAULT_API_VERSION,
        "inst-1",
        "bind-1",
        "svc-1",
        "plan-1",
        true,
    );
    assert!(matches!(q.method, Method::Delete));
    assert_eq!(q.url, "http://broker/v2/service_instances/inst-1/service_bindings/bind-1");
    assert_eq!(q.accepts_incomplete, Some(true));
}

#[test]
fn plan_catalog_sends_or_prints() {
    let c = client();
    match plan_catalog(&c, &options(false, false)) {
        CommandPlan::Send(q) => assert_eq!(q.url, "http://broker/v2/catalog"),
        _ => panic!("expected a request"),
    }
    match plan_catalog(&c, &options(true, false)) {
        CommandPlan::PrintCurl(cmd) => {
            assert!(cmd.contains("-X GET"));
            assert!(cmd.ends_with("/v2/catalog?accepts_incomplete=true"));
        }
        _ => panic!("expected a dry-run command"),
    }
}

#[test]
fn plan_info_sends_or_prints() {
    let c = client();
    match plan_info(&c, &"inst-1".to_string(), &options(false, false)) {
        CommandPlan::Send(q) => {
            assert_eq!(q.url, "http://broker/v2/service_instances/inst-1");
            assert!(matches!(q.method, Method::Get));
        }
        _ => panic!("expected a request"),
    }
    match plan_info(&c, &"inst-1".to_string(), &options(true, false)) {
        CommandPlan::PrintCurl(cmd) => {
            assert!(cmd.ends_with("service_instances/inst-1?accepts_incomplete=true"));
        }
        _ => panic!("expected a dry-run command"),
    }
}

#[test]
fn plan_deprovision_flag_follows_sync_option() {
    let c = client();
    match plan_deprovision(
        &c,
        &"inst-1".to_string(),
        &"svc-1".to_string(),
        &"plan-1".to_string(),
        &options(false, true),
    ) {
        CommandPlan::Send(q) => assert_eq!(q.accepts_incomplete, Some(false)),
        _ => panic!("expected a request"),
    }
    match plan_deprovision(
        &c,
        &"inst-1".to_string(),
        &"svc-1".to_string(),
        &"plan-1".to_string(),
        &options(true, false),
    ) {
        CommandPlan::PrintCurl(cmd) => {
            assert!(cmd.contains("-X DELETE"));
            assert!(cmd.contains("?accepts_incomplete=true"));
        }
        _ => panic!("expected a dry-run command"),
    }
}

#[test]
fn plan_unbind_addresses_the_binding() {
    let c = client();
    match plan_unbind(
        &c,
        &"inst-1".to_string(),
        &"bind-1".to_string(),
        &String::new(),
        &String::new(),
        &options(false, false),
    ) {
        CommandPlan::Send(q) => {
            assert!(matches!(q.method, Method::Delete));
            assert_eq!(q.url, "http://broker/v2/service_instances/inst-1/service_bindings/bind-1");
            assert_eq!(q.accepts_incomplete, Some(true));
        }
        _ => panic!("expected a request"),
    }
    match plan_unbind(
        &c,
        &"inst-1".to_string(),
        &"bind-1".to_string(),
        &String::new(),
        &String::new(),
        &options(true, true),
    ) {
        CommandPlan::PrintCurl(cmd) => {
            assert!(cmd.contains("service_instances/inst-1/service_bindings/bind-1"));
            assert!(!cmd.contains("accepts_incomplete"));
        }
        _ => panic!("expected a dry-run command"),
    }
}
