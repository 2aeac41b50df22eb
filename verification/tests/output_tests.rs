use rocs::catalog::{Extension, Requires};
use rocs::outputs::{ServiceBindingOutput, ServiceInstanceOutput};

#[test]
fn instance_output_starts_empty() {
    let out = ServiceInstanceOutput::new();
    assert!(out.service_instance_id.is_none());
    assert!(out.service_instance_resource.is_none());
}

#[test]
fn binding_output_starts_empty() {
    let out = ServiceBindingOutput::new();
    assert!(out.service_binding_id.is_none());
    assert!(out.service_binding_resource.is_none());
}

#[test]
fn extension_new_keeps_fields() {
    let e = Extension::new(
        "ext-1".to_string(),
        "backups".to_string(),
        "/v2/extensions/backups.yaml".to_string(),
    );
    assert_eq!(e.id, "ext-1");
    assert_eq!(e.description, "backups");
    assert_eq!(e.openapi_url, "/v2/extensions/backups.yaml");
}

#[test]
fn requires_variants_are_distinct() {
    assert_ne!(Requires::SyslogDrain, Requires::RouteForwarding);
    assert_ne!(Requires::RouteForwarding, Requires::VolumeMount);
}
