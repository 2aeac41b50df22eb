use rocs::curl::generate_curl_command;

const PREFIX: &str =
    "curl -H 'Content-type: application/json' -H 'X-Broker-API-Version: 2.16' -X ";
const AUTH_AND_URL: &str = " -u $ROCS_BROKER_USERNAME:$ROCS_BROKER_PASSWORD $ROCS_BROKER_URL/v2/";

#[test]
fn curl_catalog_get() {
    let cmd = generate_curl_command(
        "catalog".to_string(),
        "GET".to_string(),
        String::new(),
        true,
        String::new(),
        String::new(),
    );
    assert_eq!(cmd, format!("{}GET{}catalog", PREFIX, AUTH_AND_URL));
}

#[test]
fn curl_async_adds_accepts_incomplete() {
    let cmd = generate_curl_command(
        "service_instance".to_string(),
        "DELETE".to_string(),
        String::new(),
        false,
        "inst-1".to_string(),
        String::new(),
    );
    assert_eq!(
        cmd,
        format!(
            "{}DELETE{}service_instances/inst-1?accepts_incomplete=true",
            PREFIX, AUTH_AND_URL
        )
    );
}

#[test]
fn curl_put_with_body() {
    let cmd = generate_curl_command(
        "service_instance".to_string(),
        "PUT".to_string(),
        "{\"service_id\":\"s\"}".to_string(),
        true,
        "inst-1".to_string(),
        String::new(),
    );
    assert_eq!(
        cmd,
        format!(
            "{}PUT{}service_instances/inst-1 \\\n-d '{{\"service_id\":\"s\"}}'",
            PREFIX, AUTH_AND_URL
        )
    );
}

#[test]
fn curl_binding_path() {
    let cmd = generate_curl_command(
        "service_binding".to_string(),
        "GET".to_string(),
        String::new(),
        true,
        "inst-1".to_string(),
        "bind-1".to_string(),
    );
    assert_eq!(
        cmd,
        format!(
            "{}GET{}service_instances/inst-1/service_bindings/bind-1",
            PREFIX, AUTH_AND_URL
        )
    );
}

#[test]
fn curl_unknown_object_has_empty_path() {
    let cmd = generate_curl_command(
        "mystery".to_string(),
        "GET".to_string(),
        String::new(),
        true,
        "x".to_string(),
        "y".to_string(),
    );
    assert_eq!(cmd, format!("{}GET{}", PREFIX, AUTH_AND_URL));
}
