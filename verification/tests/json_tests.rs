use rocs::json::object_string;
use rocs::params::{parse_parameters, Params};
use rocs::requests::{BindBody, ProvisionBody};

fn params_of(entries: &[&str]) -> Params {
    parse_parameters(&entries.iter().map(|s| s.to_string()).collect())
}

#[test]
fn object_of_one_pair() {
    assert_eq!(object_string(&params_of(&["region=us-east-1"])), "{\"region\":\"us-east-1\"}");
}

#[test]
fn object_of_no_pairs() {
    assert_eq!(object_string(&params_of(&[])), "{}");
}

#[test]
fn object_of_two_pairs_in_order() {
    assert_eq!(object_string(&params_of(&["a=1", "b=2"])), "{\"a\":\"1\",\"b\":\"2\"}");
}

#[test]
fn object_escapes_quotes_and_backslashes() {
    assert_eq!(
        object_string(&params_of(&["k=a\"b", "q=c\\d"])),
        "{\"k\":\"a\\\"b\",\"q\":\"c\\\\d\"}"
    );
}

#[test]
fn object_escapes_control_characters() {
    assert_eq!(
        object_string(&params_of(&["k=a\nb", "t=x\u{1f}y"])),
        "{\"k\":\"a\\u000ab\",\"t\":\"x\\u001fy\"}"
    );
}

#[test]
fn object_passes_multibyte_characters_through() {
    assert_eq!(object_string(&params_of(&["k=héllo"])), "{\"k\":\"héllo\"}");
}

#[test]
fn provision_body_round_trip() {
    // a provision request built from `--params region=us-east-1
    // --context account_id=123` serializes the parameters and the context
    // as exactly those objects in the outgoing body
    let mut body = ProvisionBody::new(
        "svc-1".to_string(),
        "plan-1".to_string(),
        String::new(),
        String::new(),
    );
    body.parameters = params_of(&["region=us-east-1"]);
    body.context = params_of(&["account_id=123"]);
    let json = body.to_json();
    assert_eq!(
        json,
        "{\"service_id\":\"svc-1\",\"plan_id\":\"plan-1\",\
         \"context\":{\"account_id\":\"123\"},\
         \"organization_guid\":\"\",\"space_guid\":\"\",\
         \"parameters\":{\"region\":\"us-east-1\"}}"
    );
    assert!(json.contains("{\"region\":\"us-east-1\"}"));
    assert!(json.contains("{\"account_id\":\"123\"}"));
}

#[test]
fn bind_body_json() {
    let mut body = BindBody::new(String::new(), String::new());
    body.parameters = params_of(&["p=1"]);
    body.context = params_of(&["c=2"]);
    assert_eq!(
        body.to_json(),
        "{\"context\":{\"c\":\"2\"},\"service_id\":\"\",\"plan_id\":\"\",\
         \"parameters\":{\"p\":\"1\"}}"
    );
}
