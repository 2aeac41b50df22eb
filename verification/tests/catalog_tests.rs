use rocs::catalog::{find_service_plan_id, Catalog, Plan, ResolveError, Service};

fn plan(id: &str, name: &str) -> Plan {
    Plan { id: id.to_string(), name: name.to_string() }
}

fn service(id: &str, name: &str, plans: Vec<Plan>) -> Service {
    Service::new(name.to_string(), id.to_string(), "a service".to_string(), true, plans)
}

#[test]
fn resolve_present_pair() {
    let catalog = Catalog {
        services: vec![
            service("svc-0", "cache", vec![plan("plan-9", "big")]),
            service("svc-1", "db", vec![plan("plan-0", "large"), plan("plan-1", "small")]),
        ],
    };
    let r = find_service_plan_id(&catalog, &"db".to_string(), &"small".to_string());
    assert_eq!(r, Ok(("svc-1".to_string(), "plan-1".to_string())));
}

#[test]
fn resolve_absent_service_is_not_found() {
    let catalog = Catalog { services: vec![service("svc-0", "cache", vec![plan("p", "big")])] };
    let r = find_service_plan_id(&catalog, &"db".to_string(), &"big".to_string());
    assert_eq!(r, Err(ResolveError::NotFound));
}

#[test]
fn resolve_absent_plan_is_not_found() {
    let catalog = Catalog { services: vec![service("svc-0", "db", vec![plan("p", "big")])] };
    let r = find_service_plan_id(&catalog, &"db".to_string(), &"small".to_string());
    assert_eq!(r, Err(ResolveError::NotFound));
}

#[test]
fn resolve_empty_catalog_is_not_found() {
    let catalog = Catalog { services: Vec::new() };
    let r = find_service_plan_id(&catalog, &"db".to_string(), &"small".to_string());
    assert_eq!(r, Err(ResolveError::NotFound));
}

#[test]
fn resolve_first_full_match_wins() {
    let catalog = Catalog {
        services: vec![
            service("svc-a", "db", vec![plan("plan-a", "small")]),
            service("svc-b", "db", vec![plan("plan-b", "small")]),
        ],
    };
    let r = find_service_plan_id(&catalog, &"db".to_string(), &"small".to_string());
    assert_eq!(r, Ok(("svc-a".to_string(), "plan-a".to_string())));
}

#[test]
fn resolve_first_plan_wins_within_service() {
    let catalog = Catalog {
        services: vec![service("svc-a", "db", vec![plan("plan-1", "small"), plan("plan-2", "small")])],
    };
    let r = find_service_plan_id(&catalog, &"db".to_string(), &"small".to_string());
    assert_eq!(r, Ok(("svc-a".to_string(), "plan-1".to_string())));
}

#[test]
fn resolve_skips_matching_service_without_plan() {
    // the first service of the requested name lacks the plan; the second
    // carries it and is the one resolved
    let catalog = Catalog {
        services: vec![
            service("svc-a", "db", vec![plan("plan-a", "large")]),
            service("svc-b", "db", vec![plan("plan-b", "small")]),
        ],
    };
    let r = find_service_plan_id(&catalog, &"db".to_string(), &"small".to_string());
    assert_eq!(r, Ok(("svc-b".to_string(), "plan-b".to_string())));
}

#[test]
fn resolve_empty_identifier_is_not_found() {
    let catalog = Catalog { services: vec![service("", "db", vec![plan("plan-1", "small")])] };
    let r = find_service_plan_id(&catalog, &"db".to_string(), &"small".to_string());
    assert_eq!(r, Err(ResolveError::NotFound));

    let catalog = Catalog { services: vec![service("svc-1", "db", vec![plan("", "small")])] };
    let r = find_service_plan_id(&catalog, &"db".to_string(), &"small".to_string());
    assert_eq!(r, Err(ResolveError::NotFound));
}

#[test]
fn resolve_error_message() {
    assert_eq!(ResolveError::NotFound.message(), "plan or service not found");
}
