use rocs::params::{parse_parameters, split_pair, upsert_pair, Params};

fn strings(entries: &[&str]) -> Vec<String> {
    entries.iter().map(|s| s.to_string()).collect()
}

fn as_pairs(p: &Params) -> Vec<(String, String)> {
    p.pairs.iter().map(|kv| (kv.key.clone(), kv.value.clone())).collect()
}

#[test]
fn parse_single_pair() {
    let p = parse_parameters(&strings(&["region=us-east-1"]));
    assert_eq!(as_pairs(&p), vec![("region".to_string(), "us-east-1".to_string())]);
}

#[test]
fn parse_splits_on_first_equals_only() {
    let p = parse_parameters(&strings(&["a=b=c"]));
    assert_eq!(as_pairs(&p), vec![("a".to_string(), "b=c".to_string())]);
}

#[test]
fn parse_drops_entries_without_equals() {
    let p = parse_parameters(&strings(&["novalue", "a=1", "alsobad"]));
    assert_eq!(as_pairs(&p), vec![("a".to_string(), "1".to_string())]);
}

#[test]
fn parse_empty_input_yields_empty_mapping() {
    let p = parse_parameters(&Vec::new());
    assert!(p.pairs.is_empty());
}

#[test]
fn parse_last_value_wins_for_duplicate_keys() {
    let p = parse_parameters(&strings(&["k=1", "other=x", "k=2"]));
    assert_eq!(
        as_pairs(&p),
        vec![("k".to_string(), "2".to_string()), ("other".to_string(), "x".to_string())]
    );
}

#[test]
fn parse_allows_empty_key_and_empty_value() {
    let p = parse_parameters(&strings(&["a=", "=b"]));
    assert_eq!(
        as_pairs(&p),
        vec![("a".to_string(), String::new()), (String::new(), "b".to_string())]
    );
}

#[test]
fn split_pair_on_first_equals() {
    assert_eq!(
        split_pair(&"key=va=lue".to_string()),
        Some(("key".to_string(), "va=lue".to_string()))
    );
    assert_eq!(split_pair(&"noequals".to_string()), None);
    assert_eq!(split_pair(&String::new()), None);
}

#[test]
fn parse_handles_multibyte_characters() {
    let p = parse_parameters(&strings(&["clé=valeur", "キー=値=x"]));
    assert_eq!(
        as_pairs(&p),
        vec![
            ("clé".to_string(), "valeur".to_string()),
            ("キー".to_string(), "値=x".to_string())
        ]
    );
}

#[test]
fn upsert_updates_in_place() {
    let mut p = parse_parameters(&strings(&["a=1", "b=2"]));
    upsert_pair(&mut p, "a".to_string(), "3".to_string());
    assert_eq!(
        as_pairs(&p),
        vec![("a".to_string(), "3".to_string()), ("b".to_string(), "2".to_string())]
    );
    upsert_pair(&mut p, "c".to_string(), "4".to_string());
    assert_eq!(p.pairs.len(), 3);
    assert_eq!(p.pairs[2].key, "c");
}
