use stryke_docker::labels::{kv_pairs, label_vec_to_map, parse_kv};

#[test]
fn parse_kv_simple() {
    let (k, v) = parse_kv("FOO=bar").unwrap();
    assert_eq!(k, "FOO");
    assert_eq!(v, "bar");
}

#[test]
fn parse_kv_splits_on_first_equals() {
    // Values may contain '=' (e.g. KMS=key=value); first '=' splits.
    let (k, v) = parse_kv("KEY=val=ue=more").unwrap();
    assert_eq!(k, "KEY");
    assert_eq!(v, "val=ue=more");
}

#[test]
fn parse_kv_empty_value_allowed() {
    let (k, v) = parse_kv("EMPTY=").unwrap();
    assert_eq!(k, "EMPTY");
    assert_eq!(v, "");
}

#[test]
fn parse_kv_empty_key_allowed() {
    // Liberal parser: an empty key is let through; downstream may reject.
    let (k, v) = parse_kv("=value").unwrap();
    assert_eq!(k, "");
    assert_eq!(v, "value");
}

#[test]
fn parse_kv_missing_equals_errors() {
    let err = parse_kv("noequals").unwrap_err();
    assert!(err.contains("expected key=value"));
    assert!(err.contains("noequals"));
    assert_eq!(err, "expected key=value, got `noequals`");
}

#[test]
fn kv_pairs_groups_duplicate_keys() {
    let input: Vec<(String, String)> = vec![
        ("label".into(), "a".into()),
        ("label".into(), "b".into()),
        ("env".into(), "X=1".into()),
    ];
    let out = kv_pairs(&input);
    assert_eq!(out.get("label").unwrap(), &vec!["a", "b"]);
    assert_eq!(out.get("env").unwrap(), &vec!["X=1"]);
    assert_eq!(out.len(), 2);
}

#[test]
fn kv_pairs_empty_input() {
    let out = kv_pairs(&[]);
    assert!(out.is_empty());
}

#[test]
fn kv_pairs_preserves_insertion_order_within_key() {
    let input: Vec<(String, String)> = vec![
        ("k".into(), "1".into()),
        ("k".into(), "2".into()),
        ("k".into(), "3".into()),
    ];
    let out = kv_pairs(&input);
    assert_eq!(out.get("k").unwrap(), &vec!["1", "2", "3"]);
}

#[test]
fn label_vec_to_map_parses_key_value() {
    let v: Vec<String> = vec!["a=1".into(), "b=2".into()];
    let m = label_vec_to_map(&v);
    assert_eq!(m.get("a").map(String::as_str), Some("1"));
    assert_eq!(m.get("b").map(String::as_str), Some("2"));
}

#[test]
fn label_vec_to_map_silently_drops_malformed() {
    // Entries without '=' are dropped, not errored.
    let v: Vec<String> = vec!["a=1".into(), "no-equals".into(), "b=2".into()];
    let m = label_vec_to_map(&v);
    assert_eq!(m.len(), 2);
    assert!(!m.contains_key("no-equals"));
}

#[test]
fn label_vec_to_map_last_wins_on_duplicate_key() {
    let v: Vec<String> = vec!["k=first".into(), "k=second".into()];
    let m = label_vec_to_map(&v);
    assert_eq!(m.get("k").map(String::as_str), Some("second"));
    assert_eq!(m.len(), 1);
}

#[test]
fn label_vec_to_map_empty_vec() {
    let m = label_vec_to_map(&[]);
    assert!(m.is_empty());
}
