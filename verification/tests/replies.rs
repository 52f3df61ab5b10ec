//! What the exported functions are given and what they reply.

use serde_json::Value;

use stryke_docker::json::Json;
use stryke_docker::ops::{container_name, Op};
use stryke_docker::reply::{
    docker__parse_image_ref, docker__parse_mount, docker__parse_port_spec, docker__pkg_version,
    docker__valid_container_name, finish, op_parse_image_ref, op_parse_mount, op_parse_port_spec,
    op_valid_container_name, panic_reply, read_args,
};
use stryke_docker::session::{
    advance, docker__commit, docker__diff, docker__history, docker__pause, docker__port,
    docker__rename, docker__stats, docker__top, docker__unpause, docker__update, docker__wait,
    Event, OwnedStep, Session, Stage, Step,
};

fn json(text: &str) -> Json {
    Json::parse(text.as_bytes()).unwrap()
}

fn value(text: &str) -> Value {
    serde_json::from_str(text).unwrap()
}

fn with(key: &str, text: &str) -> Json {
    Json::object().with(key, Json::text(text))
}

#[test]
fn ffi_call_async_catches_handler_panic_and_returns_json_error() {
    let session = Session { op: Op::Ping, opts: read_args(Some(b"{}")), stage: Stage::Called };
    let Step::Reply(s) = advance(session, Event::Panicked) else {
        panic!("a panic is replied to");
    };
    let v = value(&s);
    let err = v.get("error").and_then(|e| e.as_str()).unwrap_or("");
    assert!(err.contains("panicked"), "expected 'panicked' in error message, got: {s}");
    assert_eq!(s, panic_reply());
    assert_eq!(s, r#"{"error":"stryke-docker handler panicked"}"#);
}

#[test]
fn ffi_call_async_null_args_yields_value_null_not_segv() {
    let v = read_args(None);
    // Exactly null: not an empty object, not a default.
    assert!(matches!(v, Json::Null));
    let s = finish(Ok(Json::object().with("got", v)));
    assert_eq!(s, r#"{"got":null}"#);
}

#[test]
fn ffi_call_async_malformed_json_args_does_not_panic() {
    // ‘{not json’ is unambiguously broken.
    let v = read_args(Some("{not json".as_bytes()));
    assert!(matches!(v, Json::Null), "malformed JSON should degrade to null");
    let out = finish(Ok(Json::object().with("ok", Json::Bool(true))));
    let parsed = value(&out);
    assert_eq!(parsed["ok"], Value::Bool(true));
}

#[test]
fn ffi_call_async_handler_error_maps_to_error_key_string() {
    let s = finish(Err("missing image".to_string()));
    let v = value(&s);
    assert_eq!(
        v.get("error").and_then(|e| e.as_str()),
        Some("missing image"),
        "expected verbatim error message under 'error' key, got: {s}"
    );
    assert_eq!(v.as_object().unwrap().len(), 1);
}

#[test]
fn replies_hold_no_control_characters() {
    let s = finish(Err("a\u{0}b\nc\u{1f}".to_string()));
    assert!(s.chars().all(|c| c >= ' '), "{s}");
    assert_eq!(value(&s)["error"], Value::from("a\u{0}b\nc\u{1f}"));
}

#[test]
fn arguments_are_read() {
    let v = read_args(Some(br#"{"a":[1,2.5,true,null,"x"],"b":{"c":-7}}"#));
    assert_eq!(
        v.to_value(),
        value(r#"{"a":[1,2.5,true,null,"x"],"b":{"c":-7}}"#)
    );
    // The last of two equal keys counts.
    let v = read_args(Some(br#"{"a":1,"a":2}"#));
    assert_eq!(v.i64_at("a"), Some(2));
    // Bytes that are no UTF-8 are no JSON.
    assert!(matches!(read_args(Some(&[b'"', 0xff, b'"'])), Json::Null));
}

#[test]
fn integers_are_read_within_their_range() {
    let v = json(r#"{"a":9223372036854775807,"b":9223372036854775808,"c":-1,"d":1.0}"#);
    assert_eq!(v.i64_at("a"), Some(i64::MAX));
    assert_eq!(v.u64_at("a"), Some(i64::MAX as u64));
    assert_eq!(v.i64_at("b"), None);
    assert_eq!(v.u64_at("b"), Some(9223372036854775808));
    assert_eq!(v.i64_at("c"), Some(-1));
    assert_eq!(v.u64_at("c"), None);
    assert_eq!(v.i64_at("d"), None);
    assert_eq!(v.u64_at("d"), None);
    assert_eq!(v.i64_at("e"), None);
}

#[test]
fn flags_are_truth_values_or_integers() {
    let v = json(r#"{"a":true,"b":false,"c":1,"d":0,"e":-2,"f":18446744073709551615,"g":"1","h":1.5}"#);
    assert_eq!(v.flag_at("a"), Some(true));
    assert_eq!(v.flag_at("b"), Some(false));
    assert_eq!(v.flag_at("c"), Some(true));
    assert_eq!(v.flag_at("d"), Some(false));
    assert_eq!(v.flag_at("e"), Some(true));
    assert_eq!(v.flag_at("f"), Some(true));
    assert_eq!(v.flag_at("g"), None);
    assert_eq!(v.flag_at("h"), None);
    assert_eq!(v.flag_at("i"), None);
}

#[test]
fn lists_are_read_from_an_object() {
    let v = json(r#"{"f":{"label":["a",1,"b"],"name":"x","none":[],"label2":["c"]},"g":[]}"#);
    let lists = v.lists_at("f");
    assert_eq!(lists.len(), 3);
    assert_eq!(lists.get("label").unwrap(), &vec!["a", "b"]);
    assert_eq!(lists.get("label2").unwrap(), &vec!["c"]);
    assert!(lists.get("none").unwrap().is_empty());
    assert!(!lists.contains_key("name"));
    assert!(v.lists_at("g").is_empty() && v.lists_at("h").is_empty());
    // The last of two equal keys counts.
    let twice = Json::object()
        .with("k", json(r#"["old"]"#))
        .with("l", Json::Null)
        .with("k", Json::Null)
        .with("l", json(r#"["new"]"#));
    let lists = Json::object().with("f", twice).lists_at("f");
    assert_eq!(lists.len(), 1);
    assert_eq!(lists.get("l").unwrap(), &vec!["new"]);
}

#[test]
fn documents_read_back() {
    for text in [
        "null",
        "true",
        "[]",
        "{}",
        r#"{"a":{"b":[{"c":"d"}]}}"#,
        r#""é\u0001\"\\""#,
        "-9223372036854775808",
        "18446744073709551615",
    ] {
        let v = json(text);
        let back = Json::parse(v.render().as_bytes()).unwrap();
        assert_eq!(back.to_value(), value(text));
    }
    // Objects are written in the order of their keys.
    assert_eq!(json(r#"{"b":1,"a":2}"#).render(), r#"{"a":2,"b":1}"#);
}

#[test]
fn deep_documents_stop_reading_at_the_limit() {
    let nested = |n: usize| format!("{}{}", "[".repeat(n), "]".repeat(n));
    assert!(Json::parse(nested(127).as_bytes()).is_some());
    assert!(Json::parse(nested(128).as_bytes()).is_none());
}

#[test]
fn container_name_requires_the_field() {
    assert_eq!(container_name(&with("container", "web")).unwrap(), "web");
    assert!(container_name(&Json::object())
        .unwrap_err()
        .message()
        .contains("missing container"));
}

/// The reply of a call that is refused without a connection.
fn refused(step: OwnedStep) -> Value {
    match step {
        Step::Reply(text) => value(&text),
        _ => panic!("refused offline"),
    }
}

#[test]
fn new_container_ops_reject_missing_args_offline() {
    for f in [
        docker__pause,
        docker__unpause,
        docker__wait,
        docker__top,
        docker__stats,
        docker__commit,
    ] {
        let v = refused(f(Some(b"{}")));
        assert_eq!(
            v["error"], "missing container",
            "export must reject missing container offline; got {v}"
        );
    }
    // rename needs both container and the new name.
    let v = refused(docker__rename(Some(br#"{"container":"web"}"#)));
    assert!(
        v["error"].as_str().unwrap().contains("missing name"),
        "rename must require the new name; got {v}"
    );
    assert_eq!(v["error"], "missing name (the new container name)");
}

#[test]
fn the_other_early_ops_reject_missing_args_offline() {
    for f in [docker__diff, docker__port, docker__update] {
        assert_eq!(refused(f(None))["error"], "missing container");
    }
    assert_eq!(refused(docker__history(None))["error"], "missing image");
}

#[test]
fn parse_image_ref_full_registry_namespace_tag_digest() {
    let v = op_parse_image_ref(&with(
        "ref",
        "registry.example.com:5000/team/app:1.2.3@sha256:abc123",
    ))
    .unwrap()
    .to_value();
    assert_eq!(v["registry"], Value::from("registry.example.com:5000"));
    assert_eq!(v["namespace"], Value::from("team"));
    assert_eq!(v["repository"], Value::from("app"));
    assert_eq!(v["tag"], Value::from("1.2.3"));
    assert_eq!(v["digest"], Value::from("sha256:abc123"));
    assert_eq!(v["path"], Value::from("registry.example.com:5000/team/app"));
}

#[test]
fn parse_image_ref_docker_hub_short_form_defaults_latest() {
    // `nginx` → no registry, no namespace, tag latest.
    let v = op_parse_image_ref(&with("ref", "nginx")).unwrap().to_value();
    assert_eq!(v["registry"], Value::Null);
    assert_eq!(v["namespace"], Value::Null);
    assert_eq!(v["repository"], Value::from("nginx"));
    assert_eq!(v["tag"], Value::from("latest"));
    // `library/nginx:1.25` → namespace library, explicit tag, still no registry.
    let v2 = op_parse_image_ref(&with("ref", "library/nginx:1.25")).unwrap().to_value();
    assert_eq!(v2["registry"], Value::Null, "`library` is a namespace, not a registry");
    assert_eq!(v2["namespace"], Value::from("library"));
    assert_eq!(v2["tag"], Value::from("1.25"));
}

#[test]
fn parse_image_ref_digest_only_has_null_tag() {
    let v = op_parse_image_ref(&with("ref", "nginx@sha256:deadbeef")).unwrap().to_value();
    assert_eq!(v["tag"], Value::Null, "digest-pinned ref has no default tag");
    assert_eq!(v["digest"], Value::from("sha256:deadbeef"));
}

#[test]
fn parse_image_ref_reads_ref_or_image() {
    let reply = |args: &str| docker__parse_image_ref(Some(args.as_bytes()));
    assert_eq!(
        reply(r#"{"image":"localhost/x"}"#),
        r#"{"digest":null,"namespace":null,"path":"localhost/x","registry":"localhost","repository":"x","tag":"latest"}"#
    );
    assert_eq!(reply(r#"{"ref":1,"image":"x"}"#), r#"{"error":"missing ref"}"#);
    assert_eq!(reply("{}"), r#"{"error":"missing ref"}"#);
    assert_eq!(reply(r#"{"ref":""}"#), r#"{"error":"empty image reference"}"#);
}

#[test]
fn valid_container_name_matches_daemon_regex() {
    let valid = |name: &str| {
        op_valid_container_name(&with("name", name)).unwrap().to_value()["valid"].clone()
    };
    assert_eq!(valid("web-1.api_v2"), Value::Bool(true));
    // Leading slash (the inspect form) is allowed.
    assert_eq!(valid("/web"), Value::Bool(true));
    // First char must be alphanumeric; length >= 2.
    assert_eq!(valid("_bad"), Value::Bool(false));
    assert_eq!(valid("has space"), Value::Bool(false));
    assert_eq!(
        valid("a"),
        Value::Bool(false),
        "single char fails the daemon's length-2 rule"
    );
    assert_eq!(valid("//web"), Value::Bool(false));
    assert_eq!(valid("/a"), Value::Bool(false));
    assert_eq!(valid("éé"), Value::Bool(false));
    assert_eq!(valid(""), Value::Bool(false));
    assert_eq!(
        docker__valid_container_name(Some(br#"{"name":"ab"}"#)),
        r#"{"name":"ab","valid":true}"#
    );
    assert_eq!(docker__valid_container_name(None), r#"{"error":"missing name"}"#);
}

#[test]
fn parse_port_spec_handles_the_p_flag_forms() {
    let parse = |spec: &str| op_parse_port_spec(&with("spec", spec)).unwrap().to_value();
    let full = parse("127.0.0.1:8080:80/tcp");
    assert_eq!(full["host_ip"], Value::from("127.0.0.1"));
    assert_eq!(full["host_port"], Value::from("8080"));
    assert_eq!(full["container_port"], Value::from("80"));
    assert_eq!(full["protocol"], Value::from("tcp"));

    let hp = parse("8080:80");
    assert_eq!(hp["host_ip"], Value::Null);
    assert_eq!(hp["host_port"], Value::from("8080"));
    assert_eq!(hp["protocol"], Value::from("tcp"), "protocol defaults to tcp");

    let bare = parse("53/udp");
    assert_eq!(bare["container_port"], Value::from("53"));
    assert_eq!(bare["host_port"], Value::Null);
    assert_eq!(bare["protocol"], Value::from("udp"));
}

#[test]
fn parse_port_spec_handles_bracketed_ipv6() {
    let v = op_parse_port_spec(&with("spec", "[::1]:8080:80")).unwrap().to_value();
    assert_eq!(v["host_ip"], Value::from("::1"));
    assert_eq!(v["host_port"], Value::from("8080"));
    assert_eq!(v["container_port"], Value::from("80"));
    assert_eq!(
        docker__parse_port_spec(Some(br#"{"spec":"[::1]:8080:80"}"#)),
        r#"{"container_port":"80","host_ip":"::1","host_port":"8080","protocol":"tcp"}"#
    );
    assert_eq!(docker__parse_port_spec(None), r#"{"error":"missing spec"}"#);
}

#[test]
fn parse_mount_classifies_bind_volume_anonymous() {
    let parse = |spec: &str| op_parse_mount(&with("spec", spec)).unwrap().to_value();
    // Host path → bind, with read-only option.
    let bind = parse("/data:/var/lib/data:ro");
    assert_eq!(bind["type"], Value::from("bind"));
    assert_eq!(bind["source"], Value::from("/data"));
    assert_eq!(bind["target"], Value::from("/var/lib/data"));
    assert_eq!(bind["readonly"], Value::Bool(true));
    assert_eq!(bind["options"], value(r#"["ro"]"#));
    // Named volume → volume, defaults read-write.
    let vol = parse("pgdata:/var/lib/postgresql/data");
    assert_eq!(vol["type"], Value::from("volume"));
    assert_eq!(vol["source"], Value::from("pgdata"));
    assert_eq!(vol["readonly"], Value::Bool(false));
    // Lone container path → anonymous volume, null source.
    let anon = parse("/cache");
    assert_eq!(anon["type"], Value::from("anonymous"));
    assert_eq!(anon["source"], Value::Null);
    assert_eq!(anon["target"], Value::from("/cache"));
    // Multi-option list is preserved in order.
    let multi = parse("./src:/app:ro,z");
    assert_eq!(multi["type"], Value::from("bind"));
    assert_eq!(multi["options"], value(r#"["ro", "z"]"#));
    // Empty target and over-long specs are rejected.
    assert!(op_parse_mount(&with("spec", "/data:")).is_err());
    assert!(op_parse_mount(&with("spec", "a:b:c:d")).is_err());
}

#[test]
fn parse_mount_edges() {
    let reply = |spec: &str| docker__parse_mount(Some(with("spec", spec).render().as_bytes()));
    assert_eq!(
        reply("~/src:/app:,z,,ro,"),
        r#"{"options":["z","ro"],"readonly":true,"source":"~/src","target":"/app","type":"bind"}"#
    );
    assert_eq!(
        reply(":/app"),
        r#"{"options":[],"readonly":false,"source":"","target":"/app","type":"volume"}"#
    );
    assert_eq!(
        reply("/data:"),
        r#"{"error":"mount spec missing container path: `/data:`"}"#
    );
    assert_eq!(
        reply("a:b:c:d"),
        r#"{"error":"invalid mount spec `a:b:c:d` (want src:dst[:opts])"}"#
    );
    // What holds a `/` or a `.` is a path of the host, and a bare name is a volume.
    for (spec, kind) in [
        ("data/sub:/app", "bind"),
        ("my.dir:/app", "bind"),
        ("~:/app", "bind"),
        ("../x:/app", "bind"),
        ("a~b:/app", "volume"),
        ("my-vol_1:/app", "volume"),
    ] {
        let v = value(&reply(spec));
        assert_eq!(v["type"], Value::from(kind), "{spec}");
        assert_eq!(v["source"], Value::from(spec.split(':').next().unwrap()));
        assert_eq!(v["target"], Value::from("/app"));
    }
    // Windows paths are rejected.
    assert_eq!(
        reply(r"C:\data:/app"),
        r#"{"error":"invalid mount spec `C:\\data:/app` (want src:dst[:opts])"}"#
    );
    assert_eq!(docker__parse_mount(None), r#"{"error":"missing spec"}"#);
}

#[test]
fn package_version_is_told() {
    assert_eq!(docker__pkg_version(None, "1.2.3"), r#"{"version":"1.2.3"}"#);
}
