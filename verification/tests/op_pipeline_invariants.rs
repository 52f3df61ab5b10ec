//! From the JSON arguments of an operation to the call that it sends.

use stryke_docker::call::{Call, Restart};
use stryke_docker::json::Json;
use stryke_docker::ops::{op_create, op_logs_tail, op_pull, string_vec};

fn json(text: &str) -> Json {
    Json::parse(text.as_bytes()).unwrap()
}

/// A pipeline that forwards the image unparsed, with the tag left to its default.
fn op_pull_unparsed(opts: &Json) -> Option<(String, String)> {
    let image = opts.text_at("image")?.to_string();
    let tag = String::new();
    Some((image, tag))
}

#[test]
fn op_pull_bare_image_name_sends_empty_tag_to_bollard() {
    let opts = json(r#"{"image": "alpine"}"#);
    let (from_image, tag) = op_pull_unparsed(&opts).expect("image arg must be extracted");
    assert_eq!(from_image, "alpine", "image is forwarded as-is to from_image");
    assert_eq!(
        tag, "",
        "an empty tag would make the daemon pull ALL tags of `alpine` instead of just `latest`"
    );
    assert_ne!(tag, "latest");
}

#[test]
fn op_pull_image_with_explicit_tag_still_sends_empty_to_bollard_tag_field() {
    let opts = json(r#"{"image": "alpine:3.18"}"#);
    let (from_image, tag) = op_pull_unparsed(&opts).expect("image arg must be extracted");
    assert_eq!(from_image, "alpine:3.18", "image forwarded with tag baked in");
    assert_eq!(tag, "", "the tag is not parsed out");
    assert_ne!(tag, "3.18");
}

#[test]
fn op_pull_sends_image_and_tag_apart() {
    let sent = op_pull(&json(r#"{"image": "alpine:3.18"}"#));
    assert!(matches!(
        sent,
        Ok(Call::CreateImage { from_image, tag, platform })
            if from_image == "alpine" && tag == "3.18" && platform.is_empty()
    ));
    let sent = op_pull(&json(r#"{"image": "alpine"}"#));
    assert!(matches!(sent, Ok(Call::CreateImage { tag, .. }) if tag == "latest"));
}

#[test]
fn op_logs_tail_zero_sends_zero_not_all_and_truncates_to_empty() {
    let opts = json(r#"{"tail": 0}"#);
    let s = op_logs_tail(&opts);
    assert_eq!(s, "0", "tail=0 reaches the daemon verbatim as \"0\"");
    assert_ne!(s, "all");
}

#[test]
fn op_logs_negative_tail_silently_drops_to_all_via_as_u64() {
    let opts = json(r#"{"tail": -1}"#);
    let s = op_logs_tail(&opts);
    assert_eq!(s, "all", "a negative tail degrades to 'all'");
    assert_ne!(s, "0");
}

#[test]
fn op_logs_tail_counts() {
    assert_eq!(op_logs_tail(&json("{}")), "all");
    assert_eq!(op_logs_tail(&json(r#"{"tail": 120}"#)), "120");
    assert_eq!(op_logs_tail(&json(r#"{"tail": 18446744073709551615}"#)), "18446744073709551615");
    assert_eq!(op_logs_tail(&json(r#"{"tail": 1.5}"#)), "all");
    assert_eq!(op_logs_tail(&json(r#"{"tail": null}"#)), "all");
    // A text is sent as it is.
    assert_eq!(op_logs_tail(&json(r#"{"tail": "50"}"#)), "50");
    assert_eq!(op_logs_tail(&json(r#"{"tail": "all"}"#)), "all");
}

#[test]
fn op_create_cmd_as_string_silently_drops_to_none() {
    let opts = json(r#"{"cmd": "ls -la"}"#);
    let cmd = string_vec(&opts, "cmd");
    assert!(cmd.is_none(), "a cmd that is no array is dropped");
    assert!(!matches!(cmd.as_deref(), Some([_, ..])));
}

#[test]
fn op_create_cmd_array_with_non_string_elements_filters_silently() {
    let opts = json(r#"{"cmd": ["sh", "-c", 42, null, "echo hi"]}"#);
    let cmd = string_vec(&opts, "cmd");
    assert_eq!(
        cmd,
        Some(vec!["sh".into(), "-c".into(), "echo hi".into()]),
        "42 and null are dropped"
    );
    assert_ne!(cmd.as_ref().map(|v| v.len()), Some(5));
}

/// The texts of a value, by way of a field of the arguments.
fn string_vec_from_value(value: &str) -> Option<Vec<String>> {
    let opts = Json::object().with("cmd", json(value));
    string_vec(&opts, "cmd")
}

#[test]
fn string_vec_helper_matches_op_create_pattern() {
    assert_eq!(
        string_vec_from_value(r#"["sh", "-c", "echo hi", 42, null, "tail"]"#),
        Some(vec!["sh".into(), "-c".into(), "echo hi".into(), "tail".into()])
    );
    assert_eq!(string_vec_from_value(r#""not-array""#), None);
    assert_eq!(string_vec_from_value("[]"), Some(vec![]));
}

#[test]
fn string_vec_empty_array_is_some_not_none() {
    assert_eq!(string_vec_from_value("[]"), Some(vec![]));
    assert_eq!(string_vec_from_value("null"), None);
    assert_eq!(string_vec(&Json::Null, "cmd"), None);
}

#[test]
fn op_create_takes_the_options_of_create() {
    let opts = json(
        r#"{"image": "nginx:alpine", "name": "web", "port": ["8080:80/tcp", "53/udp"],
            "label": ["app=web", "bad"], "volume": ["/a:/b:ro"], "network": "net",
            "workdir": "/w", "user": "u", "hostname": "h", "restart": "always", "rm": 1,
            "tty": false}"#,
    );
    let Ok(Call::CreateContainer { name, settings }) = op_create(&opts) else {
        panic!("a container is created");
    };
    assert_eq!(name.as_deref(), Some("web"));
    assert_eq!(settings.image, "nginx:alpine");
    let labels = settings.labels.unwrap();
    assert_eq!(labels.len(), 1);
    assert_eq!(labels.get("app").map(String::as_str), Some("web"));
    let ports = settings.ports.unwrap();
    assert_eq!(ports.len(), 2);
    assert_eq!(ports.get("80/tcp").unwrap(), &vec!["8080"]);
    assert_eq!(ports.get("53/udp").unwrap(), &vec!["53"]);
    assert_eq!(settings.working_dir.as_deref(), Some("/w"));
    assert_eq!(settings.user.as_deref(), Some("u"));
    assert_eq!(settings.hostname.as_deref(), Some("h"));
    assert_eq!(settings.tty, Some(false));
    assert_eq!(settings.attach_stdout, None);
    let host = settings.host.unwrap();
    assert_eq!(host.binds, Some(vec!["/a:/b:ro".to_string()]));
    assert_eq!(host.auto_remove, Some(true));
    assert_eq!(host.network_mode.as_deref(), Some("net"));
    assert_eq!(host.restart, Some(Restart::Always));
    // Ports alone need a host to be bound on.
    let opts = json(r#"{"image": "i", "port": ["80"], "rm": 0}"#);
    let Ok(Call::CreateContainer { settings, .. }) = op_create(&opts) else {
        panic!("a container is created");
    };
    let host = settings.host.unwrap();
    assert!(host.binds.is_none() && host.auto_remove.is_none() && host.restart.is_none());
    assert!(settings.labels.is_none() && settings.tty.is_none());
}

#[test]
fn op_create_sends_image_name_cmd_and_env() {
    let opts = json(r#"{"image": "nginx", "name": "web", "cmd": ["a", 1], "env": []}"#);
    let Ok(Call::CreateContainer { name, settings }) = op_create(&opts) else {
        panic!("a container is created");
    };
    assert_eq!(name.as_deref(), Some("web"));
    assert_eq!(settings.image, "nginx");
    assert_eq!(settings.cmd, Some(vec!["a".to_string()]));
    assert_eq!(settings.env, Some(vec![]));
    assert!(settings.host.is_none() && settings.ports.is_none() && settings.tty.is_none());
    assert_eq!(op_create(&Json::Null).err().unwrap().message(), "missing image");
}
