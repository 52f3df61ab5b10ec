use stryke_docker::reference::{
    cmd_tag_split, op_pull_split, op_tag_split, op_tag_target, parse_image_ref,
};

#[test]
fn op_tag_rsplit_once_misparses_registry_with_port_no_tag() {
    let (repo, tag) = op_tag_split("localhost:5000/img");
    assert_eq!(repo, "localhost", "repo in front of the last colon");
    assert_eq!(tag.as_deref(), Some("5000/img"), "tag behind the last colon");
    assert_ne!(repo, "localhost:5000/img");
}

#[test]
fn op_tag_no_colon_target_produces_empty_tag_not_latest() {
    let (repo, tag) = op_tag_target("alpine");
    assert_eq!(repo, "alpine", "repo extracted correctly");
    assert_eq!(tag, "", "an absent tag is sent as an empty one");
    assert_ne!(tag, "latest");
}

#[test]
fn op_tag_trailing_colon_keeps_empty_tag_via_some_branch() {
    let (repo, tag) = op_tag_target("alpine:");
    assert_eq!(repo, "alpine", "repo extracted correctly");
    assert_eq!(tag, "", "an empty tag is sent as it is");
    assert_ne!(tag, "latest");
}

#[test]
fn command_tag_defaults_to_latest() {
    let split = |t: &str| cmd_tag_split(t);
    assert_eq!(split("repo"), ("repo".to_string(), "latest".to_string()));
    assert_eq!(split("repo:1"), ("repo".to_string(), "1".to_string()));
    assert_eq!(
        split("localhost:5000/img"),
        ("localhost:5000/img".to_string(), "latest".to_string())
    );
    assert_eq!(split(":1"), (":1".to_string(), "latest".to_string()));
    assert_eq!(split("repo:"), ("repo".to_string(), "".to_string()));
}

#[test]
fn reference_parts_rejoin() {
    for r in [
        "nginx",
        "nginx:1.25",
        "library/nginx",
        "localhost/a/b/c:x",
        "registry.example.com:5000/team/app:1.2.3@sha256:abc123",
        "a.b/c",
        "é/ü:ö",
        "/",
        ":",
        "@",
    ] {
        let m = parse_image_ref(r).unwrap();
        let mut path = String::new();
        for part in [&m.registry, &m.namespace].into_iter().flatten() {
            path.push_str(part);
            path.push('/');
        }
        path.push_str(&m.repository);
        assert_eq!(path, m.path);
        let mut spelled = path.clone();
        let mut untagged = path;
        if let Some(t) = &m.tag {
            spelled.push(':');
            spelled.push_str(t);
        }
        if let Some(d) = &m.digest {
            for s in [&mut spelled, &mut untagged] {
                s.push('@');
                s.push_str(d);
            }
        }
        assert!(spelled == r || (untagged == r && m.tag.as_deref() == Some("latest")), "{r}");
    }
    assert_eq!(parse_image_ref("").unwrap_err().message(), "empty image reference");
}

#[test]
fn pull_and_parts_agree() {
    for r in ["nginx", "nginx:1", "localhost:5000/img", "a.b:1/c/d:2", "x:"] {
        let (image, tag) = op_pull_split(r);
        let m = parse_image_ref(r).unwrap();
        assert_eq!(image, m.path);
        assert_eq!(Some(tag), m.tag);
    }
}
