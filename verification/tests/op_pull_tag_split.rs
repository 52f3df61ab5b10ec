//! The image and the tag that a pull asks for.

use stryke_docker::reference::op_pull_split;

/// A bare image name must default the tag to "latest", NOT to an empty string: an empty tag makes
/// the daemon pull every tag of the repository.
#[test]
fn bare_image_defaults_to_latest() {
    let (from_image, tag) = op_pull_split("alpine");
    assert_eq!(from_image, "alpine");
    assert_eq!(
        tag, "latest",
        "bare image must default to 'latest', never empty (empty = pull ALL tags)"
    );
}

/// The simple `repo:tag` form splits on the single colon.
#[test]
fn simple_repo_tag_splits_cleanly() {
    let (from_image, tag) = op_pull_split("alpine:3.18");
    assert_eq!(from_image, "alpine");
    assert_eq!(tag, "3.18");
}

/// Registry with a port, no tag: the only colon is the port's.
#[test]
fn registry_port_no_tag_keeps_port_in_image() {
    let (from_image, tag) = op_pull_split("localhost:5000/img");
    assert_eq!(
        from_image, "localhost:5000/img",
        "the port colon must stay inside from_image; it is not a tag separator"
    );
    assert_eq!(tag, "latest");
}

/// Registry with a port and a tag: only the last colon splits.
#[test]
fn registry_port_with_explicit_tag_splits_on_last_colon_only() {
    let (from_image, tag) = op_pull_split("localhost:5000/img:3.18");
    assert_eq!(
        from_image, "localhost:5000/img",
        "must split on the LAST colon, preserving the registry port"
    );
    assert_eq!(tag, "3.18");
}

/// Digest form: the colon belongs to the digest algorithm.
#[test]
fn digest_form_is_not_split_into_tag() {
    let digest = "alpine@sha256:abc123def456";
    let (from_image, tag) = op_pull_split(digest);
    assert_eq!(
        from_image, digest,
        "digest reference must be forwarded whole; ':' after sha256 is not a tag"
    );
    assert_eq!(tag, "latest");
}

/// Digest form behind a registry with a port.
#[test]
fn registry_port_plus_digest_stays_whole() {
    let r = "localhost:5000/img@sha256:abc123";
    let (from_image, tag) = op_pull_split(r);
    assert_eq!(from_image, r);
    assert_eq!(tag, "latest");
}

/// A trailing colon asks for an empty tag.
#[test]
fn trailing_colon_still_yields_empty_tag_through_some_arm() {
    let (from_image, tag) = op_pull_split("alpine:");
    assert_eq!(from_image, "alpine");
    assert_eq!(
        tag, "",
        "'alpine:' produces an empty tag, bypassing the 'latest' default which only guards the \
         no-colon path"
    );
    assert_ne!(tag, "latest");
}
