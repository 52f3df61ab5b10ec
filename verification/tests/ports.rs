use stryke_docker::ports::{parse_port_binding, parse_port_spec};

#[test]
fn parse_port_binding_host_only() {
    let (h, c, p) = parse_port_binding("8080").unwrap();
    assert_eq!(h, "8080");
    // No ':' → container defaults to same value as host.
    assert_eq!(c, "8080");
    assert_eq!(p, None);
}

#[test]
fn parse_port_binding_host_container() {
    let (h, c, p) = parse_port_binding("8080:80").unwrap();
    assert_eq!(h, "8080");
    assert_eq!(c, "80");
    assert_eq!(p, None);
}

#[test]
fn parse_port_binding_with_protocol() {
    let (h, c, p) = parse_port_binding("8080:80/tcp").unwrap();
    assert_eq!(h, "8080");
    assert_eq!(c, "80");
    assert_eq!(p.as_deref(), Some("tcp"));
}

#[test]
fn parse_port_binding_proto_without_container() {
    let (h, c, p) = parse_port_binding("53/udp").unwrap();
    assert_eq!(h, "53");
    assert_eq!(c, "53");
    assert_eq!(p.as_deref(), Some("udp"));
}

#[test]
fn parse_port_binding_proto_split_runs_before_colon() {
    // '/' splits first, then ':' applies to the LEFT half only.
    let (h, c, p) = parse_port_binding("a:b/c:d").unwrap();
    assert_eq!(h, "a");
    assert_eq!(c, "b");
    // Everything after first '/' is the proto, verbatim.
    assert_eq!(p.as_deref(), Some("c:d"));
}

#[test]
fn port_spec_errors() {
    let message = |spec: &str| parse_port_spec(spec).unwrap_err().message();
    assert_eq!(message("[::1:8080:80"), "unterminated IPv6 literal in `[::1:8080:80`");
    assert_eq!(message("a:b:c:d"), "invalid port spec `a:b:c:d`");
    assert_eq!(message("[::1]:a:b:c"), "invalid port spec `[::1]:a:b:c`");
    assert_eq!(message("8080:"), "missing container port in `8080:`");
    assert_eq!(message(""), "missing container port in ``");
}

#[test]
fn port_spec_edges() {
    // An empty host port means any.
    let p = parse_port_spec("127.0.0.1::80").unwrap();
    assert_eq!(p.host_ip.as_deref(), Some("127.0.0.1"));
    assert_eq!(p.host_port, None);
    assert_eq!(p.container_port, "80");
    // An unknown protocol stays in the address.
    let p = parse_port_spec("80/icmp").unwrap();
    assert_eq!(p.container_port, "80/icmp");
    assert_eq!(p.protocol, "tcp");
    // A bracketed address with a container port alone.
    let p = parse_port_spec("[fe80::1]:53/sctp").unwrap();
    assert_eq!(p.host_ip.as_deref(), Some("fe80::1"));
    assert_eq!(p.host_port, None);
    assert_eq!(p.container_port, "53");
    assert_eq!(p.protocol, "sctp");
}
