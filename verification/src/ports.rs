//! Published ports: `[host_ip:][host_port:]container_port[/proto]`, and the shorter
//! `host[:container][/proto]` of the commands `run` and `create`.

use vstd::prelude::*;

use crate::refusal::Refusal;
use crate::text::{
    contains_assembled, cut_first, cut_first_of, cut_last, cut_last_of, cut_nowhere, opt_text,
    pieces, pieces_of, rsplit_once, same, split, split_once, starts_with_char, trim_start_char,
    trimmed_start,
};

verus! {

/// The parts of a port spec.
#[derive(Debug)]
pub struct PortSpec<T> {
    pub host_ip: Option<T>,
    pub host_port: Option<T>,
    pub container_port: T,
    pub protocol: T,
}

impl PortSpec<String> {
    /// The parts with their characters.
    pub open spec fn model(self) -> PortSpec<Seq<char>> {
        PortSpec {
            host_ip: opt_text(self.host_ip),
            host_port: opt_text(self.host_port),
            container_port: self.container_port@,
            protocol: self.protocol@,
        }
    }
}

/// Whether the text names a protocol that ports have.
pub open spec fn is_protocol(p: Seq<char>) -> bool {
    p == "tcp"@ || p == "udp"@ || p == "sctp"@
}

/// The address and the protocol of a spec: what stands before and behind the last `/`, where a
/// protocol stands behind it, and else the whole spec with `tcp`.
pub open spec fn address_and_protocol(spec: Seq<char>) -> (Seq<char>, Seq<char>) {
    match cut_last(spec, '/') {
        Some((addr, p)) => if is_protocol(p) {
            (addr, p)
        } else {
            (spec, "tcp"@)
        },
        None => (spec, "tcp"@),
    }
}

/// The host address in brackets that an address starts with, and what follows it without the
/// colons in between. `Err` where the bracket is not closed.
pub open spec fn bracketed_host(addr: Seq<char>) -> Result<(Option<Seq<char>>, Seq<char>), ()> {
    if addr.len() > 0 && addr[0] == '[' {
        match cut_first(addr.skip(1), ']') {
            Some((ip, rest)) => Ok((Some(ip), trimmed_start(rest, ':'))),
            None => Err(()),
        }
    } else {
        Ok((None, addr))
    }
}

/// The host address, the host port and the container port that the pieces between the colons
/// stand for, given the host address that was read in brackets.
pub open spec fn placed(ip: Option<Seq<char>>, parts: Seq<Seq<char>>) -> Option<
    (Option<Seq<char>>, Option<Seq<char>>, Seq<char>),
> {
    if parts.len() == 1 {
        Some((ip, None, parts[0]))
    } else if parts.len() == 2 {
        Some((ip, Some(parts[0]), parts[1]))
    } else if parts.len() == 3 && ip is None {
        Some((Some(parts[0]), Some(parts[1]), parts[2]))
    } else {
        None
    }
}

/// What stands in an optional text, unless it is empty.
pub open spec fn unless_empty(t: Option<Seq<char>>) -> Option<Seq<char>> {
    match t {
        Some(s) => if s.len() > 0 {
            Some(s)
        } else {
            None
        },
        None => None,
    }
}

/// The parts of a port spec, or why it is refused.
pub open spec fn port_parts(spec: Seq<char>) -> Result<PortSpec<Seq<char>>, Refusal<Seq<char>>> {
    let (addr, protocol) = address_and_protocol(spec);
    match bracketed_host(addr) {
        Err(_) => Err(Refusal::UnterminatedIpv6(spec)),
        Ok((ip, remainder)) => match placed(ip, pieces(remainder, ':')) {
            None => Err(Refusal::InvalidPort(spec)),
            Some((host_ip, host_port, container_port)) => if container_port.len() == 0 {
                Err(Refusal::MissingContainerPort(spec))
            } else {
                Ok(
                    PortSpec {
                        host_ip,
                        host_port: unless_empty(host_port),
                        container_port,
                        protocol,
                    },
                )
            },
        },
    }
}

/// Takes a port spec apart.
pub fn parse_port_spec(spec: &str) -> (r: Result<PortSpec<String>, Refusal<String>>)
    ensures
        match r {
            Ok(p) => port_parts(spec@) == Ok::<PortSpec<Seq<char>>, Refusal<Seq<char>>>(p.model()),
            Err(e) => port_parts(spec@) == Err::<PortSpec<Seq<char>>, Refusal<Seq<char>>>(
                e.model(),
            ),
        },
{
    let (addr, protocol): (&str, &str) = match rsplit_once(spec, '/') {
        Some((a, p)) => if same(p, "tcp") || same(p, "udp") || same(p, "sctp") {
            (a, p)
        } else {
            (spec, "tcp")
        },
        None => (spec, "tcp"),
    };
    let (ip, remainder): (Option<String>, &str) = if starts_with_char(addr, '[') {
        let n = addr.unicode_len();
        match split_once(addr.substring_char(1, n), ']') {
            Some((ip, rest)) => (Some(ip.to_owned()), trim_start_char(rest, ':')),
            None => return Err(Refusal::UnterminatedIpv6(spec.to_owned())),
        }
    } else {
        (None, addr)
    };
    let ghost mip = opt_text(ip);
    assert(bracketed_host(addr@) == Ok::<_, ()>((mip, remainder@)));
    let parts = split(remainder, ':');
    let ghost mparts = pieces(remainder@, ':');
    assert(forall|i: int| 0 <= i < parts@.len() ==> mparts[i] == #[trigger] parts@[i]@);
    let n = parts.len();
    let (host_ip, host_port, container_port): (Option<String>, Option<String>, String) = if n == 1 {
        (ip, None, parts[0].clone())
    } else if n == 2 {
        (ip, Some(parts[0].clone()), parts[1].clone())
    } else if n == 3 && ip.is_none() {
        (Some(parts[0].clone()), Some(parts[1].clone()), parts[2].clone())
    } else {
        return Err(Refusal::InvalidPort(spec.to_owned()));
    };
    if container_port.as_str().is_empty() {
        return Err(Refusal::MissingContainerPort(spec.to_owned()));
    }
    let host_port = match host_port {
        Some(p) => if p.as_str().is_empty() {
            None
        } else {
            Some(p)
        },
        None => None,
    };
    Ok(PortSpec { host_ip, host_port, container_port, protocol: protocol.to_owned() })
}

/// The host port, the container port and the protocol of `host[:container][/proto]`: the
/// protocol stands behind the first `/`, and a port alone is both of them.
pub open spec fn binding_parts(spec: Seq<char>) -> (Seq<char>, Seq<char>, Option<Seq<char>>) {
    let (left, proto) = match cut_first(spec, '/') {
        Some((l, p)) => (l, Some(p)),
        None => (spec, None),
    };
    match cut_first(left, ':') {
        Some((host, container)) => (host, container, proto),
        None => (left, left, proto),
    }
}

/// Takes a port binding apart. Every text is one.
pub fn parse_port_binding(spec: &str) -> (r: Result<(String, String, Option<String>), String>)
    ensures
        r is Ok,
        r matches Ok((host, container, proto)) ==> (host@, container@, opt_text(proto))
            == binding_parts(spec@),
{
    let (left, proto): (&str, Option<String>) = match split_once(spec, '/') {
        Some((l, p)) => (l, Some(p.to_owned())),
        None => (spec, None),
    };
    match split_once(left, ':') {
        Some((host, container)) => Ok((host.to_owned(), container.to_owned(), proto)),
        None => Ok((left.to_owned(), left.to_owned(), proto)),
    }
}

/// An address assembled from its ports and the host address in front of them.
pub open spec fn spelled_address(
    ip: Option<Seq<char>>,
    host_port: Option<Seq<char>>,
    container_port: Seq<char>,
) -> Seq<char> {
    match (ip, host_port) {
        (Some(i), Some(h)) => i + seq![':'] + (h + seq![':'] + container_port),
        (Some(i), None) => i + seq![':'] + (Seq::<char>::empty() + seq![':'] + container_port),
        (None, Some(h)) => h + seq![':'] + container_port,
        (None, None) => container_port,
    }
}

/// A spec assembled from an address and the protocol behind it, if there is one.
pub open spec fn spelled_spec(addr: Seq<char>, protocol: Option<Seq<char>>) -> Seq<char> {
    match protocol {
        Some(p) => addr + seq!['/'] + p,
        None => addr,
    }
}

/// The protocol that a spec has: the one that it names, or `tcp`.
pub open spec fn protocol_or_tcp(protocol: Option<Seq<char>>) -> Seq<char> {
    match protocol {
        Some(p) => p,
        None => "tcp"@,
    }
}

/// Whether a text can stand between the colons of a port spec.
pub open spec fn is_part(s: Seq<char>) -> bool {
    s.len() > 0 && s[0] != '[' && !s.contains(':') && !s.contains('/')
}

/// A protocol has no `/` in it.
proof fn protocol_is_one_word(p: Seq<char>)
    requires
        is_protocol(p),
    ensures
        !p.contains('/'),
{
    reveal_strlit("tcp");
    reveal_strlit("udp");
    reveal_strlit("sctp");
}

/// A spec assembled around an address without `/` has that address and that protocol.
pub proof fn address_of_spelled(addr: Seq<char>, protocol: Option<Seq<char>>)
    requires
        !addr.contains('/'),
        protocol matches Some(p) ==> is_protocol(p),
    ensures
        address_and_protocol(spelled_spec(addr, protocol)) == (addr, protocol_or_tcp(protocol)),
{
    match protocol {
        Some(p) => {
            protocol_is_one_word(p);
            cut_last_of(addr, '/', p);
        },
        None => {
            cut_nowhere(addr, '/');
        },
    }
}

/// A port spec assembled from parts, `[host_ip:][host_port:]container_port[/proto]`, is taken
/// apart into those parts; without a protocol it has `tcp`.
pub proof fn port_parts_read_back(
    ip: Option<Seq<char>>,
    host_port: Option<Seq<char>>,
    container_port: Seq<char>,
    protocol: Option<Seq<char>>,
)
    requires
        ip matches Some(i) ==> is_part(i),
        host_port matches Some(h) ==> is_part(h),
        is_part(container_port),
        protocol matches Some(p) ==> is_protocol(p),
    ensures
        port_parts(spelled_spec(spelled_address(ip, host_port, container_port), protocol)) == Ok::<
            PortSpec<Seq<char>>,
            Refusal<Seq<char>>,
        >(
            (PortSpec {
                host_ip: ip,
                host_port,
                container_port,
                protocol: protocol_or_tcp(protocol),
            }),
        ),
{
    let addr = spelled_address(ip, host_port, container_port);
    let empty = Seq::<char>::empty();
    let c = container_port;
    pieces_of(c, ':', empty);
    match (ip, host_port) {
        (Some(i), Some(h)) => {
            let tail = h + seq![':'] + c;
            pieces_of(i, ':', tail);
            pieces_of(h, ':', c);
            contains_assembled(h, ':', c, '/');
            contains_assembled(i, ':', tail, '/');
            assert(pieces(addr, ':') =~= seq![i, h, c]);
            assert(addr[0] == i[0]);
        },
        (Some(i), None) => {
            let tail = empty + seq![':'] + c;
            pieces_of(i, ':', tail);
            pieces_of(empty, ':', c);
            contains_assembled(empty, ':', c, '/');
            contains_assembled(i, ':', tail, '/');
            assert(pieces(addr, ':') =~= seq![i, empty, c]);
            assert(addr[0] == i[0]);
        },
        (None, Some(h)) => {
            pieces_of(h, ':', c);
            contains_assembled(h, ':', c, '/');
            assert(pieces(addr, ':') =~= seq![h, c]);
            assert(addr[0] == h[0]);
        },
        (None, None) => {
            assert(pieces(addr, ':') =~= seq![c]);
        },
    }
    assert(!addr.contains('/'));
    address_of_spelled(addr, protocol);
}

/// A port spec with a host address in brackets is taken apart into that address, which may hold
/// colons, and the ports behind it.
pub proof fn bracketed_port_parts_read_back(
    ip: Seq<char>,
    host_port: Option<Seq<char>>,
    container_port: Seq<char>,
    protocol: Option<Seq<char>>,
)
    requires
        !ip.contains(']'),
        !ip.contains('/'),
        host_port matches Some(h) ==> is_part(h),
        is_part(container_port),
        protocol matches Some(p) ==> is_protocol(p),
    ensures
        port_parts(
            spelled_spec(
                seq!['['] + ip + seq![']'] + (seq![':'] + spelled_address(
                    None,
                    host_port,
                    container_port,
                )),
                protocol,
            ),
        ) == Ok::<PortSpec<Seq<char>>, Refusal<Seq<char>>>(
            (PortSpec {
                host_ip: Some(ip),
                host_port,
                container_port,
                protocol: protocol_or_tcp(protocol),
            }),
        ),
{
    let ports = spelled_address(None, host_port, container_port);
    let rest = seq![':'] + ports;
    let addr = seq!['['] + ip + seq![']'] + rest;
    let empty = Seq::<char>::empty();
    let c = container_port;
    pieces_of(c, ':', empty);
    if let Some(h) = host_port {
        pieces_of(h, ':', c);
        contains_assembled(h, ':', c, '/');
        assert(pieces(ports, ':') =~= seq![h, c]);
        assert(ports[0] == h[0]);
        assert(h.contains(h[0]));
    } else {
        assert(pieces(ports, ':') =~= seq![c]);
        assert(c.contains(c[0]));
    }
    assert(ports[0] != ':');
    assert(rest.drop_first() =~= ports);
    assert(trimmed_start(ports, ':') == ports);
    assert(trimmed_start(rest, ':') == ports);
    assert(addr.skip(1) =~= ip + seq![']'] + rest);
    cut_first_of(ip, ']', rest);
    contains_assembled(empty, ':', ports, '/');
    assert(empty + seq![':'] + ports =~= rest);
    contains_assembled(ip, ']', rest, '/');
    contains_assembled(empty, '[', ip + seq![']'] + rest, '/');
    assert(empty + seq!['['] + (ip + seq![']'] + rest) =~= addr);
    assert(!addr.contains('/'));
    address_of_spelled(addr, protocol);
}

/// What the parts of an accepted port spec hold: a protocol that ports have, a container port,
/// and no empty host port.
pub proof fn port_parts_are_sound(spec: Seq<char>)
    ensures
        port_parts(spec) matches Ok(p) ==> is_protocol(p.protocol) && p.container_port.len() > 0
            && (p.host_port matches Some(h) ==> h.len() > 0),
{
}

/// A port binding assembled as `host:container` or `host`, with a protocol behind it or without
/// one, is taken apart into those parts.
pub proof fn binding_parts_read_back(
    host: Seq<char>,
    container: Option<Seq<char>>,
    protocol: Option<Seq<char>>,
)
    requires
        !host.contains(':') && !host.contains('/'),
        container matches Some(c) ==> !c.contains('/'),
    ensures
        binding_parts(
            spelled_spec(
                match container {
                    Some(c) => host + seq![':'] + c,
                    None => host,
                },
                protocol,
            ),
        ) == (
            host,
            match container {
                Some(c) => c,
                None => host,
            },
            protocol,
        ),
{
    let left = match container {
        Some(c) => host + seq![':'] + c,
        None => host,
    };
    if let Some(c) = container {
        cut_first_of(host, ':', c);
        contains_assembled(host, ':', c, '/');
    } else {
        cut_nowhere(host, ':');
    }
    if let Some(p) = protocol {
        cut_first_of(left, '/', p);
    } else {
        cut_nowhere(left, '/');
    }
}

} // verus!
