//! How texts are taken apart, and what lists of texts come to.

use vstd::prelude::*;

use crate::command::{bindings, paired, published};
use crate::context::{is_packed, packed_as, EntryKind, PackAction};
use crate::endpoint::{
    chosen_host, chosen_timeout, connect_label, helper_endpoint, host_endpoint, kept_client,
    Endpoint, CLIENT_TIMEOUT, HELPER_TIMEOUT,
};
use crate::json::Tree;
use crate::labels::{grouped, labels, values_of};
use crate::laws::values::trimming_drops_a_prefix;
use crate::mounts::{mount_parts, non_empty, Mount, MountKind};
use crate::names::{is_name_char, is_valid_name};
use crate::ports::{address_of_spelled, binding_parts_read_back, port_parts, PortSpec};
use crate::reference::{image_parts, image_parts_read_back, ImageRef};
use crate::refusal::Refusal;
use crate::text::{
    contains_assembled, cut_first, cut_first_of, cut_first_rejoins, cut_last, cut_last_of,
    cut_last_rejoins, cut_nowhere, pieces, pieces_of, pieces_rejoin, trimmed_start,
};

verus! {

/// Whether a text names a registry: it has a dot or a colon in it, or is `localhost`.
pub open spec fn names_a_registry(s: Seq<char>) -> bool {
    s.contains('.') || s.contains(':') || s == "localhost"@
}

/// The text with a separator and another text behind it, where there is another.
pub open spec fn followed(s: Seq<char>, sep: char, behind: Option<Seq<char>>) -> Seq<char> {
    match behind {
        Some(b) => s + seq![sep] + b,
        None => s,
    }
}

/// The first component of a reference with more than one, up to a slash, is its registry exactly
/// if it has a dot or a colon in it or is `localhost`, whatever stands behind it; else there is no
/// registry, and the component belongs to the namespace.
pub proof fn first_component_is_the_registry_of_a_host(first: Seq<char>, rest: Seq<char>)
    requires
        !first.contains('/'),
        !first.contains('@'),
    ensures
        image_parts(first + seq!['/'] + rest).registry == (if first.contains('.') || first.contains(
            ':',
        ) || first == "localhost"@ {
            Some(first)
        } else {
            None
        }),
        image_parts(first + seq!['/'] + rest).registry is None ==> image_parts(
            first + seq!['/'] + rest,
        ).namespace is Some,
{
    let r = first + seq!['/'] + rest;
    let n = first.len() as int;
    cut_first_rejoins(r, '@');
    // What stands before the digest begins with the component and the slash.
    let name = match cut_first(r, '@') {
        Some((name, _)) => name,
        None => r,
    };
    if let Some((name, d)) = cut_first(r, '@') {
        assert(r[name.len() as int] == '@');
        if name.len() < n {
            assert(first[name.len() as int] == '@');
        }
        assert(name.len() > n) by {
            if name.len() == n {
                assert(r[n] == '/');
            }
        }
        assert(name =~= r.take(name.len() as int));
    }
    assert(name.len() > n && name.take(n) =~= first && name[n] == '/');
    // So does what stands before the tag.
    cut_last_rejoins(name, ':');
    let path = match cut_last(name, ':') {
        Some((path, tag)) => if tag.contains('/') {
            name
        } else {
            path
        },
        None => name,
    };
    if let Some((p, tag)) = cut_last(name, ':') {
        assert(name[p.len() as int] == ':');
        if !tag.contains('/') {
            if p.len() <= n {
                assert(p.len() < n);
                assert(tag[n - p.len() - 1] == name[n]);
                assert(tag.contains('/'));
            }
            assert(p =~= name.take(p.len() as int));
        }
    }
    assert(path.len() > n && path.take(n) =~= first && path[n] == '/');
    let tail = path.skip(n + 1);
    assert(path =~= first + seq!['/'] + tail);
    cut_first_of(first, '/', tail);
    cut_last_rejoins(path, '/');
    contains_assembled(first, '/', tail, '/');
}

/// A reference without a slash has neither a registry nor a namespace.
pub proof fn one_component_is_the_repository(r: Seq<char>)
    requires
        !r.contains('/'),
    ensures
        image_parts(r).registry is None,
        image_parts(r).namespace is None,
{
    cut_first_rejoins(r, '@');
    let name = match cut_first(r, '@') {
        Some((name, d)) => {
            contains_assembled(name, '@', d, '/');
            name
        },
        None => r,
    };
    cut_last_rejoins(name, ':');
    let path = match cut_last(name, ':') {
        Some((path, tag)) => {
            contains_assembled(path, ':', tag, '/');
            if tag.contains('/') {
                name
            } else {
                path
            }
        },
        None => name,
    };
    cut_nowhere(path, '/');
}

/// A host with a port, and a repository behind it, are a registry and a repository.
pub proof fn host_with_port_is_a_registry(host: Seq<char>, port: Seq<char>, repository: Seq<char>)
    requires
        !host.contains('/') && !host.contains('@') && !host.contains(':'),
        !port.contains('/') && !port.contains('@') && !port.contains(':'),
        !repository.contains('/') && !repository.contains('@') && !repository.contains(':'),
    ensures
        ({
            let m = image_parts(host + seq![':'] + port + seq!['/'] + repository);
            &&& m.registry == Some(host + seq![':'] + port)
            &&& m.namespace is None
            &&& m.repository == repository
            &&& m.tag == Some("latest"@)
            &&& m.digest is None
        }),
{
    let first = host + seq![':'] + port;
    contains_assembled(host, ':', port, ':');
    contains_assembled(host, ':', port, '/');
    contains_assembled(host, ':', port, '@');
    components_read_back(first, None, repository, None, None);
}

/// A reference of a first component, perhaps others, a last one, and perhaps a tag and a digest is
/// taken apart into just these: the first component is the registry where it names one and else
/// belongs to the namespace, the last one is the repository, and without a tag or a digest the tag
/// is `latest`.
pub proof fn components_read_back(
    first: Seq<char>,
    others: Option<Seq<char>>,
    last: Seq<char>,
    tag: Option<Seq<char>>,
    digest: Option<Seq<char>>,
)
    requires
        !first.contains('/') && !first.contains('@'),
        others matches Some(o) ==> !o.contains('@'),
        !last.contains('/') && !last.contains(':') && !last.contains('@'),
        tag matches Some(t) ==> !t.contains('/') && !t.contains(':') && !t.contains('@'),
    ensures
        ({
            let path = followed(first, '/', others) + seq!['/'] + last;
            let host = first.contains('.') || first.contains(':') || first == "localhost"@;
            image_parts(followed(followed(path, ':', tag), '@', digest)) == ImageRef {
                registry: if host {
                    Some(first)
                } else {
                    None
                },
                namespace: if host {
                    others
                } else {
                    Some(followed(first, '/', others))
                },
                repository: last,
                tag: if tag is None && digest is None {
                    Some("latest"@)
                } else {
                    tag
                },
                digest,
                path,
            }
        }),
{
    let front = followed(first, '/', others);
    let path = front + seq!['/'] + last;
    if names_a_registry(first) {
        if let Some(o) = others {
            assert(path =~= first + seq!['/'] + (o + seq!['/'] + last));
        }
        image_parts_read_back(Some(first), others, last, tag, digest);
    } else {
        match others {
            Some(o) => {
                contains_assembled(first, '/', o, '@');
                assert(front + seq!['/'] =~= first + seq!['/'] + (o + seq!['/']));
                cut_first_of(first, '/', o + seq!['/']);
            },
            None => {
                assert(front + seq!['/'] =~= first + seq!['/'] + Seq::<char>::empty());
                cut_first_of(first, '/', Seq::empty());
            },
        }
        image_parts_read_back(None, Some(front), last, tag, digest);
    }
}

/// A reference of one component, and perhaps a tag and a digest, is a repository and these.
pub proof fn one_component_reads_back(
    last: Seq<char>,
    tag: Option<Seq<char>>,
    digest: Option<Seq<char>>,
)
    requires
        !last.contains('/') && !last.contains(':') && !last.contains('@'),
        tag matches Some(t) ==> !t.contains('/') && !t.contains(':') && !t.contains('@'),
    ensures
        image_parts(followed(followed(last, ':', tag), '@', digest)) == (ImageRef {
            registry: None::<Seq<char>>,
            namespace: None,
            repository: last,
            tag: if tag is None && digest is None {
                Some("latest"@)
            } else {
                tag
            },
            digest,
            path: last,
        }),
{
    image_parts_read_back(None, None, last, tag, digest);
}

/// Whether a text is fit for a container name: two characters or more, the first of them a letter
/// or a digit of ASCII, and each of them one of these, an underscore, a dot or a dash.
pub open spec fn fits_a_name(n: Seq<char>) -> bool {
    &&& n.len() >= 2
    &&& n[0] != '_' && n[0] != '.' && n[0] != '-'
    &&& forall|i: int|
        0 <= i < n.len() ==> (('a' <= #[trigger] n[i] && n[i] <= 'z') || ('A' <= n[i] && n[i]
            <= 'Z') || ('0' <= n[i] && n[i] <= '9') || n[i] == '_' || n[i] == '.' || n[i] == '-')
}

/// A name is valid exactly if it is fit, or a slash and then fit.
pub proof fn valid_name_is_fit(n: Seq<char>)
    ensures
        is_valid_name(n) <==> fits_a_name(n) || (n.len() > 0 && n[0] == '/' && fits_a_name(
            n.skip(1),
        )),
        is_valid_name(seq!['/'] + n) <==> fits_a_name(n),
{
    assert((seq!['/'] + n).skip(1) =~= n);
    if fits_a_name(n) {
        assert(n[0] != '/');
    }
    if n.len() > 0 && n[0] == '/' {
        let m = n.skip(1);
        if fits_a_name(m) {
            assert forall|i: int| 0 <= i < m.len() implies is_name_char(
                #[trigger] m[i],
            ) by {}
        }
        if is_valid_name(n) {
            assert forall|i: int| 0 <= i < m.len() implies (('a' <= #[trigger] m[i] && m[i] <= 'z')
                || ('A' <= m[i] && m[i] <= 'Z') || ('0' <= m[i] && m[i] <= '9') || m[i] == '_'
                || m[i] == '.' || m[i] == '-') by {
                assert(is_name_char(m[i]));
            }
        }
    }
}

/// A label counts by the text before its first equals sign, the last of that key counts, and a
/// text without an equals sign is no label.
pub proof fn label_counts_by_its_key(list: Seq<Seq<char>>, key: Seq<char>, value: Seq<char>)
    requires
        !key.contains('='),
    ensures
        labels(Seq::empty()) == Map::<Seq<char>, Seq<char>>::empty(),
        labels(list.push(key + seq!['='] + value)) == labels(list).insert(key, value),
        labels(list.push(key)) == labels(list),
{
    cut_first_of(key, '=', value);
    cut_nowhere(key, '=');
    assert(list.push(key + seq!['='] + value).drop_last() =~= list);
    assert(list.push(key).drop_last() =~= list);
}

/// The values of a key are listed in their order.
pub proof fn value_is_listed_behind_the_others(
    pairs: Seq<(Seq<char>, Seq<char>)>,
    key: Seq<char>,
    value: Seq<char>,
    other: Seq<char>,
)
    ensures
        ({
            let before = grouped(pairs);
            let behind = grouped(pairs.push((key, value)));
            &&& grouped(Seq::empty()) == Map::<Seq<char>, Seq<Seq<char>>>::empty()
            &&& behind.contains_key(key)
            &&& behind[key] == (if before.contains_key(key) {
                before[key]
            } else {
                Seq::empty()
            }).push(value)
            &&& other != key ==> (behind.contains_key(other) <==> before.contains_key(other))
            &&& other != key && before.contains_key(other) ==> behind[other] == before[other]
            &&& values_of(pairs.push((key, value)), key) == values_of(pairs, key).push(value)
            &&& other != key ==> values_of(pairs.push((key, value)), other) == values_of(
                pairs,
                other,
            )
            &&& values_of(Seq::empty(), key) == Seq::<Seq<char>>::empty()
        }),
{
    assert(pairs.push((key, value)).drop_last() =~= pairs);
    assert(seq![value] =~= Seq::empty().push(value));
}

/// The last value of a key is its value.
pub proof fn last_value_of_a_key_counts(
    pairs: Seq<(Seq<char>, Seq<char>)>,
    key: Seq<char>,
    value: Seq<char>,
)
    ensures
        paired(Seq::empty()) == Map::<Seq<char>, Seq<char>>::empty(),
        paired(pairs.push((key, value))) == paired(pairs).insert(key, value),
{
    assert(pairs.push((key, value)).drop_last() =~= pairs);
}

/// A published port `host:container/protocol` binds the container port, for that protocol or for
/// `tcp` where none is given, to the host port, behind those that it is bound to; a port alone is
/// bound to itself, and other ports stay as they are.
pub proof fn published_port_binds_its_host_port(
    ports: Seq<Seq<char>>,
    host: Seq<char>,
    container: Option<Seq<char>>,
    protocol: Option<Seq<char>>,
    other: Seq<char>,
)
    requires
        !host.contains(':') && !host.contains('/'),
        container matches Some(c) ==> !c.contains('/'),
    ensures
        ({
            let spec = followed(followed(host, ':', container), '/', protocol);
            let port = (if container is Some {
                container->0
            } else {
                host
            }) + "/"@ + (if protocol is Some {
                protocol->0
            } else {
                "tcp"@
            });
            let before = published(ports);
            let behind = published(ports.push(spec));
            &&& published(Seq::empty()) == Map::<Seq<char>, Seq<Seq<char>>>::empty()
            &&& behind.contains_key(port)
            &&& behind[port] == (if before.contains_key(port) {
                before[port]
            } else {
                Seq::empty()
            }).push(host)
            &&& other != port ==> (behind.contains_key(other) <==> before.contains_key(other))
            &&& other != port && before.contains_key(other) ==> behind[other] == before[other]
        }),
{
    let spec = followed(followed(host, ':', container), '/', protocol);
    binding_parts_read_back(host, container, protocol);
    let all = bindings(ports.push(spec));
    let pair = (
        (if container is Some {
            container->0
        } else {
            host
        }) + "/"@ + (if protocol is Some {
            protocol->0
        } else {
            "tcp"@
        }),
        host,
    );
    assert(all =~= bindings(ports).push(pair));
    assert(bindings(Seq::empty()) =~= Seq::empty());
    value_is_listed_behind_the_others(bindings(ports), pair.0, pair.1, other);
}

/// A host is reached as it is named: `default` by what the machine has, one that begins with
/// `unix://` as a socket, and any other over HTTP.
pub proof fn host_is_reached_as_named(host: Seq<char>, rest: Seq<char>)
    ensures
        host_endpoint("default"@) == Endpoint::<Seq<char>>::Local,
        host_endpoint("unix://"@ + rest) == Endpoint::Socket("unix://"@ + rest),
        host != "default"@ && !"unix://"@.is_prefix_of(host) ==> host_endpoint(host)
            == Endpoint::Http(host),
{
    assert("default"@[0] == 'd') by {
        reveal_strlit("default");
    }
    assert("unix://"@[0] == 'u' && "unix://"@.len() == 7) by {
        reveal_strlit("unix://");
    }
    let url = "unix://"@ + rest;
    assert(url[0] == 'u');
    assert("unix://"@.is_prefix_of(url)) by {
        assert(url.subrange(0, 7) =~= "unix://"@);
    }
}

/// The helper reaches a socket by its path, and a daemon at a `tcp`, `http` or `https` address by
/// that address; without a host it takes what the machine has, and any other host is refused.
pub proof fn helper_host_is_reached_as_named(url: Seq<char>, rest: Seq<char>)
    ensures
        helper_endpoint(None) == Ok::<_, Refusal<Seq<char>>>(Endpoint::<Seq<char>>::Local),
        !"unix://"@.is_prefix_of(rest) ==> helper_endpoint(Some("unix://"@ + rest)) == Ok::<
            _,
            Refusal<Seq<char>>,
        >(Endpoint::Socket(rest)),
        helper_endpoint(Some("tcp://"@ + rest)) == Ok::<_, Refusal<Seq<char>>>(
            Endpoint::Http("tcp://"@ + rest),
        ),
        helper_endpoint(Some("http://"@ + rest)) == Ok::<_, Refusal<Seq<char>>>(
            Endpoint::Http("http://"@ + rest),
        ),
        helper_endpoint(Some("https://"@ + rest)) == Ok::<_, Refusal<Seq<char>>>(
            Endpoint::Http("https://"@ + rest),
        ),
        !"unix://"@.is_prefix_of(url) && !"tcp://"@.is_prefix_of(url) && !"http://"@.is_prefix_of(
            url,
        ) && !"https://"@.is_prefix_of(url) ==> helper_endpoint(Some(url)) == Err::<
            Endpoint<Seq<char>>,
            _,
        >(Refusal::UnknownScheme(url)),
{
    assert("unix://"@[0] == 'u' && "unix://"@.len() == 7) by {
        reveal_strlit("unix://");
    }
    assert("tcp://"@[0] == 't' && "tcp://"@.len() == 6) by {
        reveal_strlit("tcp://");
    }
    assert("http://"@[0] == 'h' && "http://"@.len() == 7) by {
        reveal_strlit("http://");
    }
    assert("https://"@[0] == 'h' && "https://"@.len() == 8) by {
        reveal_strlit("https://");
    }
    begins_with("unix://"@, rest);
    begins_with("tcp://"@, rest);
    begins_with("http://"@, rest);
    begins_with("https://"@, rest);
    assert(("tcp://"@ + rest)[0] == 't');
    assert(("http://"@ + rest)[0] == 'h');
    assert(("https://"@ + rest)[0] == 'h');
    trimming_drops_a_prefix(rest, "unix://"@);
}

/// A text begins with what stands first in it.
proof fn begins_with(prefix: Seq<char>, rest: Seq<char>)
    ensures
        prefix.is_prefix_of(prefix + rest),
{
    assert((prefix + rest).subrange(0, prefix.len() as int) =~= prefix);
}

/// Each way of connecting has its own words, in which a failure is told.
pub proof fn connection_has_its_words(s: Seq<char>)
    ensures
        connect_label(Endpoint::Local) == "connect_with_local_defaults"@,
        connect_label(Endpoint::Socket(s)) == "connect_with_unix"@,
        connect_label(Endpoint::Http(s)) == "connect_with_http"@,
{
}

/// A call is for the host that it names, else for that of the environment, else for `default`; it
/// waits as many seconds as it names, else four; the helper waits two minutes. A client that is
/// kept under that host is taken, and no other.
pub proof fn call_is_for_its_host<C>(
    clients: Map<Seq<char>, C>,
    t: Tree,
    env: Option<Seq<char>>,
    host: Seq<char>,
    n: u64,
)
    ensures
        t.text_at("host"@) == Some(host) ==> chosen_host(t, env) == host,
        t.text_at("host"@) is None && env == Some(host) ==> chosen_host(t, env) == host,
        t.text_at("host"@) is None && env is None ==> chosen_host(t, env) == "default"@,
        t.u64_at("timeout"@) == Some(n) ==> chosen_timeout(t) == n,
        t.u64_at("timeout"@) is None ==> chosen_timeout(t) == 4,
        CLIENT_TIMEOUT == 4,
        HELPER_TIMEOUT == 120,
        chosen_host(t, env) == host ==> {
            &&& clients.contains_key(host) ==> kept_client(clients, t, env) == Some(clients[host])
            &&& !clients.contains_key(host) ==> kept_client(clients, t, env) is None
        },
{
}

/// Directories and files of a context are packed as what they are, unless they are the context
/// itself or `.git` is one of the components of their path; nothing else is packed.
pub proof fn context_is_packed_but_for_git(components: Seq<Seq<char>>)
    ensures
        is_packed(components) <==> components.len() > 0 && forall|i: int|
            0 <= i < components.len() ==> #[trigger] components[i] != ".git"@,
        packed_as(components, EntryKind::Directory) == (if is_packed(components) {
            PackAction::AddDirectory
        } else {
            PackAction::Skip
        }),
        packed_as(components, EntryKind::File) == (if is_packed(components) {
            PackAction::AddFile
        } else {
            PackAction::Skip
        }),
        packed_as(components, EntryKind::Other) == PackAction::Skip,
{
}

/// That a mount is taken apart.
pub open spec fn mounts_as(spec: Seq<char>, m: Mount<Seq<char>, Seq<Seq<char>>>) -> bool {
    mount_parts(spec) matches Ok(x) && x == m
}

/// The options are the pieces that are not empty.
proof fn non_empty_pieces(parts: Seq<Seq<char>>)
    ensures
        non_empty(parts) == parts.filter(|s: Seq<char>| s.len() > 0),
    decreases parts.len(),
{
    reveal(Seq::filter);
    if parts.len() > 0 {
        non_empty_pieces(parts.drop_last());
    }
}

/// A mount `source:target:options` is taken apart at its colons: the source is a path, and bound,
/// if it has a slash or a dot in it or begins with a tilde, and else the name of a volume; the
/// options are the texts between the commas that are not empty, and make the mount read-only if
/// `ro` is one of them. A target alone is an anonymous volume. What has no target, what begins with
/// the letter of a drive, and what has more parts is refused.
#[verifier::rlimit(60)]
pub proof fn mount_is_taken_apart_at_its_colons(
    source: Seq<char>,
    target: Seq<char>,
    list: Seq<char>,
    more: Seq<char>,
)
    requires
        !source.contains(':') && !target.contains(':') && !list.contains(':'),
    ensures
        ({
            let two = source + seq![':'] + target;
            let three = source + seq![':'] + (target + seq![':'] + list);
            let four = source + seq![':'] + (target + seq![':'] + (list + seq![':'] + more));
            let kind = if source.contains('/') || source.contains('.') || (source.len() > 0
                && source[0] == '~') {
                MountKind::Bind
            } else {
                MountKind::Volume
            };
            let options = pieces(list, ',').filter(|s: Seq<char>| s.len() > 0);
            let drive = source.len() == 1 && (('a' <= source[0] && source[0] <= 'z') || ('A'
                <= source[0] && source[0] <= 'Z')) && target.len() > 0 && target[0] == '\\';
            &&& target.len() > 0 ==> mounts_as(
                target,
                Mount {
                    kind: MountKind::Anonymous,
                    source: None,
                    target,
                    readonly: false,
                    options: Seq::empty(),
                },
            )
            &&& target.len() > 0 && !drive ==> mounts_as(
                two,
                Mount {
                    kind,
                    source: Some(source),
                    target,
                    readonly: false,
                    options: Seq::empty(),
                },
            )
            &&& target.len() > 0 && !drive ==> mounts_as(
                three,
                Mount {
                    kind,
                    source: Some(source),
                    target,
                    readonly: options.contains("ro"@),
                    options,
                },
            )
            &&& drive ==> mount_parts(two) == Err::<Mount<Seq<char>, Seq<Seq<char>>>, _>(
                Refusal::InvalidMount(two),
            )
            &&& drive ==> mount_parts(three) == Err::<Mount<Seq<char>, Seq<Seq<char>>>, _>(
                Refusal::InvalidMount(three),
            )
            &&& target.len() == 0 ==> {
                &&& mount_parts(target) == Err::<Mount<Seq<char>, Seq<Seq<char>>>, _>(
                    Refusal::MissingMountTarget(target),
                )
                &&& mount_parts(two) == Err::<Mount<Seq<char>, Seq<Seq<char>>>, _>(
                    Refusal::MissingMountTarget(two),
                )
                &&& mount_parts(three) == Err::<Mount<Seq<char>, Seq<Seq<char>>>, _>(
                    Refusal::MissingMountTarget(three),
                )
            }
            &&& mount_parts(four) == Err::<Mount<Seq<char>, Seq<Seq<char>>>, _>(
                Refusal::InvalidMount(four),
            )
        }),
{
    let two = source + seq![':'] + target;
    let three = source + seq![':'] + (target + seq![':'] + list);
    let four = source + seq![':'] + (target + seq![':'] + (list + seq![':'] + more));
    pieces_of(target, ':', list);
    pieces_of(list, ':', more);
    pieces_of(target, ':', list + seq![':'] + more);
    pieces_of(source, ':', target);
    pieces_of(source, ':', target + seq![':'] + list);
    pieces_of(source, ':', target + seq![':'] + (list + seq![':'] + more));
    pieces_rejoin(more, ':');
    non_empty_pieces(pieces(list, ','));
    // No options.
    let none = Seq::<char>::empty();
    pieces_of(none, ',', none);
    assert(seq![none].drop_last() =~= Seq::<Seq<char>>::empty());
    reveal_with_fuel(non_empty, 2);
    assert(pieces(two, ':') =~= seq![source, target]);
    assert(pieces(three, ':') =~= seq![source, target, list]);
    assert(pieces(four, ':').len() >= 4);
    // A drive.
    assert(target.len() >= 2 && target[1] == ':' ==> target.contains(':'));
    if source.len() == 1 {
        if target.len() > 0 {
            assert(two[2] == target[0] && three[2] == target[0]);
        } else {
            assert(three[2] == ':');
        }
    } else if source.len() > 1 {
        assert(two[1] == source[1] && three[1] == source[1]);
        assert(source[1] == ':' ==> source.contains(':'));
    } else {
        assert(two[0] == ':' && three[0] == ':');
    }
}

/// That a port is taken apart.
pub open spec fn port_is(
    spec: Seq<char>,
    host_ip: Option<Seq<char>>,
    host_port: Seq<char>,
    container_port: Seq<char>,
    protocol: Seq<char>,
) -> bool {
    port_parts(spec) matches Ok(p) && p == PortSpec {
        host_ip,
        host_port: if host_port.len() > 0 {
            Some(host_port)
        } else {
            None
        },
        container_port,
        protocol,
    }
}

/// Whether a text can stand between the colons of a port.
pub open spec fn stands_alone(s: Seq<char>) -> bool {
    !s.contains(':') && !s.contains('/') && (s.len() > 0 ==> s[0] != '[')
}

/// A port `ip:host:container/protocol` is taken apart at its colons, from the right: the last part
/// is the port of the container, the one before it that of the host, and the one before that the
/// address of the host. The protocol is `tcp`, `udp` or `sctp`, and `tcp` where none is given. A
/// port without one of the container, and one with more parts, is refused.
#[verifier::rlimit(60)]
pub proof fn port_is_taken_apart_at_its_colons(
    ip: Seq<char>,
    host: Seq<char>,
    container: Seq<char>,
    protocol: Option<Seq<char>>,
    more: Seq<char>,
)
    requires
        stands_alone(ip) && stands_alone(host) && stands_alone(container),
        !more.contains('/'),
        protocol matches Some(p) ==> p == "tcp"@ || p == "udp"@ || p == "sctp"@,
    ensures
        ({
            let one = followed(container, '/', protocol);
            let two = followed(host + seq![':'] + container, '/', protocol);
            let three = followed(ip + seq![':'] + (host + seq![':'] + container), '/', protocol);
            let four = followed(
                ip + seq![':'] + (host + seq![':'] + (container + seq![':'] + more)),
                '/',
                protocol,
            );
            let proto = if protocol is Some {
                protocol->0
            } else {
                "tcp"@
            };
            &&& container.len() > 0 ==> port_is(one, None, Seq::empty(), container, proto)
            &&& container.len() > 0 ==> port_is(two, None, host, container, proto)
            &&& container.len() > 0 ==> port_is(three, Some(ip), host, container, proto)
            &&& container.len() == 0 ==> {
                &&& port_parts(one) == Err::<PortSpec<Seq<char>>, _>(
                    Refusal::MissingContainerPort(one),
                )
                &&& port_parts(two) == Err::<PortSpec<Seq<char>>, _>(
                    Refusal::MissingContainerPort(two),
                )
                &&& port_parts(three) == Err::<PortSpec<Seq<char>>, _>(
                    Refusal::MissingContainerPort(three),
                )
            }
            &&& port_parts(four) == Err::<PortSpec<Seq<char>>, _>(Refusal::InvalidPort(four))
        }),
{
    let one = container;
    let two = host + seq![':'] + container;
    let three = ip + seq![':'] + two;
    let tail = container + seq![':'] + more;
    let four = ip + seq![':'] + (host + seq![':'] + tail);
    contains_assembled(host, ':', container, '/');
    contains_assembled(ip, ':', two, '/');
    contains_assembled(container, ':', more, '/');
    contains_assembled(host, ':', tail, '/');
    contains_assembled(ip, ':', host + seq![':'] + tail, '/');
    address_of_spelled(one, protocol);
    address_of_spelled(two, protocol);
    address_of_spelled(three, protocol);
    address_of_spelled(four, protocol);
    pieces_of(container, ':', more);
    pieces_of(host, ':', container);
    pieces_of(ip, ':', two);
    pieces_of(host, ':', tail);
    pieces_of(ip, ':', host + seq![':'] + tail);
    pieces_rejoin(more, ':');
    assert(pieces(one, ':') =~= seq![container]);
    assert(pieces(two, ':') =~= seq![host, container]);
    assert(pieces(three, ':') =~= seq![ip, host, container]);
    assert(pieces(four, ':').len() >= 4);
    assert(two[0] != '[') by {
        if host.len() > 0 {
            assert(two[0] == host[0]);
        } else {
            assert(two[0] == ':');
        }
    }
    assert(three[0] != '[' && four[0] != '[') by {
        if ip.len() > 0 {
            assert(three[0] == ip[0] && four[0] == ip[0]);
        } else {
            assert(three[0] == ':' && four[0] == ':');
        }
    }
}

/// An address in brackets is the address of the host, colons and all; without the closing bracket,
/// and with more than two ports behind it, the port is refused.
#[verifier::rlimit(60)]
pub proof fn bracketed_address_is_taken_whole(
    ip: Seq<char>,
    host: Seq<char>,
    container: Seq<char>,
    protocol: Option<Seq<char>>,
    more: Seq<char>,
)
    requires
        !ip.contains(']') && !ip.contains('/'),
        !host.contains(':') && !host.contains('/'),
        !container.contains(':') && !container.contains('/'),
        !more.contains('/'),
        protocol matches Some(p) ==> p == "tcp"@ || p == "udp"@ || p == "sctp"@,
    ensures
        ({
            let one = followed(
                seq!['['] + ip + seq![']'] + (seq![':'] + container),
                '/',
                protocol,
            );
            let two = followed(
                seq!['['] + ip + seq![']'] + (seq![':'] + (host + seq![':'] + container)),
                '/',
                protocol,
            );
            let three = followed(
                seq!['['] + ip + seq![']'] + (seq![':'] + (host + seq![':'] + (container + seq![':']
                    + more))),
                '/',
                protocol,
            );
            let open = followed(seq!['['] + ip, '/', protocol);
            let proto = if protocol is Some {
                protocol->0
            } else {
                "tcp"@
            };
            &&& container.len() > 0 ==> port_is(one, Some(ip), Seq::empty(), container, proto)
            &&& container.len() > 0 ==> port_is(two, Some(ip), host, container, proto)
            &&& container.len() == 0 ==> {
                &&& port_parts(one) == Err::<PortSpec<Seq<char>>, _>(
                    Refusal::MissingContainerPort(one),
                )
                &&& port_parts(two) == Err::<PortSpec<Seq<char>>, _>(
                    Refusal::MissingContainerPort(two),
                )
            }
            &&& host.len() > 0 ==> port_parts(three) == Err::<PortSpec<Seq<char>>, _>(
                Refusal::InvalidPort(three),
            )
            &&& port_parts(open) == Err::<PortSpec<Seq<char>>, _>(Refusal::UnterminatedIpv6(open))
        }),
{
    let pair = host + seq![':'] + container;
    let one = seq!['['] + ip + seq![']'] + (seq![':'] + container);
    let two = seq!['['] + ip + seq![']'] + (seq![':'] + pair);
    let open = seq!['['] + ip;
    let tail = container + seq![':'] + more;
    let long = host + seq![':'] + tail;
    let three = seq!['['] + ip + seq![']'] + (seq![':'] + long);
    contains_assembled(container, ':', more, '/');
    contains_assembled(host, ':', tail, '/');
    pieces_of(host, ':', tail);
    pieces_of(container, ':', more);
    pieces_rejoin(more, ':');
    assert(pieces(long, ':').len() >= 3);
    contains_assembled(host, ':', container, '/');
    assert(!one.contains('/') && !two.contains('/') && !three.contains('/') && !open.contains(
        '/',
    )) by {
        assert forall|i: int| 0 <= i < one.len() implies one[i] != '/' by {
            bracketed_characters(ip, container, i);
        }
        assert forall|i: int| 0 <= i < two.len() implies two[i] != '/' by {
            bracketed_characters(ip, pair, i);
        }
        assert forall|i: int| 0 <= i < three.len() implies three[i] != '/' by {
            bracketed_characters(ip, long, i);
        }
        assert forall|i: int| 0 <= i < open.len() implies open[i] != '/' by {
            if i > 0 {
                assert(open[i] == ip[i - 1]);
                assert(ip.contains(ip[i - 1]));
            }
        }
    }
    address_of_spelled(one, protocol);
    address_of_spelled(two, protocol);
    address_of_spelled(three, protocol);
    address_of_spelled(open, protocol);
    assert(one.skip(1) =~= ip + seq![']'] + (seq![':'] + container));
    assert(two.skip(1) =~= ip + seq![']'] + (seq![':'] + pair));
    assert(three.skip(1) =~= ip + seq![']'] + (seq![':'] + long));
    assert(open.skip(1) =~= ip);
    cut_first_of(ip, ']', seq![':'] + container);
    cut_first_of(ip, ']', seq![':'] + pair);
    cut_first_of(ip, ']', seq![':'] + long);
    cut_nowhere(ip, ']');
    assert((seq![':'] + container).drop_first() =~= container);
    assert((seq![':'] + pair).drop_first() =~= pair);
    assert((seq![':'] + long).drop_first() =~= long);
    if container.len() > 0 {
        assert(container.contains(container[0]));
    }
    if host.len() > 0 {
        assert(pair[0] == host[0] && long[0] == host[0]);
        assert(host.contains(host[0]));
    } else {
        assert(pair.drop_first() =~= container);
    }
    reveal_with_fuel(trimmed_start, 3);
    pieces_of(container, ':', container);
    pieces_of(host, ':', container);
    assert(pieces(container, ':') =~= seq![container]);
    assert(pieces(pair, ':') =~= seq![host, container]);
}

/// The characters of a bracketed address and of what stands behind it.
proof fn bracketed_characters(ip: Seq<char>, rest: Seq<char>, i: int)
    requires
        !ip.contains('/'),
        !rest.contains('/'),
        0 <= i < ip.len() + rest.len() + 3,
    ensures
        (seq!['['] + ip + seq![']'] + (seq![':'] + rest))[i] != '/',
{
    let n = ip.len() as int;
    if 0 < i <= n {
        assert(ip.contains(ip[i - 1]));
    } else if i > n + 2 {
        assert(rest.contains(rest[i - n - 3]));
    }
}

/// What is behind a slash and is no protocol belongs to the port of the container.
pub proof fn other_word_is_no_protocol(container: Seq<char>, word: Seq<char>)
    requires
        stands_alone(container),
        !word.contains('/') && !word.contains(':'),
        word != "tcp"@ && word != "udp"@ && word != "sctp"@,
    ensures
        port_is(
            container + seq!['/'] + word,
            None,
            Seq::empty(),
            container + seq!['/'] + word,
            "tcp"@,
        ),
{
    let spec = container + seq!['/'] + word;
    cut_last_of(container, '/', word);
    contains_assembled(container, '/', word, ':');
    pieces_of(spec, ':', spec);
    assert(spec[0] != '[') by {
        if container.len() > 0 {
            assert(spec[0] == container[0]);
        } else {
            assert(spec[0] == '/');
        }
    }
}

} // verus!
