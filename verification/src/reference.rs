//! Image references: `[registry[:port]/]name[:tag][@digest]`.

use vstd::prelude::*;

use crate::refusal::Refusal;
use crate::text::{
    contains_assembled, contains_char, cut_first, cut_first_of, cut_first_rejoins, cut_last,
    cut_last_of, cut_last_rejoins, cut_nowhere, opt_text, rsplit_once, same, split_once,
};

verus! {

/// The parts of an image reference.
#[derive(Debug)]
pub struct ImageRef<T> {
    pub registry: Option<T>,
    pub namespace: Option<T>,
    pub repository: T,
    pub tag: Option<T>,
    pub digest: Option<T>,
    /// Registry, namespace and repository as they were written.
    pub path: T,
}

impl ImageRef<String> {
    /// The parts with their characters.
    pub open spec fn model(self) -> ImageRef<Seq<char>> {
        ImageRef {
            registry: opt_text(self.registry),
            namespace: opt_text(self.namespace),
            repository: self.repository@,
            tag: opt_text(self.tag),
            digest: opt_text(self.digest),
            path: self.path@,
        }
    }
}

/// Whether the first component of a path names a host.
pub open spec fn is_host(s: Seq<char>) -> bool {
    s.contains('.') || s.contains(':') || s == "localhost"@
}

/// The name and the digest of a reference: what stands before and behind the first `@`.
pub open spec fn name_and_digest(r: Seq<char>) -> (Seq<char>, Option<Seq<char>>) {
    match cut_first(r, '@') {
        Some((name, digest)) => (name, Some(digest)),
        None => (r, None),
    }
}

/// The path and the tag of a name. A `:` separates a tag only behind the last `/`: one before
/// it belongs to the port of a registry.
pub open spec fn path_and_tag(name: Seq<char>) -> (Seq<char>, Option<Seq<char>>) {
    match cut_last(name, ':') {
        Some((path, tag)) => if tag.contains('/') {
            (name, None)
        } else {
            (path, Some(tag))
        },
        None => (name, None),
    }
}

/// The registry of a path, and the rest of it: its first component, where it names a host.
pub open spec fn registry_and_rest(path: Seq<char>) -> (Option<Seq<char>>, Seq<char>) {
    match cut_first(path, '/') {
        Some((head, rest)) => if is_host(head) {
            (Some(head), rest)
        } else {
            (None, path)
        },
        None => (None, path),
    }
}

/// The namespace and the repository: what stands before and behind the last `/`.
pub open spec fn namespace_and_repository(rest: Seq<char>) -> (Option<Seq<char>>, Seq<char>) {
    match cut_last(rest, '/') {
        Some((namespace, repository)) => (Some(namespace), repository),
        None => (None, rest),
    }
}

/// The parts of a reference. Its tag is `latest` where it has neither a tag nor a digest.
pub open spec fn image_parts(r: Seq<char>) -> ImageRef<Seq<char>> {
    let (name, digest) = name_and_digest(r);
    let (path, tag) = path_and_tag(name);
    let (registry, rest) = registry_and_rest(path);
    let (namespace, repository) = namespace_and_repository(rest);
    ImageRef {
        registry,
        namespace,
        repository,
        tag: if tag is None && digest is None {
            Some("latest"@)
        } else {
            tag
        },
        digest,
        path,
    }
}

/// Takes an image reference apart. An empty one is refused.
pub fn parse_image_ref(r: &str) -> (res: Result<ImageRef<String>, Refusal<String>>)
    ensures
        match res {
            Ok(parts) => r@.len() > 0 && parts.model() == image_parts(r@),
            Err(e) => r@.len() == 0 && e == Refusal::<String>::EmptyReference,
        },
{
    if r.is_empty() {
        return Err(Refusal::EmptyReference);
    }
    let (name, digest): (&str, Option<String>) = match split_once(r, '@') {
        Some((name, d)) => (name, Some(d.to_owned())),
        None => (r, None),
    };
    let (path, tag): (&str, Option<String>) = match rsplit_once(name, ':') {
        Some((p, t)) => if contains_char(t, '/') {
            (name, None)
        } else {
            (p, Some(t.to_owned()))
        },
        None => (name, None),
    };
    let (registry, rest): (Option<String>, &str) = match split_once(path, '/') {
        Some((head, rest)) => if contains_char(head, '.') || contains_char(head, ':') || same(
            head,
            "localhost",
        ) {
            (Some(head.to_owned()), rest)
        } else {
            (None, path)
        },
        None => (None, path),
    };
    let (namespace, repository): (Option<String>, &str) = match rsplit_once(rest, '/') {
        Some((n, repo)) => (Some(n.to_owned()), repo),
        None => (None, rest),
    };
    let tag = if tag.is_none() && digest.is_none() {
        Some("latest".to_owned())
    } else {
        tag
    };
    Ok(
        ImageRef {
            registry,
            namespace,
            repository: repository.to_owned(),
            tag,
            digest,
            path: path.to_owned(),
        },
    )
}

/// The image and the tag to pull. An image without a tag is pulled as `latest`, never with an
/// empty tag, which would mean all of them; a reference with a digest is passed on whole.
pub open spec fn pull_parts(image: Seq<char>) -> (Seq<char>, Seq<char>) {
    match cut_last(image, ':') {
        Some((repo, tag)) => if !repo.contains('@') && !tag.contains('/') {
            (repo, tag)
        } else {
            (image, "latest"@)
        },
        None => (image, "latest"@),
    }
}

/// The image and the tag to pull.
pub fn op_pull_split(image: &str) -> (r: (String, String))
    ensures
        (r.0@, r.1@) == pull_parts(image@),
{
    match rsplit_once(image, ':') {
        Some((repo, tag)) => if !contains_char(repo, '@') && !contains_char(tag, '/') {
            (repo.to_owned(), tag.to_owned())
        } else {
            (image.to_owned(), "latest".to_owned())
        },
        None => (image.to_owned(), "latest".to_owned()),
    }
}

/// The repository and the tag of the target of `docker__tag`: what stands before and behind the
/// last `:`, wherever it stands. Without one there is no tag.
pub open spec fn target_parts(target: Seq<char>) -> (Seq<char>, Option<Seq<char>>) {
    match cut_last(target, ':') {
        Some((repo, tag)) => (repo, Some(tag)),
        None => (target, None),
    }
}

/// The repository and the tag of the target of `docker__tag`.
pub fn op_tag_split(target: &str) -> (r: (String, Option<String>))
    ensures
        (r.0@, opt_text(r.1)) == target_parts(target@),
{
    match rsplit_once(target, ':') {
        Some((repo, tag)) => (repo.to_owned(), Some(tag.to_owned())),
        None => (target.to_owned(), None),
    }
}

/// The repository and the tag that `docker__tag` sends: an absent tag is sent as an empty one.
pub open spec fn target_sent(target: Seq<char>) -> (Seq<char>, Seq<char>) {
    match target_parts(target) {
        (repo, Some(tag)) => (repo, tag),
        (repo, None) => (repo, Seq::empty()),
    }
}

/// The repository and the tag that `docker__tag` sends.
pub fn op_tag_target(target: &str) -> (r: (String, String))
    ensures
        (r.0@, r.1@) == target_sent(target@),
{
    let (repo, tag) = op_tag_split(target);
    match tag {
        Some(tag) => (repo, tag),
        None => (repo, String::new()),
    }
}

/// The repository and the tag of the target of the command `tag`, `repo[:tag]`: the tag is
/// `latest` where there is none, where a `/` stands in it, or where it stands alone.
pub open spec fn command_target_parts(target: Seq<char>) -> (Seq<char>, Seq<char>) {
    match cut_last(target, ':') {
        Some((repo, tag)) => if repo.len() > 0 && !tag.contains('/') {
            (repo, tag)
        } else {
            (target, "latest"@)
        },
        None => (target, "latest"@),
    }
}

/// The repository and the tag of the target of the command `tag`.
pub fn cmd_tag_split(target: &str) -> (r: (String, String))
    ensures
        (r.0@, r.1@) == command_target_parts(target@),
{
    match rsplit_once(target, ':') {
        Some((repo, tag)) => if !repo.is_empty() && !contains_char(tag, '/') {
            (repo.to_owned(), tag.to_owned())
        } else {
            (target.to_owned(), "latest".to_owned())
        },
        None => (target.to_owned(), "latest".to_owned()),
    }
}

/// Registry, namespace and repository with `/` between them.
pub open spec fn spelled_path(
    registry: Option<Seq<char>>,
    namespace: Option<Seq<char>>,
    repository: Seq<char>,
) -> Seq<char> {
    let rest = match namespace {
        Some(n) => n + seq!['/'] + repository,
        None => repository,
    };
    match registry {
        Some(host) => host + seq!['/'] + rest,
        None => rest,
    }
}

/// A path, and behind it the tag and the digest that there are.
pub open spec fn spelled(
    path: Seq<char>,
    tag: Option<Seq<char>>,
    digest: Option<Seq<char>>,
) -> Seq<char> {
    let name = match tag {
        Some(t) => path + seq![':'] + t,
        None => path,
    };
    match digest {
        Some(d) => name + seq!['@'] + d,
        None => name,
    }
}

/// Taking a reference apart loses nothing: its path is registry, namespace and repository with
/// `/` between them, and the reference is the path with the tag and the digest behind it. Only a
/// tag `latest` may be one that was not written.
pub proof fn image_parts_spell_reference(r: Seq<char>)
    ensures
        ({
            let m = image_parts(r);
            &&& m.path == spelled_path(m.registry, m.namespace, m.repository)
            &&& r == spelled(m.path, m.tag, m.digest) || (m.tag == Some("latest"@) && r == spelled(
                m.path,
                None,
                m.digest,
            ))
        }),
{
    let (name, digest) = name_and_digest(r);
    let (path, tag) = path_and_tag(name);
    let (registry, rest) = registry_and_rest(path);
    cut_first_rejoins(r, '@');
    cut_last_rejoins(name, ':');
    cut_first_rejoins(path, '/');
    cut_last_rejoins(rest, '/');
}

/// What the parts of a reference hold: a host as the registry, no `/` in the repository, no `/`
/// and no `:` in a tag, and a tag wherever there is no digest.
pub proof fn image_parts_are_sound(r: Seq<char>)
    ensures
        ({
            let m = image_parts(r);
            &&& m.registry matches Some(host) ==> is_host(host) && !host.contains('/')
            &&& !m.repository.contains('/')
            &&& m.tag matches Some(t) ==> !t.contains('/') && !t.contains(':')
            &&& m.tag is None ==> m.digest is Some
        }),
{
    let (name, digest) = name_and_digest(r);
    let (path, tag) = path_and_tag(name);
    let (registry, rest) = registry_and_rest(path);
    cut_last_rejoins(name, ':');
    cut_first_rejoins(path, '/');
    cut_last_rejoins(rest, '/');
    reveal_strlit("latest");
}

/// Whether parts can stand in a reference so that each is read back as what it is.
pub open spec fn separable(
    registry: Option<Seq<char>>,
    namespace: Option<Seq<char>>,
    repository: Seq<char>,
    tag: Option<Seq<char>>,
) -> bool {
    &&& registry matches Some(host) ==> is_host(host) && !host.contains('/') && !host.contains('@')
    &&& namespace matches Some(n) ==> !n.contains('@') && (registry is None ==> registry_and_rest(
        n + seq!['/'],
    ).0 is None)
    &&& !repository.contains('/') && !repository.contains(':') && !repository.contains('@')
    &&& tag matches Some(t) ==> !t.contains('/') && !t.contains(':') && !t.contains('@')
}

/// The first component of a path does not depend on what follows the `/` behind it.
proof fn first_component(n: Seq<char>, rest: Seq<char>)
    ensures
        cut_first(n + seq!['/'] + rest, '/') is Some,
        cut_first(n + seq!['/'], '/') is Some,
        (cut_first(n + seq!['/'] + rest, '/')->0).0 == (cut_first(n + seq!['/'], '/')->0).0,
{
    let a = n + seq!['/'];
    let b = n + seq!['/'] + rest;
    cut_first_rejoins(a, '/');
    assert(a[n.len() as int] == '/');
    assert(a.contains('/'));
    let (head, tail) = cut_first(a, '/')->0;
    assert(b =~= head + seq!['/'] + (tail + rest));
    cut_first_of(head, '/', tail + rest);
}

/// A reference assembled from parts is taken apart into those parts; without a tag and a digest
/// it gets the tag `latest`.
pub proof fn image_parts_read_back(
    registry: Option<Seq<char>>,
    namespace: Option<Seq<char>>,
    repository: Seq<char>,
    tag: Option<Seq<char>>,
    digest: Option<Seq<char>>,
)
    requires
        separable(registry, namespace, repository, tag),
    ensures
        image_parts(spelled(spelled_path(registry, namespace, repository), tag, digest)) == (
        ImageRef {
            registry,
            namespace,
            repository,
            tag: if tag is None && digest is None {
                Some("latest"@)
            } else {
                tag
            },
            digest,
            path: spelled_path(registry, namespace, repository),
        }),
{
    let rest = match namespace {
        Some(n) => n + seq!['/'] + repository,
        None => repository,
    };
    let path = spelled_path(registry, namespace, repository);
    let name = match tag {
        Some(t) => path + seq![':'] + t,
        None => path,
    };
    // The repository and the namespace.
    if let Some(n) = namespace {
        cut_last_of(n, '/', repository);
        contains_assembled(n, '/', repository, '@');
    } else {
        cut_nowhere(repository, '/');
    }
    // The registry.
    if let Some(host) = registry {
        cut_first_of(host, '/', rest);
        contains_assembled(host, '/', rest, '@');
    } else if let Some(n) = namespace {
        first_component(n, repository);
    }
    assert(registry_and_rest(path) == (registry, rest));
    assert(!path.contains('@'));
    // The tag.
    if let Some(t) = tag {
        cut_last_of(path, ':', t);
        contains_assembled(path, ':', t, '@');
    } else {
        no_tag_in_path(registry, namespace, repository);
    }
    assert(path_and_tag(name) == (path, tag));
    // The digest.
    if let Some(d) = digest {
        cut_first_of(name, '@', d);
    } else {
        cut_nowhere(name, '@');
    }
}

/// A path whose repository has no `:` has no tag.
proof fn no_tag_in_path(
    registry: Option<Seq<char>>,
    namespace: Option<Seq<char>>,
    repository: Seq<char>,
)
    requires
        !repository.contains(':'),
    ensures
        path_and_tag(spelled_path(registry, namespace, repository)) == (
            spelled_path(registry, namespace, repository),
            None::<Seq<char>>,
        ),
{
    let path = spelled_path(registry, namespace, repository);
    cut_last_rejoins(path, ':');
    if let Some((p, t)) = cut_last(path, ':') {
        if !t.contains('/') {
            // The part behind the last `/` would hold the `:`.
            let front = path.len() - repository.len();
            assert(path.skip(front) =~= repository);
            assert(path[p.len() as int] == ':');
            if p.len() >= front {
                assert(repository[p.len() - front] == ':');
                assert(repository.contains(':'));
            } else {
                assert(front > 0);
                assert(path[front - 1] == '/');
                assert(t[front - 1 - (p.len() + 1)] == '/');
                assert(t.contains('/'));
            }
        }
    }
}

/// Pulling agrees with taking apart: without a digest, the image is the path of the reference
/// and the tag is its tag.
pub proof fn pull_agrees_with_parts(image: Seq<char>)
    requires
        !image.contains('@'),
    ensures
        pull_parts(image).0 == image_parts(image).path,
        Some(pull_parts(image).1) == image_parts(image).tag,
{
    cut_nowhere(image, '@');
    cut_last_rejoins(image, ':');
    if let Some((repo, tag)) = cut_last(image, ':') {
        contains_assembled(repo, ':', tag, '@');
    }
}

/// A reference with a digest that has an algorithm, such as `sha256:..`, is pulled whole.
pub proof fn pull_keeps_digest(name: Seq<char>, algorithm: Seq<char>, hash: Seq<char>)
    ensures
        pull_parts(name + seq!['@'] + (algorithm + seq![':'] + hash)) == (
            name + seq!['@'] + (algorithm + seq![':'] + hash),
            "latest"@,
        ),
{
    let image = name + seq!['@'] + (algorithm + seq![':'] + hash);
    cut_last_rejoins(image, ':');
    let colon = (name.len() + 1 + algorithm.len()) as int;
    assert(image[colon] == ':');
    assert(image.contains(':'));
    let (repo, tag) = cut_last(image, ':')->0;
    if repo.len() < colon {
        assert(tag[colon - repo.len() - 1] == ':');
        assert(tag.contains(':'));
    }
    assert(repo[name.len() as int] == image[name.len() as int]);
    assert(repo.contains('@'));
}

/// An image is pulled with an empty tag only where a `:` ends it.
pub proof fn pull_tag_is_empty_only_by_request(image: Seq<char>)
    requires
        pull_parts(image).1.len() == 0,
    ensures
        image.len() > 0,
        image.last() == ':',
{
    reveal_strlit("latest");
    cut_last_rejoins(image, ':');
}

} // verus!
