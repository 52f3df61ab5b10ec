//! Short mount specs: `[source:]target[:options]`.

use vstd::prelude::*;

use crate::refusal::Refusal;
use crate::text::{
    contains_assembled, contains_char, joined, opt_text, pieces, pieces_of, same, split, starts_with_char, texts,
};

verus! {

/// What a mount takes its contents from.
#[derive(Clone, Copy, Debug, PartialEq, Eq, Structural)]
pub enum MountKind {
    /// A path of the host.
    Bind,
    /// A named volume.
    Volume,
    /// A volume without a name.
    Anonymous,
}

/// The parts of a mount spec.
#[derive(Debug)]
pub struct Mount<T, L> {
    pub kind: MountKind,
    pub source: Option<T>,
    pub target: T,
    pub readonly: bool,
    pub options: L,
}

impl Mount<String, Vec<String>> {
    /// The parts with their characters.
    pub open spec fn model(self) -> Mount<Seq<char>, Seq<Seq<char>>> {
        Mount {
            kind: self.kind,
            source: opt_text(self.source),
            target: self.target@,
            readonly: self.readonly,
            options: texts(self.options@),
        }
    }
}

/// Whether the spec starts with a Windows path, such as `C:\`, whose colon would be taken for
/// one that separates parts.
pub open spec fn has_drive(spec: Seq<char>) -> bool {
    spec.len() >= 3 && (('a' <= spec[0] && spec[0] <= 'z') || ('A' <= spec[0] && spec[0] <= 'Z'))
        && spec[1] == ':' && spec[2] == '\\'
}

/// The kind of mount that a source makes: one that holds a `/` or a `.`, or starts with `~`, is a
/// path of the host, and a bare name is that of a volume.
pub open spec fn mount_kind(source: Option<Seq<char>>) -> MountKind {
    match source {
        None => MountKind::Anonymous,
        Some(s) => if s.contains('/') || s.contains('.') || (s.len() > 0 && s[0] == '~') {
            MountKind::Bind
        } else {
            MountKind::Volume
        },
    }
}

/// The pieces that are not empty, in their order.
pub open spec fn non_empty(parts: Seq<Seq<char>>) -> Seq<Seq<char>>
    decreases parts.len(),
{
    if parts.len() == 0 {
        Seq::empty()
    } else {
        let init = non_empty(parts.drop_last());
        if parts.last().len() > 0 {
            init.push(parts.last())
        } else {
            init
        }
    }
}

/// The source, the target and the options that the pieces between the colons stand for.
pub open spec fn mount_places(parts: Seq<Seq<char>>) -> Option<
    (Option<Seq<char>>, Seq<char>, Seq<char>),
> {
    if parts.len() == 1 {
        Some((None, parts[0], Seq::empty()))
    } else if parts.len() == 2 {
        Some((Some(parts[0]), parts[1], Seq::empty()))
    } else if parts.len() == 3 {
        Some((Some(parts[0]), parts[1], parts[2]))
    } else {
        None
    }
}

/// The parts of a mount spec, or why it is refused.
pub open spec fn mount_parts(spec: Seq<char>) -> Result<
    Mount<Seq<char>, Seq<Seq<char>>>,
    Refusal<Seq<char>>,
> {
    match mount_places(pieces(spec, ':')) {
        None => Err(Refusal::InvalidMount(spec)),
        Some((source, target, listed)) => if has_drive(spec) {
            Err(Refusal::InvalidMount(spec))
        } else if target.len() == 0 {
            Err(Refusal::MissingMountTarget(spec))
        } else {
            let options = non_empty(pieces(listed, ','));
            Ok(
                Mount {
                    kind: mount_kind(source),
                    source,
                    target,
                    readonly: options.contains("ro"@),
                    options,
                },
            )
        },
    }
}

/// The options in a list between commas, and whether `ro` is one of them.
fn read_options(listed: &str) -> (r: (Vec<String>, bool))
    ensures
        texts(r.0@) == non_empty(pieces(listed@, ',')),
        r.1 == non_empty(pieces(listed@, ',')).contains("ro"@),
{
    let parts = split(listed, ',');
    let ghost all = pieces(listed@, ',');
    let mut options: Vec<String> = Vec::new();
    let mut readonly = false;
    let mut i: usize = 0;
    assert(texts(options@) =~= Seq::empty());
    while i < parts.len()
        invariant
            i <= parts.len(),
            texts(parts@) == all,
            texts(options@) == non_empty(all.take(i as int)),
            readonly == texts(options@).contains("ro"@),
        decreases parts.len() - i,
    {
        let ghost before = texts(options@);
        proof {
            assert(all.take(i + 1).drop_last() =~= all.take(i as int));
            assert(all[i as int] == parts@[i as int]@);
        }
        if !parts[i].as_str().is_empty() {
            let is_ro = same(parts[i].as_str(), "ro");
            options.push(parts[i].clone());
            proof {
                let after = texts(options@);
                assert(after =~= before.push(parts@[i as int]@));
                assert(after.contains("ro"@) == (before.contains("ro"@) || is_ro)) by {
                    if before.contains("ro"@) {
                        let j = choose|j: int| 0 <= j < before.len() && before[j] == "ro"@;
                        assert(after[j] == "ro"@);
                    }
                    if is_ro {
                        assert(after[before.len() as int] == "ro"@);
                    }
                    if after.contains("ro"@) {
                        let j = choose|j: int| 0 <= j < after.len() && after[j] == "ro"@;
                        if j < before.len() {
                            assert(before[j] == "ro"@);
                        }
                    }
                }
            }
            readonly = readonly || is_ro;
        }
        i = i + 1;
    }
    assert(all.take(all.len() as int) =~= all);
    (options, readonly)
}

/// Whether the spec starts with a Windows path.
fn starts_with_drive(spec: &str) -> (r: bool)
    ensures
        r == has_drive(spec@),
{
    if spec.unicode_len() < 3 {
        return false;
    }
    let c = spec.get_char(0);
    (('a' <= c && c <= 'z') || ('A' <= c && c <= 'Z')) && spec.get_char(1) == ':' && spec.get_char(
        2,
    ) == '\\'
}

/// Takes a mount spec apart.
pub fn parse_mount(spec: &str) -> (r: Result<Mount<String, Vec<String>>, Refusal<String>>)
    ensures
        match r {
            Ok(m) => mount_parts(spec@) == Ok::<
                Mount<Seq<char>, Seq<Seq<char>>>,
                Refusal<Seq<char>>,
            >(m.model()),
            Err(e) => mount_parts(spec@) == Err::<
                Mount<Seq<char>, Seq<Seq<char>>>,
                Refusal<Seq<char>>,
            >(e.model()),
        },
{
    let parts = split(spec, ':');
    let ghost all = pieces(spec@, ':');
    assert(forall|i: int| 0 <= i < parts@.len() ==> all[i] == #[trigger] parts@[i]@);
    let n = parts.len();
    if n > 3 || starts_with_drive(spec) {
        return Err(Refusal::InvalidMount(spec.to_owned()));
    }
    let (source, target): (Option<String>, String) = if n == 1 {
        (None, parts[0].clone())
    } else {
        (Some(parts[0].clone()), parts[1].clone())
    };
    if target.as_str().is_empty() {
        return Err(Refusal::MissingMountTarget(spec.to_owned()));
    }
    let listed: &str = if n == 3 {
        parts[2].as_str()
    } else {
        ""
    };
    proof {
        reveal_strlit("");
        assert(n < 3 ==> listed@ =~= Seq::empty());
    }
    let (options, readonly) = read_options(listed);
    let kind = match &source {
        None => MountKind::Anonymous,
        Some(s) => if contains_char(s.as_str(), '/') || contains_char(s.as_str(), '.')
            || starts_with_char(s.as_str(), '~') {
            MountKind::Bind
        } else {
            MountKind::Volume
        },
    };
    Ok(Mount { kind, source, target, readonly, options })
}

/// A mount spec assembled from its parts, `[source:]target[:options]`.
pub open spec fn spelled_mount(
    source: Option<Seq<char>>,
    target: Seq<char>,
    options: Seq<Seq<char>>,
) -> Seq<char> {
    match source {
        None => target,
        Some(s) => if options.len() == 0 {
            s + seq![':'] + target
        } else {
            s + seq![':'] + (target + seq![':'] + joined(options, ','))
        },
    }
}

/// Pieces that are joined are taken apart again.
proof fn pieces_of_joined(parts: Seq<Seq<char>>, sep: char)
    requires
        parts.len() > 0,
        forall|i: int| 0 <= i < parts.len() ==> !(#[trigger] parts[i]).contains(sep),
    ensures
        pieces(joined(parts, sep), sep) == parts,
    decreases parts.len(),
{
    let empty = Seq::<char>::empty();
    if parts.len() == 1 {
        pieces_of(parts[0], sep, empty);
        assert(parts =~= seq![parts[0]]);
    } else {
        let rest = parts.drop_first();
        assert forall|i: int| 0 <= i < rest.len() implies !(#[trigger] rest[i]).contains(sep) by {
            assert(rest[i] == parts[i + 1]);
        }
        pieces_of_joined(rest, sep);
        pieces_of(parts[0], sep, joined(rest, sep));
        assert(seq![parts[0]] + rest =~= parts);
    }
}

/// Pieces none of which is empty are all kept.
proof fn non_empty_keeps(parts: Seq<Seq<char>>)
    requires
        forall|i: int| 0 <= i < parts.len() ==> (#[trigger] parts[i]).len() > 0,
    ensures
        non_empty(parts) == parts,
    decreases parts.len(),
{
    if parts.len() > 0 {
        let init = parts.drop_last();
        assert forall|i: int| 0 <= i < init.len() implies (#[trigger] init[i]).len() > 0 by {
            assert(init[i] == parts[i]);
        }
        non_empty_keeps(init);
        assert(parts.last() == parts[parts.len() - 1]);
        assert(init.push(parts.last()) =~= parts);
    } else {
        assert(non_empty(parts) =~= parts);
    }
}

/// A joined list holds a character only where a part does, or as the separator.
proof fn joined_contains(parts: Seq<Seq<char>>, sep: char, c: char)
    requires
        c != sep,
        forall|i: int| 0 <= i < parts.len() ==> !(#[trigger] parts[i]).contains(c),
    ensures
        !joined(parts, sep).contains(c),
    decreases parts.len(),
{
    if parts.len() == 1 {
        assert(joined(parts, sep) == parts[0]);
    } else if parts.len() > 1 {
        let rest = parts.drop_first();
        assert forall|i: int| 0 <= i < rest.len() implies !(#[trigger] rest[i]).contains(c) by {
            assert(rest[i] == parts[i + 1]);
        }
        joined_contains(rest, sep, c);
        assert(!parts[0].contains(c));
        contains_assembled(parts[0], sep, joined(rest, sep), c);
    }
}

/// A mount spec assembled from parts is taken apart into those parts: the source tells the kind,
/// and `ro` among the options makes it read-only.
pub proof fn mount_parts_read_back(
    source: Option<Seq<char>>,
    target: Seq<char>,
    options: Seq<Seq<char>>,
)
    requires
        source matches Some(s) ==> !s.contains(':'),
        source is None ==> options.len() == 0,
        target.len() > 0,
        !target.contains(':'),
        forall|i: int|
            0 <= i < options.len() ==> (#[trigger] options[i]).len() > 0 && !options[i].contains(
                ',',
            ) && !options[i].contains(':'),
        !has_drive(spelled_mount(source, target, options)),
    ensures
        mount_parts(spelled_mount(source, target, options)) == Ok::<
            Mount<Seq<char>, Seq<Seq<char>>>,
            Refusal<Seq<char>>,
        >(
            (Mount {
                kind: mount_kind(source),
                source,
                target,
                readonly: options.contains("ro"@),
                options,
            }),
        ),
{
    let empty = Seq::<char>::empty();
    let spec = spelled_mount(source, target, options);
    pieces_of(target, ':', empty);
    pieces_of(empty, ',', empty);
    reveal_with_fuel(non_empty, 2);
    assert(seq![empty].drop_last() =~= Seq::<Seq<char>>::empty());
    if let Some(s) = source {
        if options.len() == 0 {
            pieces_of(s, ':', target);
            assert(pieces(spec, ':') =~= seq![s, target]);
            assert(non_empty(pieces(empty, ',')) =~= options);
        } else {
            let list = joined(options, ',');
            joined_contains(options, ',', ':');
            pieces_of(list, ':', empty);
            pieces_of(target, ':', list);
            pieces_of(s, ':', target + seq![':'] + list);
            assert(pieces(spec, ':') =~= seq![s, target, list]);
            pieces_of_joined(options, ',');
            non_empty_keeps(options);
        }
    } else {
        assert(pieces(spec, ':') =~= seq![target]);
        assert(non_empty(pieces(empty, ',')) =~= options);
    }
}

/// What the parts of an accepted mount spec hold: a target, no empty option, no source exactly
/// where the volume has no name, and `readonly` exactly where `ro` is an option.
pub proof fn mount_parts_are_sound(spec: Seq<char>)
    ensures
        mount_parts(spec) matches Ok(m) ==> {
            &&& m.target.len() > 0
            &&& m.source is None <==> m.kind == MountKind::Anonymous
            &&& m.readonly <==> m.options.contains("ro"@)
            &&& forall|i: int| 0 <= i < m.options.len() ==> (#[trigger] m.options[i]).len() > 0
        },
{
    if let Some((_, _, list)) = mount_places(pieces(spec, ':')) {
        kept_pieces_are_not_empty(pieces(list, ','));
    }
}

/// No piece that is kept is empty.
proof fn kept_pieces_are_not_empty(parts: Seq<Seq<char>>)
    ensures
        forall|i: int|
            0 <= i < non_empty(parts).len() ==> (#[trigger] non_empty(parts)[i]).len() > 0,
    decreases parts.len(),
{
    if parts.len() > 0 {
        kept_pieces_are_not_empty(parts.drop_last());
        let init = non_empty(parts.drop_last());
        let all = non_empty(parts);
        assert forall|i: int| 0 <= i < all.len() implies (#[trigger] all[i]).len() > 0 by {
            if i < init.len() {
                assert(all[i] == init[i]);
            }
        }
    }
}

/// A spec with a Windows path as its source is refused, and so is one with more than three parts.
pub proof fn unusual_mounts_are_refused(spec: Seq<char>)
    requires
        has_drive(spec) || pieces(spec, ':').len() > 3,
    ensures
        mount_parts(spec) == Err::<Mount<Seq<char>, Seq<Seq<char>>>, Refusal<Seq<char>>>(
            Refusal::InvalidMount(spec),
        ),
{
}

} // verus!
