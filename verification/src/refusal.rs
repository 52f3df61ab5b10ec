//! Why a call is refused before it reaches the daemon.

use vstd::prelude::*;

use crate::text::{concat2, concat3};

verus! {

/// An argument that a call cannot do without.
#[derive(Clone, Copy, Debug, PartialEq, Eq, Structural)]
pub enum Field {
    Container,
    Image,
    Cmd,
    Source,
    Target,
    Name,
    NewName,
    Volume,
    Network,
    Ref,
    Spec,
}

/// The reason of a refusal, with the text that it is about.
#[derive(Debug)]
pub enum Refusal<T> {
    Missing(Field),
    EmptyReference,
    UnterminatedIpv6(T),
    InvalidPort(T),
    MissingContainerPort(T),
    InvalidMount(T),
    MissingMountTarget(T),
    PruneKind(T),
    NoStats(T),
    UnknownScheme(T),
}

/// The message for a missing argument.
pub open spec fn missing_text(f: Field) -> Seq<char> {
    match f {
        Field::Container => "missing container"@,
        Field::Image => "missing image"@,
        Field::Cmd => "missing cmd (array)"@,
        Field::Source => "missing source"@,
        Field::Target => "missing target"@,
        Field::Name => "missing name"@,
        Field::NewName => "missing name (the new container name)"@,
        Field::Volume => "missing volume"@,
        Field::Network => "missing network"@,
        Field::Ref => "missing ref"@,
        Field::Spec => "missing spec"@,
    }
}

/// The message for a refusal.
pub open spec fn refusal_text(e: Refusal<Seq<char>>) -> Seq<char> {
    match e {
        Refusal::Missing(f) => missing_text(f),
        Refusal::EmptyReference => "empty image reference"@,
        Refusal::UnterminatedIpv6(s) => "unterminated IPv6 literal in `"@ + s + "`"@,
        Refusal::InvalidPort(s) => "invalid port spec `"@ + s + "`"@,
        Refusal::MissingContainerPort(s) => "missing container port in `"@ + s + "`"@,
        Refusal::InvalidMount(s) => "invalid mount spec `"@ + s + "` (want src:dst[:opts])"@,
        Refusal::MissingMountTarget(s) => "mount spec missing container path: `"@ + s + "`"@,
        Refusal::PruneKind(s) => "prune kind must be containers|images|volumes|networks, got "@ + s,
        Refusal::NoStats(s) => "no stats returned for `"@ + s + "`"@,
        Refusal::UnknownScheme(s) => "unrecognised DOCKER_HOST scheme: "@ + s,
    }
}

/// The message for a missing argument.
fn missing_message(f: Field) -> (r: &'static str)
    ensures
        r@ == missing_text(f),
{
    match f {
        Field::Container => "missing container",
        Field::Image => "missing image",
        Field::Cmd => "missing cmd (array)",
        Field::Source => "missing source",
        Field::Target => "missing target",
        Field::Name => "missing name",
        Field::NewName => "missing name (the new container name)",
        Field::Volume => "missing volume",
        Field::Network => "missing network",
        Field::Ref => "missing ref",
        Field::Spec => "missing spec",
    }
}

impl Refusal<String> {
    /// The refusal with the characters of its text.
    pub open spec fn model(self) -> Refusal<Seq<char>> {
        match self {
            Refusal::Missing(f) => Refusal::Missing(f),
            Refusal::EmptyReference => Refusal::EmptyReference,
            Refusal::UnterminatedIpv6(s) => Refusal::UnterminatedIpv6(s@),
            Refusal::InvalidPort(s) => Refusal::InvalidPort(s@),
            Refusal::MissingContainerPort(s) => Refusal::MissingContainerPort(s@),
            Refusal::InvalidMount(s) => Refusal::InvalidMount(s@),
            Refusal::MissingMountTarget(s) => Refusal::MissingMountTarget(s@),
            Refusal::PruneKind(s) => Refusal::PruneKind(s@),
            Refusal::NoStats(s) => Refusal::NoStats(s@),
            Refusal::UnknownScheme(s) => Refusal::UnknownScheme(s@),
        }
    }

    /// The message for the refusal.
    pub fn message(&self) -> (r: String)
        ensures
            r@ == refusal_text(self.model()),
    {
        match self {
            Refusal::Missing(f) => missing_message(*f).to_owned(),
            Refusal::EmptyReference => "empty image reference".to_owned(),
            Refusal::UnterminatedIpv6(s) => concat3(
                "unterminated IPv6 literal in `",
                s.as_str(),
                "`",
            ),
            Refusal::InvalidPort(s) => concat3("invalid port spec `", s.as_str(), "`"),
            Refusal::MissingContainerPort(s) => concat3(
                "missing container port in `",
                s.as_str(),
                "`",
            ),
            Refusal::InvalidMount(s) => concat3(
                "invalid mount spec `",
                s.as_str(),
                "` (want src:dst[:opts])",
            ),
            Refusal::MissingMountTarget(s) => concat3(
                "mount spec missing container path: `",
                s.as_str(),
                "`",
            ),
            Refusal::PruneKind(s) => concat2(
                "prune kind must be containers|images|volumes|networks, got ",
                s.as_str(),
            ),
            Refusal::NoStats(s) => concat3("no stats returned for `", s.as_str(), "`"),
            Refusal::UnknownScheme(s) => concat2("unrecognised DOCKER_HOST scheme: ", s.as_str()),
        }
    }
}

} // verus!
