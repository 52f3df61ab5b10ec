//! What `prune` reclaims, and in which order.

use vstd::prelude::*;

use crate::call::{Call, CallModel, OwnedCall};
use crate::json::Tree;

verus! {

/// What `prune` is asked to prune.
#[derive(Clone, Copy, Debug, PartialEq, Eq, Structural)]
pub struct PruneFlags {
    pub containers: bool,
    pub images: bool,
    pub volumes: bool,
    pub networks: bool,
    pub all: bool,
}

/// A kind of object that can be pruned.
#[derive(Clone, Copy, Debug, PartialEq, Eq, Structural)]
pub enum PruneKind {
    Containers,
    Images,
    Volumes,
    Networks,
}

/// Kinds of objects to prune.
#[derive(Clone, Copy, Debug, PartialEq, Eq, Structural)]
pub struct PruneSet {
    pub containers: bool,
    pub images: bool,
    pub volumes: bool,
    pub networks: bool,
}

impl PruneSet {
    /// Whether a kind is in the set.
    pub open spec fn has_kind(self, k: PruneKind) -> bool {
        match k {
            PruneKind::Containers => self.containers,
            PruneKind::Images => self.images,
            PruneKind::Volumes => self.volumes,
            PruneKind::Networks => self.networks,
        }
    }

    /// The set without a kind.
    pub open spec fn minus(self, k: PruneKind) -> PruneSet {
        match k {
            PruneKind::Containers => PruneSet { containers: false, ..self },
            PruneKind::Images => PruneSet { images: false, ..self },
            PruneKind::Volumes => PruneSet { volumes: false, ..self },
            PruneKind::Networks => PruneSet { networks: false, ..self },
        }
    }

    /// The first kind of the set, in the order of the kinds.
    pub open spec fn first(self) -> Option<PruneKind> {
        if self.containers {
            Some(PruneKind::Containers)
        } else if self.images {
            Some(PruneKind::Images)
        } else if self.volumes {
            Some(PruneKind::Volumes)
        } else if self.networks {
            Some(PruneKind::Networks)
        } else {
            None
        }
    }

    /// The number of kinds.
    pub open spec fn size(self) -> nat {
        (if self.containers {
            1nat
        } else {
            0
        }) + (if self.images {
            1nat
        } else {
            0
        }) + (if self.volumes {
            1nat
        } else {
            0
        }) + (if self.networks {
            1nat
        } else {
            0
        })
    }

    /// Takes the first kind out of the set.
    pub fn split_first(self) -> (r: Option<(PruneKind, PruneSet)>)
        ensures
            match r {
                Some((k, rest)) => self.first() == Some(k) && rest == self.minus(k),
                None => self.first() is None,
            },
    {
        if self.containers {
            Some((PruneKind::Containers, PruneSet { containers: false, ..self }))
        } else if self.images {
            Some((PruneKind::Images, PruneSet { images: false, ..self }))
        } else if self.volumes {
            Some((PruneKind::Volumes, PruneSet { volumes: false, ..self }))
        } else if self.networks {
            Some((PruneKind::Networks, PruneSet { networks: false, ..self }))
        } else {
            None
        }
    }
}

/// The kinds that are pruned: those that are asked for, and containers, images and networks where
/// none is.
pub open spec fn prune_set(f: PruneFlags) -> PruneSet {
    if is_asked(f) {
        PruneSet {
            containers: f.containers || f.all,
            images: f.images || f.all,
            volumes: f.volumes || f.all,
            networks: f.networks || f.all,
        }
    } else {
        PruneSet { containers: true, images: true, volumes: false, networks: true }
    }
}

/// Whether anything is asked for.
pub open spec fn is_asked(f: PruneFlags) -> bool {
    f.containers || f.images || f.volumes || f.networks || f.all
}

/// The kinds that are pruned.
pub fn prune_kinds(f: PruneFlags) -> (r: PruneSet)
    ensures
        r == prune_set(f),
{
    if f.containers || f.images || f.volumes || f.networks || f.all {
        PruneSet {
            containers: f.containers || f.all,
            images: f.images || f.all,
            volumes: f.volumes || f.all,
            networks: f.networks || f.all,
        }
    } else {
        PruneSet { containers: true, images: true, volumes: false, networks: true }
    }
}

/// The call that prunes a kind.
pub open spec fn kind_call(k: PruneKind) -> CallModel {
    match k {
        PruneKind::Containers => Call::PruneContainers,
        PruneKind::Images => Call::PruneImages,
        PruneKind::Volumes => Call::PruneVolumes,
        PruneKind::Networks => Call::PruneNetworks,
    }
}

/// The word for a kind, under which its report stands.
pub open spec fn kind_word(k: PruneKind) -> Seq<char> {
    match k {
        PruneKind::Containers => "containers"@,
        PruneKind::Images => "images"@,
        PruneKind::Volumes => "volumes"@,
        PruneKind::Networks => "networks"@,
    }
}

/// The call that prunes a kind, as its errors are told.
pub open spec fn kind_label(k: PruneKind) -> Seq<char> {
    match k {
        PruneKind::Containers => "prune_containers"@,
        PruneKind::Images => "prune_images"@,
        PruneKind::Volumes => "prune_volumes"@,
        PruneKind::Networks => "prune_networks"@,
    }
}

impl PruneKind {
    /// The call that prunes the kind.
    pub fn call(self) -> (r: OwnedCall)
        ensures
            r.model() == kind_call(self),
    {
        match self {
            PruneKind::Containers => Call::PruneContainers,
            PruneKind::Images => Call::PruneImages,
            PruneKind::Volumes => Call::PruneVolumes,
            PruneKind::Networks => Call::PruneNetworks,
        }
    }

    /// The word for the kind.
    pub fn word(self) -> (r: &'static str)
        ensures
            r@ == kind_word(self),
    {
        match self {
            PruneKind::Containers => "containers",
            PruneKind::Images => "images",
            PruneKind::Volumes => "volumes",
            PruneKind::Networks => "networks",
        }
    }

    /// The call that prunes the kind, as its errors are told.
    pub fn label(self) -> (r: &'static str)
        ensures
            r@ == kind_label(self),
    {
        match self {
            PruneKind::Containers => "prune_containers",
            PruneKind::Images => "prune_images",
            PruneKind::Volumes => "prune_volumes",
            PruneKind::Networks => "prune_networks",
        }
    }
}

/// Something is always pruned; volumes only where they, or everything, are asked for.
pub proof fn pruning_is_never_empty(f: PruneFlags)
    ensures
        prune_set(f).first() is Some,
        prune_set(f).volumes == (f.volumes || f.all),
        f.all ==> forall|k: PruneKind| prune_set(f).has_kind(k),
{
}

/// A report with the answers to the pruning of some kinds.
pub open spec fn prune_report(
    left: PruneSet,
    answers: spec_fn(PruneKind) -> Tree,
    report: Tree,
) -> Tree
    decreases left.size(),
{
    match left.first() {
        Some(k) => prune_report(left.minus(k), answers, report.with(kind_word(k), answers(k))),
        None => report,
    }
}

/// The words for the kinds are different ones.
proof fn kind_words_differ(a: PruneKind, b: PruneKind)
    requires
        a != b,
    ensures
        kind_word(a) != kind_word(b),
{
    assert("containers"@.len() == 10) by {
        reveal_strlit("containers");
    }
    assert("images"@.len() == 6) by {
        reveal_strlit("images");
    }
    assert("volumes"@.len() == 7) by {
        reveal_strlit("volumes");
    }
    assert("networks"@.len() == 8) by {
        reveal_strlit("networks");
    }
}

/// A report has the answers that it is given, and keeps the others.
pub proof fn report_holds(
    left: PruneSet,
    answers: spec_fn(PruneKind) -> Tree,
    report: Tree,
    k: PruneKind,
)
    requires
        report is Object,
    ensures
        prune_report(left, answers, report) is Object,
        prune_report(left, answers, report).field(kind_word(k)) == if left.has_kind(k) {
            Some(answers(k))
        } else {
            report.field(kind_word(k))
        },
    decreases left.size(),
{
    if let Some(f) = left.first() {
        let next = report.with(kind_word(f), answers(f));
        report_holds(left.minus(f), answers, next, k);
        if f != k {
            kind_words_differ(f, k);
        }
    }
}

} // verus!
