//! Which call each operation sends, and how it is refused.

use vstd::prelude::*;

use crate::call::{Call, CallModel, Restart};
use crate::command::{command_call, published, Command, CommandModel, CreateArgs};
use crate::json::{json_text, Tree};
use crate::labels::labels;
use crate::ops::{op_call, Op, Sent};
use crate::prune::{kind_call, kind_word, PruneKind, PruneSet};
use crate::refusal::{refusal_text, Field, Refusal};
use crate::session::{after, begin, Event, Step, StepModel};
use crate::text::{cut_last_of, cut_nowhere, decimal};

verus! {

/// That a call is sent.
pub open spec fn sent(call: CallModel) -> Sent {
    Ok(call)
}

/// Whether a flag is set.
pub open spec fn is_set(t: Tree, key: Seq<char>) -> bool {
    t.flag_at(key) == Some(true)
}

/// Each operation on a container sends its own call about the container that is named.
pub proof fn container_operation_sends_its_own_call(t: Tree, c: Seq<char>)
    requires
        t.text_at("container"@) == Some(c),
    ensures
        op_call(Op::Inspect, t) == sent(Call::InspectContainer { container: c }),
        op_call(Op::Port, t) == sent(Call::InspectContainer { container: c }),
        op_call(Op::Start, t) == sent(Call::StartContainer { container: c }),
        op_call(Op::Stop, t) matches Ok(Call::StopContainer { container, .. }) && container == c,
        op_call(Op::Restart, t) == sent(Call::RestartContainer { container: c, timeout: None }),
        op_call(Op::Kill, t) matches Ok(Call::KillContainer { container, .. }) && container == c,
        op_call(Op::Rm, t) matches Ok(Call::RemoveContainer { container, .. }) && container == c,
        op_call(Op::Pause, t) == sent(Call::PauseContainer { container: c }),
        op_call(Op::Unpause, t) == sent(Call::UnpauseContainer { container: c }),
        op_call(Op::Wait, t) == sent(Call::WaitContainer { container: c }),
        op_call(Op::Diff, t) == sent(Call::ContainerChanges { container: c }),
        op_call(Op::Stats, t) == sent(
            Call::Stats { container: c, stream: false, one_shot: true },
        ),
        op_call(Op::Top, t) == sent(
            Call::TopProcesses { container: c, ps_args: t.text_at("ps_args"@) },
        ),
        op_call(Op::Logs, t) matches Ok(Call::Logs { container, .. }) && container == c,
        op_call(Op::Commit, t) matches Ok(Call::CommitContainer { container, .. }) && container
            == c,
        op_call(Op::Update, t) matches Ok(Call::UpdateContainer { container, .. }) && container
            == c,
        forall|name: Seq<char>| #[trigger]
            t.text_at("name"@) == Some(name) ==> op_call(Op::Rename, t) == sent(
                Call::RenameContainer { container: c, name },
            ),
        forall|cmd: Seq<Seq<char>>| #[trigger]
            t.texts_at("cmd"@) == Some(cmd) ==> op_call(Op::Exec, t) == sent(
                Call::CreateExec {
                    container: c,
                    cmd,
                    env: None,
                    working_dir: None,
                    user: None,
                    tty: None,
                    attach_stdout: Some(true),
                    attach_stderr: Some(true),
                },
            ),
{
}

/// The operation that sends a call; of the two that inspect a container the one of that name.
pub open spec fn sender(call: CallModel) -> Option<Op> {
    match call {
        Call::Version => Some(Op::Version),
        Call::Ping => Some(Op::Ping),
        Call::Info => Some(Op::Info),
        Call::DiskUsage => Some(Op::Df),
        Call::ListContainers { .. } => Some(Op::Ps),
        Call::InspectContainer { .. } => Some(Op::Inspect),
        Call::CreateContainer { .. } => Some(Op::Create),
        Call::StartContainer { .. } => Some(Op::Start),
        Call::StopContainer { .. } => Some(Op::Stop),
        Call::RestartContainer { .. } => Some(Op::Restart),
        Call::KillContainer { .. } => Some(Op::Kill),
        Call::RemoveContainer { .. } => Some(Op::Rm),
        Call::PauseContainer { .. } => Some(Op::Pause),
        Call::UnpauseContainer { .. } => Some(Op::Unpause),
        Call::RenameContainer { .. } => Some(Op::Rename),
        Call::WaitContainer { .. } => Some(Op::Wait),
        Call::TopProcesses { .. } => Some(Op::Top),
        Call::Stats { .. } => Some(Op::Stats),
        Call::CommitContainer { .. } => Some(Op::Commit),
        Call::ContainerChanges { .. } => Some(Op::Diff),
        Call::UpdateContainer { .. } => Some(Op::Update),
        Call::Logs { .. } => Some(Op::Logs),
        Call::CreateExec { .. } => Some(Op::Exec),
        Call::ListImages { .. } => Some(Op::Images),
        Call::CreateImage { .. } => Some(Op::Pull),
        Call::RemoveImage { .. } => Some(Op::Rmi),
        Call::TagImage { .. } => Some(Op::Tag),
        Call::ImageHistory { .. } => Some(Op::History),
        Call::InspectImage { .. } => Some(Op::ImageInspect),
        Call::ListNetworks { .. } => Some(Op::Networks),
        Call::CreateNetwork { .. } => Some(Op::NetworkCreate),
        Call::RemoveNetwork { .. } => Some(Op::NetworkRm),
        Call::InspectNetwork { .. } => Some(Op::NetworkInspect),
        Call::ListVolumes { .. } => Some(Op::Volumes),
        Call::CreateVolume { .. } => Some(Op::VolumeCreate),
        Call::RemoveVolume { .. } => Some(Op::VolumeRm),
        Call::InspectVolume { .. } => Some(Op::VolumeInspect),
        Call::PruneContainers => Some(Op::Prune),
        Call::PruneImages => Some(Op::Prune),
        Call::PruneVolumes => Some(Op::Prune),
        Call::PruneNetworks => Some(Op::Prune),
        _ => None,
    }
}

/// A call that an operation sends is one of its own.
pub proof fn call_tells_its_operation(op: Op, t: Tree)
    ensures
        op_call(op, t) matches Ok(call) ==> sender(call) == Some(
            if op == Op::Port {
                Op::Inspect
            } else {
                op
            },
        ),
{
    match op {
        Op::Version => {},
        Op::Ping => {},
        Op::Info => {},
        Op::Ps => {},
        Op::Inspect => {},
        Op::Create => {},
        Op::Start => {},
        Op::Stop => {},
        Op::Restart => {},
        Op::Kill => {},
        Op::Rm => {},
        Op::Logs => {},
        Op::Exec => {},
        Op::Images => {},
        Op::Pull => {},
        Op::Rmi => {},
        Op::Tag => {},
        Op::Networks => {},
        Op::NetworkCreate => {},
        Op::NetworkRm => {},
        Op::Volumes => {},
        Op::VolumeCreate => {},
        Op::VolumeRm => {},
        Op::Prune => {},
        Op::Pause => {},
        Op::Unpause => {},
        Op::Rename => {},
        Op::Wait => {},
        Op::Top => {},
        Op::Stats => {},
        Op::Commit => {},
        Op::Diff => {},
        Op::History => {},
        Op::Df => {},
        Op::Port => {},
        Op::Update => {},
        Op::ImageInspect => {},
        Op::VolumeInspect => {},
        Op::NetworkInspect => {},
    }
}

/// No two operations send the same call, but for the two that inspect a container.
pub proof fn operations_share_no_call(a: Op, b: Op, t: Tree, u: Tree)
    requires
        a != b,
        op_call(a, t) is Ok,
        !(a == Op::Inspect && b == Op::Port),
        !(a == Op::Port && b == Op::Inspect),
    ensures
        op_call(a, t) != op_call(b, u),
{
    call_tells_its_operation(a, t);
    call_tells_its_operation(b, u);
}

/// A container is given the time to stop that is under `time`, or else under `timeout`.
pub proof fn stop_waits_as_long_as_asked(t: Tree, c: Seq<char>, n: i64)
    requires
        t.text_at("container"@) == Some(c),
    ensures
        t.i64_at("time"@) == Some(n) ==> op_call(Op::Stop, t) == sent(
            Call::StopContainer { container: c, timeout: Some(n) },
        ),
        t.i64_at("time"@) is None && t.i64_at("timeout"@) == Some(n) ==> op_call(Op::Stop, t)
            == sent(Call::StopContainer { container: c, timeout: Some(n) }),
        t.i64_at("time"@) is None && t.i64_at("timeout"@) is None ==> op_call(Op::Stop, t) == sent(
            Call::StopContainer { container: c, timeout: None },
        ),
{
}

/// A container is sent the signal that is asked for, and `SIGKILL` where none is; it is removed by
/// force, or with its volumes, only where that is asked for.
pub proof fn kill_and_remove_as_asked(t: Tree, c: Seq<char>, signal: Seq<char>)
    requires
        t.text_at("container"@) == Some(c),
    ensures
        t.text_at("signal"@) == Some(signal) ==> op_call(Op::Kill, t) == sent(
            Call::KillContainer { container: c, signal: Some(signal) },
        ),
        t.text_at("signal"@) is None ==> op_call(Op::Kill, t) == sent(
            Call::KillContainer { container: c, signal: Some("SIGKILL"@) },
        ),
        op_call(Op::Rm, t) == sent(
            Call::RemoveContainer {
                container: c,
                force: is_set(t, "force"@),
                volumes: is_set(t, "volumes"@),
            },
        ),
{
}

/// Logs are asked for of both streams and without an end or a beginning, without following them,
/// with as many last lines as are asked for: a text as it is, a number in decimal, and else all.
pub proof fn logs_are_asked_for_whole(t: Tree, c: Seq<char>)
    requires
        t.text_at("container"@) == Some(c),
    ensures
        op_call(Op::Logs, t) == sent(
            Call::Logs {
                container: c,
                stdout: true,
                stderr: true,
                follow: false,
                timestamps: is_set(t, "timestamps"@),
                tail: match (t.text_at("tail"@), t.u64_at("tail"@)) {
                    (Some(s), _) => s,
                    (None, Some(n)) => decimal(n as nat),
                    (None, None) => "all"@,
                },
                since: 0,
                until: 0,
            },
        ),
{
}

/// A commit is made with the repository, tag, comment and author that are given, the tag being
/// `latest` and the others empty where they are not, and pauses the container unless that is
/// declined.
pub proof fn commit_is_made_as_asked(t: Tree, c: Seq<char>, s: Seq<char>)
    requires
        t.text_at("container"@) == Some(c),
    ensures
        op_call(Op::Commit, t) matches Ok(
            Call::CommitContainer { container, repo, tag, comment, author, pause },
        ) && {
            &&& t.text_at("repo"@) == Some(s) ==> repo == s
            &&& t.text_at("repo"@) is None ==> repo.len() == 0
            &&& t.text_at("tag"@) == Some(s) ==> tag == s
            &&& t.text_at("tag"@) is None ==> tag == "latest"@
            &&& t.text_at("comment"@) == Some(s) ==> comment == s
            &&& t.text_at("comment"@) is None ==> comment.len() == 0
            &&& t.text_at("author"@) == Some(s) ==> author == s
            &&& t.text_at("author"@) is None ==> author.len() == 0
            &&& pause <==> t.flag_at("pause"@) != Some(false)
        },
{
    reveal_strlit("");
}

/// Each limit is the one of its own name.
pub proof fn limits_are_set_by_name(t: Tree, c: Seq<char>)
    requires
        t.text_at("container"@) == Some(c),
    ensures
        op_call(Op::Update, t) matches Ok(Call::UpdateContainer { container, limits }) && {
            &&& limits.memory == t.i64_at("memory"@)
            &&& limits.memory_swap == t.i64_at("memory_swap"@)
            &&& limits.cpu_quota == t.i64_at("cpu_quota"@)
            &&& limits.cpu_period == t.i64_at("cpu_period"@)
            &&& limits.cpuset_cpus == t.text_at("cpuset_cpus"@)
            &&& limits.cpu_shares is Some <==> t.i64_at("cpu_shares"@) is Some
            &&& limits.cpu_shares matches Some(n) ==> (isize::MIN <= t.i64_at("cpu_shares"@)->0
                <= isize::MAX ==> n == t.i64_at("cpu_shares"@)->0)
        },
{
}

/// Each operation on an image, a network or a volume sends its own call about what is named.
pub proof fn named_operation_sends_its_own_call(t: Tree, s: Seq<char>)
    ensures
        t.text_at("image"@) == Some(s) ==> {
            &&& op_call(Op::Rmi, t) == sent(
                Call::RemoveImage { image: s, force: is_set(t, "force"@), noprune: false },
            )
            &&& op_call(Op::History, t) == sent(Call::ImageHistory { image: s })
            &&& op_call(Op::ImageInspect, t) == sent(Call::InspectImage { image: s })
            &&& op_call(Op::Pull, t) matches Ok(Call::CreateImage { platform, .. })
                && platform.len() == 0
        },
        t.text_at("volume"@) == Some(s) ==> op_call(Op::VolumeInspect, t) == sent(
            Call::InspectVolume { volume: s },
        ),
        t.text_at("network"@) == Some(s) ==> op_call(Op::NetworkInspect, t) == sent(
            Call::InspectNetwork { network: s },
        ),
        t.text_at("name"@) == Some(s) ==> {
            &&& op_call(Op::NetworkRm, t) == sent(Call::RemoveNetwork { name: s })
            &&& op_call(Op::VolumeRm, t) == sent(
                Call::RemoveVolume { name: s, force: is_set(t, "force"@) },
            )
            &&& op_call(Op::NetworkCreate, t) matches Ok(Call::CreateNetwork { name, .. })
                && name == s
            &&& op_call(Op::VolumeCreate, t) matches Ok(Call::CreateVolume { name, .. })
                && name == s
        },
{
}

/// Operations that are about nothing in particular send their call whatever the arguments, and
/// what is listed is filtered, or listed whole, as asked.
pub proof fn plain_operation_sends_its_own_call(t: Tree)
    ensures
        op_call(Op::Version, t) == sent(Call::Version),
        op_call(Op::Ping, t) == sent(Call::Ping),
        op_call(Op::Info, t) == sent(Call::Info),
        op_call(Op::Df, t) == sent(Call::DiskUsage),
        op_call(Op::Ps, t) == sent(
            Call::ListContainers {
                all: is_set(t, "all"@),
                limit: None,
                size: false,
                filters: t.lists_at("filters"@),
            },
        ),
        op_call(Op::Images, t) == sent(
            Call::ListImages { all: is_set(t, "all"@), filters: Map::empty() },
        ),
        op_call(Op::Networks, t) == sent(Call::ListNetworks { filters: Map::empty() }),
        op_call(Op::Volumes, t) == sent(Call::ListVolumes { filters: Map::empty() }),
{
}

/// A network and a volume are made with the driver that is given, `bridge` for a network and none
/// for a volume where it is not, with the labels that are listed, and a network with addresses
/// where a subnet or a gateway is given.
pub proof fn network_and_volume_are_made_as_asked(t: Tree, s: Seq<char>, list: Seq<Seq<char>>)
    requires
        t.text_at("name"@) is Some,
    ensures
        op_call(Op::NetworkCreate, t) matches Ok(
            Call::CreateNetwork { driver, labels: l, pool, .. },
        ) && {
            &&& t.text_at("driver"@) == Some(s) ==> driver == s
            &&& t.text_at("driver"@) is None ==> driver == "bridge"@
            &&& t.texts_at("label"@) == Some(list) ==> l == labels(list)
            &&& t.texts_at("label"@) is None ==> l == Map::<Seq<char>, Seq<char>>::empty()
            &&& pool is None <==> t.text_at("subnet"@) is None && t.text_at("gateway"@) is None
            &&& pool matches Some(p) ==> p.driver == "default"@ && p.subnet == t.text_at("subnet"@)
                && p.gateway == t.text_at("gateway"@)
        },
        op_call(Op::VolumeCreate, t) matches Ok(Call::CreateVolume { driver, labels: l, .. }) && {
            &&& t.text_at("driver"@) == Some(s) ==> driver == s
            &&& t.text_at("driver"@) is None ==> driver.len() == 0
            &&& t.texts_at("label"@) == Some(list) ==> l == labels(list)
            &&& t.texts_at("label"@) is None ==> l == Map::<Seq<char>, Seq<char>>::empty()
        },
{
    reveal_strlit("");
}

/// A container is created from the image and under the name that are given, with each setting
/// from the argument of its own name, and with none that is not given.
pub proof fn container_is_created_as_asked(t: Tree, image: Seq<char>, list: Seq<Seq<char>>)
    requires
        t.text_at("image"@) == Some(image),
    ensures
        op_call(Op::Create, t) matches Ok(Call::CreateContainer { name, settings: s }) && {
            &&& name == t.text_at("name"@)
            &&& s.image == image
            &&& s.cmd == t.texts_at("cmd"@)
            &&& s.env == t.texts_at("env"@)
            &&& s.working_dir == t.text_at("workdir"@)
            &&& s.user == t.text_at("user"@)
            &&& s.hostname == t.text_at("hostname"@)
            &&& s.tty == t.flag_at("tty"@)
            &&& s.attach_stdin is None && s.attach_stdout is None && s.attach_stderr is None
            &&& s.labels is Some <==> t.texts_at("label"@) is Some
            &&& t.texts_at("label"@) == Some(list) ==> s.labels == Some(labels(list))
            &&& s.ports is Some <==> t.texts_at("port"@) is Some
            &&& t.texts_at("port"@) == Some(list) ==> s.ports == Some(published(list))
            &&& s.host is None <==> t.texts_at("port"@) is None && t.texts_at("volume"@) is None
                && t.text_at("network"@) is None && t.text_at("restart"@) is None && !is_set(
                t,
                "rm"@,
            )
            &&& s.host matches Some(h) ==> {
                &&& h.binds == t.texts_at("volume"@)
                &&& h.network_mode == t.text_at("network"@)
                &&& h.restart is Some <==> t.text_at("restart"@) is Some
                &&& is_set(t, "rm"@) ==> h.auto_remove == Some(true)
                &&& !is_set(t, "rm"@) ==> h.auto_remove is None
            }
        },
{
}

/// The restart policy that a call creates a container with.
pub open spec fn policy_sent(s: Sent) -> Option<Restart> {
    match s {
        Ok(Call::CreateContainer { settings, .. }) => match settings.host {
            Some(h) => h.restart,
            None => None,
        },
        _ => None,
    }
}

/// That a policy is the one of the name that is given.
pub open spec fn is_policy_of(word: Seq<char>, p: Option<Restart>) -> bool {
    &&& p == Some(Restart::No) <==> word == "no"@
    &&& p == Some(Restart::Always) <==> word == "always"@
    &&& p == Some(Restart::UnlessStopped) <==> word == "unless-stopped"@
    &&& p == Some(Restart::OnFailure) <==> word == "on-failure"@
    &&& p is Some
}

/// The words for restart policies differ.
proof fn policy_words_differ()
    ensures
        "no"@.len() == 2,
        "always"@.len() == 6,
        "unless-stopped"@.len() == 14,
        "on-failure"@.len() == 10,
{
    reveal_strlit("no");
    reveal_strlit("always");
    reveal_strlit("unless-stopped");
    reveal_strlit("on-failure");
}

/// The container that the operation creates has the restart policy of the name that is given.
pub proof fn created_container_restarts_as_named(t: Tree, word: Seq<char>)
    requires
        t.text_at("image"@) is Some,
        t.text_at("restart"@) == Some(word),
    ensures
        is_policy_of(word, policy_sent(op_call(Op::Create, t))),
{
    policy_words_differ();
}

/// The container that the commands create has the restart policy of the name that is given, and
/// none where no name is.
pub proof fn commanded_container_restarts_as_named(
    args: CreateArgs<Seq<char>, Seq<Seq<char>>>,
    rm: bool,
)
    ensures
        args.restart matches Some(word) ==> {
            &&& is_policy_of(word, policy_sent(Ok(command_call(Command::Run { args, rm }))))
            &&& is_policy_of(word, policy_sent(Ok(command_call(Command::Create { args }))))
        },
        args.restart is None ==> {
            &&& policy_sent(Ok(command_call(Command::Run { args, rm }))) is None
            &&& policy_sent(Ok(command_call(Command::Create { args }))) is None
        },
{
    policy_words_differ();
}

/// The words for kinds of objects to prune differ.
pub proof fn prune_words_differ()
    ensures
        "containers"@.len() == 10,
        "images"@.len() == 6,
        "volumes"@.len() == 7,
        "networks"@.len() == 8,
{
    reveal_strlit("containers");
    reveal_strlit("images");
    reveal_strlit("volumes");
    reveal_strlit("networks");
}

/// Whether no flag asks for anything to be pruned.
pub open spec fn no_prune_flag(t: Tree) -> bool {
    &&& !is_set(t, "containers"@)
    &&& !is_set(t, "images"@)
    &&& !is_set(t, "volumes"@)
    &&& !is_set(t, "networks"@)
    &&& !is_set(t, "all"@)
}

/// Where no flag is set, each word prunes what it names, no word prunes the containers, and any
/// other word is refused.
pub proof fn word_prunes_what_it_names(t: Tree, word: Seq<char>)
    requires
        no_prune_flag(t),
    ensures
        t.text_at("kind"@) == Some("containers"@) ==> op_call(Op::Prune, t) == sent(
            Call::PruneContainers,
        ),
        t.text_at("kind"@) == Some("images"@) ==> op_call(Op::Prune, t) == sent(Call::PruneImages),
        t.text_at("kind"@) == Some("volumes"@) ==> op_call(Op::Prune, t) == sent(
            Call::PruneVolumes,
        ),
        t.text_at("kind"@) == Some("networks"@) ==> op_call(Op::Prune, t) == sent(
            Call::PruneNetworks,
        ),
        t.text_at("kind"@) is None ==> op_call(Op::Prune, t) == sent(Call::PruneContainers),
        t.text_at("kind"@) == Some(word) && word != "containers"@ && word != "images"@ && word
            != "volumes"@ && word != "networks"@ ==> op_call(Op::Prune, t) == Err::<
            CallModel,
            Refusal<Seq<char>>,
        >(Refusal::PruneKind(word)),
{
    prune_words_differ();
}

/// A call prunes a kind of object only where that kind is asked for: by its flag, by the flag for
/// all, or, where no flag is set, by its word; containers also where nothing is named.
pub proof fn only_what_is_asked_for_is_pruned(t: Tree)
    ensures
        op_call(Op::Prune, t) == sent(Call::PruneVolumes) ==> is_set(t, "volumes"@) || is_set(
            t,
            "all"@,
        ) || t.text_at("kind"@) == Some("volumes"@),
        op_call(Op::Prune, t) == sent(Call::PruneImages) ==> is_set(t, "images"@) || is_set(
            t,
            "all"@,
        ) || t.text_at("kind"@) == Some("images"@),
        op_call(Op::Prune, t) == sent(Call::PruneNetworks) ==> is_set(t, "networks"@) || is_set(
            t,
            "all"@,
        ) || t.text_at("kind"@) == Some("networks"@),
        op_call(Op::Prune, t) == sent(Call::PruneContainers) ==> is_set(t, "containers"@) || is_set(
            t,
            "all"@,
        ) || t.text_at("kind"@) == Some("containers"@) || t.text_at("kind"@) is None,
{
    prune_words_differ();
}

/// The word of a kind of object and the flag for it alone send the same call.
pub proof fn word_and_flag_prune_alike(by_word: Tree, by_flag: Tree, k: PruneKind)
    requires
        no_prune_flag(by_word),
        by_word.text_at("kind"@) == Some(kind_word(k)),
        is_set(by_flag, "containers"@) <==> k is Containers,
        is_set(by_flag, "images"@) <==> k is Images,
        is_set(by_flag, "volumes"@) <==> k is Volumes,
        is_set(by_flag, "networks"@) <==> k is Networks,
        !is_set(by_flag, "all"@),
    ensures
        op_call(Op::Prune, by_word) == op_call(Op::Prune, by_flag),
        op_call(Op::Prune, by_word) == sent(kind_call(k)),
{
    prune_words_differ();
}

/// A set of kinds to prune has the kinds that it names, loses the one that is taken out and no
/// other, and hands them out in one order: containers, images, volumes, networks.
pub proof fn set_has_its_kinds(s: PruneSet, k: PruneKind, other: PruneKind)
    ensures
        s.has_kind(PruneKind::Containers) == s.containers,
        s.has_kind(PruneKind::Images) == s.images,
        s.has_kind(PruneKind::Volumes) == s.volumes,
        s.has_kind(PruneKind::Networks) == s.networks,
        s.minus(k).has_kind(other) <==> s.has_kind(other) && other != k,
        s.has_kind(k) ==> s.minus(k).size() + 1 == s.size(),
        s.size() == 0 <==> s.first() is None,
        s.first() matches Some(f) ==> s.has_kind(f),
        s.has_kind(k) ==> s.first() is Some,
        s.containers ==> s.first() == Some(PruneKind::Containers),
        s.images && !s.containers ==> s.first() == Some(PruneKind::Images),
        s.networks && s.first() == Some(PruneKind::Networks) ==> !s.containers && !s.images
            && !s.volumes,
{
}

/// Whether a step sends a call.
pub open spec fn sends(step: StepModel, call: CallModel) -> bool {
    step matches Step::Call(_, c) && c == call
}

/// The step that replies with a document.
pub open spec fn replied(doc: Tree) -> StepModel {
    Step::Reply(json_text(doc))
}

/// The step behind the answer, where the call was one that is wanted.
pub open spec fn answered_if(step: StepModel, wanted: bool, answer: Tree) -> StepModel {
    if wanted {
        after(step, Event::Answer(answer))
    } else {
        step
    }
}

/// The fields with one more, where it is wanted.
pub open spec fn with_if(
    m: Map<Seq<char>, Tree>,
    wanted: bool,
    key: Seq<char>,
    value: Tree,
) -> Map<Seq<char>, Tree> {
    if wanted {
        m.insert(key, value)
    } else {
        m
    }
}

/// Flags prune what they name, one call after the other, and the reply holds under each word the
/// answer to the call for it, and nothing else.
pub proof fn flags_prune_what_they_name(t: Tree, a: Tree, b: Tree, c: Tree, d: Tree)
    requires
        !no_prune_flag(t),
    ensures
        ({
            let containers = is_set(t, "containers"@) || is_set(t, "all"@);
            let images = is_set(t, "images"@) || is_set(t, "all"@);
            let volumes = is_set(t, "volumes"@) || is_set(t, "all"@);
            let networks = is_set(t, "networks"@) || is_set(t, "all"@);
            let s0 = after(begin(Op::Prune, t), Event::Connected);
            let s1 = answered_if(s0, containers, a);
            let s2 = answered_if(s1, images, b);
            let s3 = answered_if(s2, volumes, c);
            let s4 = answered_if(s3, networks, d);
            let m1 = with_if(Map::empty(), containers, "containers"@, a);
            let m2 = with_if(m1, images, "images"@, b);
            let m3 = with_if(m2, volumes, "volumes"@, c);
            let m4 = with_if(m3, networks, "networks"@, d);
            &&& containers ==> sends(s0, Call::PruneContainers)
            &&& images ==> sends(s1, Call::PruneImages)
            &&& volumes ==> sends(s2, Call::PruneVolumes)
            &&& networks ==> sends(s3, Call::PruneNetworks)
            &&& s4 == replied(Tree::Object(m4))
        }),
{
}

/// The tag that is sent is the one behind the last colon, and empty where there is none.
pub proof fn tag_reads_back(t: Tree, source: Seq<char>, repo: Seq<char>, tag: Seq<char>)
    requires
        t.text_at("source"@) == Some(source),
        !tag.contains(':'),
    ensures
        t.text_at("target"@) == Some(repo + seq![':'] + tag) ==> op_call(Op::Tag, t) == sent(
            Call::TagImage { source, repo, tag },
        ),
        t.text_at("target"@) == Some(repo) && !repo.contains(':') ==> op_call(Op::Tag, t) == sent(
            Call::TagImage { source, repo, tag: Seq::empty() },
        ),
{
    cut_last_of(repo, ':', tag);
    if !repo.contains(':') {
        cut_nowhere(repo, ':');
    }
}

/// That a command sends a call first.
pub open spec fn commands(c: CommandModel, call: CallModel) -> bool {
    command_call(c) == call
}

/// The tag that a command sends is the one behind the last colon, unless a slash follows or
/// nothing stands before it; else it is `latest`.
pub proof fn commanded_tag_reads_back(source: Seq<char>, repo: Seq<char>, tag: Seq<char>)
    requires
        !tag.contains(':'),
    ensures
        repo.len() > 0 && !tag.contains('/') ==> commands(
            Command::Tag { source, target: repo + seq![':'] + tag },
            Call::TagImage { source, repo, tag },
        ),
        repo.len() == 0 || tag.contains('/') ==> commands(
            Command::Tag { source, target: repo + seq![':'] + tag },
            Call::TagImage { source, repo: repo + seq![':'] + tag, tag: "latest"@ },
        ),
        !repo.contains(':') ==> commands(
            Command::Tag { source, target: repo },
            Call::TagImage { source, repo, tag: "latest"@ },
        ),
{
    cut_last_of(repo, ':', tag);
    if !repo.contains(':') {
        cut_nowhere(repo, ':');
    }
}

/// An image is pulled under the tag behind its last colon, unless that belongs to a registry or to
/// a digest; else under `latest`, and then the image is named whole.
pub proof fn pulled_tag_reads_back(t: Tree, repo: Seq<char>, tag: Seq<char>)
    requires
        !tag.contains(':'),
    ensures
        t.text_at("image"@) == Some(repo + seq![':'] + tag) && !tag.contains('/') && !repo.contains(
            '@',
        ) ==> op_call(Op::Pull, t) == sent(
            Call::CreateImage { from_image: repo, tag, platform: Seq::empty() },
        ),
        t.text_at("image"@) == Some(repo + seq![':'] + tag) && (tag.contains('/') || repo.contains(
            '@',
        )) ==> op_call(Op::Pull, t) == sent(
            Call::CreateImage {
                from_image: repo + seq![':'] + tag,
                tag: "latest"@,
                platform: Seq::empty(),
            },
        ),
        t.text_at("image"@) == Some(repo) && !repo.contains(':') ==> op_call(Op::Pull, t) == sent(
            Call::CreateImage { from_image: repo, tag: "latest"@, platform: Seq::empty() },
        ),
{
    cut_last_of(repo, ':', tag);
    if !repo.contains(':') {
        cut_nowhere(repo, ':');
    }
}

/// That an operation is refused with a message.
pub open spec fn refused(op: Op, t: Tree, message: Seq<char>) -> bool {
    op_call(op, t) matches Err(e) && refusal_text(e) == message
}

/// What an operation cannot do without is named where it is missing.
pub proof fn missing_argument_is_named(t: Tree)
    ensures
        t.text_at("container"@) is None ==> {
            &&& refused(Op::Inspect, t, "missing container"@)
            &&& refused(Op::Start, t, "missing container"@)
            &&& refused(Op::Stop, t, "missing container"@)
            &&& refused(Op::Restart, t, "missing container"@)
            &&& refused(Op::Kill, t, "missing container"@)
            &&& refused(Op::Rm, t, "missing container"@)
            &&& refused(Op::Logs, t, "missing container"@)
            &&& refused(Op::Exec, t, "missing container"@)
            &&& refused(Op::Pause, t, "missing container"@)
            &&& refused(Op::Unpause, t, "missing container"@)
            &&& refused(Op::Rename, t, "missing container"@)
            &&& refused(Op::Wait, t, "missing container"@)
            &&& refused(Op::Top, t, "missing container"@)
            &&& refused(Op::Stats, t, "missing container"@)
            &&& refused(Op::Commit, t, "missing container"@)
            &&& refused(Op::Diff, t, "missing container"@)
            &&& refused(Op::Port, t, "missing container"@)
            &&& refused(Op::Update, t, "missing container"@)
        },
        t.text_at("container"@) is Some && t.texts_at("cmd"@) is None ==> refused(
            Op::Exec,
            t,
            "missing cmd (array)"@,
        ),
        t.text_at("container"@) is Some && t.text_at("name"@) is None ==> refused(
            Op::Rename,
            t,
            "missing name (the new container name)"@,
        ),
        t.text_at("image"@) is None ==> {
            &&& refused(Op::Create, t, "missing image"@)
            &&& refused(Op::Pull, t, "missing image"@)
            &&& refused(Op::Rmi, t, "missing image"@)
            &&& refused(Op::History, t, "missing image"@)
            &&& refused(Op::ImageInspect, t, "missing image"@)
        },
        t.text_at("source"@) is None ==> refused(Op::Tag, t, "missing source"@),
        t.text_at("source"@) is Some && t.text_at("target"@) is None ==> refused(
            Op::Tag,
            t,
            "missing target"@,
        ),
        t.text_at("name"@) is None ==> {
            &&& refused(Op::NetworkCreate, t, "missing name"@)
            &&& refused(Op::NetworkRm, t, "missing name"@)
            &&& refused(Op::VolumeCreate, t, "missing name"@)
            &&& refused(Op::VolumeRm, t, "missing name"@)
        },
        t.text_at("volume"@) is None ==> refused(Op::VolumeInspect, t, "missing volume"@),
        t.text_at("network"@) is None ==> refused(Op::NetworkInspect, t, "missing network"@),
{
}

/// Each refusal says what is wrong, and with which text.
pub proof fn refusal_says_what_is_wrong(s: Seq<char>)
    ensures
        refusal_text(Refusal::EmptyReference) == "empty image reference"@,
        refusal_text(Refusal::Missing(Field::Ref)) == "missing ref"@,
        refusal_text(Refusal::Missing(Field::Spec)) == "missing spec"@,
        refusal_text(Refusal::Missing(Field::Name)) == "missing name"@,
        refusal_text(Refusal::UnterminatedIpv6(s)) == "unterminated IPv6 literal in `"@ + s + "`"@,
        refusal_text(Refusal::InvalidPort(s)) == "invalid port spec `"@ + s + "`"@,
        refusal_text(Refusal::MissingContainerPort(s)) == "missing container port in `"@ + s
            + "`"@,
        refusal_text(Refusal::InvalidMount(s)) == "invalid mount spec `"@ + s
            + "` (want src:dst[:opts])"@,
        refusal_text(Refusal::MissingMountTarget(s)) == "mount spec missing container path: `"@ + s
            + "`"@,
        refusal_text(Refusal::PruneKind(s))
            == "prune kind must be containers|images|volumes|networks, got "@ + s,
        refusal_text(Refusal::NoStats(s)) == "no stats returned for `"@ + s + "`"@,
        refusal_text(Refusal::UnknownScheme(s)) == "unrecognised DOCKER_HOST scheme: "@ + s,
{
}

} // verus!
