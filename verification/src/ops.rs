//! The operations that need the daemon: which call each one sends for its arguments.

use vstd::prelude::*;

use crate::call::{
    no_filters, no_labels, opt_labels, opt_texts, without_filters, without_labels, Call, CallModel,
    ContainerSettings, HostSettings, Limits, OwnedCall, Pool, Restart, SettingsModel,
};
use crate::command::{make_pool, network_pool, publish, published, restart_named, restart_policy};
use crate::json::{Json, Tree};
use crate::labels::{label_vec_to_map, labels};
use crate::prune::{is_asked, kind_call, prune_kinds, prune_set, PruneFlags, PruneSet};
use crate::reference::{op_pull_split, op_tag_target, pull_parts, target_sent};
use crate::refusal::{Field, Refusal};
use crate::text::{decimal, opt_text, same, to_decimal};
use crate::textmap::{text_values, TextMap};

verus! {

/// An operation of the daemon.
#[derive(Clone, Copy, Debug, PartialEq, Eq, Structural)]
pub enum Op {
    Version,
    Ping,
    Info,
    Ps,
    Inspect,
    Create,
    Start,
    Stop,
    Restart,
    Kill,
    Rm,
    Logs,
    Exec,
    Images,
    Pull,
    Rmi,
    Tag,
    Networks,
    NetworkCreate,
    NetworkRm,
    Volumes,
    VolumeCreate,
    VolumeRm,
    Prune,
    Pause,
    Unpause,
    Rename,
    Wait,
    Top,
    Stats,
    Commit,
    Diff,
    History,
    Df,
    Port,
    Update,
    ImageInspect,
    VolumeInspect,
    NetworkInspect,
}

/// A call to send, or why there is none.
pub type Sent = Result<CallModel, Refusal<Seq<char>>>;

/// What a made call, or the refusal of one, holds.
pub open spec fn outcome(r: Result<OwnedCall, Refusal<String>>) -> Sent {
    match r {
        Ok(c) => Ok(c.model()),
        Err(e) => Err(e.model()),
    }
}

/// The text of a field, or the one that stands for an absent field.
pub open spec fn text_or(t: Tree, key: Seq<char>, default: Seq<char>) -> Seq<char> {
    match t.text_at(key) {
        Some(s) => s,
        None => default,
    }
}

/// The flag in a field, or the one that stands for an absent field.
pub open spec fn flag_or(t: Tree, key: Seq<char>, default: bool) -> bool {
    match t.flag_at(key) {
        Some(b) => b,
        None => default,
    }
}

/// The call that a text makes that the arguments must hold.
pub open spec fn about(
    t: Tree,
    key: Seq<char>,
    field: Field,
    call: spec_fn(Seq<char>) -> CallModel,
) -> Sent {
    match t.text_at(key) {
        Some(s) => Ok(call(s)),
        None => Err(Refusal::Missing(field)),
    }
}

/// The number of log lines to send, as a text or as a count; all of them, unless one is given.
pub open spec fn tail_text(t: Tree) -> Seq<char> {
    match t.text_at("tail"@) {
        Some(s) => s,
        None => match t.u64_at("tail"@) {
            Some(n) => decimal(n as nat),
            None => "all"@,
        },
    }
}

/// The seconds that a container is given to stop: `time`, or else `timeout`.
pub open spec fn stop_time(t: Tree) -> Option<i64> {
    match t.i64_at("time"@) {
        Some(n) => Some(n),
        None => t.i64_at("timeout"@),
    }
}

/// The labels that the arguments list under `label`.
pub open spec fn labels_in(t: Tree) -> Option<Map<Seq<char>, Seq<char>>> {
    match t.texts_at("label"@) {
        Some(list) => Some(labels(list)),
        None => None,
    }
}

/// The labels that the arguments list under `label`, none where they list none.
pub open spec fn labels_or_none(t: Tree) -> Map<Seq<char>, Seq<char>> {
    match labels_in(t) {
        Some(m) => m,
        None => no_labels(),
    }
}

/// How the arguments want a container to run on its host; absent where they say nothing of it.
pub open spec fn host_in(t: Tree) -> Option<HostSettings<Seq<char>, Seq<Seq<char>>>> {
    if t.texts_at("port"@) is Some || t.texts_at("volume"@) is Some || t.text_at("network"@) is Some
        || t.text_at("restart"@) is Some || flag_or(t, "rm"@, false) {
        Some(
            HostSettings {
                binds: t.texts_at("volume"@),
                auto_remove: if flag_or(t, "rm"@, false) {
                    Some(true)
                } else {
                    None
                },
                network_mode: t.text_at("network"@),
                restart: match t.text_at("restart"@) {
                    Some(word) => Some(restart_policy(word)),
                    None => None,
                },
            },
        )
    } else {
        None
    }
}

/// The container to create from an image, with what the arguments say of it; all else is left to
/// the daemon.
pub open spec fn settings_in(image: Seq<char>, t: Tree) -> SettingsModel {
    ContainerSettings {
        image,
        cmd: t.texts_at("cmd"@),
        env: t.texts_at("env"@),
        labels: labels_in(t),
        working_dir: t.text_at("workdir"@),
        user: t.text_at("user"@),
        hostname: t.text_at("hostname"@),
        tty: t.flag_at("tty"@),
        attach_stdin: None,
        attach_stdout: None,
        attach_stderr: None,
        ports: match t.texts_at("port"@) {
            Some(ports) => Some(published(ports)),
            None => None,
        },
        host: host_in(t),
    }
}

/// The addresses that the arguments give a network; absent where they give none.
pub open spec fn pool_in(t: Tree) -> Option<Pool<Seq<char>>> {
    network_pool(t.text_at("subnet"@), t.text_at("gateway"@))
}

/// What the arguments ask to prune.
pub open spec fn prune_flags_in(t: Tree) -> PruneFlags {
    PruneFlags {
        containers: flag_or(t, "containers"@, false),
        images: flag_or(t, "images"@, false),
        volumes: flag_or(t, "volumes"@, false),
        networks: flag_or(t, "networks"@, false),
        all: flag_or(t, "all"@, false),
    }
}

/// The kinds that the arguments ask to prune by flags; none where no flag is set, and then the one
/// under `kind` is pruned.
pub open spec fn prune_plan(t: Tree) -> PruneSet {
    if is_asked(prune_flags_in(t)) {
        prune_set(prune_flags_in(t))
    } else {
        PruneSet { containers: false, images: false, volumes: false, networks: false }
    }
}

/// The limits that the arguments name.
pub open spec fn limits_in(t: Tree) -> Limits<Seq<char>> {
    Limits {
        memory: t.i64_at("memory"@),
        memory_swap: t.i64_at("memory_swap"@),
        cpu_shares: match t.i64_at("cpu_shares"@) {
            Some(n) => Some(n as isize),
            None => None,
        },
        cpu_quota: t.i64_at("cpu_quota"@),
        cpu_period: t.i64_at("cpu_period"@),
        cpuset_cpus: t.text_at("cpuset_cpus"@),
    }
}

/// The call that prunes one kind of object.
pub open spec fn prune_call(kind: Seq<char>) -> Sent {
    if kind == "containers"@ {
        Ok(Call::PruneContainers)
    } else if kind == "images"@ {
        Ok(Call::PruneImages)
    } else if kind == "volumes"@ {
        Ok(Call::PruneVolumes)
    } else if kind == "networks"@ {
        Ok(Call::PruneNetworks)
    } else {
        Err(Refusal::PruneKind(kind))
    }
}

/// The call that an operation sends first for its arguments, or why it is refused.
pub open spec fn op_call(op: Op, t: Tree) -> Sent {
    match op {
        Op::Version => Ok(Call::Version),
        Op::Ping => Ok(Call::Ping),
        Op::Info => Ok(Call::Info),
        Op::Ps => Ok(
            Call::ListContainers {
                all: flag_or(t, "all"@, false),
                limit: None,
                size: false,
                filters: t.lists_at("filters"@),
            },
        ),
        Op::Inspect => about(
            t,
            "container"@,
            Field::Container,
            |s: Seq<char>| Call::InspectContainer { container: s },
        ),
        Op::Create => about(
            t,
            "image"@,
            Field::Image,
            |s: Seq<char>|
                Call::CreateContainer {
                    name: t.text_at("name"@),
                    settings: settings_in(s, t),
                },
        ),
        Op::Start => about(
            t,
            "container"@,
            Field::Container,
            |s: Seq<char>| Call::StartContainer { container: s },
        ),
        Op::Stop => about(
            t,
            "container"@,
            Field::Container,
            |s: Seq<char>| Call::StopContainer { container: s, timeout: stop_time(t) },
        ),
        Op::Restart => about(
            t,
            "container"@,
            Field::Container,
            |s: Seq<char>| Call::RestartContainer { container: s, timeout: None },
        ),
        Op::Kill => about(
            t,
            "container"@,
            Field::Container,
            |s: Seq<char>|
                Call::KillContainer {
                    container: s,
                    signal: Some(text_or(t, "signal"@, "SIGKILL"@)),
                },
        ),
        Op::Rm => about(
            t,
            "container"@,
            Field::Container,
            |s: Seq<char>|
                Call::RemoveContainer {
                    container: s,
                    force: flag_or(t, "force"@, false),
                    volumes: flag_or(t, "volumes"@, false),
                },
        ),
        Op::Logs => about(
            t,
            "container"@,
            Field::Container,
            |s: Seq<char>|
                Call::Logs {
                    container: s,
                    stdout: true,
                    stderr: true,
                    follow: false,
                    timestamps: flag_or(t, "timestamps"@, false),
                    tail: tail_text(t),
                    since: 0,
                    until: 0,
                },
        ),
        Op::Exec => match t.text_at("container"@) {
            None => Err(Refusal::Missing(Field::Container)),
            Some(container) => match t.texts_at("cmd"@) {
                None => Err(Refusal::Missing(Field::Cmd)),
                Some(cmd) => Ok(
                    Call::CreateExec {
                        container,
                        cmd,
                        env: None,
                        working_dir: None,
                        user: None,
                        tty: None,
                        attach_stdout: Some(true),
                        attach_stderr: Some(true),
                    },
                ),
            },
        },
        Op::Images => Ok(
            Call::ListImages { all: flag_or(t, "all"@, false), filters: no_filters() },
        ),
        Op::Pull => about(
            t,
            "image"@,
            Field::Image,
            |s: Seq<char>|
                Call::CreateImage {
                    from_image: pull_parts(s).0,
                    tag: pull_parts(s).1,
                    platform: Seq::empty(),
                },
        ),
        Op::Rmi => about(
            t,
            "image"@,
            Field::Image,
            |s: Seq<char>|
                Call::RemoveImage {
                    image: s,
                    force: flag_or(t, "force"@, false),
                    noprune: false,
                },
        ),
        Op::Tag => match t.text_at("source"@) {
            None => Err(Refusal::Missing(Field::Source)),
            Some(source) => match t.text_at("target"@) {
                None => Err(Refusal::Missing(Field::Target)),
                Some(target) => Ok(
                    Call::TagImage {
                        source,
                        repo: target_sent(target).0,
                        tag: target_sent(target).1,
                    },
                ),
            },
        },
        Op::Networks => Ok(Call::ListNetworks { filters: no_filters() }),
        Op::NetworkCreate => about(
            t,
            "name"@,
            Field::Name,
            |s: Seq<char>|
                Call::CreateNetwork {
                    name: s,
                    driver: text_or(t, "driver"@, "bridge"@),
                    labels: labels_or_none(t),
                    pool: pool_in(t),
                },
        ),
        Op::NetworkRm => about(
            t,
            "name"@,
            Field::Name,
            |s: Seq<char>| Call::RemoveNetwork { name: s },
        ),
        Op::Volumes => Ok(Call::ListVolumes { filters: no_filters() }),
        Op::VolumeCreate => about(
            t,
            "name"@,
            Field::Name,
            |s: Seq<char>|
                Call::CreateVolume {
                    name: s,
                    driver: text_or(t, "driver"@, ""@),
                    labels: labels_or_none(t),
                },
        ),
        Op::VolumeRm => about(
            t,
            "name"@,
            Field::Name,
            |s: Seq<char>| Call::RemoveVolume { name: s, force: flag_or(t, "force"@, false) },
        ),
        Op::Prune => match prune_plan(t).first() {
            Some(k) => Ok(kind_call(k)),
            None => prune_call(text_or(t, "kind"@, "containers"@)),
        },
        Op::Pause => about(
            t,
            "container"@,
            Field::Container,
            |s: Seq<char>| Call::PauseContainer { container: s },
        ),
        Op::Unpause => about(
            t,
            "container"@,
            Field::Container,
            |s: Seq<char>| Call::UnpauseContainer { container: s },
        ),
        Op::Rename => match t.text_at("container"@) {
            None => Err(Refusal::Missing(Field::Container)),
            Some(container) => about(
                t,
                "name"@,
                Field::NewName,
                |s: Seq<char>| Call::RenameContainer { container, name: s },
            ),
        },
        Op::Wait => about(
            t,
            "container"@,
            Field::Container,
            |s: Seq<char>| Call::WaitContainer { container: s },
        ),
        Op::Top => about(
            t,
            "container"@,
            Field::Container,
            |s: Seq<char>| Call::TopProcesses { container: s, ps_args: t.text_at("ps_args"@) },
        ),
        Op::Stats => about(
            t,
            "container"@,
            Field::Container,
            |s: Seq<char>| Call::Stats { container: s, stream: false, one_shot: true },
        ),
        Op::Commit => about(
            t,
            "container"@,
            Field::Container,
            |s: Seq<char>|
                Call::CommitContainer {
                    container: s,
                    repo: text_or(t, "repo"@, ""@),
                    tag: text_or(t, "tag"@, "latest"@),
                    comment: text_or(t, "comment"@, ""@),
                    author: text_or(t, "author"@, ""@),
                    pause: flag_or(t, "pause"@, true),
                },
        ),
        Op::Diff => about(
            t,
            "container"@,
            Field::Container,
            |s: Seq<char>| Call::ContainerChanges { container: s },
        ),
        Op::History => about(
            t,
            "image"@,
            Field::Image,
            |s: Seq<char>| Call::ImageHistory { image: s },
        ),
        Op::Df => Ok(Call::DiskUsage),
        Op::Port => about(
            t,
            "container"@,
            Field::Container,
            |s: Seq<char>| Call::InspectContainer { container: s },
        ),
        Op::Update => about(
            t,
            "container"@,
            Field::Container,
            |s: Seq<char>| Call::UpdateContainer { container: s, limits: limits_in(t) },
        ),
        Op::ImageInspect => about(
            t,
            "image"@,
            Field::Image,
            |s: Seq<char>| Call::InspectImage { image: s },
        ),
        Op::VolumeInspect => about(
            t,
            "volume"@,
            Field::Volume,
            |s: Seq<char>| Call::InspectVolume { volume: s },
        ),
        Op::NetworkInspect => about(
            t,
            "network"@,
            Field::Network,
            |s: Seq<char>| Call::InspectNetwork { network: s },
        ),
    }
}

/// Whether an operation looks at its arguments before it connects to the daemon.
pub open spec fn checks_first(op: Op) -> bool {
    match op {
        Op::Pause | Op::Unpause | Op::Rename | Op::Wait | Op::Top | Op::Stats | Op::Commit | Op::Diff
        | Op::History | Op::Port | Op::Update => true,
        _ => false,
    }
}

/// The text of a field that the arguments must hold.
fn required(opts: &Json, key: &str, field: Field) -> (r: Result<String, Refusal<String>>)
    ensures
        match r {
            Ok(s) => opts.tree().text_at(key@) == Some(s@),
            Err(e) => opts.tree().text_at(key@) is None && e == Refusal::<String>::Missing(field),
        },
{
    match opts.text_at(key) {
        Some(s) => Ok(s.to_owned()),
        None => Err(Refusal::Missing(field)),
    }
}

/// The text of a field, or the one that stands for an absent field.
fn text_otherwise(opts: &Json, key: &str, default: &str) -> (r: String)
    ensures
        r@ == text_or(opts.tree(), key@, default@),
{
    match opts.text_at(key) {
        Some(s) => s.to_owned(),
        None => default.to_owned(),
    }
}

/// The text of a field, if it holds one.
fn optional(opts: &Json, key: &str) -> (r: Option<String>)
    ensures
        opt_text(r) == opts.tree().text_at(key@),
{
    match opts.text_at(key) {
        Some(s) => Some(s.to_owned()),
        None => None,
    }
}

/// The flag in a field, or the one that stands for an absent field.
fn flag(opts: &Json, key: &str, default: bool) -> (r: bool)
    ensures
        r == flag_or(opts.tree(), key@, default),
{
    match opts.flag_at(key) {
        Some(b) => b,
        None => default,
    }
}

/// The texts among the items of a field that holds a list. A list without texts is not an
/// absent one.
pub fn string_vec(opts: &Json, key: &str) -> (r: Option<Vec<String>>)
    ensures
        opt_texts(r) == opts.tree().texts_at(key@),
{
    opts.texts_at(key)
}

/// The name of the container that a call is about.
pub fn container_name(opts: &Json) -> (r: Result<String, Refusal<String>>)
    ensures
        match r {
            Ok(s) => opts.tree().text_at("container"@) == Some(s@),
            Err(e) => opts.tree().text_at("container"@) is None && e == Refusal::<String>::Missing(
                Field::Container,
            ),
        },
{
    required(opts, "container", Field::Container)
}

/// The number of log lines to send.
pub fn op_logs_tail(opts: &Json) -> (r: String)
    ensures
        r@ == tail_text(opts.tree()),
{
    match opts.text_at("tail") {
        Some(s) => s.to_owned(),
        None => match opts.u64_at("tail") {
            Some(n) => to_decimal(n),
            None => "all".to_owned(),
        },
    }
}

/// The labels that the arguments list.
fn label_option(opts: &Json) -> (r: Option<TextMap<String>>)
    ensures
        opt_labels(r) == labels_in(opts.tree()),
{
    match string_vec(opts, "label") {
        Some(list) => Some(label_vec_to_map(list.as_slice())),
        None => None,
    }
}

/// The labels that the arguments list, none where they list none.
fn label_map(opts: &Json) -> (r: TextMap<String>)
    ensures
        text_values(r@) == labels_or_none(opts.tree()),
{
    match label_option(opts) {
        Some(m) => m,
        None => without_labels(),
    }
}

/// How the arguments want a container to run on its host.
fn host_settings(opts: &Json) -> (r: Option<HostSettings<String, Vec<String>>>)
    ensures
        match r {
            Some(h) => host_in(opts.tree()) == Some(h.model()),
            None => host_in(opts.tree()) is None,
        },
{
    let binds = string_vec(opts, "volume");
    let network_mode = optional(opts, "network");
    let restart: Option<Restart> = match opts.text_at("restart") {
        Some(word) => Some(restart_named(word)),
        None => None,
    };
    let rm = flag(opts, "rm", false);
    if string_vec(opts, "port").is_some() || binds.is_some() || network_mode.is_some()
        || restart.is_some() || rm {
        let auto_remove = if rm {
            Some(true)
        } else {
            None
        };
        Some(HostSettings { binds, auto_remove, network_mode, restart })
    } else {
        None
    }
}

/// The container that `docker__create` makes. A command that is no list is none.
pub fn op_create(opts: &Json) -> (r: Result<OwnedCall, Refusal<String>>)
    ensures
        outcome(r) == op_call(Op::Create, opts.tree()),
{
    let image = match required(opts, "image", Field::Image) {
        Ok(s) => s,
        Err(e) => return Err(e),
    };
    let ports = match string_vec(opts, "port") {
        Some(list) => Some(publish(&list)),
        None => None,
    };
    Ok(
        Call::CreateContainer {
            name: optional(opts, "name"),
            settings: ContainerSettings {
                image,
                cmd: string_vec(opts, "cmd"),
                env: string_vec(opts, "env"),
                labels: label_option(opts),
                working_dir: optional(opts, "workdir"),
                user: optional(opts, "user"),
                hostname: optional(opts, "hostname"),
                tty: opts.flag_at("tty"),
                attach_stdin: None,
                attach_stdout: None,
                attach_stderr: None,
                ports,
                host: host_settings(opts),
            },
        },
    )
}

/// The logs that `docker__logs` asks for.
pub fn op_logs(opts: &Json) -> (r: Result<OwnedCall, Refusal<String>>)
    ensures
        outcome(r) == op_call(Op::Logs, opts.tree()),
{
    match container_name(opts) {
        Ok(container) => Ok(
            Call::Logs {
                container,
                stdout: true,
                stderr: true,
                follow: false,
                timestamps: flag(opts, "timestamps", false),
                tail: op_logs_tail(opts),
                since: 0,
                until: 0,
            },
        ),
        Err(e) => Err(e),
    }
}

/// The command that `docker__exec` sets up.
pub fn op_exec(opts: &Json) -> (r: Result<OwnedCall, Refusal<String>>)
    ensures
        outcome(r) == op_call(Op::Exec, opts.tree()),
{
    let container = match container_name(opts) {
        Ok(s) => s,
        Err(e) => return Err(e),
    };
    match string_vec(opts, "cmd") {
        None => Err(Refusal::Missing(Field::Cmd)),
        Some(cmd) => Ok(
            Call::CreateExec {
                container,
                cmd,
                env: None,
                working_dir: None,
                user: None,
                tty: None,
                attach_stdout: Some(true),
                attach_stderr: Some(true),
            },
        ),
    }
}

/// The image that `docker__pull` asks for.
pub fn op_pull(opts: &Json) -> (r: Result<OwnedCall, Refusal<String>>)
    ensures
        outcome(r) == op_call(Op::Pull, opts.tree()),
{
    match required(opts, "image", Field::Image) {
        Ok(image) => {
            let (from_image, tag) = op_pull_split(image.as_str());
            Ok(Call::CreateImage { from_image, tag, platform: String::new() })
        },
        Err(e) => Err(e),
    }
}

/// The name that `docker__tag` gives.
pub fn op_tag(opts: &Json) -> (r: Result<OwnedCall, Refusal<String>>)
    ensures
        outcome(r) == op_call(Op::Tag, opts.tree()),
{
    let source = match required(opts, "source", Field::Source) {
        Ok(s) => s,
        Err(e) => return Err(e),
    };
    match required(opts, "target", Field::Target) {
        Ok(target) => {
            let (repo, tag) = op_tag_target(target.as_str());
            Ok(Call::TagImage { source, repo, tag })
        },
        Err(e) => Err(e),
    }
}

/// The kinds that the arguments ask to prune by flags.
pub fn op_prune_plan(opts: &Json) -> (r: PruneSet)
    ensures
        r == prune_plan(opts.tree()),
{
    let flags = PruneFlags {
        containers: flag(opts, "containers", false),
        images: flag(opts, "images", false),
        volumes: flag(opts, "volumes", false),
        networks: flag(opts, "networks", false),
        all: flag(opts, "all", false),
    };
    if flags.containers || flags.images || flags.volumes || flags.networks || flags.all {
        prune_kinds(flags)
    } else {
        PruneSet { containers: false, images: false, volumes: false, networks: false }
    }
}

/// What `docker__prune` prunes first.
pub fn op_prune(opts: &Json) -> (r: Result<OwnedCall, Refusal<String>>)
    ensures
        outcome(r) == op_call(Op::Prune, opts.tree()),
{
    if let Some((kind, _)) = op_prune_plan(opts).split_first() {
        return Ok(kind.call());
    }
    let kind = text_otherwise(opts, "kind", "containers");
    let k = kind.as_str();
    if same(k, "containers") {
        Ok(Call::PruneContainers)
    } else if same(k, "images") {
        Ok(Call::PruneImages)
    } else if same(k, "volumes") {
        Ok(Call::PruneVolumes)
    } else if same(k, "networks") {
        Ok(Call::PruneNetworks)
    } else {
        Err(Refusal::PruneKind(kind))
    }
}

/// The new name that `docker__rename` gives.
pub fn op_rename(opts: &Json) -> (r: Result<OwnedCall, Refusal<String>>)
    ensures
        outcome(r) == op_call(Op::Rename, opts.tree()),
{
    let container = match container_name(opts) {
        Ok(s) => s,
        Err(e) => return Err(e),
    };
    match required(opts, "name", Field::NewName) {
        Ok(name) => Ok(Call::RenameContainer { container, name }),
        Err(e) => Err(e),
    }
}

/// The image that `docker__commit` makes.
pub fn op_commit(opts: &Json) -> (r: Result<OwnedCall, Refusal<String>>)
    ensures
        outcome(r) == op_call(Op::Commit, opts.tree()),
{
    match container_name(opts) {
        Ok(container) => Ok(
            Call::CommitContainer {
                container,
                repo: text_otherwise(opts, "repo", ""),
                tag: text_otherwise(opts, "tag", "latest"),
                comment: text_otherwise(opts, "comment", ""),
                author: text_otherwise(opts, "author", ""),
                pause: flag(opts, "pause", true),
            },
        ),
        Err(e) => Err(e),
    }
}

/// The limits that `docker__update` sets.
pub fn op_update(opts: &Json) -> (r: Result<OwnedCall, Refusal<String>>)
    ensures
        outcome(r) == op_call(Op::Update, opts.tree()),
{
    let container = match container_name(opts) {
        Ok(s) => s,
        Err(e) => return Err(e),
    };
    let cpu_shares: Option<isize> = match opts.i64_at("cpu_shares") {
        Some(n) => Some(
            #[verifier::truncate]
            (n as isize),
        ),
        None => None,
    };
    Ok(
        Call::UpdateContainer {
            container,
            limits: Limits {
                memory: opts.i64_at("memory"),
                memory_swap: opts.i64_at("memory_swap"),
                cpu_shares,
                cpu_quota: opts.i64_at("cpu_quota"),
                cpu_period: opts.i64_at("cpu_period"),
                cpuset_cpus: optional(opts, "cpuset_cpus"),
            },
        },
    )
}

/// The calls about one container that take little else.
fn op_container(op: Op, opts: &Json) -> (r: Result<OwnedCall, Refusal<String>>)
    requires
        op == Op::Inspect || op == Op::Start || op == Op::Stop || op == Op::Restart || op
            == Op::Kill || op == Op::Rm || op == Op::Pause || op == Op::Unpause || op == Op::Wait
            || op == Op::Top || op == Op::Stats || op == Op::Diff || op == Op::Port,
    ensures
        outcome(r) == op_call(op, opts.tree()),
{
    let container = match container_name(opts) {
        Ok(s) => s,
        Err(e) => return Err(e),
    };
    Ok(
        match op {
            Op::Start => Call::StartContainer { container },
            Op::Stop => Call::StopContainer {
                container,
                timeout: match opts.i64_at("time") {
                    Some(n) => Some(n),
                    None => opts.i64_at("timeout"),
                },
            },
            Op::Restart => Call::RestartContainer { container, timeout: None },
            Op::Kill => Call::KillContainer {
                container,
                signal: Some(text_otherwise(opts, "signal", "SIGKILL")),
            },
            Op::Rm => Call::RemoveContainer {
                container,
                force: flag(opts, "force", false),
                volumes: flag(opts, "volumes", false),
            },
            Op::Pause => Call::PauseContainer { container },
            Op::Unpause => Call::UnpauseContainer { container },
            Op::Wait => Call::WaitContainer { container },
            Op::Top => Call::TopProcesses { container, ps_args: optional(opts, "ps_args") },
            Op::Stats => Call::Stats { container, stream: false, one_shot: true },
            Op::Diff => Call::ContainerChanges { container },
            _ => Call::InspectContainer { container },
        },
    )
}

/// The calls about one image that take little else.
fn op_image(op: Op, opts: &Json) -> (r: Result<OwnedCall, Refusal<String>>)
    requires
        op == Op::Rmi || op == Op::History || op == Op::ImageInspect,
    ensures
        outcome(r) == op_call(op, opts.tree()),
{
    match required(opts, "image", Field::Image) {
        Ok(image) => Ok(
            match op {
                Op::Rmi => Call::RemoveImage {
                    image,
                    force: flag(opts, "force", false),
                    noprune: false,
                },
                Op::History => Call::ImageHistory { image },
                _ => Call::InspectImage { image },
            },
        ),
        Err(e) => Err(e),
    }
}

/// The calls about one network or volume, by its name.
fn op_named(op: Op, opts: &Json) -> (r: Result<OwnedCall, Refusal<String>>)
    requires
        op == Op::NetworkCreate || op == Op::NetworkRm || op == Op::VolumeCreate || op
            == Op::VolumeRm,
    ensures
        outcome(r) == op_call(op, opts.tree()),
{
    match required(opts, "name", Field::Name) {
        Ok(name) => Ok(
            match op {
                Op::NetworkCreate => Call::CreateNetwork {
                    name,
                    driver: text_otherwise(opts, "driver", "bridge"),
                    labels: label_map(opts),
                    pool: make_pool(optional(opts, "subnet"), optional(opts, "gateway")),
                },
                Op::NetworkRm => Call::RemoveNetwork { name },
                Op::VolumeCreate => Call::CreateVolume {
                    name,
                    driver: text_otherwise(opts, "driver", ""),
                    labels: label_map(opts),
                },
                _ => Call::RemoveVolume { name, force: flag(opts, "force", false) },
            },
        ),
        Err(e) => Err(e),
    }
}

/// The call that an operation sends first for its arguments.
pub fn request(op: Op, opts: &Json) -> (r: Result<OwnedCall, Refusal<String>>)
    ensures
        outcome(r) == op_call(op, opts.tree()),
{
    match op {
        Op::Version => Ok(Call::Version),
        Op::Ping => Ok(Call::Ping),
        Op::Info => Ok(Call::Info),
        Op::Df => Ok(Call::DiskUsage),
        Op::Ps => Ok(
            Call::ListContainers {
                all: flag(opts, "all", false),
                limit: None,
                size: false,
                filters: opts.lists_at("filters"),
            },
        ),
        Op::Images => Ok(
            Call::ListImages { all: flag(opts, "all", false), filters: without_filters() },
        ),
        Op::Networks => Ok(Call::ListNetworks { filters: without_filters() }),
        Op::Volumes => Ok(Call::ListVolumes { filters: without_filters() }),
        Op::Create => op_create(opts),
        Op::Logs => op_logs(opts),
        Op::Exec => op_exec(opts),
        Op::Pull => op_pull(opts),
        Op::Tag => op_tag(opts),
        Op::Prune => op_prune(opts),
        Op::Rename => op_rename(opts),
        Op::Commit => op_commit(opts),
        Op::Update => op_update(opts),
        Op::Rmi | Op::History | Op::ImageInspect => op_image(op, opts),
        Op::NetworkCreate | Op::NetworkRm | Op::VolumeCreate | Op::VolumeRm => op_named(op, opts),
        Op::VolumeInspect => match required(opts, "volume", Field::Volume) {
            Ok(volume) => Ok(Call::InspectVolume { volume }),
            Err(e) => Err(e),
        },
        Op::NetworkInspect => match required(opts, "network", Field::Network) {
            Ok(network) => Ok(Call::InspectNetwork { network }),
            Err(e) => Err(e),
        },
        _ => op_container(op, opts),
    }
}

/// Whether an operation looks at its arguments before it connects to the daemon.
pub fn refuses_offline(op: Op) -> (r: bool)
    ensures
        r == checks_first(op),
{
    match op {
        Op::Pause | Op::Unpause | Op::Rename | Op::Wait | Op::Top | Op::Stats | Op::Commit | Op::Diff
        | Op::History | Op::Port | Op::Update => true,
        _ => false,
    }
}

/// A limit that the arguments do not name stays as it is.
pub proof fn unnamed_limits_stay(t: Tree)
    ensures
        t.field("memory"@) is None ==> limits_in(t).memory is None,
        t.field("memory_swap"@) is None ==> limits_in(t).memory_swap is None,
        t.field("cpu_shares"@) is None ==> limits_in(t).cpu_shares is None,
        t.field("cpu_quota"@) is None ==> limits_in(t).cpu_quota is None,
        t.field("cpu_period"@) is None ==> limits_in(t).cpu_period is None,
        t.field("cpuset_cpus"@) is None ==> limits_in(t).cpuset_cpus is None,
{
}

/// A list in the arguments is never taken for an absent one, even where no text is in it, and
/// what is no list is.
pub proof fn empty_list_is_not_absent(t: Tree, key: Seq<char>)
    ensures
        t.texts_at(key) is Some <==> t.field(key) matches Some(Tree::List(_)),
        t.field(key) == Some(Tree::List(Seq::empty())) ==> t.texts_at(key) == Some(
            Seq::<Seq<char>>::empty(),
        ),
{
}

/// A command is run with both of its outputs attached, so that what it writes to either is
/// captured.
pub proof fn exec_captures_both_outputs(t: Tree)
    ensures
        op_call(Op::Exec, t) matches Ok(call) ==> call is CreateExec
            && call->CreateExec_attach_stdout == Some(true) && call->CreateExec_attach_stderr
            == Some(true),
{
}

} // verus!
