//! That the models of values hold what the values hold.

use vstd::prelude::*;

use crate::call::{Call, HostSettings, Limits, OwnedCall, OwnedSettings, Pool};
use crate::command::{Command, CreateArgs, OwnedCommand};
use crate::endpoint::Endpoint;
use crate::helper::{Job, Need, Notice, OwnedJob, OwnedNotice, OwnedTurn};
use crate::json::{fields_tree, number_value, Json, Tree};
use crate::labels::pair_texts;
use crate::mounts::Mount;
use crate::ops::outcome;
use crate::output::BuildInfo;
use crate::ports::PortSpec;
use crate::reference::ImageRef;
use crate::refusal::Refusal;
use crate::reply::{opt_bytes, pure_model, result_model};
use crate::session::{Event, OwnedEvent, OwnedSession, OwnedStep, Stage, Step};
use crate::text::texts;
use crate::textmap::{entry_map, list_values, text_values};

verus! {

/// The characters of a text that may be absent.
pub open spec fn said(t: Option<String>) -> Option<Seq<char>> {
    match t {
        Some(s) => Some(s@),
        None => None,
    }
}

/// The texts of a list that may be absent.
pub open spec fn listed(v: Option<Vec<String>>) -> Option<Seq<Seq<char>>> {
    match v {
        Some(v) => Some(texts(v@)),
        None => None,
    }
}

/// The model of a call is of the same kind, with the same arguments.
pub proof fn call_is_modelled_whole(x: OwnedCall)
    ensures
        match x {
            Call::Ping => x.model() is Ping,
            Call::Version => x.model() is Version,
            Call::Info => x.model() is Info,
            Call::DiskUsage => x.model() is DiskUsage,
            Call::Events { since, until, filters } => {
                &&& x.model() matches Call::Events { since: m0, until: m1, filters: m2 }
                &&& m0 == said(since)
                &&& m1 == said(until)
                &&& m2 == list_values(filters@)
            },
            Call::ListContainers { all, limit, size, filters } => {
                &&& x.model() matches Call::ListContainers {
                    all: m0,
                    limit: m1,
                    size: m2,
                    filters: m3,
                }
                &&& m0 == all
                &&& m1 == limit
                &&& m2 == size
                &&& m3 == list_values(filters@)
            },
            Call::InspectContainer { container } => {
                &&& x.model() matches Call::InspectContainer { container: m0 }
                &&& m0 == container@
            },
            Call::CreateContainer { name, settings } => {
                &&& x.model() matches Call::CreateContainer { name: m0, settings: m1 }
                &&& m0 == said(name)
                &&& m1 == settings.model()
            },
            Call::StartContainer { container } => {
                &&& x.model() matches Call::StartContainer { container: m0 }
                &&& m0 == container@
            },
            Call::StopContainer { container, timeout } => {
                &&& x.model() matches Call::StopContainer { container: m0, timeout: m1 }
                &&& m0 == container@
                &&& m1 == timeout
            },
            Call::RestartContainer { container, timeout } => {
                &&& x.model() matches Call::RestartContainer { container: m0, timeout: m1 }
                &&& m0 == container@
                &&& m1 == timeout
            },
            Call::KillContainer { container, signal } => {
                &&& x.model() matches Call::KillContainer { container: m0, signal: m1 }
                &&& m0 == container@
                &&& m1 == said(signal)
            },
            Call::RemoveContainer { container, force, volumes } => {
                &&& x.model() matches Call::RemoveContainer {
                    container: m0,
                    force: m1,
                    volumes: m2,
                }
                &&& m0 == container@
                &&& m1 == force
                &&& m2 == volumes
            },
            Call::PauseContainer { container } => {
                &&& x.model() matches Call::PauseContainer { container: m0 }
                &&& m0 == container@
            },
            Call::UnpauseContainer { container } => {
                &&& x.model() matches Call::UnpauseContainer { container: m0 }
                &&& m0 == container@
            },
            Call::RenameContainer { container, name } => {
                &&& x.model() matches Call::RenameContainer { container: m0, name: m1 }
                &&& m0 == container@
                &&& m1 == name@
            },
            Call::WaitContainer { container } => {
                &&& x.model() matches Call::WaitContainer { container: m0 }
                &&& m0 == container@
            },
            Call::TopProcesses { container, ps_args } => {
                &&& x.model() matches Call::TopProcesses { container: m0, ps_args: m1 }
                &&& m0 == container@
                &&& m1 == said(ps_args)
            },
            Call::Stats { container, stream, one_shot } => {
                &&& x.model() matches Call::Stats { container: m0, stream: m1, one_shot: m2 }
                &&& m0 == container@
                &&& m1 == stream
                &&& m2 == one_shot
            },
            Call::CommitContainer { container, repo, tag, comment, author, pause } => {
                &&& x.model() matches Call::CommitContainer {
                    container: m0,
                    repo: m1,
                    tag: m2,
                    comment: m3,
                    author: m4,
                    pause: m5,
                }
                &&& m0 == container@
                &&& m1 == repo@
                &&& m2 == tag@
                &&& m3 == comment@
                &&& m4 == author@
                &&& m5 == pause
            },
            Call::ContainerChanges { container } => {
                &&& x.model() matches Call::ContainerChanges { container: m0 }
                &&& m0 == container@
            },
            Call::UpdateContainer { container, limits } => {
                &&& x.model() matches Call::UpdateContainer { container: m0, limits: m1 }
                &&& m0 == container@
                &&& m1 == limits.model()
            },
            Call::Logs { container, stdout, stderr, follow, timestamps, tail, since, until } => {
                &&& x.model() matches Call::Logs {
                    container: m0,
                    stdout: m1,
                    stderr: m2,
                    follow: m3,
                    timestamps: m4,
                    tail: m5,
                    since: m6,
                    until: m7,
                }
                &&& m0 == container@
                &&& m1 == stdout
                &&& m2 == stderr
                &&& m3 == follow
                &&& m4 == timestamps
                &&& m5 == tail@
                &&& m6 == since
                &&& m7 == until
            },
            Call::CreateExec {
                container,
                cmd,
                env,
                working_dir,
                user,
                tty,
                attach_stdout,
                attach_stderr,
            } => {
                &&& x.model() matches Call::CreateExec {
                    container: m0,
                    cmd: m1,
                    env: m2,
                    working_dir: m3,
                    user: m4,
                    tty: m5,
                    attach_stdout: m6,
                    attach_stderr: m7,
                }
                &&& m0 == container@
                &&& m1 == texts(cmd@)
                &&& m2 == listed(env)
                &&& m3 == said(working_dir)
                &&& m4 == said(user)
                &&& m5 == tty
                &&& m6 == attach_stdout
                &&& m7 == attach_stderr
            },
            Call::StartExec { id, tty } => {
                &&& x.model() matches Call::StartExec { id: m0, tty: m1 }
                &&& m0 == id@
                &&& m1 == tty
            },
            Call::InspectExec { id } => {
                &&& x.model() matches Call::InspectExec { id: m0 }
                &&& m0 == id@
            },
            Call::ListImages { all, filters } => {
                &&& x.model() matches Call::ListImages { all: m0, filters: m1 }
                &&& m0 == all
                &&& m1 == list_values(filters@)
            },
            Call::CreateImage { from_image, tag, platform } => {
                &&& x.model() matches Call::CreateImage { from_image: m0, tag: m1, platform: m2 }
                &&& m0 == from_image@
                &&& m1 == tag@
                &&& m2 == platform@
            },
            Call::PushImage { image, tag } => {
                &&& x.model() matches Call::PushImage { image: m0, tag: m1 }
                &&& m0 == image@
                &&& m1 == tag@
            },
            Call::RemoveImage { image, force, noprune } => {
                &&& x.model() matches Call::RemoveImage { image: m0, force: m1, noprune: m2 }
                &&& m0 == image@
                &&& m1 == force
                &&& m2 == noprune
            },
            Call::TagImage { source, repo, tag } => {
                &&& x.model() matches Call::TagImage { source: m0, repo: m1, tag: m2 }
                &&& m0 == source@
                &&& m1 == repo@
                &&& m2 == tag@
            },
            Call::ImageHistory { image } => {
                &&& x.model() matches Call::ImageHistory { image: m0 }
                &&& m0 == image@
            },
            Call::InspectImage { image } => {
                &&& x.model() matches Call::InspectImage { image: m0 }
                &&& m0 == image@
            },
            Call::BuildImage { dockerfile, tag, no_cache, pull, rm, force_rm, build_args } => {
                &&& x.model() matches Call::BuildImage {
                    dockerfile: m0,
                    tag: m1,
                    no_cache: m2,
                    pull: m3,
                    rm: m4,
                    force_rm: m5,
                    build_args: m6,
                }
                &&& m0 == dockerfile@
                &&& m1 == tag@
                &&& m2 == no_cache
                &&& m3 == pull
                &&& m4 == rm
                &&& m5 == force_rm
                &&& m6 == text_values(build_args@)
            },
            Call::ListNetworks { filters } => {
                &&& x.model() matches Call::ListNetworks { filters: m0 }
                &&& m0 == list_values(filters@)
            },
            Call::CreateNetwork { name, driver, labels, pool } => {
                &&& x.model() matches Call::CreateNetwork {
                    name: m0,
                    driver: m1,
                    labels: m2,
                    pool: m3,
                }
                &&& m0 == name@
                &&& m1 == driver@
                &&& m2 == text_values(labels@)
                &&& m3 == (match pool {
                    Some(p) => Some(p.model()),
                    None => None,
                })
            },
            Call::RemoveNetwork { name } => {
                &&& x.model() matches Call::RemoveNetwork { name: m0 }
                &&& m0 == name@
            },
            Call::InspectNetwork { network } => {
                &&& x.model() matches Call::InspectNetwork { network: m0 }
                &&& m0 == network@
            },
            Call::ListVolumes { filters } => {
                &&& x.model() matches Call::ListVolumes { filters: m0 }
                &&& m0 == list_values(filters@)
            },
            Call::CreateVolume { name, driver, labels } => {
                &&& x.model() matches Call::CreateVolume { name: m0, driver: m1, labels: m2 }
                &&& m0 == name@
                &&& m1 == driver@
                &&& m2 == text_values(labels@)
            },
            Call::RemoveVolume { name, force } => {
                &&& x.model() matches Call::RemoveVolume { name: m0, force: m1 }
                &&& m0 == name@
                &&& m1 == force
            },
            Call::InspectVolume { volume } => {
                &&& x.model() matches Call::InspectVolume { volume: m0 }
                &&& m0 == volume@
            },
            Call::PruneContainers => x.model() is PruneContainers,
            Call::PruneImages => x.model() is PruneImages,
            Call::PruneVolumes => x.model() is PruneVolumes,
            Call::PruneNetworks => x.model() is PruneNetworks,
        },
{
}

/// The model of settings for a host has each of them.
pub proof fn host_settings_are_modelled_whole(x: HostSettings<String, Vec<String>>)
    ensures
        x.model().binds == listed(x.binds),
        x.model().auto_remove == x.auto_remove,
        x.model().network_mode == said(x.network_mode),
        x.model().restart == x.restart,
{
}

/// The model of settings for a container has each of them.
pub proof fn settings_are_modelled_whole(x: OwnedSettings)
    ensures
        x.model().image == x.image@,
        x.model().cmd == listed(x.cmd),
        x.model().env == listed(x.env),
        x.model().labels == (match x.labels {
            Some(m) => Some(text_values(m@)),
            None => None,
        }),
        x.model().working_dir == said(x.working_dir),
        x.model().user == said(x.user),
        x.model().hostname == said(x.hostname),
        x.model().tty == x.tty,
        x.model().attach_stdin == x.attach_stdin,
        x.model().attach_stdout == x.attach_stdout,
        x.model().attach_stderr == x.attach_stderr,
        x.model().ports == (match x.ports {
            Some(m) => Some(list_values(m@)),
            None => None,
        }),
        x.model().host == (match x.host {
            Some(h) => Some(h.model()),
            None => None,
        }),
{
}

/// The model of the addresses of a network has each of them.
pub proof fn pool_is_modelled_whole(x: Pool<String>)
    ensures
        x.model().driver == x.driver@,
        x.model().subnet == said(x.subnet),
        x.model().gateway == said(x.gateway),
{
}

/// The model of limits has each of them.
pub proof fn limits_are_modelled_whole(x: Limits<String>)
    ensures
        x.model().memory == x.memory,
        x.model().memory_swap == x.memory_swap,
        x.model().cpu_shares == x.cpu_shares,
        x.model().cpu_quota == x.cpu_quota,
        x.model().cpu_period == x.cpu_period,
        x.model().cpuset_cpus == said(x.cpuset_cpus),
{
}

/// The model of arguments has each of them.
pub proof fn arguments_are_modelled_whole(x: CreateArgs<String, Vec<String>>)
    ensures
        x.model().image == x.image@,
        x.model().name == said(x.name),
        x.model().cmd == texts(x.cmd@),
        x.model().env == texts(x.env@),
        x.model().ports == texts(x.ports@),
        x.model().volumes == texts(x.volumes@),
        x.model().labels == texts(x.labels@),
        x.model().network == said(x.network),
        x.model().workdir == said(x.workdir),
        x.model().user == said(x.user),
        x.model().hostname == said(x.hostname),
        x.model().restart == said(x.restart),
        x.model().tty == x.tty,
{
}

/// The model of a command is of the same kind, with the same arguments.
pub proof fn command_is_modelled_whole(x: OwnedCommand)
    ensures
        match x {
            Command::Ping => x.model() is Ping,
            Command::Version => x.model() is Version,
            Command::Info => x.model() is Info,
            Command::Events { since, until, filters } => {
                &&& x.model() matches Command::Events { since: m0, until: m1, filters: m2 }
                &&& m0 == said(since)
                &&& m1 == said(until)
                &&& m2 == pair_texts(filters@)
            },
            Command::Ps { all, limit, size, filters } => {
                &&& x.model() matches Command::Ps { all: m0, limit: m1, size: m2, filters: m3 }
                &&& m0 == all
                &&& m1 == limit
                &&& m2 == size
                &&& m3 == pair_texts(filters@)
            },
            Command::Inspect { container } => {
                &&& x.model() matches Command::Inspect { container: m0 }
                &&& m0 == container@
            },
            Command::Run { args, rm } => {
                &&& x.model() matches Command::Run { args: m0, rm: m1 }
                &&& m0 == args.model()
                &&& m1 == rm
            },
            Command::Create { args } => {
                &&& x.model() matches Command::Create { args: m0 }
                &&& m0 == args.model()
            },
            Command::Start { container } => {
                &&& x.model() matches Command::Start { container: m0 }
                &&& m0 == container@
            },
            Command::Stop { container, time } => {
                &&& x.model() matches Command::Stop { container: m0, time: m1 }
                &&& m0 == container@
                &&& m1 == time
            },
            Command::Restart { container, time } => {
                &&& x.model() matches Command::Restart { container: m0, time: m1 }
                &&& m0 == container@
                &&& m1 == time
            },
            Command::Kill { container, signal } => {
                &&& x.model() matches Command::Kill { container: m0, signal: m1 }
                &&& m0 == container@
                &&& m1 == said(signal)
            },
            Command::Rm { container, force, volumes } => {
                &&& x.model() matches Command::Rm { container: m0, force: m1, volumes: m2 }
                &&& m0 == container@
                &&& m1 == force
                &&& m2 == volumes
            },
            Command::Logs { container, tail, since, until, follow, timestamps, stdout, stderr } => {
                &&& x.model() matches Command::Logs {
                    container: m0,
                    tail: m1,
                    since: m2,
                    until: m3,
                    follow: m4,
                    timestamps: m5,
                    stdout: m6,
                    stderr: m7,
                }
                &&& m0 == container@
                &&& m1 == said(tail)
                &&& m2 == since
                &&& m3 == until
                &&& m4 == follow
                &&& m5 == timestamps
                &&& m6 == stdout
                &&& m7 == stderr
            },
            Command::Exec { container, cmd, env, workdir, user, tty } => {
                &&& x.model() matches Command::Exec {
                    container: m0,
                    cmd: m1,
                    env: m2,
                    workdir: m3,
                    user: m4,
                    tty: m5,
                }
                &&& m0 == container@
                &&& m1 == texts(cmd@)
                &&& m2 == texts(env@)
                &&& m3 == said(workdir)
                &&& m4 == said(user)
                &&& m5 == tty
            },
            Command::Stats { container, stream } => {
                &&& x.model() matches Command::Stats { container: m0, stream: m1 }
                &&& m0 == container@
                &&& m1 == stream
            },
            Command::Images { all, filters } => {
                &&& x.model() matches Command::Images { all: m0, filters: m1 }
                &&& m0 == all
                &&& m1 == pair_texts(filters@)
            },
            Command::Pull { image, platform } => {
                &&& x.model() matches Command::Pull { image: m0, platform: m1 }
                &&& m0 == image@
                &&& m1 == said(platform)
            },
            Command::Push { image } => {
                &&& x.model() matches Command::Push { image: m0 }
                &&& m0 == image@
            },
            Command::Rmi { image, force, noprune } => {
                &&& x.model() matches Command::Rmi { image: m0, force: m1, noprune: m2 }
                &&& m0 == image@
                &&& m1 == force
                &&& m2 == noprune
            },
            Command::Tag { source, target } => {
                &&& x.model() matches Command::Tag { source: m0, target: m1 }
                &&& m0 == source@
                &&& m1 == target@
            },
            Command::Build { tag, dockerfile, build_args, no_cache, pull, rm } => {
                &&& x.model() matches Command::Build {
                    tag: m0,
                    dockerfile: m1,
                    build_args: m2,
                    no_cache: m3,
                    pull: m4,
                    rm: m5,
                }
                &&& m0 == said(tag)
                &&& m1 == said(dockerfile)
                &&& m2 == pair_texts(build_args@)
                &&& m3 == no_cache
                &&& m4 == pull
                &&& m5 == rm
            },
            Command::Networks { filters } => {
                &&& x.model() matches Command::Networks { filters: m0 }
                &&& m0 == pair_texts(filters@)
            },
            Command::NetworkCreate { name, driver, subnet, gateway, labels } => {
                &&& x.model() matches Command::NetworkCreate {
                    name: m0,
                    driver: m1,
                    subnet: m2,
                    gateway: m3,
                    labels: m4,
                }
                &&& m0 == name@
                &&& m1 == driver@
                &&& m2 == said(subnet)
                &&& m3 == said(gateway)
                &&& m4 == texts(labels@)
            },
            Command::NetworkRm { name } => {
                &&& x.model() matches Command::NetworkRm { name: m0 }
                &&& m0 == name@
            },
            Command::Volumes { filters } => {
                &&& x.model() matches Command::Volumes { filters: m0 }
                &&& m0 == pair_texts(filters@)
            },
            Command::VolumeCreate { name, driver, labels } => {
                &&& x.model() matches Command::VolumeCreate { name: m0, driver: m1, labels: m2 }
                &&& m0 == name@
                &&& m1 == driver@
                &&& m2 == texts(labels@)
            },
            Command::VolumeRm { name, force } => {
                &&& x.model() matches Command::VolumeRm { name: m0, force: m1 }
                &&& m0 == name@
                &&& m1 == force
            },
            Command::Prune { flags } => {
                &&& x.model() matches Command::Prune { flags: m0 }
                &&& m0 == flags
            },
        },
{
}

/// The model of a way to a host is of the same kind, with the same text.
pub proof fn endpoint_is_modelled_whole(x: Endpoint<String>)
    ensures
        match x {
            Endpoint::Local => x.model() is Local,
            Endpoint::Socket(f0) => {
                &&& x.model() matches Endpoint::Socket(m0)
                &&& m0 == f0@
            },
            Endpoint::Http(f0) => {
                &&& x.model() matches Endpoint::Http(m0)
                &&& m0 == f0@
            },
        },
{
}

/// The model of a job is of the same kind, with the same contents.
pub proof fn job_is_modelled_whole(x: OwnedJob)
    ensures
        match x {
            Job::Ping => x.model() is Ping,
            Job::One { label } => {
                &&& x.model() matches Job::One { label: m0 }
                &&& m0 == label@
            },
            Job::List { label } => {
                &&& x.model() matches Job::List { label: m0 }
                &&& m0 == label@
            },
            Job::Follow { label } => {
                &&& x.model() matches Job::Follow { label: m0 }
                &&& m0 == label@
            },
            Job::First { label } => {
                &&& x.model() matches Job::First { label: m0 }
                &&& m0 == label@
            },
            Job::Acknowledge { label, doc } => {
                &&& x.model() matches Job::Acknowledge { label: m0, doc: m1 }
                &&& m0 == label@
                &&& m1 == doc.tree()
            },
            Job::Creating { start } => {
                &&& x.model() matches Job::Creating { start: m0 }
                &&& m0 == start
            },
            Job::Starting { id, warnings } => {
                &&& x.model() matches Job::Starting { id: m0, warnings: m1 }
                &&& m0 == id@
                &&& m1 == texts(warnings@)
            },
            Job::Logs { follow } => {
                &&& x.model() matches Job::Logs { follow: m0 }
                &&& m0 == follow
            },
            Job::ExecCreating { tty } => {
                &&& x.model() matches Job::ExecCreating { tty: m0 }
                &&& m0 == tty
            },
            Job::ExecStarting { id } => {
                &&& x.model() matches Job::ExecStarting { id: m0 }
                &&& m0 == id@
            },
            Job::ExecRunning { id } => {
                &&& x.model() matches Job::ExecRunning { id: m0 }
                &&& m0 == id@
            },
            Job::ExecInspecting => x.model() is ExecInspecting,
            Job::Packing { call } => {
                &&& x.model() matches Job::Packing { call: m0 }
                &&& m0 == call.model()
            },
            Job::Building => x.model() is Building,
            Job::Pruning { kind, rest, report } => {
                &&& x.model() matches Job::Pruning { kind: m0, rest: m1, report: m2 }
                &&& m0 == kind
                &&& m1 == rest
                &&& m2 == report.tree()
            },
        },
{
}

/// The model of a notice is of the same kind, with the same contents.
pub proof fn notice_is_modelled_whole(x: OwnedNotice)
    ensures
        match x {
            Notice::Agreed => x.model() is Agreed,
            Notice::Document(f0) => {
                &&& x.model() matches Notice::Document(m0)
                &&& m0 == f0@
            },
            Notice::Listing(f0) => {
                &&& x.model() matches Notice::Listing(m0)
                &&& m0 == texts(f0@)
            },
            Notice::Answer(f0) => {
                &&& x.model() matches Notice::Answer(m0)
                &&& m0 == f0.tree()
            },
            Notice::Created { id, warnings } => {
                &&& x.model() matches Notice::Created { id: m0, warnings: m1 }
                &&& m0 == id@
                &&& m1 == texts(warnings@)
            },
            Notice::ExecCreated(f0) => {
                &&& x.model() matches Notice::ExecCreated(m0)
                &&& m0 == f0@
            },
            Notice::Attached => x.model() is Attached,
            Notice::Detached => x.model() is Detached,
            Notice::Output(f0, f1) => {
                &&& x.model() matches Notice::Output(m0, m1)
                &&& m0 == f0
                &&& m1 == f1@
            },
            Notice::Exit(f0) => {
                &&& x.model() matches Notice::Exit(m0)
                &&& m0 == f0
            },
            Notice::Report(f0) => {
                &&& x.model() matches Notice::Report(m0)
                &&& m0 == f0.model()
            },
            Notice::Packed => x.model() is Packed,
            Notice::Ended => x.model() is Ended,
            Notice::Failed(f0) => {
                &&& x.model() matches Notice::Failed(m0)
                &&& m0 == f0@
            },
        },
{
}

/// The model of a mount has each of its parts.
pub proof fn mount_is_modelled_whole(x: Mount<String, Vec<String>>)
    ensures
        x.model().kind == x.kind,
        x.model().source == said(x.source),
        x.model().target == x.target@,
        x.model().readonly == x.readonly,
        x.model().options == texts(x.options@),
{
}

/// The model of a published port has each of its parts.
pub proof fn port_is_modelled_whole(x: PortSpec<String>)
    ensures
        x.model().host_ip == said(x.host_ip),
        x.model().host_port == said(x.host_port),
        x.model().container_port == x.container_port@,
        x.model().protocol == x.protocol@,
{
}

/// The model of an image reference has each of its parts.
pub proof fn reference_is_modelled_whole(x: ImageRef<String>)
    ensures
        x.model().registry == said(x.registry),
        x.model().namespace == said(x.namespace),
        x.model().repository == x.repository@,
        x.model().tag == said(x.tag),
        x.model().digest == said(x.digest),
        x.model().path == x.path@,
{
}

/// The model of a refusal is of the same kind, with the same text.
pub proof fn refusal_is_modelled_whole(x: Refusal<String>)
    ensures
        match x {
            Refusal::Missing(f0) => {
                &&& x.model() matches Refusal::Missing(m0)
                &&& m0 == f0
            },
            Refusal::EmptyReference => x.model() is EmptyReference,
            Refusal::UnterminatedIpv6(f0) => {
                &&& x.model() matches Refusal::UnterminatedIpv6(m0)
                &&& m0 == f0@
            },
            Refusal::InvalidPort(f0) => {
                &&& x.model() matches Refusal::InvalidPort(m0)
                &&& m0 == f0@
            },
            Refusal::MissingContainerPort(f0) => {
                &&& x.model() matches Refusal::MissingContainerPort(m0)
                &&& m0 == f0@
            },
            Refusal::InvalidMount(f0) => {
                &&& x.model() matches Refusal::InvalidMount(m0)
                &&& m0 == f0@
            },
            Refusal::MissingMountTarget(f0) => {
                &&& x.model() matches Refusal::MissingMountTarget(m0)
                &&& m0 == f0@
            },
            Refusal::PruneKind(f0) => {
                &&& x.model() matches Refusal::PruneKind(m0)
                &&& m0 == f0@
            },
            Refusal::NoStats(f0) => {
                &&& x.model() matches Refusal::NoStats(m0)
                &&& m0 == f0@
            },
            Refusal::UnknownScheme(f0) => {
                &&& x.model() matches Refusal::UnknownScheme(m0)
                &&& m0 == f0@
            },
        },
{
}

/// The model of an event is of the same kind, with the same contents.
pub proof fn event_is_modelled_whole(x: OwnedEvent)
    ensures
        match x {
            Event::Connected => x.model() is Connected,
            Event::Answer(f0) => {
                &&& x.model() matches Event::Answer(m0)
                &&& m0 == f0.tree()
            },
            Event::Created(f0) => {
                &&& x.model() matches Event::Created(m0)
                &&& m0 == f0@
            },
            Event::Exited(f0) => {
                &&& x.model() matches Event::Exited(m0)
                &&& m0 == f0
            },
            Event::Attached => x.model() is Attached,
            Event::Detached => x.model() is Detached,
            Event::Chunk(f0) => {
                &&& x.model() matches Event::Chunk(m0)
                &&& m0 == f0@
            },
            Event::Item => x.model() is Item,
            Event::Ended => x.model() is Ended,
            Event::Failed(f0) => {
                &&& x.model() matches Event::Failed(m0)
                &&& m0 == f0@
            },
            Event::Panicked => x.model() is Panicked,
        },
{
}

/// The model of a step is of the same kind, with the same contents.
pub proof fn step_is_modelled_whole(x: OwnedStep)
    ensures
        match x {
            Step::Connect(f0) => {
                &&& x.model() matches Step::Connect(m0)
                &&& m0 == f0.model()
            },
            Step::Call(f0, f1) => {
                &&& x.model() matches Step::Call(m0, m1)
                &&& m0 == f0.model()
                &&& m1 == f1.model()
            },
            Step::Next(f0) => {
                &&& x.model() matches Step::Next(m0)
                &&& m0 == f0.model()
            },
            Step::Reply(f0) => {
                &&& x.model() matches Step::Reply(m0)
                &&& m0 == f0@
            },
        },
{
}

/// The model of a turn writes the same, notes the same and needs the same.
pub proof fn turn_is_modelled_whole(x: OwnedTurn)
    ensures
        x.model().out == x.out@,
        x.model().notes == texts(x.notes@),
        match x.need {
            Need::Call(job, call) => x.model().need matches Need::Call(a, b) && a == job.model()
                && b == call.model(),
            Need::Next(job) => x.model().need matches Need::Next(a) && a == job.model(),
            Need::Pack(job) => x.model().need matches Need::Pack(a) && a == job.model(),
            Need::Done => x.model().need is Done,
            Need::Failed(s) => x.model().need matches Need::Failed(a) && a == s@,
        },
{
}

/// The model of a session is of the same operation, with the same arguments and as far.
pub proof fn session_is_modelled_whole(x: OwnedSession)
    ensures
        x.model().op == x.op,
        x.model().opts == x.opts.tree(),
        match x.stage {
            Stage::Connecting => x.model().stage is Connecting,
            Stage::Called => x.model().stage is Called,
            Stage::Starting => x.model().stage is Starting,
            Stage::Gathering(s) => x.model().stage matches Stage::Gathering(a) && a == s@,
            Stage::Pruning { kind, rest, report } => x.model().stage matches Stage::Pruning {
                kind: a,
                rest: b,
                report: c,
            } && a == kind && b == rest && c == report.tree(),
        },
{
}

/// The model of the report of a build has each of its parts.
pub proof fn report_is_modelled_whole(x: BuildInfo<String>)
    ensures
        x.model().id == said(x.id),
        x.model().stream == said(x.stream),
        x.model().error == said(x.error),
        x.model().status == said(x.status),
        x.model().progress == said(x.progress),
        x.model().progress_detail == x.progress_detail,
        x.model().aux_id == said(x.aux_id),
        x.model().error_detail is Some <==> x.error_detail is Some,
        x.error_detail matches Some(e) ==> (x.model().error_detail->0).code == e.code && (
        x.model().error_detail->0).message == said(e.message),
{
}

/// The models of results are results of the same kind.
pub proof fn result_is_modelled_whole(
    sent: Result<OwnedCall, Refusal<String>>,
    told: Result<Json, String>,
    pure: Result<Json, Refusal<String>>,
    bytes: Option<&[u8]>,
)
    ensures
        match sent {
            Ok(c) => outcome(sent) matches Ok(m) && m == c.model(),
            Err(e) => outcome(sent) matches Err(m) && m == e.model(),
        },
        match told {
            Ok(j) => result_model(told) matches Ok(m) && m == j.tree(),
            Err(e) => result_model(told) matches Err(m) && m == e@,
        },
        match pure {
            Ok(j) => pure_model(pure) matches Ok(m) && m == j.tree(),
            Err(e) => pure_model(pure) matches Err(m) && m == e.model(),
        },
        match bytes {
            Some(b) => opt_bytes(bytes) matches Some(m) && m == b@,
            None => opt_bytes(bytes) is None,
        },
{
}

/// A document holds what it is made of: a list each of its items in its place, and an object each
/// of its fields, of which the last of a key counts.
pub proof fn document_holds_what_it_is_made_of(
    j: Json,
    i: int,
    fields: Seq<(String, Json)>,
    field: (String, Json),
)
    ensures
        match j {
            Json::Null => j.tree() is Null,
            Json::Bool(b) => j.tree() == Tree::Bool(b),
            Json::Number(n) => j.tree() == Tree::Number(number_value(n)),
            Json::Text(s) => j.tree() == Tree::Text(s@),
            Json::List(v) => j.tree() matches Tree::List(l) && l.len() == v@.len() && (0 <= i
                < v@.len() ==> l[i] == v@[i].tree()),
            Json::Object(v) => j.tree() == Tree::Object(fields_tree(v@)),
        },
        fields_tree(Seq::empty()) == Map::<Seq<char>, Tree>::empty(),
        fields_tree(fields.push(field)) == fields_tree(fields).insert(field.0@, field.1.tree()),
{
    assert(fields.push(field).drop_last() =~= fields);
}

/// The last entry of a key counts.
pub proof fn last_entry_counts<V>(entries: Seq<(String, V)>, entry: (String, V))
    ensures
        entry_map(Seq::<(String, V)>::empty()) == Map::<Seq<char>, V>::empty(),
        entry_map(entries.push(entry)) == entry_map(entries).insert(entry.0@, entry.1),
{
    assert(entries.push(entry).drop_last() =~= entries);
}

/// The characters of pairs stand where the pairs stand.
pub proof fn pairs_are_modelled_whole(pairs: Seq<(String, String)>, i: int)
    ensures
        pair_texts(pairs).len() == pairs.len(),
        0 <= i < pairs.len() ==> pair_texts(pairs)[i] == (pairs[i].0@, pairs[i].1@),
{
}

} // verus!
