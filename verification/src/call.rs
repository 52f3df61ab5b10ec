//! The calls that the daemon is sent, as plain values.
//!
//! A call holds texts `T`, lists of texts `L`, maps from text to text `M` and maps from text to
//! lists of texts `F`. The ones that are made hold owned values; contracts speak of their models,
//! which hold sequences of characters, sequences and maps.

use vstd::prelude::*;

use crate::text::{opt_text, texts};
use crate::textmap::{list_values, text_values, TextMap};

verus! {

/// When the daemon starts a container again.
#[derive(Clone, Copy, Debug, PartialEq, Eq, Structural)]
pub enum Restart {
    No,
    Always,
    UnlessStopped,
    OnFailure,
    /// None of these.
    Empty,
}

/// How a container is to run on its host.
pub struct HostSettings<T, L> {
    pub binds: Option<L>,
    pub auto_remove: Option<bool>,
    pub network_mode: Option<T>,
    pub restart: Option<Restart>,
}

/// A container to create.
pub struct ContainerSettings<T, L, M, F> {
    pub image: T,
    pub cmd: Option<L>,
    pub env: Option<L>,
    pub labels: Option<M>,
    pub working_dir: Option<T>,
    pub user: Option<T>,
    pub hostname: Option<T>,
    pub tty: Option<bool>,
    pub attach_stdin: Option<bool>,
    pub attach_stdout: Option<bool>,
    pub attach_stderr: Option<bool>,
    /// The ports to expose, as `port/proto`, and the host ports that each is bound to.
    pub ports: Option<F>,
    pub host: Option<HostSettings<T, L>>,
}

/// The addresses of a network.
pub struct Pool<T> {
    /// What hands the addresses out.
    pub driver: T,
    pub subnet: Option<T>,
    pub gateway: Option<T>,
}

/// New limits for a container; a limit that is absent stays as it is.
pub struct Limits<T> {
    pub memory: Option<i64>,
    pub memory_swap: Option<i64>,
    pub cpu_shares: Option<isize>,
    pub cpu_quota: Option<i64>,
    pub cpu_period: Option<i64>,
    pub cpuset_cpus: Option<T>,
}

/// A call of the daemon.
#[allow(inconsistent_fields)]
pub enum Call<T, L, M, F> {
    Ping,
    Version,
    Info,
    DiskUsage,
    Events { since: Option<T>, until: Option<T>, filters: F },
    ListContainers { all: bool, limit: Option<isize>, size: bool, filters: F },
    InspectContainer { container: T },
    CreateContainer { name: Option<T>, settings: ContainerSettings<T, L, M, F> },
    StartContainer { container: T },
    StopContainer { container: T, timeout: Option<i64> },
    RestartContainer { container: T, timeout: Option<isize> },
    KillContainer { container: T, signal: Option<T> },
    RemoveContainer { container: T, force: bool, volumes: bool },
    PauseContainer { container: T },
    UnpauseContainer { container: T },
    RenameContainer { container: T, name: T },
    WaitContainer { container: T },
    TopProcesses { container: T, ps_args: Option<T> },
    Stats { container: T, stream: bool, one_shot: bool },
    CommitContainer { container: T, repo: T, tag: T, comment: T, author: T, pause: bool },
    ContainerChanges { container: T },
    UpdateContainer { container: T, limits: Limits<T> },
    Logs {
        container: T,
        stdout: bool,
        stderr: bool,
        follow: bool,
        timestamps: bool,
        tail: T,
        since: i64,
        until: i64,
    },
    CreateExec {
        container: T,
        cmd: L,
        env: Option<L>,
        working_dir: Option<T>,
        user: Option<T>,
        tty: Option<bool>,
        attach_stdout: Option<bool>,
        attach_stderr: Option<bool>,
    },
    StartExec { id: T, tty: Option<bool> },
    InspectExec { id: T },
    ListImages { all: bool, filters: F },
    CreateImage { from_image: T, tag: T, platform: T },
    PushImage { image: T, tag: T },
    RemoveImage { image: T, force: bool, noprune: bool },
    TagImage { source: T, repo: T, tag: T },
    ImageHistory { image: T },
    InspectImage { image: T },
    BuildImage {
        dockerfile: T,
        tag: T,
        no_cache: bool,
        pull: bool,
        rm: bool,
        force_rm: bool,
        build_args: M,
    },
    ListNetworks { filters: F },
    CreateNetwork { name: T, driver: T, labels: M, pool: Option<Pool<T>> },
    RemoveNetwork { name: T },
    InspectNetwork { network: T },
    ListVolumes { filters: F },
    CreateVolume { name: T, driver: T, labels: M },
    RemoveVolume { name: T, force: bool },
    InspectVolume { volume: T },
    PruneContainers,
    PruneImages,
    PruneVolumes,
    PruneNetworks,
}

/// A call as it is made.
pub type OwnedCall = Call<String, Vec<String>, TextMap<String>, TextMap<Vec<String>>>;

/// What a call holds.
pub type CallModel = Call<
    Seq<char>,
    Seq<Seq<char>>,
    Map<Seq<char>, Seq<char>>,
    Map<Seq<char>, Seq<Seq<char>>>,
>;

/// A container to create, as it is made.
pub type OwnedSettings = ContainerSettings<
    String,
    Vec<String>,
    TextMap<String>,
    TextMap<Vec<String>>,
>;

/// What a container to create holds.
pub type SettingsModel = ContainerSettings<
    Seq<char>,
    Seq<Seq<char>>,
    Map<Seq<char>, Seq<char>>,
    Map<Seq<char>, Seq<Seq<char>>>,
>;

/// The characters of an optional list of texts.
pub open spec fn opt_texts(v: Option<Vec<String>>) -> Option<Seq<Seq<char>>> {
    match v {
        Some(v) => Some(texts(v@)),
        None => None,
    }
}

/// The characters of an optional map from text to text.
pub open spec fn opt_labels(m: Option<TextMap<String>>) -> Option<Map<Seq<char>, Seq<char>>> {
    match m {
        Some(m) => Some(text_values(m@)),
        None => None,
    }
}

/// The characters of an optional map from text to lists of texts.
pub open spec fn opt_lists(m: Option<TextMap<Vec<String>>>) -> Option<
    Map<Seq<char>, Seq<Seq<char>>>,
> {
    match m {
        Some(m) => Some(list_values(m@)),
        None => None,
    }
}

impl HostSettings<String, Vec<String>> {
    /// What the settings hold.
    pub open spec fn model(self) -> HostSettings<Seq<char>, Seq<Seq<char>>> {
        HostSettings {
            binds: opt_texts(self.binds),
            auto_remove: self.auto_remove,
            network_mode: opt_text(self.network_mode),
            restart: self.restart,
        }
    }
}

impl ContainerSettings<String, Vec<String>, TextMap<String>, TextMap<Vec<String>>> {
    /// What the settings hold.
    pub open spec fn model(self) -> SettingsModel {
        ContainerSettings {
            image: self.image@,
            cmd: opt_texts(self.cmd),
            env: opt_texts(self.env),
            labels: opt_labels(self.labels),
            working_dir: opt_text(self.working_dir),
            user: opt_text(self.user),
            hostname: opt_text(self.hostname),
            tty: self.tty,
            attach_stdin: self.attach_stdin,
            attach_stdout: self.attach_stdout,
            attach_stderr: self.attach_stderr,
            ports: opt_lists(self.ports),
            host: match self.host {
                Some(h) => Some(h.model()),
                None => None,
            },
        }
    }
}

impl Pool<String> {
    /// What the addresses hold.
    pub open spec fn model(self) -> Pool<Seq<char>> {
        Pool {
            driver: self.driver@,
            subnet: opt_text(self.subnet),
            gateway: opt_text(self.gateway),
        }
    }
}

impl Limits<String> {
    /// What the limits hold.
    pub open spec fn model(self) -> Limits<Seq<char>> {
        Limits {
            memory: self.memory,
            memory_swap: self.memory_swap,
            cpu_shares: self.cpu_shares,
            cpu_quota: self.cpu_quota,
            cpu_period: self.cpu_period,
            cpuset_cpus: opt_text(self.cpuset_cpus),
        }
    }
}

impl Call<String, Vec<String>, TextMap<String>, TextMap<Vec<String>>> {
    /// What the call holds.
    pub open spec fn model(self) -> CallModel {
        match self {
            Call::Ping => Call::Ping,
            Call::Version => Call::Version,
            Call::Info => Call::Info,
            Call::DiskUsage => Call::DiskUsage,
            Call::Events { since, until, filters } => Call::Events {
                since: opt_text(since),
                until: opt_text(until),
                filters: list_values(filters@),
            },
            Call::ListContainers { all, limit, size, filters } => Call::ListContainers {
                all,
                limit,
                size,
                filters: list_values(filters@),
            },
            Call::InspectContainer { container } => Call::InspectContainer {
                container: container@,
            },
            Call::CreateContainer { name, settings } => Call::CreateContainer {
                name: opt_text(name),
                settings: settings.model(),
            },
            Call::StartContainer { container } => Call::StartContainer { container: container@ },
            Call::StopContainer { container, timeout } => Call::StopContainer {
                container: container@,
                timeout,
            },
            Call::RestartContainer { container, timeout } => Call::RestartContainer {
                container: container@,
                timeout,
            },
            Call::KillContainer { container, signal } => Call::KillContainer {
                container: container@,
                signal: opt_text(signal),
            },
            Call::RemoveContainer { container, force, volumes } => Call::RemoveContainer {
                container: container@,
                force,
                volumes,
            },
            Call::PauseContainer { container } => Call::PauseContainer { container: container@ },
            Call::UnpauseContainer { container } => Call::UnpauseContainer {
                container: container@,
            },
            Call::RenameContainer { container, name } => Call::RenameContainer {
                container: container@,
                name: name@,
            },
            Call::WaitContainer { container } => Call::WaitContainer { container: container@ },
            Call::TopProcesses { container, ps_args } => Call::TopProcesses {
                container: container@,
                ps_args: opt_text(ps_args),
            },
            Call::Stats { container, stream, one_shot } => Call::Stats {
                container: container@,
                stream,
                one_shot,
            },
            Call::CommitContainer { container, repo, tag, comment, author, pause } =>
                Call::CommitContainer {
                container: container@,
                repo: repo@,
                tag: tag@,
                comment: comment@,
                author: author@,
                pause,
            },
            Call::ContainerChanges { container } => Call::ContainerChanges {
                container: container@,
            },
            Call::UpdateContainer { container, limits } => Call::UpdateContainer {
                container: container@,
                limits: limits.model(),
            },
            Call::Logs { container, stdout, stderr, follow, timestamps, tail, since, until } =>
                Call::Logs {
                container: container@,
                stdout,
                stderr,
                follow,
                timestamps,
                tail: tail@,
                since,
                until,
            },
            Call::CreateExec {
                container,
                cmd,
                env,
                working_dir,
                user,
                tty,
                attach_stdout,
                attach_stderr,
            } => Call::CreateExec {
                container: container@,
                cmd: texts(cmd@),
                env: opt_texts(env),
                working_dir: opt_text(working_dir),
                user: opt_text(user),
                tty,
                attach_stdout,
                attach_stderr,
            },
            Call::StartExec { id, tty } => Call::StartExec { id: id@, tty },
            Call::InspectExec { id } => Call::InspectExec { id: id@ },
            Call::ListImages { all, filters } => Call::ListImages {
                all,
                filters: list_values(filters@),
            },
            Call::CreateImage { from_image, tag, platform } => Call::CreateImage {
                from_image: from_image@,
                tag: tag@,
                platform: platform@,
            },
            Call::PushImage { image, tag } => Call::PushImage { image: image@, tag: tag@ },
            Call::RemoveImage { image, force, noprune } => Call::RemoveImage {
                image: image@,
                force,
                noprune,
            },
            Call::TagImage { source, repo, tag } => Call::TagImage {
                source: source@,
                repo: repo@,
                tag: tag@,
            },
            Call::ImageHistory { image } => Call::ImageHistory { image: image@ },
            Call::InspectImage { image } => Call::InspectImage { image: image@ },
            Call::BuildImage { dockerfile, tag, no_cache, pull, rm, force_rm, build_args } =>
                Call::BuildImage {
                dockerfile: dockerfile@,
                tag: tag@,
                no_cache,
                pull,
                rm,
                force_rm,
                build_args: text_values(build_args@),
            },
            Call::ListNetworks { filters } => Call::ListNetworks { filters: list_values(filters@) },
            Call::CreateNetwork { name, driver, labels, pool } => Call::CreateNetwork {
                name: name@,
                driver: driver@,
                labels: text_values(labels@),
                pool: match pool {
                    Some(p) => Some(p.model()),
                    None => None,
                },
            },
            Call::RemoveNetwork { name } => Call::RemoveNetwork { name: name@ },
            Call::InspectNetwork { network } => Call::InspectNetwork { network: network@ },
            Call::ListVolumes { filters } => Call::ListVolumes { filters: list_values(filters@) },
            Call::CreateVolume { name, driver, labels } => Call::CreateVolume {
                name: name@,
                driver: driver@,
                labels: text_values(labels@),
            },
            Call::RemoveVolume { name, force } => Call::RemoveVolume { name: name@, force },
            Call::InspectVolume { volume } => Call::InspectVolume { volume: volume@ },
            Call::PruneContainers => Call::PruneContainers,
            Call::PruneImages => Call::PruneImages,
            Call::PruneVolumes => Call::PruneVolumes,
            Call::PruneNetworks => Call::PruneNetworks,
        }
    }
}

/// No filters.
pub open spec fn no_filters() -> Map<Seq<char>, Seq<Seq<char>>> {
    Map::empty()
}

/// No labels.
pub open spec fn no_labels() -> Map<Seq<char>, Seq<char>> {
    Map::empty()
}

/// Filters that let everything pass.
pub fn without_filters() -> (r: TextMap<Vec<String>>)
    ensures
        list_values(r@) == no_filters(),
{
    let r: TextMap<Vec<String>> = TextMap::new();
    assert(list_values(r@) =~= no_filters());
    r
}

/// A map without labels.
pub fn without_labels() -> (r: TextMap<String>)
    ensures
        text_values(r@) == no_labels(),
{
    let r: TextMap<String> = TextMap::new();
    assert(text_values(r@) =~= no_labels());
    r
}

} // verus!
