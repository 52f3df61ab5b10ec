//! The commands of the helper, and the call that each one sends.

use vstd::prelude::*;

use crate::call::{
    opt_texts, Call, CallModel, ContainerSettings, HostSettings, OwnedCall,
    OwnedSettings, Pool, Restart, SettingsModel,
};
use crate::labels::{
    grouped, kv_pairs, label_vec_to_map, labels, listed_value_is_grouped, pair_texts,
};
use crate::prune::{kind_call, prune_kinds, prune_set, PruneFlags};
use crate::ports::{binding_parts, parse_port_binding, protocol_or_tcp};
use crate::reference::{cmd_tag_split, command_target_parts};
use crate::text::{concat3, opt_text, same, texts};
use crate::textmap::{list_values, text_values, TextMap};

verus! {

/// The arguments of `run` and `create`.
pub struct CreateArgs<T, L> {
    pub image: T,
    pub name: Option<T>,
    pub cmd: L,
    pub env: L,
    /// Published ports, `host[:container][/proto]`.
    pub ports: L,
    pub volumes: L,
    pub labels: L,
    pub network: Option<T>,
    pub workdir: Option<T>,
    pub user: Option<T>,
    pub hostname: Option<T>,
    pub restart: Option<T>,
    pub tty: bool,
}

/// A command of the helper, with texts `T`, lists of texts `L` and lists of pairs `P`.
#[allow(inconsistent_fields)]
pub enum Command<T, L, P> {
    Ping,
    Version,
    Info,
    Events { since: Option<T>, until: Option<T>, filters: P },
    Ps { all: bool, limit: Option<isize>, size: bool, filters: P },
    Inspect { container: T },
    Run { args: CreateArgs<T, L>, rm: bool },
    Create { args: CreateArgs<T, L> },
    Start { container: T },
    Stop { container: T, time: Option<i64> },
    Restart { container: T, time: Option<isize> },
    Kill { container: T, signal: Option<T> },
    Rm { container: T, force: bool, volumes: bool },
    Logs {
        container: T,
        tail: Option<T>,
        since: Option<i64>,
        until: Option<i64>,
        follow: bool,
        timestamps: bool,
        stdout: bool,
        stderr: bool,
    },
    Exec {
        container: T,
        cmd: L,
        env: L,
        workdir: Option<T>,
        user: Option<T>,
        tty: bool,
    },
    Stats { container: T, stream: bool },
    Images { all: bool, filters: P },
    Pull { image: T, platform: Option<T> },
    Push { image: T },
    Rmi { image: T, force: bool, noprune: bool },
    Tag { source: T, target: T },
    Build {
        tag: Option<T>,
        dockerfile: Option<T>,
        build_args: P,
        no_cache: bool,
        pull: bool,
        rm: bool,
    },
    Networks { filters: P },
    NetworkCreate {
        name: T,
        driver: T,
        subnet: Option<T>,
        gateway: Option<T>,
        labels: L,
    },
    NetworkRm { name: T },
    Volumes { filters: P },
    VolumeCreate { name: T, driver: T, labels: L },
    VolumeRm { name: T, force: bool },
    Prune { flags: PruneFlags },
}

/// A command as it is given.
pub type OwnedCommand = Command<String, Vec<String>, Vec<(String, String)>>;

/// What a command holds.
pub type CommandModel = Command<Seq<char>, Seq<Seq<char>>, Seq<(Seq<char>, Seq<char>)>>;

impl CreateArgs<String, Vec<String>> {
    /// What the arguments hold.
    pub open spec fn model(self) -> CreateArgs<Seq<char>, Seq<Seq<char>>> {
        CreateArgs {
            image: self.image@,
            name: opt_text(self.name),
            cmd: texts(self.cmd@),
            env: texts(self.env@),
            ports: texts(self.ports@),
            volumes: texts(self.volumes@),
            labels: texts(self.labels@),
            network: opt_text(self.network),
            workdir: opt_text(self.workdir),
            user: opt_text(self.user),
            hostname: opt_text(self.hostname),
            restart: opt_text(self.restart),
            tty: self.tty,
        }
    }
}

impl Command<String, Vec<String>, Vec<(String, String)>> {
    /// What the command holds.
    pub open spec fn model(self) -> CommandModel {
        match self {
            Command::Ping => Command::Ping,
            Command::Version => Command::Version,
            Command::Info => Command::Info,
            Command::Events { since, until, filters } => Command::Events {
                since: opt_text(since),
                until: opt_text(until),
                filters: pair_texts(filters@),
            },
            Command::Ps { all, limit, size, filters } => Command::Ps {
                all,
                limit,
                size,
                filters: pair_texts(filters@),
            },
            Command::Inspect { container } => Command::Inspect { container: container@ },
            Command::Run { args, rm } => Command::Run { args: args.model(), rm },
            Command::Create { args } => Command::Create { args: args.model() },
            Command::Start { container } => Command::Start { container: container@ },
            Command::Stop { container, time } => Command::Stop { container: container@, time },
            Command::Restart { container, time } => Command::Restart {
                container: container@,
                time,
            },
            Command::Kill { container, signal } => Command::Kill {
                container: container@,
                signal: opt_text(signal),
            },
            Command::Rm { container, force, volumes } => Command::Rm {
                container: container@,
                force,
                volumes,
            },
            Command::Logs { container, tail, since, until, follow, timestamps, stdout, stderr } =>
                Command::Logs {
                container: container@,
                tail: opt_text(tail),
                since,
                until,
                follow,
                timestamps,
                stdout,
                stderr,
            },
            Command::Exec { container, cmd, env, workdir, user, tty } => Command::Exec {
                container: container@,
                cmd: texts(cmd@),
                env: texts(env@),
                workdir: opt_text(workdir),
                user: opt_text(user),
                tty,
            },
            Command::Stats { container, stream } => Command::Stats {
                container: container@,
                stream,
            },
            Command::Images { all, filters } => Command::Images {
                all,
                filters: pair_texts(filters@),
            },
            Command::Pull { image, platform } => Command::Pull {
                image: image@,
                platform: opt_text(platform),
            },
            Command::Push { image } => Command::Push { image: image@ },
            Command::Rmi { image, force, noprune } => Command::Rmi {
                image: image@,
                force,
                noprune,
            },
            Command::Tag { source, target } => Command::Tag { source: source@, target: target@ },
            Command::Build { tag, dockerfile, build_args, no_cache, pull, rm } => Command::Build {
                tag: opt_text(tag),
                dockerfile: opt_text(dockerfile),
                build_args: pair_texts(build_args@),
                no_cache,
                pull,
                rm,
            },
            Command::Networks { filters } => Command::Networks { filters: pair_texts(filters@) },
            Command::NetworkCreate { name, driver, subnet, gateway, labels } =>
                Command::NetworkCreate {
                name: name@,
                driver: driver@,
                subnet: opt_text(subnet),
                gateway: opt_text(gateway),
                labels: texts(labels@),
            },
            Command::NetworkRm { name } => Command::NetworkRm { name: name@ },
            Command::Volumes { filters } => Command::Volumes { filters: pair_texts(filters@) },
            Command::VolumeCreate { name, driver, labels } => Command::VolumeCreate {
                name: name@,
                driver: driver@,
                labels: texts(labels@),
            },
            Command::VolumeRm { name, force } => Command::VolumeRm { name: name@, force },
            Command::Prune { flags } => Command::Prune { flags },
        }
    }
}

/// The port of a container that a published port leads to, as `port/proto`.
pub open spec fn published_port(spec: Seq<char>) -> Seq<char> {
    let (host, container, proto) = binding_parts(spec);
    container + "/"@ + protocol_or_tcp(proto)
}

/// The port of a container and the host port that each published port joins.
pub open spec fn bindings(ports: Seq<Seq<char>>) -> Seq<(Seq<char>, Seq<char>)> {
    ports.map_values(|p: Seq<char>| (published_port(p), binding_parts(p).0))
}

/// The ports of a container that published ports lead to, and the host ports of each, in their
/// order.
pub open spec fn published(ports: Seq<Seq<char>>) -> Map<Seq<char>, Seq<Seq<char>>> {
    grouped(bindings(ports))
}

/// A list that is not empty.
pub open spec fn listed(v: Seq<Seq<char>>) -> Option<Seq<Seq<char>>> {
    if v.len() == 0 {
        None
    } else {
        Some(v)
    }
}

/// The restart policy that a word names.
pub open spec fn restart_policy(word: Seq<char>) -> Restart {
    if word == "no"@ {
        Restart::No
    } else if word == "always"@ {
        Restart::Always
    } else if word == "unless-stopped"@ {
        Restart::UnlessStopped
    } else if word == "on-failure"@ {
        Restart::OnFailure
    } else {
        Restart::Empty
    }
}

/// The container that `run` and `create` make of their arguments.
pub open spec fn create_settings(
    args: CreateArgs<Seq<char>, Seq<Seq<char>>>,
    auto_remove: bool,
) -> SettingsModel {
    ContainerSettings {
        image: args.image,
        cmd: listed(args.cmd),
        env: listed(args.env),
        labels: if args.labels.len() == 0 {
            None
        } else {
            Some(labels(args.labels))
        },
        working_dir: args.workdir,
        user: args.user,
        hostname: args.hostname,
        tty: Some(args.tty),
        attach_stdin: Some(false),
        attach_stdout: Some(!args.tty),
        attach_stderr: Some(!args.tty),
        ports: if args.ports.len() == 0 {
            None
        } else {
            Some(published(args.ports))
        },
        host: Some(
            HostSettings {
                binds: listed(args.volumes),
                auto_remove: if auto_remove {
                    Some(true)
                } else {
                    None
                },
                network_mode: args.network,
                restart: match args.restart {
                    Some(word) => Some(restart_policy(word)),
                    None => None,
                },
            },
        ),
    }
}

/// The map that pairs make: the last value of a key counts.
pub open spec fn paired(pairs: Seq<(Seq<char>, Seq<char>)>) -> Map<Seq<char>, Seq<char>>
    decreases pairs.len(),
{
    if pairs.len() == 0 {
        Map::empty()
    } else {
        paired(pairs.drop_last()).insert(pairs.last().0, pairs.last().1)
    }
}

/// The addresses of a network with a subnet or a gateway; absent where it has neither.
pub open spec fn network_pool(subnet: Option<Seq<char>>, gateway: Option<Seq<char>>) -> Option<
    Pool<Seq<char>>,
> {
    if subnet is Some || gateway is Some {
        Some(Pool { driver: "default"@, subnet, gateway })
    } else {
        None
    }
}

/// An optional text, or another where there is none.
pub open spec fn otherwise(t: Option<Seq<char>>, default: Seq<char>) -> Seq<char> {
    match t {
        Some(s) => s,
        None => default,
    }
}

/// An optional number, or zero.
pub open spec fn or_zero(n: Option<i64>) -> i64 {
    match n {
        Some(n) => n,
        None => 0,
    }
}

/// The call that a command sends first; `build` sends it once its context is packed, and `prune`
/// sends one for each kind that it prunes, of which this is the first.
pub open spec fn command_call(c: CommandModel) -> CallModel {
    match c {
        Command::Prune { flags } => match prune_set(flags).first() {
            Some(k) => kind_call(k),
            None => Call::PruneContainers,
        },
        Command::Ping => Call::Ping,
        Command::Version => Call::Version,
        Command::Info => Call::Info,
        Command::Events { since, until, filters } => Call::Events {
            since,
            until,
            filters: grouped(filters),
        },
        Command::Ps { all, limit, size, filters } => Call::ListContainers {
            all,
            limit,
            size,
            filters: grouped(filters),
        },
        Command::Inspect { container } => Call::InspectContainer { container },
        Command::Run { args, rm } => Call::CreateContainer {
            name: args.name,
            settings: create_settings(args, rm),
        },
        Command::Create { args } => Call::CreateContainer {
            name: args.name,
            settings: create_settings(args, false),
        },
        Command::Start { container } => Call::StartContainer { container },
        Command::Stop { container, time } => Call::StopContainer { container, timeout: time },
        Command::Restart { container, time } => Call::RestartContainer { container, timeout: time },
        Command::Kill { container, signal } => Call::KillContainer { container, signal },
        Command::Rm { container, force, volumes } => Call::RemoveContainer {
            container,
            force,
            volumes,
        },
        Command::Logs { container, tail, since, until, follow, timestamps, stdout, stderr } =>
            Call::Logs {
            container,
            stdout,
            stderr,
            follow,
            timestamps,
            tail: otherwise(tail, "all"@),
            since: or_zero(since),
            until: or_zero(until),
        },
        Command::Exec { container, cmd, env, workdir, user, tty } => Call::CreateExec {
            container,
            cmd,
            env: listed(env),
            working_dir: workdir,
            user,
            tty: Some(tty),
            attach_stdout: Some(true),
            attach_stderr: Some(true),
        },
        Command::Stats { container, stream } => Call::Stats {
            container,
            stream,
            one_shot: !stream,
        },
        Command::Images { all, filters } => Call::ListImages { all, filters: grouped(filters) },
        Command::Pull { image, platform } => Call::CreateImage {
            from_image: image,
            tag: Seq::empty(),
            platform: otherwise(platform, ""@),
        },
        Command::Push { image } => Call::PushImage { image, tag: Seq::empty() },
        Command::Rmi { image, force, noprune } => Call::RemoveImage { image, force, noprune },
        Command::Tag { source, target } => Call::TagImage {
            source,
            repo: command_target_parts(target).0,
            tag: command_target_parts(target).1,
        },
        Command::Build { tag, dockerfile, build_args, no_cache, pull, rm } => Call::BuildImage {
            dockerfile: otherwise(dockerfile, "Dockerfile"@),
            tag: otherwise(tag, ""@),
            no_cache,
            pull,
            rm,
            force_rm: rm,
            build_args: paired(build_args),
        },
        Command::Networks { filters } => Call::ListNetworks { filters: grouped(filters) },
        Command::NetworkCreate { name, driver, subnet, gateway, labels: given } =>
            Call::CreateNetwork {
            name,
            driver,
            labels: labels(given),
            pool: network_pool(subnet, gateway),
        },
        Command::NetworkRm { name } => Call::RemoveNetwork { name },
        Command::Volumes { filters } => Call::ListVolumes { filters: grouped(filters) },
        Command::VolumeCreate { name, driver, labels: given } => Call::CreateVolume {
            name,
            driver,
            labels: labels(given),
        },
        Command::VolumeRm { name, force } => Call::RemoveVolume { name, force },
    }
}

/// A list that is not empty.
fn list(v: Vec<String>) -> (r: Option<Vec<String>>)
    ensures
        opt_texts(r) == listed(texts(v@)),
{
    if v.len() == 0 {
        None
    } else {
        Some(v)
    }
}

/// Collects published ports by the port of the container.
pub fn publish(ports: &Vec<String>) -> (r: TextMap<Vec<String>>)
    ensures
        list_values(r@) == published(texts(ports@)),
{
    let mut out: TextMap<Vec<String>> = TextMap::new();
    let ghost all = texts(ports@);
    let mut i: usize = 0;
    assert(list_values(out@) =~= Map::empty());
    while i < ports.len()
        invariant
            i <= ports@.len(),
            all == texts(ports@),
            list_values(out@) == grouped(bindings(all).take(i as int)),
        decreases ports.len() - i,
    {
        assert(bindings(all).take(i + 1).drop_last() =~= bindings(all).take(i as int));
        if let Ok((host, container, proto)) = parse_port_binding(ports[i].as_str()) {
            let proto: String = match proto {
                Some(p) => p,
                None => "tcp".to_owned(),
            };
            let key = concat3(container.as_str(), "/", proto.as_str());
            out.add(key.as_str(), host.as_str());
        }
        i = i + 1;
    }
    assert(bindings(all).take(all.len() as int) =~= bindings(all));
    out
}

/// The restart policy that a word names.
pub fn restart_named(word: &str) -> (r: Restart)
    ensures
        r == restart_policy(word@),
{
    if same(word, "no") {
        Restart::No
    } else if same(word, "always") {
        Restart::Always
    } else if same(word, "unless-stopped") {
        Restart::UnlessStopped
    } else if same(word, "on-failure") {
        Restart::OnFailure
    } else {
        Restart::Empty
    }
}

/// The container that `run` and `create` make of their arguments, and its name.
pub fn container_settings(args: CreateArgs<String, Vec<String>>, auto_remove: bool) -> (r: (
    Option<String>,
    OwnedSettings,
))
    ensures
        opt_text(r.0) == args.model().name,
        r.1.model() == create_settings(args.model(), auto_remove),
{
    let ports = if args.ports.len() == 0 {
        None
    } else {
        Some(publish(&args.ports))
    };
    let labels = if args.labels.len() == 0 {
        None
    } else {
        Some(label_vec_to_map(args.labels.as_slice()))
    };
    let restart = match &args.restart {
        Some(word) => Some(restart_named(word.as_str())),
        None => None,
    };
    let settings = ContainerSettings {
        image: args.image,
        cmd: list(args.cmd),
        env: list(args.env),
        labels,
        working_dir: args.workdir,
        user: args.user,
        hostname: args.hostname,
        tty: Some(args.tty),
        attach_stdin: Some(false),
        attach_stdout: Some(!args.tty),
        attach_stderr: Some(!args.tty),
        ports,
        host: Some(
            HostSettings {
                binds: list(args.volumes),
                auto_remove: if auto_remove {
                    Some(true)
                } else {
                    None
                },
                network_mode: args.network,
                restart,
            },
        ),
    };
    (args.name, settings)
}

/// The map that pairs make.
pub fn pair_map(pairs: &Vec<(String, String)>) -> (r: TextMap<String>)
    ensures
        text_values(r@) == paired(pair_texts(pairs@)),
{
    let mut out: TextMap<String> = TextMap::new();
    let ghost all = pair_texts(pairs@);
    let mut i: usize = 0;
    assert(text_values(out@) =~= Map::empty());
    while i < pairs.len()
        invariant
            i <= pairs@.len(),
            all == pair_texts(pairs@),
            text_values(out@) == paired(all.take(i as int)),
        decreases pairs.len() - i,
    {
        let ghost before = out@;
        assert(all.take(i + 1).drop_last() =~= all.take(i as int));
        let value = pairs[i].1.clone();
        out.insert(pairs[i].0.as_str(), value);
        assert(text_values(out@) =~= text_values(before).insert(
            pairs@[i as int].0@,
            pairs@[i as int].1@,
        ));
        i = i + 1;
    }
    assert(all.take(all.len() as int) =~= all);
    out
}

/// The addresses of a network with a subnet or a gateway.
pub fn make_pool(subnet: Option<String>, gateway: Option<String>) -> (r: Option<Pool<String>>)
    ensures
        match r {
            Some(p) => network_pool(opt_text(subnet), opt_text(gateway)) == Some(p.model()),
            None => network_pool(opt_text(subnet), opt_text(gateway)) is None,
        },
{
    if subnet.is_some() || gateway.is_some() {
        Some(Pool { driver: "default".to_owned(), subnet, gateway })
    } else {
        None
    }
}

/// An optional text, or another where there is none.
fn text_otherwise(t: Option<String>, default: &str) -> (r: String)
    ensures
        r@ == otherwise(opt_text(t), default@),
{
    match t {
        Some(s) => s,
        None => default.to_owned(),
    }
}

/// An optional number, or zero.
fn number_or_zero(n: Option<i64>) -> (r: i64)
    ensures
        r == or_zero(n),
{
    match n {
        Some(n) => n,
        None => 0,
    }
}

/// The call that a command sends first.
pub fn first_call(command: OwnedCommand) -> (r: OwnedCall)
    ensures
        r.model() == command_call(command.model()),
{
    match command {
        Command::Ping => Call::Ping,
        Command::Version => Call::Version,
        Command::Info => Call::Info,
        Command::Events { since, until, filters } => Call::Events {
            since,
            until,
            filters: kv_pairs(filters.as_slice()),
        },
        Command::Ps { all, limit, size, filters } => Call::ListContainers {
            all,
            limit,
            size,
            filters: kv_pairs(filters.as_slice()),
        },
        Command::Inspect { container } => Call::InspectContainer { container },
        Command::Run { args, rm } => {
            let (name, settings) = container_settings(args, rm);
            Call::CreateContainer { name, settings }
        },
        Command::Create { args } => {
            let (name, settings) = container_settings(args, false);
            Call::CreateContainer { name, settings }
        },
        Command::Start { container } => Call::StartContainer { container },
        Command::Stop { container, time } => Call::StopContainer { container, timeout: time },
        Command::Restart { container, time } => Call::RestartContainer { container, timeout: time },
        Command::Kill { container, signal } => Call::KillContainer { container, signal },
        Command::Rm { container, force, volumes } => Call::RemoveContainer {
            container,
            force,
            volumes,
        },
        Command::Logs { container, tail, since, until, follow, timestamps, stdout, stderr } =>
            Call::Logs {
            container,
            stdout,
            stderr,
            follow,
            timestamps,
            tail: text_otherwise(tail, "all"),
            since: number_or_zero(since),
            until: number_or_zero(until),
        },
        Command::Exec { container, cmd, env, workdir, user, tty } => Call::CreateExec {
            container,
            cmd,
            env: list(env),
            working_dir: workdir,
            user,
            tty: Some(tty),
            attach_stdout: Some(true),
            attach_stderr: Some(true),
        },
        Command::Stats { container, stream } => Call::Stats {
            container,
            stream,
            one_shot: !stream,
        },
        Command::Images { all, filters } => Call::ListImages {
            all,
            filters: kv_pairs(filters.as_slice()),
        },
        Command::Pull { image, platform } => Call::CreateImage {
            from_image: image,
            tag: String::new(),
            platform: text_otherwise(platform, ""),
        },
        Command::Push { image } => Call::PushImage { image, tag: String::new() },
        Command::Rmi { image, force, noprune } => Call::RemoveImage { image, force, noprune },
        Command::Tag { source, target } => {
            let (repo, tag) = cmd_tag_split(target.as_str());
            Call::TagImage { source, repo, tag }
        },
        Command::Build { tag, dockerfile, build_args, no_cache, pull, rm } => Call::BuildImage {
            dockerfile: text_otherwise(dockerfile, "Dockerfile"),
            tag: text_otherwise(tag, ""),
            no_cache,
            pull,
            rm,
            force_rm: rm,
            build_args: pair_map(&build_args),
        },
        Command::Networks { filters } => Call::ListNetworks {
            filters: kv_pairs(filters.as_slice()),
        },
        Command::NetworkCreate { name, driver, subnet, gateway, labels } => Call::CreateNetwork {
            name,
            driver,
            labels: label_vec_to_map(labels.as_slice()),
            pool: make_pool(subnet, gateway),
        },
        Command::NetworkRm { name } => Call::RemoveNetwork { name },
        Command::Volumes { filters } => Call::ListVolumes { filters: kv_pairs(filters.as_slice()) },
        Command::VolumeCreate { name, driver, labels } => Call::CreateVolume {
            name,
            driver,
            labels: label_vec_to_map(labels.as_slice()),
        },
        Command::VolumeRm { name, force } => Call::RemoveVolume { name, force },
        Command::Prune { flags } => match prune_kinds(flags).split_first() {
            Some((kind, _)) => kind.call(),
            None => Call::PruneContainers,
        },
    }
}

/// Every published port is bound on the host: the port of the container that it leads to has its
/// host port among those that it is bound to, and is exposed.
pub proof fn published_ports_are_bound(ports: Seq<Seq<char>>, i: int)
    requires
        0 <= i < ports.len(),
    ensures
        published(ports).contains_key(published_port(ports[i])),
        published(ports)[published_port(ports[i])].contains(binding_parts(ports[i]).0),
{
    assert(bindings(ports)[i] == (published_port(ports[i]), binding_parts(ports[i]).0));
    listed_value_is_grouped(bindings(ports), i);
}

/// A command that wants a terminal is not attached to, and one that does not is attached to by
/// its output; the input never is.
pub proof fn terminal_or_attached(args: CreateArgs<Seq<char>, Seq<Seq<char>>>, auto_remove: bool)
    ensures
        create_settings(args, auto_remove).tty == Some(args.tty),
        create_settings(args, auto_remove).attach_stdout == Some(!args.tty),
        create_settings(args, auto_remove).attach_stderr == Some(!args.tty),
        create_settings(args, auto_remove).attach_stdin == Some(false),
{
}

} // verus!
