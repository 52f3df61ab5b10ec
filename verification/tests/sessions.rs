//! Calls of exported functions, from their arguments to their replies.

use serde_json::Value;

use stryke_docker::call::{Call, OwnedCall};
use stryke_docker::endpoint::{get_client, make_client, Client, Endpoint};
use stryke_docker::json::Json;
use stryke_docker::ops::{request, Op};
use stryke_docker::session::{
    advance, docker__commit, docker__create, docker__diff, docker__exec, docker__history,
    docker__images, docker__inspect, docker__kill, docker__logs, docker__network_create,
    docker__ping, docker__port, docker__prune, docker__ps, docker__pull, docker__rename,
    docker__rm, docker__start, docker__stats, docker__stop, docker__tag, docker__update,
    docker__volume_create, docker__volumes, docker__wait, Event, OwnedEvent, OwnedStep, Step,
};
use stryke_docker::textmap::TextMap;

fn json(text: &str) -> Json {
    Json::parse(text.as_bytes()).unwrap()
}

fn value(text: &str) -> Value {
    serde_json::from_str(text).unwrap()
}

/// Takes a call to its first call of the daemon.
fn connect(step: OwnedStep) -> OwnedStep {
    match step {
        Step::Connect(session) => advance(session, Event::Connected),
        _ => panic!("a connection is asked for first"),
    }
}

/// The call that a session sends.
fn sent(step: &OwnedStep) -> &OwnedCall {
    match step {
        Step::Call(_, call) => call,
        _ => panic!("a call is sent"),
    }
}

/// Tells a session what came of its last step.
fn tell(step: OwnedStep, event: OwnedEvent) -> OwnedStep {
    match step {
        Step::Connect(s) | Step::Call(s, _) | Step::Next(s) => advance(s, event),
        Step::Reply(_) => panic!("there is a reply already"),
    }
}

fn reply(step: OwnedStep) -> String {
    match step {
        Step::Reply(text) => text,
        _ => panic!("there is no reply yet"),
    }
}

/// The reply to a call with one answer.
fn answered(step: OwnedStep, answer: &str) -> String {
    reply(tell(connect(step), Event::Answer(json(answer))))
}

#[test]
fn answers_are_wrapped_by_their_operation() {
    assert_eq!(answered(docker__ps(None), "[1]"), r#"{"containers":[1]}"#);
    assert_eq!(answered(docker__images(None), "[]"), r#"{"images":[]}"#);
    assert_eq!(answered(docker__volumes(None), "{}"), r#"{"volumes":{}}"#);
    assert_eq!(answered(docker__ping(None), r#""OK""#), r#"{"value":"OK"}"#);
    let web = br#"{"container":"web","name":"new"}"#;
    assert_eq!(answered(docker__start(Some(web)), "null"), r#"{"ok":true}"#);
    assert_eq!(
        answered(docker__rename(Some(web)), "null"),
        r#"{"ok":true,"renamed":"new"}"#
    );
    assert_eq!(
        answered(docker__update(Some(web)), "null"),
        r#"{"ok":true,"updated":"web"}"#
    );
    assert_eq!(answered(docker__diff(Some(web)), "null"), r#"{"changes":[]}"#);
    assert_eq!(
        answered(docker__diff(Some(web)), r#"[{"Kind":1}]"#),
        r#"{"changes":[{"Kind":1}]}"#
    );
    assert_eq!(
        answered(
            docker__port(Some(web)),
            r#"{"NetworkSettings":{"Ports":{"80/tcp":[{"HostPort":"8080"}]}}}"#
        ),
        r#"{"container":"web","ports":{"80/tcp":[{"HostPort":"8080"}]}}"#
    );
    assert_eq!(
        answered(docker__port(Some(web)), "{}"),
        r#"{"container":"web","ports":null}"#
    );
    assert_eq!(
        answered(docker__inspect(Some(web)), r#"{"Id":"x","Size":1.5}"#),
        r#"{"Id":"x","Size":1.5}"#
    );
    assert_eq!(
        answered(docker__history(Some(br#"{"image":"i"}"#)), "[]"),
        r#"{"history":[]}"#
    );
    assert_eq!(answered(docker__prune(None), r#"{"SpaceReclaimed":0}"#), r#"{"SpaceReclaimed":0}"#);
}

#[test]
fn logs_are_gathered() {
    let step = connect(docker__logs(Some(br#"{"container":"web","tail":5}"#)));
    assert!(matches!(
        sent(&step),
        Call::Logs { container, tail, stdout: true, stderr: true, follow: false, .. }
            if container == "web" && tail == "5"
    ));
    let step = tell(step, Event::Chunk(b"one\n".to_vec()));
    let step = tell(step, Event::Chunk(b"two".to_vec()));
    assert_eq!(reply(tell(step, Event::Ended)), r#"{"logs":"one\ntwo"}"#);
    let step = connect(docker__logs(Some(br#"{"container":"web"}"#)));
    assert_eq!(reply(tell(step, Event::Ended)), r#"{"logs":""}"#);
    // Bytes that are no UTF-8 are shown by replacement characters.
    let step = connect(docker__logs(Some(br#"{"container":"web"}"#)));
    let step = tell(step, Event::Chunk(vec![b'a', 0xc3]));
    let step = tell(step, Event::Chunk(vec![0xa9]));
    assert_eq!(reply(tell(step, Event::Ended)), "{\"logs\":\"a\u{fffd}\u{fffd}\"}");
}

#[test]
fn exec_output_is_gathered() {
    let args = br#"{"container":"web","cmd":["sh",1,"-c"]}"#;
    let step = connect(docker__exec(Some(args)));
    assert!(matches!(
        sent(&step),
        Call::CreateExec {
            container,
            cmd,
            env: None,
            tty: None,
            attach_stdout: Some(true),
            attach_stderr: Some(true),
            ..
        }
            if container == "web" && cmd.len() == 2
    ));
    let step = tell(step, Event::Created("abc".to_string()));
    assert!(matches!(sent(&step), Call::StartExec { id, tty: None } if id == "abc"));
    let step = tell(step, Event::Attached);
    let step = tell(step, Event::Chunk(b"a".to_vec()));
    let step = tell(step, Event::Chunk(b"b".to_vec()));
    assert_eq!(reply(tell(step, Event::Ended)), r#"{"output":"ab"}"#);
    let step = tell(connect(docker__exec(Some(args))), Event::Created("abc".to_string()));
    assert_eq!(reply(tell(step, Event::Detached)), r#"{"output":""}"#);
}

#[test]
fn pull_is_drained_and_names_the_image() {
    let step = connect(docker__pull(Some(br#"{"image":"localhost:5000/a:1"}"#)));
    assert!(matches!(
        sent(&step),
        Call::CreateImage { from_image, tag, .. } if from_image == "localhost:5000/a" && tag == "1"
    ));
    let step = tell(tell(step, Event::Item), Event::Item);
    assert_eq!(reply(tell(step, Event::Ended)), r#"{"image":"localhost:5000/a:1"}"#);
}

#[test]
fn wait_stats_and_commit() {
    let web = br#"{"container":"web"}"#;
    let step = connect(docker__wait(Some(web)));
    assert_eq!(reply(tell(step, Event::Exited(0))), r#"{"status_code":0}"#);
    let step = connect(docker__wait(Some(web)));
    assert_eq!(reply(tell(step, Event::Ended)), r#"{"status_code":null}"#);
    assert_eq!(answered(docker__stats(Some(web)), r#"{"cpu":1}"#), r#"{"cpu":1}"#);
    let step = connect(docker__stats(Some(web)));
    assert_eq!(
        reply(tell(step, Event::Ended)),
        r#"{"error":"no stats returned for `web`"}"#
    );
    let step = connect(docker__commit(Some(web)));
    assert!(matches!(
        sent(&step),
        Call::CommitContainer { repo, tag, pause: true, .. } if repo.is_empty() && tag == "latest"
    ));
    assert_eq!(reply(tell(step, Event::Answer(Json::text("sha")))), r#"{"id":"sha"}"#);
    assert_eq!(answered(docker__commit(Some(web)), "null"), r#"{"id":null}"#);
}

#[test]
fn failures_and_panics_are_told_at_every_stage() {
    let args = br#"{"container":"web","cmd":[]}"#;
    let fail = || Event::Failed("no \"daemon\"".to_string());
    let told = r#"{"error":"no \"daemon\""}"#;
    assert_eq!(reply(tell(docker__exec(Some(args)), fail())), told);
    assert_eq!(reply(tell(connect(docker__exec(Some(args))), fail())), told);
    let started = || tell(connect(docker__exec(Some(args))), Event::Created("i".to_string()));
    assert_eq!(reply(tell(started(), fail())), told);
    assert_eq!(reply(tell(tell(started(), Event::Attached), fail())), told);
    let panicked = r#"{"error":"stryke-docker handler panicked"}"#;
    assert_eq!(reply(tell(started(), Event::Panicked)), panicked);
    // An event that nothing waits for ends the session too.
    assert_eq!(reply(tell(started(), Event::Item)), panicked);
    assert_eq!(reply(tell(docker__ps(None), Event::Ended)), panicked);
}

#[test]
fn late_refusals_come_behind_the_connection() {
    let late = |step: OwnedStep| value(&reply(connect(step)))["error"].clone();
    assert_eq!(late(docker__inspect(None)), "missing container");
    assert_eq!(late(docker__create(None)), "missing image");
    assert_eq!(late(docker__exec(Some(br#"{"container":"x","cmd":"ls"}"#))), "missing cmd (array)");
    assert_eq!(late(docker__tag(None)), "missing source");
    assert_eq!(late(docker__tag(Some(br#"{"source":"x"}"#))), "missing target");
    assert_eq!(late(docker__network_create(None)), "missing name");
    assert_eq!(
        late(docker__prune(Some(br#"{"kind":"all"}"#))),
        "prune kind must be containers|images|volumes|networks, got all"
    );
}

#[test]
fn calls_take_their_defaults() {
    let call = |op: Op, args: &str| request(op, &json(args)).ok().unwrap();
    assert!(matches!(
        call(Op::Kill, r#"{"container":"c"}"#),
        Call::KillContainer { signal: Some(s), .. } if s == "SIGKILL"
    ));
    assert!(matches!(
        call(Op::Stop, r#"{"container":"c","timeout":-3}"#),
        Call::StopContainer { timeout: Some(-3), .. }
    ));
    // `time` goes before `timeout`.
    assert!(matches!(
        call(Op::Stop, r#"{"container":"c","time":5,"timeout":30}"#),
        Call::StopContainer { timeout: Some(5), .. }
    ));
    assert!(matches!(
        call(Op::Logs, r#"{"container":"web","tail":"50","timestamps":1}"#),
        Call::Logs { tail, timestamps: true, .. } if tail == "50"
    ));
    assert!(matches!(
        call(Op::Logs, r#"{"container":"web"}"#),
        Call::Logs { timestamps: false, .. }
    ));
    let ps = r#"{"all":1,"filters":{"label":["app=web"]}}"#;
    let Call::ListContainers { all, filters, .. } = call(Op::Ps, ps) else {
        panic!("containers are listed");
    };
    assert!(all);
    assert_eq!(filters.get("label").unwrap(), &vec!["app=web"]);
    assert_eq!(filters.len(), 1);
    let network = r#"{"name":"n","subnet":"10.42.0.0/24","label":["a=1"]}"#;
    let Call::CreateNetwork { driver, labels, pool: Some(pool), .. } =
        call(Op::NetworkCreate, network)
    else {
        panic!("a network is created");
    };
    assert_eq!(driver, "bridge");
    assert_eq!(labels.get("a").map(String::as_str), Some("1"));
    assert_eq!(pool.driver, "default");
    assert_eq!(pool.subnet.as_deref(), Some("10.42.0.0/24"));
    assert_eq!(pool.gateway, None);
    let volume = r#"{"name":"v","driver":"local","label":["a=1"]}"#;
    let Call::CreateVolume { driver, labels, .. } = call(Op::VolumeCreate, volume) else {
        panic!("a volume is created");
    };
    assert_eq!(driver, "local");
    assert_eq!(labels.len(), 1);
    assert!(matches!(
        call(Op::Rm, r#"{"container":"c","force":true}"#),
        Call::RemoveContainer { force: true, volumes: false, .. }
    ));
    assert!(matches!(
        call(Op::NetworkCreate, r#"{"name":"n"}"#),
        Call::CreateNetwork { driver, pool: None, .. } if driver == "bridge"
    ));
    assert!(matches!(
        call(Op::VolumeCreate, r#"{"name":"n"}"#),
        Call::CreateVolume { driver, .. } if driver.is_empty()
    ));
    assert!(matches!(
        call(Op::Top, r#"{"container":"c","ps_args":"aux"}"#),
        Call::TopProcesses { ps_args: Some(a), .. } if a == "aux"
    ));
    let update = r#"{"container":"c","memory":1,"cpu_shares":2,"cpuset_cpus":"0-3"}"#;
    let Call::UpdateContainer { limits, .. } = call(Op::Update, update) else {
        panic!("limits are set");
    };
    assert_eq!(limits.memory, Some(1));
    assert_eq!(limits.cpu_shares, Some(2));
    assert_eq!(limits.cpuset_cpus.as_deref(), Some("0-3"));
    assert_eq!(limits.memory_swap, None);
    assert!(matches!(
        call(Op::Tag, r#"{"source":"a","target":"b"}"#),
        Call::TagImage { repo, tag, .. } if repo == "b" && tag.is_empty()
    ));
    assert!(matches!(call(Op::Prune, r#"{"kind":"volumes"}"#), Call::PruneVolumes));
    assert!(matches!(call(Op::Prune, "{}"), Call::PruneContainers));
    for (op, field, message) in [
        (Op::VolumeInspect, "volume", "missing volume"),
        (Op::NetworkInspect, "network", "missing network"),
        (Op::ImageInspect, "image", "missing image"),
    ] {
        assert_eq!(request(op, &Json::Null).err().unwrap().message(), message);
        assert!(request(op, &Json::object().with(field, Json::text("x"))).is_ok());
    }
    // The remaining exports reach their operations.
    assert!(matches!(sent(&connect(docker__rm(Some(br#"{"container":"c"}"#)))), Call::RemoveContainer { .. }));
    assert!(matches!(sent(&connect(docker__kill(Some(br#"{"container":"c"}"#)))), Call::KillContainer { .. }));
    assert!(matches!(sent(&connect(docker__stop(Some(br#"{"container":"c"}"#)))), Call::StopContainer { timeout: None, .. }));
    assert!(matches!(sent(&connect(docker__volume_create(Some(br#"{"name":"v"}"#)))), Call::CreateVolume { .. }));
}

#[test]
fn pruning_by_flags_reports_by_kind() {
    let answer = |t: &str| Event::Answer(json(t));
    let step = connect(docker__prune(Some(br#"{"all":1}"#)));
    assert!(matches!(sent(&step), Call::PruneContainers));
    let step = tell(step, answer(r#"{"SpaceReclaimed":7}"#));
    assert!(matches!(sent(&step), Call::PruneImages));
    let step = tell(step, answer("2"));
    assert!(matches!(sent(&step), Call::PruneVolumes));
    let step = tell(step, answer("3"));
    assert!(matches!(sent(&step), Call::PruneNetworks));
    assert_eq!(
        reply(tell(step, answer("4"))),
        r#"{"containers":{"SpaceReclaimed":7},"images":2,"networks":4,"volumes":3}"#
    );
    let step = connect(docker__prune(Some(br#"{"volumes":true,"images":false}"#)));
    assert!(matches!(sent(&step), Call::PruneVolumes));
    assert_eq!(reply(tell(step, answer("1"))), r#"{"volumes":1}"#);
    let step = connect(docker__prune(Some(br#"{"images":true,"networks":true}"#)));
    let step = tell(step, answer("1"));
    assert_eq!(
        reply(tell(step, Event::Failed("gone".to_string()))),
        r#"{"error":"gone"}"#
    );
    // Without a flag the one kind is pruned, and its answer is the reply.
    let step = connect(docker__prune(Some(br#"{"kind":"images","all":0}"#)));
    assert!(matches!(sent(&step), Call::PruneImages));
    assert_eq!(reply(tell(step, answer("1"))), "1");
}

#[test]
fn clients_are_kept_per_host() {
    let mut clients: TextMap<u8> = TextMap::new();
    let env = || Some("unix:///run/x.sock".to_string());
    let Client::Connect { host, endpoint, timeout } = get_client(&clients, &Json::Null, env())
    else {
        panic!("nothing is kept yet");
    };
    assert_eq!(host, "unix:///run/x.sock");
    assert!(matches!(endpoint, Endpoint::Socket(s) if s == "unix:///run/x.sock"));
    assert_eq!(timeout, 4);
    clients.insert(&host, 7);
    assert!(matches!(get_client(&clients, &Json::Null, env()), Client::Kept(7)));
    // Its own host goes before the environment.
    let own = json(r#"{"host":"tcp://h:1","timeout":30}"#);
    let Client::Connect { host, endpoint, timeout } = get_client(&clients, &own, env()) else {
        panic!("another host");
    };
    assert_eq!(timeout, 30);
    assert!(matches!(endpoint, Endpoint::Http(s) if s == "tcp://h:1"));
    clients.insert(&host, 8);
    assert!(matches!(get_client(&clients, &own, None), Client::Kept(8)));
    assert!(matches!(get_client(&clients, &Json::Null, env()), Client::Kept(7)));
    let Client::Connect { host, endpoint, .. } = get_client(&clients, &Json::Null, None) else {
        panic!("the local daemon");
    };
    assert_eq!(host, "default");
    assert!(matches!(endpoint, Endpoint::Local));
}

#[test]
fn helper_hosts() {
    let open = |h: &str| make_client(Some(h.to_string()));
    assert!(matches!(open("unix:///run/d.sock"), Ok(Endpoint::Socket(p)) if p == "/run/d.sock"));
    assert!(matches!(open("unix://unix://x"), Ok(Endpoint::Socket(p)) if p == "x"));
    assert!(matches!(open("tcp://h:1"), Ok(Endpoint::Http(u)) if u == "tcp://h:1"));
    assert!(matches!(open("https://h"), Ok(Endpoint::Http(_))));
    assert!(matches!(open("http://h"), Ok(Endpoint::Http(_))));
    assert!(matches!(make_client(None), Ok(Endpoint::Local)));
    assert_eq!(
        open("ssh://h").err().unwrap().message(),
        "unrecognised DOCKER_HOST scheme: ssh://h"
    );
    assert_eq!(Endpoint::Local.label(), "connect_with_local_defaults");
}
