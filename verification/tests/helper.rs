//! Commands of the helper, from their arguments to what they write.

use std::io::Read;

use stryke_docker::call::{Call, OwnedCall, Restart};
use stryke_docker::command::{first_call, Command, CreateArgs, OwnedCommand};
use stryke_docker::context::{compress, pack_action, packs, EntryKind, PackAction};
use stryke_docker::helper::{failure, resume, run, Need, Notice, OwnedNotice, OwnedTurn};
use stryke_docker::json::{emit_ndjson, Json};
use stryke_docker::output::{
    build_info_to_json, empty_report, output_doc, BuildError, Progress, StreamKind,
};
use stryke_docker::prune::PruneFlags;

fn json(text: &str) -> Json {
    Json::parse(text.as_bytes()).unwrap()
}

/// Runs a command through notices: what it writes, its notes, and how it ends.
fn play(command: OwnedCommand, notices: Vec<OwnedNotice>) -> (String, Vec<String>, Option<String>) {
    let mut turn = run(command);
    let mut out = turn.out.clone();
    let mut notes = turn.notes.clone();
    for notice in notices {
        let job = match turn.need {
            Need::Call(job, _) | Need::Next(job) | Need::Pack(job) => job,
            _ => panic!("the command is over"),
        };
        turn = resume(job, notice);
        out.extend_from_slice(&turn.out);
        notes.extend(turn.notes.iter().cloned());
    }
    let end = match turn.need {
        Need::Done => None,
        Need::Failed(line) => Some(line),
        _ => panic!("the command goes on"),
    };
    (String::from_utf8(out).unwrap(), notes, end)
}

fn create_args() -> CreateArgs<String, Vec<String>> {
    CreateArgs {
        image: "nginx".into(),
        name: Some("web".into()),
        cmd: vec![],
        env: vec!["A=1".into()],
        ports: vec!["8080:80".into(), "53/udp".into(), "9090:80/tcp".into()],
        volumes: vec![],
        labels: vec!["app=web".into(), "bad".into()],
        network: None,
        workdir: None,
        user: None,
        hostname: None,
        restart: Some("unless-stopped".into()),
        tty: false,
    }
}

fn prune_flags() -> PruneFlags {
    PruneFlags { containers: false, images: false, volumes: false, networks: false, all: false }
}

#[test]
fn emit_ndjson_single_line() {
    let mut buf = Vec::new();
    emit_ndjson(&mut buf, Json::object().with("id", Json::text("abc")));
    assert_eq!(String::from_utf8(buf).unwrap(), "{\"id\":\"abc\"}\n");
}

#[test]
fn emit_ndjson_multi_call_count() {
    let mut buf = Vec::new();
    for i in 0..5 {
        emit_ndjson(&mut buf, Json::object().with("i", Json::integer(i)));
    }
    let s = String::from_utf8(buf).unwrap();
    assert_eq!(s.lines().count(), 5);
    assert!(s.ends_with("{\"i\":4}\n"));
    // A line break in a document is no line break in its line.
    let mut buf = Vec::new();
    emit_ndjson(&mut buf, Json::text("a\nb"));
    emit_ndjson(&mut buf, Json::text("é"));
    let s = String::from_utf8(buf).unwrap();
    let lines: Vec<&str> = s.lines().collect();
    assert_eq!(lines, vec!["\"a\\nb\"", "\"é\""]);
    let back = Json::parse(lines[0].as_bytes()).unwrap();
    assert_eq!(back.to_value(), serde_json::Value::from("a\nb"));
}

#[test]
fn build_info_to_json_empty_produces_empty_object() {
    let j = build_info_to_json(empty_report());
    assert_eq!(j.to_value(), serde_json::Value::Object(serde_json::Map::new()));
}

#[test]
fn build_info_to_json_populates_present_fields_only() {
    let mut b = empty_report();
    b.id = Some("img1".into());
    b.stream = Some("Step 1/3\n".into());
    let j = build_info_to_json(b).to_value();
    let obj = j.as_object().unwrap();
    assert_eq!(obj.get("id").and_then(|v| v.as_str()), Some("img1"));
    assert_eq!(obj.get("stream").and_then(|v| v.as_str()), Some("Step 1/3\n"));
    // Unset fields are NOT included (skip-if-None semantics).
    assert!(!obj.contains_key("error"));
    assert!(!obj.contains_key("status"));
}

#[test]
fn build_info_to_json_includes_progress_detail_when_set() {
    let mut b = empty_report();
    b.progress_detail = Some(Progress { current: Some(50), total: Some(100) });
    let j = build_info_to_json(b).to_value();
    let pd = j.get("progressDetail").unwrap();
    assert_eq!(pd["current"], serde_json::Value::from(50));
    assert_eq!(pd["total"], serde_json::Value::from(100));
}

#[test]
fn build_reports_everything() {
    let mut b = empty_report();
    b.error = Some("boom".into());
    b.status = Some("s".into());
    b.progress = Some("p".into());
    b.aux_id = Some("sha256:1".into());
    b.progress_detail = Some(Progress { current: None, total: Some(9) });
    b.error_detail = Some(BuildError { code: Some(2), message: None });
    assert_eq!(
        build_info_to_json(b).render(),
        r#"{"aux":{"ID":"sha256:1"},"error":"boom","errorDetail":{"code":2,"message":null},"progress":"p","progressDetail":{"current":null,"total":9},"status":"s"}"#
    );
}

#[test]
fn output_is_shown_lossily() {
    assert_eq!(
        output_doc(StreamKind::StdErr, "é".as_bytes()).render(),
        r#"{"data":"é","stream":"stderr"}"#
    );
    assert_eq!(
        output_doc(StreamKind::Console, &[b'a', 0xff, b'b']).render(),
        "{\"data\":\"a\u{fffd}b\",\"stream\":\"console\"}"
    );
}

#[test]
fn ping_never_fails() {
    assert_eq!(play(Command::Ping, vec![Notice::Agreed]), ("{\"ok\":true}\n".into(), vec![], None));
    assert_eq!(
        play(Command::Ping, vec![Notice::Failed("x".into())]),
        ("{\"ok\":false}\n".into(), vec![], None)
    );
}

#[test]
fn documents_and_lists_are_lines() {
    let doc = |t: &str| Notice::Document(t.to_string());
    assert_eq!(play(Command::Version, vec![doc("{\"b\":1,\"a\":2}")]).0, "{\"b\":1,\"a\":2}\n");
    let ps = Command::Ps { all: true, limit: Some(3), size: false, filters: vec![] };
    let listing = Notice::Listing(vec!["{}".into(), "{\"x\":1}".into()]);
    assert_eq!(play(ps, vec![listing]).0, "{}\n{\"x\":1}\n");
    let pull = || Command::Pull { image: "i".into(), platform: None };
    let (out, _, end) = play(pull(), vec![doc("1"), doc("2"), Notice::Ended]);
    assert_eq!((out.as_str(), end), ("1\n2\n", None));
    let (out, _, end) = play(pull(), vec![doc("1"), Notice::Failed("gone".into())]);
    assert_eq!(out, "1\n");
    assert_eq!(end.as_deref(), Some("stryke-docker-helper: pull: gone"));
    let stats = |stream| Command::Stats { container: "c".into(), stream };
    assert_eq!(play(stats(false), vec![doc("1")]).0, "1\n");
    assert_eq!(play(stats(false), vec![Notice::Ended]).0, "");
    assert_eq!(play(stats(true), vec![doc("1"), doc("2"), Notice::Ended]).0, "1\n2\n");
    assert_eq!(
        play(Command::Info, vec![Notice::Ended]).2.as_deref(),
        Some("stryke-docker-helper: info: unexpected answer")
    );
}

#[test]
fn acknowledgements() {
    let ack = |c: OwnedCommand| play(c, vec![Notice::Agreed]).0;
    let c = || "web".to_string();
    assert_eq!(ack(Command::Start { container: c() }), "{\"id\":\"web\",\"started\":true}\n");
    assert_eq!(
        ack(Command::Stop { container: c(), time: None }),
        "{\"id\":\"web\",\"stopped\":true}\n"
    );
    assert_eq!(
        ack(Command::Restart { container: c(), time: Some(1) }),
        "{\"id\":\"web\",\"restarted\":true}\n"
    );
    assert_eq!(
        ack(Command::Kill { container: c(), signal: None }),
        "{\"id\":\"web\",\"killed\":true}\n"
    );
    assert_eq!(
        ack(Command::Rm { container: c(), force: false, volumes: false }),
        "{\"id\":\"web\",\"removed\":true}\n"
    );
    assert_eq!(
        ack(Command::Tag { source: "a".into(), target: "b:1".into() }),
        "{\"source\":\"a\",\"tagged\":true,\"target\":\"b:1\"}\n"
    );
    assert_eq!(ack(Command::NetworkRm { name: c() }), "{\"name\":\"web\",\"removed\":true}\n");
    assert_eq!(
        ack(Command::VolumeRm { name: c(), force: true }),
        "{\"name\":\"web\",\"removed\":true}\n"
    );
}

#[test]
fn a_container_is_created_and_started() {
    let made = || Notice::Created { id: "abc".into(), warnings: vec!["careful".into()] };
    let (out, notes, end) = play(Command::Create { args: create_args() }, vec![made()]);
    assert_eq!(out, "{\"id\":\"abc\",\"started\":false,\"warnings\":[\"careful\"]}\n");
    assert_eq!(notes, vec!["stryke-docker-helper: warning: careful"]);
    assert_eq!(end, None);
    let run = || Command::Run { args: create_args(), rm: true };
    let (out, notes, end) = play(run(), vec![made(), Notice::Agreed]);
    assert_eq!(out, "{\"id\":\"abc\",\"started\":true,\"warnings\":[\"careful\"]}\n");
    assert_eq!(notes.len(), 1);
    assert_eq!(end, None);
    let (out, notes, end) = play(run(), vec![made(), Notice::Failed("no".into())]);
    assert_eq!(out, "");
    assert_eq!(notes.len(), 1);
    assert_eq!(end.as_deref(), Some("stryke-docker-helper: start_container: no"));
}

#[test]
fn settings_of_a_container() {
    let Call::CreateContainer { name, settings } =
        first_call(Command::Run { args: create_args(), rm: true })
    else {
        panic!("a container is created");
    };
    assert_eq!(name.as_deref(), Some("web"));
    assert_eq!(settings.cmd, None);
    assert_eq!(settings.env, Some(vec!["A=1".to_string()]));
    let ports = settings.ports.unwrap();
    assert_eq!(ports.len(), 2);
    assert_eq!(ports.get("80/tcp").unwrap(), &vec!["8080", "9090"]);
    assert_eq!(ports.get("53/udp").unwrap(), &vec!["53"]);
    let labels = settings.labels.unwrap();
    assert_eq!(labels.len(), 1);
    assert_eq!(labels.get("app").map(String::as_str), Some("web"));
    assert_eq!(settings.tty, Some(false));
    assert_eq!(settings.attach_stdin, Some(false));
    assert_eq!(settings.attach_stdout, Some(true));
    assert_eq!(settings.attach_stderr, Some(true));
    let host = settings.host.unwrap();
    assert_eq!(host.binds, None);
    assert_eq!(host.auto_remove, Some(true));
    assert_eq!(host.restart, Some(Restart::UnlessStopped));
    let mut args = create_args();
    args.ports = vec![];
    args.labels = vec![];
    args.restart = Some("sometimes".into());
    args.tty = true;
    let Call::CreateContainer { settings, .. } = first_call(Command::Create { args }) else {
        panic!("a container is created");
    };
    assert!(settings.ports.is_none() && settings.labels.is_none());
    assert_eq!(settings.attach_stdout, Some(false));
    let host = settings.host.unwrap();
    assert_eq!(host.auto_remove, None);
    assert_eq!(host.restart, Some(Restart::Empty));
}

#[test]
fn other_calls_of_commands() {
    let pair = |k: &str, v: &str| (k.to_string(), v.to_string());
    let Call::BuildImage { dockerfile, tag, rm, force_rm, build_args, .. } =
        first_call(Command::Build {
            tag: None,
            dockerfile: None,
            build_args: vec![pair("A", "1"), pair("A", "2")],
            no_cache: false,
            pull: false,
            rm: true,
        })
    else {
        panic!("a build");
    };
    assert_eq!((dockerfile.as_str(), tag.as_str(), rm, force_rm), ("Dockerfile", "", true, true));
    assert_eq!(build_args.get("A").map(String::as_str), Some("2"));
    let logs = first_call(Command::Logs {
        container: "c".into(),
        tail: None,
        since: None,
        until: Some(9),
        follow: true,
        timestamps: false,
        stdout: true,
        stderr: false,
    });
    assert!(matches!(
        logs,
        Call::Logs { tail, since: 0, until: 9, follow: true, stderr: false, .. } if tail == "all"
    ));
    let network = |subnet: Option<&str>| {
        first_call(Command::NetworkCreate {
            name: "n".into(),
            driver: "bridge".into(),
            subnet: subnet.map(String::from),
            gateway: None,
            labels: vec![],
        })
    };
    assert!(matches!(network(None), Call::CreateNetwork { pool: None, .. }));
    assert!(matches!(
        network(Some("10.0.0.0/8")),
        Call::CreateNetwork { pool: Some(p), .. }
            if p.driver == "default" && p.subnet.as_deref() == Some("10.0.0.0/8") && p.gateway.is_none()
    ));
    let events = first_call(Command::Events {
        since: None,
        until: None,
        filters: vec![pair("type", "a"), pair("type", "b")],
    });
    let Call::Events { filters, .. } = events else {
        panic!("events");
    };
    assert_eq!(filters.get("type").unwrap(), &vec!["a", "b"]);
}

#[test]
fn logs_are_raw_or_followed() {
    let logs = |follow| Command::Logs {
        container: "c".into(),
        tail: None,
        since: None,
        until: None,
        follow,
        timestamps: false,
        stdout: true,
        stderr: true,
    };
    let output = || {
        vec![
            Notice::Output(StreamKind::StdOut, b"one".to_vec()),
            Notice::Output(StreamKind::StdErr, b"two\n".to_vec()),
            Notice::Ended,
        ]
    };
    assert_eq!(play(logs(false), output()).0, "onetwo\n");
    assert_eq!(
        play(logs(true), output()).0,
        "{\"data\":\"one\",\"stream\":\"stdout\"}\n{\"data\":\"two\\n\",\"stream\":\"stderr\"}\n"
    );
}

#[test]
fn a_command_runs_in_a_container() {
    let exec = || Command::Exec {
        container: "c".into(),
        cmd: vec!["ls".into()],
        env: vec![],
        workdir: None,
        user: None,
        tty: true,
    };
    assert!(matches!(
        first_call(exec()),
        Call::CreateExec {
            env: None,
            tty: Some(true),
            attach_stdout: Some(true),
            attach_stderr: Some(true),
            ..
        }
    ));
    let made = || Notice::ExecCreated("e1".into());
    let (out, _, end) = play(
        exec(),
        vec![
            made(),
            Notice::Attached,
            Notice::Output(StreamKind::StdOut, b"hi".to_vec()),
            Notice::Ended,
            Notice::Exit(Some(3)),
        ],
    );
    assert_eq!(out, "{\"data\":\"hi\",\"stream\":\"stdout\"}\n{\"exit_code\":3}\n");
    assert_eq!(end, None);
    let (out, _, _) = play(exec(), vec![made(), Notice::Detached, Notice::Exit(None)]);
    assert_eq!(out, "{\"detached\":true}\n{\"exit_code\":null}\n");
    let started: OwnedTurn = match run(exec()).need {
        Need::Call(job, _) => resume(job, made()),
        _ => panic!("a command is set up"),
    };
    assert!(matches!(
        &started.need,
        Need::Call(_, Call::StartExec { id, tty: Some(true) }) if id == "e1"
    ));
    for (notices, line) in [
        (vec![Notice::Failed("x".into())], "create_exec: x"),
        (vec![made(), Notice::Failed("x".into())], "start_exec: x"),
        (vec![made(), Notice::Attached, Notice::Failed("x".into())], "exec stream: x"),
        (vec![made(), Notice::Detached, Notice::Failed("x".into())], "inspect_exec: x"),
    ] {
        assert_eq!(play(exec(), notices).2.unwrap(), format!("stryke-docker-helper: {line}"));
    }
}

#[test]
fn a_build_is_packed_first() {
    let build = || Command::Build {
        tag: Some("t".into()),
        dockerfile: None,
        build_args: vec![],
        no_cache: true,
        pull: false,
        rm: false,
    };
    let Need::Pack(job) = run(build()).need else {
        panic!("the context is packed first");
    };
    let turn = resume(job, Notice::Packed);
    let call: &OwnedCall = match &turn.need {
        Need::Call(_, call) => call,
        _ => panic!("the image is built"),
    };
    assert!(matches!(call, Call::BuildImage { tag, no_cache: true, .. } if tag == "t"));
    let mut report = empty_report();
    report.stream = Some("Step 1".into());
    let (out, _, end) = play(build(), vec![Notice::Packed, Notice::Report(report), Notice::Ended]);
    assert_eq!((out.as_str(), end), ("{\"stream\":\"Step 1\"}\n", None));
    assert_eq!(
        play(build(), vec![Notice::Failed("no such dir".into())]).2.unwrap(),
        "stryke-docker-helper: tar build context: no such dir"
    );
}

#[test]
fn pruning_reports_what_it_prunes() {
    let answer = |t: &str| Notice::Answer(json(t));
    let prune = |flags| Command::Prune { flags };
    // Containers, images and networks, unless something is asked for.
    let (out, _, end) = play(prune(prune_flags()), vec![answer("1"), answer("2"), answer("3")]);
    assert_eq!(out, "{\"containers\":1,\"images\":2,\"networks\":3}\n");
    assert_eq!(end, None);
    let all = PruneFlags { all: true, ..prune_flags() };
    let answers = vec![answer("1"), answer("2"), answer("3"), answer("4")];
    assert_eq!(
        play(prune(all), answers).0,
        "{\"containers\":1,\"images\":2,\"networks\":4,\"volumes\":3}\n"
    );
    let volumes = PruneFlags { volumes: true, ..prune_flags() };
    assert!(matches!(run(prune(volumes)).need, Need::Call(_, Call::PruneVolumes)));
    assert_eq!(play(prune(volumes), vec![answer("{}")]).0, "{\"volumes\":{}}\n");
    assert_eq!(
        play(prune(volumes), vec![Notice::Failed("x".into())]).2.unwrap(),
        failure("prune_volumes", "x")
    );
}

#[test]
fn contexts_leave_git_out() {
    let path = |p: &[&str]| p.iter().map(|s| s.to_string()).collect::<Vec<String>>();
    assert!(packs(&path(&["Dockerfile"])));
    assert!(packs(&path(&["src", ".gitignore"])));
    assert!(!packs(&path(&[])));
    assert!(!packs(&path(&[".git"])));
    assert!(!packs(&path(&["sub", ".git", "config"])));
    // Directories and files are packed, and anything else is skipped.
    let src = path(&["src"]);
    assert_eq!(pack_action(&src, EntryKind::Directory), PackAction::AddDirectory);
    assert_eq!(pack_action(&src, EntryKind::File), PackAction::AddFile);
    assert_eq!(pack_action(&src, EntryKind::Other), PackAction::Skip);
    assert_eq!(pack_action(&path(&[".git"]), EntryKind::Directory), PackAction::Skip);
    assert_eq!(pack_action(&path(&[]), EntryKind::Directory), PackAction::Skip);
}

#[test]
fn contexts_are_compressed() {
    let data: Vec<u8> = (0..10_000u32).map(|i| (i % 7) as u8).collect();
    let packed = compress(&data).unwrap();
    assert_eq!(packed[0..2], [0x1f, 0x8b]);
    assert!(packed.len() < data.len());
    let mut back = Vec::new();
    flate2::read::GzDecoder::new(packed.as_slice()).read_to_end(&mut back).unwrap();
    assert_eq!(back, data);
    assert_eq!(compress(&data).unwrap(), packed);
}
