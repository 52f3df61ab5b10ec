//! A command of the helper, from its arguments to the last line that it writes.
//!
//! A job says after each turn what it needs next: the answer to a call, the next item of a
//! stream, the packed context of a build. It is told what came of it by a notice.

use vstd::prelude::*;
use vstd::utf8::encode_utf8;

use crate::call::{Call, CallModel, OwnedCall};
use crate::command::{command_call, first_call, Command, CommandModel, OwnedCommand};
use crate::json::{emit_line, emit_ndjson, json_line, no_fields, text_list, Json, Tree};
use crate::output::{
    build_info_to_json, build_tree, lossy_text, nullable_integer, opt_integer, output_doc,
    stream_tree, BuildInfo, StreamKind,
};
use crate::prune::{
    kind_call, kind_label, kind_word, prune_kinds, prune_report, prune_set, report_holds,
    PruneFlags, PruneKind, PruneSet,
};
use crate::text::{concat2, concat3, texts};

verus! {

/// What is left to do of a command.
#[allow(inconsistent_fields)]
pub enum Job<J, T, L, C> {
    /// Whether the daemon answers.
    Ping,
    /// One document to write.
    One { label: T },
    /// A list of documents to write.
    List { label: T },
    /// A stream of documents to write.
    Follow { label: T },
    /// The first document of a stream to write.
    First { label: T },
    /// A document to write once the daemon has agreed.
    Acknowledge { label: T, doc: J },
    /// A container to be created, and perhaps started.
    Creating { start: bool },
    /// A created container to be started.
    Starting { id: T, warnings: L },
    /// What a container has written, as documents where it is followed and else as it is.
    Logs { follow: bool },
    /// A command to be set up in a container.
    ExecCreating { tty: bool },
    /// A command to be started.
    ExecStarting { id: T },
    /// What the command writes.
    ExecRunning { id: T },
    /// How the command ended.
    ExecInspecting,
    /// The context of a build to be packed, for this call.
    Packing { call: C },
    /// What a build reports.
    Building,
    /// A kind of object that is being pruned, those behind it, and the report so far.
    Pruning { kind: PruneKind, rest: PruneSet, report: J },
}

/// What came of the last turn.
pub enum Notice<J, T, L, B> {
    /// The daemon has agreed.
    Agreed,
    /// The text of a document that the daemon answered, or of the next item of a stream.
    Document(T),
    /// The texts of the documents of a list.
    Listing(L),
    /// A document that the daemon answered.
    Answer(J),
    /// A container was created.
    Created { id: T, warnings: L },
    /// A command was set up.
    ExecCreated(T),
    /// A command has started, and its output follows.
    Attached,
    /// A command has started, and there is no output to follow.
    Detached,
    /// Some output of a container.
    Output(StreamKind, B),
    /// How a command ended, if it did.
    Exit(Option<i64>),
    /// Something that a build reports.
    Report(BuildInfo<T>),
    /// The context of a build is packed.
    Packed,
    /// The stream has ended.
    Ended,
    /// The turn failed for this cause.
    Failed(T),
}

/// What a job needs next.
pub enum Need<S, C, T> {
    /// This call, and its answer or the first item of its stream.
    Call(S, C),
    /// The next item of the stream.
    Next(S),
    /// The packed context of a build.
    Pack(S),
    /// Nothing: the command is done.
    Done,
    /// Nothing: the command failed, and this is the line that tells why.
    Failed(T),
}

/// What a job writes in one turn, to its output and as lines of notes, and what it needs next.
pub struct Turn<B, L, N> {
    pub out: B,
    pub notes: L,
    pub need: N,
}

/// A job as it is held.
pub type OwnedJob = Job<Json, String, Vec<String>, OwnedCall>;

/// What a job holds.
pub type JobModel = Job<Tree, Seq<char>, Seq<Seq<char>>, CallModel>;

/// A notice as it is told.
pub type OwnedNotice = Notice<Json, String, Vec<String>, Vec<u8>>;

/// What a notice holds.
pub type NoticeModel = Notice<Tree, Seq<char>, Seq<Seq<char>>, Seq<u8>>;

/// A turn as it is taken.
pub type OwnedTurn = Turn<Vec<u8>, Vec<String>, Need<OwnedJob, OwnedCall, String>>;

/// What a turn holds.
pub type TurnModel = Turn<Seq<u8>, Seq<Seq<char>>, Need<JobModel, CallModel, Seq<char>>>;

impl Job<Json, String, Vec<String>, OwnedCall> {
    /// What the job holds.
    pub open spec fn model(self) -> JobModel {
        match self {
            Job::Ping => Job::Ping,
            Job::One { label } => Job::One { label: label@ },
            Job::List { label } => Job::List { label: label@ },
            Job::Follow { label } => Job::Follow { label: label@ },
            Job::First { label } => Job::First { label: label@ },
            Job::Acknowledge { label, doc } => Job::Acknowledge { label: label@, doc: doc.tree() },
            Job::Creating { start } => Job::Creating { start },
            Job::Starting { id, warnings } => Job::Starting { id: id@, warnings: texts(warnings@) },
            Job::Logs { follow } => Job::Logs { follow },
            Job::ExecCreating { tty } => Job::ExecCreating { tty },
            Job::ExecStarting { id } => Job::ExecStarting { id: id@ },
            Job::ExecRunning { id } => Job::ExecRunning { id: id@ },
            Job::ExecInspecting => Job::ExecInspecting,
            Job::Packing { call } => Job::Packing { call: call.model() },
            Job::Building => Job::Building,
            Job::Pruning { kind, rest, report } => Job::Pruning {
                kind,
                rest,
                report: report.tree(),
            },
        }
    }
}

impl Notice<Json, String, Vec<String>, Vec<u8>> {
    /// What the notice holds.
    pub open spec fn model(self) -> NoticeModel {
        match self {
            Notice::Agreed => Notice::Agreed,
            Notice::Document(s) => Notice::Document(s@),
            Notice::Listing(v) => Notice::Listing(texts(v@)),
            Notice::Answer(j) => Notice::Answer(j.tree()),
            Notice::Created { id, warnings } => Notice::Created {
                id: id@,
                warnings: texts(warnings@),
            },
            Notice::ExecCreated(id) => Notice::ExecCreated(id@),
            Notice::Attached => Notice::Attached,
            Notice::Detached => Notice::Detached,
            Notice::Output(k, b) => Notice::Output(k, b@),
            Notice::Exit(n) => Notice::Exit(n),
            Notice::Report(b) => Notice::Report(b.model()),
            Notice::Packed => Notice::Packed,
            Notice::Ended => Notice::Ended,
            Notice::Failed(s) => Notice::Failed(s@),
        }
    }
}

impl Turn<Vec<u8>, Vec<String>, Need<OwnedJob, OwnedCall, String>> {
    /// What the turn holds.
    pub open spec fn model(self) -> TurnModel {
        Turn {
            out: self.out@,
            notes: texts(self.notes@),
            need: match self.need {
                Need::Call(job, call) => Need::Call(job.model(), call.model()),
                Need::Next(job) => Need::Next(job.model()),
                Need::Pack(job) => Need::Pack(job.model()),
                Need::Done => Need::Done,
                Need::Failed(s) => Need::Failed(s@),
            },
        }
    }
}

/// A document with an id and what has become of it.
pub open spec fn done_tree(key: Seq<char>, id: Seq<char>, word: Seq<char>) -> Tree {
    Tree::Object(no_fields().insert(key, Tree::Text(id)).insert(word, Tree::Bool(true)))
}

/// The document about a created container.
pub open spec fn created_tree(id: Seq<char>, warnings: Seq<Seq<char>>, started: bool) -> Tree {
    Tree::Object(
        no_fields().insert("id"@, Tree::Text(id)).insert("warnings"@, text_list(warnings)).insert(
            "started"@,
            Tree::Bool(started),
        ),
    )
}

/// A document with one field.
pub open spec fn single(key: Seq<char>, value: Tree) -> Tree {
    Tree::Object(no_fields().insert(key, value))
}

/// The line of a text.
pub open spec fn text_line(t: Seq<char>) -> Seq<u8> {
    encode_utf8(t).push(10u8)
}

/// The lines of texts, in their order.
pub open spec fn text_lines(v: Seq<Seq<char>>) -> Seq<u8>
    decreases v.len(),
{
    if v.len() == 0 {
        Seq::empty()
    } else {
        text_lines(v.drop_last()) + text_line(v.last())
    }
}

/// The job that a command is.
pub open spec fn command_job(c: CommandModel) -> JobModel {
    match c {
        Command::Ping => Job::Ping,
        Command::Version => Job::One { label: "version"@ },
        Command::Info => Job::One { label: "info"@ },
        Command::Events { .. } => Job::Follow { label: "event"@ },
        Command::Ps { .. } => Job::List { label: "list_containers"@ },
        Command::Inspect { .. } => Job::One { label: "inspect"@ },
        Command::Run { .. } => Job::Creating { start: true },
        Command::Create { .. } => Job::Creating { start: false },
        Command::Start { container } => Job::Acknowledge {
            label: "start_container"@,
            doc: done_tree("id"@, container, "started"@),
        },
        Command::Stop { container, .. } => Job::Acknowledge {
            label: "stop_container"@,
            doc: done_tree("id"@, container, "stopped"@),
        },
        Command::Restart { container, .. } => Job::Acknowledge {
            label: "restart_container"@,
            doc: done_tree("id"@, container, "restarted"@),
        },
        Command::Kill { container, .. } => Job::Acknowledge {
            label: "kill_container"@,
            doc: done_tree("id"@, container, "killed"@),
        },
        Command::Rm { container, .. } => Job::Acknowledge {
            label: "remove_container"@,
            doc: done_tree("id"@, container, "removed"@),
        },
        Command::Logs { follow, .. } => Job::Logs { follow },
        Command::Exec { tty, .. } => Job::ExecCreating { tty },
        Command::Stats { stream, .. } => if stream {
            Job::Follow { label: "stats"@ }
        } else {
            Job::First { label: "stats"@ }
        },
        Command::Images { .. } => Job::List { label: "list_images"@ },
        Command::Pull { .. } => Job::Follow { label: "pull"@ },
        Command::Push { .. } => Job::Follow { label: "push"@ },
        Command::Rmi { .. } => Job::One { label: "remove_image"@ },
        Command::Tag { source, target } => Job::Acknowledge {
            label: "tag_image"@,
            doc: Tree::Object(
                no_fields().insert("source"@, Tree::Text(source)).insert(
                    "target"@,
                    Tree::Text(target),
                ).insert("tagged"@, Tree::Bool(true)),
            ),
        },
        Command::Build { .. } => Job::Packing { call: command_call(c) },
        Command::Networks { .. } => Job::List { label: "list_networks"@ },
        Command::NetworkCreate { .. } => Job::One { label: "create_network"@ },
        Command::NetworkRm { name } => Job::Acknowledge {
            label: "remove_network"@,
            doc: done_tree("name"@, name, "removed"@),
        },
        Command::Volumes { .. } => Job::List { label: "list_volumes"@ },
        Command::VolumeCreate { .. } => Job::One { label: "create_volume"@ },
        Command::VolumeRm { name, .. } => Job::Acknowledge {
            label: "remove_volume"@,
            doc: done_tree("name"@, name, "removed"@),
        },
        Command::Prune { flags } => match prune_set(flags).first() {
            Some(kind) => Job::Pruning {
                kind,
                rest: prune_set(flags).minus(kind),
                report: Tree::Object(no_fields()),
            },
            None => Job::Acknowledge { label: "prune"@, doc: Tree::Object(no_fields()) },
        },
    }
}

/// A turn that writes nothing.
pub open spec fn quiet(need: Need<JobModel, CallModel, Seq<char>>) -> TurnModel {
    Turn { out: Seq::empty(), notes: Seq::empty(), need }
}

/// A turn that writes some output.
pub open spec fn write(out: Seq<u8>, need: Need<JobModel, CallModel, Seq<char>>) -> TurnModel {
    Turn { out, notes: Seq::empty(), need }
}

/// The first turn of a command.
pub open spec fn helper_begin(c: CommandModel) -> TurnModel {
    match c {
        Command::Build { .. } => quiet(Need::Pack(command_job(c))),
        _ => quiet(Need::Call(command_job(c), command_call(c))),
    }
}

/// What a job is doing, as its errors are told.
pub open spec fn job_label(job: JobModel) -> Seq<char> {
    match job {
        Job::Ping => "ping"@,
        Job::One { label } => label,
        Job::List { label } => label,
        Job::Follow { label } => label,
        Job::First { label } => label,
        Job::Acknowledge { label, .. } => label,
        Job::Creating { .. } => "create_container"@,
        Job::Starting { .. } => "start_container"@,
        Job::Logs { .. } => "logs"@,
        Job::ExecCreating { .. } => "create_exec"@,
        Job::ExecStarting { .. } => "start_exec"@,
        Job::ExecRunning { .. } => "exec stream"@,
        Job::ExecInspecting => "inspect_exec"@,
        Job::Packing { .. } => "tar build context"@,
        Job::Building => "build"@,
        Job::Pruning { kind, .. } => kind_label(kind),
    }
}

/// The line that tells of a failure: what was being done, and why it failed.
pub open spec fn failure_line(label: Seq<char>, cause: Seq<char>) -> Seq<char> {
    "stryke-docker-helper: "@ + (label + ": "@ + cause)
}

/// The line that tells of a warning.
pub open spec fn warning_line(w: Seq<char>) -> Seq<char> {
    "stryke-docker-helper: warning: "@ + w
}

/// The turn behind a notice that the job does not wait for: it fails.
pub open spec fn confused(job: JobModel) -> TurnModel {
    quiet(Need::Failed(failure_line(job_label(job), "unexpected answer"@)))
}

/// The turn that prunes the next kind, or writes the report where there is none.
pub open spec fn prune_turn(left: PruneSet, report: Tree) -> TurnModel {
    match left.first() {
        Some(kind) => quiet(
            Need::Call(Job::Pruning { kind, rest: left.minus(kind), report }, kind_call(kind)),
        ),
        None => write(json_line(report), Need::Done),
    }
}

/// The turn behind a notice.
pub open spec fn helper_next(job: JobModel, n: NoticeModel) -> TurnModel {
    match (job, n) {
        (Job::Ping, Notice::Agreed) => write(
            json_line(single("ok"@, Tree::Bool(true))),
            Need::Done,
        ),
        (Job::Ping, Notice::Failed(_)) => write(
            json_line(single("ok"@, Tree::Bool(false))),
            Need::Done,
        ),
        (_, Notice::Failed(cause)) => quiet(Need::Failed(failure_line(job_label(job), cause))),
        (Job::One { .. }, Notice::Document(t)) => write(text_line(t), Need::Done),
        (Job::List { .. }, Notice::Listing(v)) => write(text_lines(v), Need::Done),
        (Job::Follow { .. }, Notice::Document(t)) => write(text_line(t), Need::Next(job)),
        (Job::Follow { .. }, Notice::Ended) => quiet(Need::Done),
        (Job::First { .. }, Notice::Document(t)) => write(text_line(t), Need::Done),
        (Job::First { .. }, Notice::Ended) => quiet(Need::Done),
        (Job::Acknowledge { doc, .. }, Notice::Agreed) => write(json_line(doc), Need::Done),
        (Job::Creating { start }, Notice::Created { id, warnings }) => Turn {
            out: if start {
                Seq::empty()
            } else {
                json_line(created_tree(id, warnings, false))
            },
            notes: warnings.map_values(|w: Seq<char>| warning_line(w)),
            need: if start {
                Need::Call(Job::Starting { id, warnings }, Call::StartContainer { container: id })
            } else {
                Need::Done
            },
        },
        (Job::Starting { id, warnings }, Notice::Agreed) => write(
            json_line(created_tree(id, warnings, true)),
            Need::Done,
        ),
        (Job::Logs { follow }, Notice::Output(k, bytes)) => write(
            if follow {
                json_line(stream_tree(k, lossy_text(bytes)))
            } else {
                bytes
            },
            Need::Next(job),
        ),
        (Job::Logs { .. }, Notice::Ended) => quiet(Need::Done),
        (Job::ExecCreating { tty }, Notice::ExecCreated(id)) => quiet(
            Need::Call(Job::ExecStarting { id }, Call::StartExec { id, tty: Some(tty) }),
        ),
        (Job::ExecStarting { id }, Notice::Attached) => quiet(Need::Next(Job::ExecRunning { id })),
        (Job::ExecStarting { id }, Notice::Detached) => write(
            json_line(single("detached"@, Tree::Bool(true))),
            Need::Call(Job::ExecInspecting, Call::InspectExec { id }),
        ),
        (Job::ExecRunning { .. }, Notice::Output(k, bytes)) => write(
            json_line(stream_tree(k, lossy_text(bytes))),
            Need::Next(job),
        ),
        (Job::ExecRunning { id }, Notice::Ended) => quiet(
            Need::Call(Job::ExecInspecting, Call::InspectExec { id }),
        ),
        (Job::ExecInspecting, Notice::Exit(code)) => write(
            json_line(single("exit_code"@, nullable_integer(code))),
            Need::Done,
        ),
        (Job::Packing { call }, Notice::Packed) => quiet(Need::Call(Job::Building, call)),
        (Job::Building, Notice::Report(b)) => write(json_line(build_tree(b)), Need::Next(job)),
        (Job::Building, Notice::Ended) => quiet(Need::Done),
        (Job::Pruning { kind, rest, report }, Notice::Answer(a)) => prune_turn(
            rest,
            report.with(kind_word(kind), a),
        ),
        _ => confused(job),
    }
}

/// A turn that writes nothing.
fn quietly(need: Need<OwnedJob, OwnedCall, String>) -> (r: OwnedTurn)
    ensures
        r.out@ == Seq::<u8>::empty(),
        texts(r.notes@) == Seq::<Seq<char>>::empty(),
        r.need == need,
{
    let r = Turn { out: Vec::new(), notes: Vec::new(), need };
    assert(texts(r.notes@) =~= Seq::empty());
    r
}

/// A turn that writes a document.
fn write_doc(doc: Json, need: Need<OwnedJob, OwnedCall, String>) -> (r: OwnedTurn)
    ensures
        r.out@ == json_line(doc.tree()),
        texts(r.notes@) == Seq::<Seq<char>>::empty(),
        r.need == need,
{
    let mut r = quietly(need);
    let mut out: Vec<u8> = Vec::new();
    emit_ndjson(&mut out, doc);
    assert(out@ =~= json_line(doc.tree()));
    r.out = out;
    r
}

/// A turn that writes a text as a line.
fn write_text(t: &str, need: Need<OwnedJob, OwnedCall, String>) -> (r: OwnedTurn)
    ensures
        r.out@ == text_line(t@),
        texts(r.notes@) == Seq::<Seq<char>>::empty(),
        r.need == need,
{
    let mut r = quietly(need);
    let mut out: Vec<u8> = Vec::new();
    emit_line(&mut out, t);
    assert(out@ =~= text_line(t@));
    r.out = out;
    r
}

/// The lines of texts.
fn lines(v: &Vec<String>) -> (r: Vec<u8>)
    ensures
        r@ == text_lines(texts(v@)),
{
    let mut out: Vec<u8> = Vec::new();
    let ghost all = texts(v@);
    let mut i: usize = 0;
    assert(out@ =~= text_lines(all.take(0)));
    while i < v.len()
        invariant
            i <= v@.len(),
            all == texts(v@),
            out@ == text_lines(all.take(i as int)),
        decreases v.len() - i,
    {
        assert(all.take(i + 1).drop_last() =~= all.take(i as int));
        emit_line(&mut out, v[i].as_str());
        i = i + 1;
    }
    assert(all.take(all.len() as int) =~= all);
    out
}

/// The lines that tell of warnings.
fn warning_lines(v: &Vec<String>) -> (r: Vec<String>)
    ensures
        texts(r@) == texts(v@).map_values(|w: Seq<char>| warning_line(w)),
{
    let mut out: Vec<String> = Vec::new();
    let mut i: usize = 0;
    while i < v.len()
        invariant
            i <= v@.len(),
            out@.len() == i,
            forall|j: int| 0 <= j < i ==> (#[trigger] out@[j])@ == warning_line(v@[j]@),
        decreases v.len() - i,
    {
        out.push(concat2("stryke-docker-helper: warning: ", v[i].as_str()));
        i = i + 1;
    }
    assert(texts(out@) =~= texts(v@).map_values(|w: Seq<char>| warning_line(w)));
    out
}

/// The document about a created container.
pub fn created_doc(id: String, warnings: Vec<String>, started: bool) -> (r: Json)
    ensures
        r.tree() == created_tree(id@, texts(warnings@), started),
{
    Json::object().with("id", Json::Text(id)).with("warnings", Json::texts(warnings)).with(
        "started",
        Json::Bool(started),
    )
}

/// A document with an id and what has become of it.
fn done_doc(key: &str, id: &String, word: &str) -> (r: Json)
    ensures
        r.tree() == done_tree(key@, id@, word@),
{
    Json::object().with(key, Json::text(id.as_str())).with(word, Json::Bool(true))
}

/// A job with one document to write.
fn one(label: &str) -> (r: OwnedJob)
    ensures
        r.model() == (Job::<Tree, Seq<char>, Seq<Seq<char>>, CallModel>::One { label: label@ }),
{
    Job::One { label: label.to_owned() }
}

/// A job with a list of documents to write.
fn listing(label: &str) -> (r: OwnedJob)
    ensures
        r.model() == (Job::<Tree, Seq<char>, Seq<Seq<char>>, CallModel>::List { label: label@ }),
{
    Job::List { label: label.to_owned() }
}

/// A job with a stream of documents to write.
fn following(label: &str) -> (r: OwnedJob)
    ensures
        r.model() == (Job::<Tree, Seq<char>, Seq<Seq<char>>, CallModel>::Follow { label: label@ }),
{
    Job::Follow { label: label.to_owned() }
}

/// A job with a document to write once the daemon has agreed.
fn acknowledge(label: &str, doc: Json) -> (r: OwnedJob)
    ensures
        r.model() == (Job::<Tree, Seq<char>, Seq<Seq<char>>, CallModel>::Acknowledge {
            label: label@,
            doc: doc.tree(),
        }),
{
    Job::Acknowledge { label: label.to_owned(), doc }
}

/// The job that a command is, but for a build.
fn job_of(command: &OwnedCommand) -> (r: OwnedJob)
    requires
        !(command is Build),
    ensures
        r.model() == command_job(command.model()),
{
    match command {
        Command::Ping => Job::Ping,
        Command::Version => one("version"),
        Command::Info => one("info"),
        Command::Events { .. } => following("event"),
        Command::Ps { .. } => listing("list_containers"),
        Command::Inspect { .. } => one("inspect"),
        Command::Run { .. } => Job::Creating { start: true },
        Command::Create { .. } => Job::Creating { start: false },
        Command::Start { container } => acknowledge(
            "start_container",
            done_doc("id", container, "started"),
        ),
        Command::Stop { container, .. } => acknowledge(
            "stop_container",
            done_doc("id", container, "stopped"),
        ),
        Command::Restart { container, .. } => acknowledge(
            "restart_container",
            done_doc("id", container, "restarted"),
        ),
        Command::Kill { container, .. } => acknowledge(
            "kill_container",
            done_doc("id", container, "killed"),
        ),
        Command::Rm { container, .. } => acknowledge(
            "remove_container",
            done_doc("id", container, "removed"),
        ),
        Command::Logs { follow, .. } => Job::Logs { follow: *follow },
        Command::Exec { tty, .. } => Job::ExecCreating { tty: *tty },
        Command::Stats { stream, .. } => if *stream {
            following("stats")
        } else {
            Job::First { label: "stats".to_owned() }
        },
        Command::Images { .. } => listing("list_images"),
        Command::Pull { .. } => following("pull"),
        Command::Push { .. } => following("push"),
        Command::Rmi { .. } => one("remove_image"),
        Command::Tag { source, target } => acknowledge(
            "tag_image",
            Json::object().with("source", Json::text(source.as_str())).with(
                "target",
                Json::text(target.as_str()),
            ).with("tagged", Json::Bool(true)),
        ),
        Command::Build { .. } => Job::Building,
        Command::Networks { .. } => listing("list_networks"),
        Command::NetworkCreate { .. } => one("create_network"),
        Command::NetworkRm { name } => acknowledge(
            "remove_network",
            done_doc("name", name, "removed"),
        ),
        Command::Volumes { .. } => listing("list_volumes"),
        Command::VolumeCreate { .. } => one("create_volume"),
        Command::VolumeRm { name, .. } => acknowledge(
            "remove_volume",
            done_doc("name", name, "removed"),
        ),
        Command::Prune { flags } => match prune_kinds(*flags).split_first() {
            Some((kind, rest)) => Job::Pruning { kind, rest, report: Json::object() },
            None => acknowledge("prune", Json::object()),
        },
    }
}

/// Takes the first turn of a command.
pub fn run(command: OwnedCommand) -> (r: OwnedTurn)
    ensures
        r.model() == helper_begin(command.model()),
{
    match command {
        Command::Build { tag, dockerfile, build_args, no_cache, pull, rm } => {
            let call = first_call(
                Command::Build { tag, dockerfile, build_args, no_cache, pull, rm },
            );
            quietly(Need::Pack(Job::Packing { call }))
        },
        other => {
            let job = job_of(&other);
            quietly(Need::Call(job, first_call(other)))
        },
    }
}

/// What a job is doing, as its errors are told.
fn label_of(job: &OwnedJob) -> (r: String)
    ensures
        r@ == job_label(job.model()),
{
    match job {
        Job::Ping => "ping".to_owned(),
        Job::One { label } => label.clone(),
        Job::List { label } => label.clone(),
        Job::Follow { label } => label.clone(),
        Job::First { label } => label.clone(),
        Job::Acknowledge { label, .. } => label.clone(),
        Job::Creating { .. } => "create_container".to_owned(),
        Job::Starting { .. } => "start_container".to_owned(),
        Job::Logs { .. } => "logs".to_owned(),
        Job::ExecCreating { .. } => "create_exec".to_owned(),
        Job::ExecStarting { .. } => "start_exec".to_owned(),
        Job::ExecRunning { .. } => "exec stream".to_owned(),
        Job::ExecInspecting => "inspect_exec".to_owned(),
        Job::Packing { .. } => "tar build context".to_owned(),
        Job::Building => "build".to_owned(),
        Job::Pruning { kind, .. } => kind.label().to_owned(),
    }
}

/// The line that tells of a failure.
pub fn failure(label: &str, cause: &str) -> (r: String)
    ensures
        r@ == failure_line(label@, cause@),
{
    concat2("stryke-docker-helper: ", concat3(label, ": ", cause).as_str())
}

/// Fails for a cause.
fn fail(job: &OwnedJob, cause: &str) -> (r: OwnedTurn)
    ensures
        r.model() == quiet(Need::Failed(failure_line(job_label(job.model()), cause@))),
{
    let label = label_of(job);
    quietly(Need::Failed(failure(label.as_str(), cause)))
}

/// Prunes the next kind, or writes the report where there is none.
fn prune_more(left: PruneSet, report: Json) -> (r: OwnedTurn)
    ensures
        r.model() == prune_turn(left, report.tree()),
{
    match left.split_first() {
        Some((kind, rest)) => quietly(
            Need::Call(Job::Pruning { kind, rest, report }, kind.call()),
        ),
        None => write_doc(report, Need::Done),
    }
}

/// Goes on from a created container.
fn created(start: bool, id: String, warnings: Vec<String>) -> (r: OwnedTurn)
    ensures
        r.model() == helper_next(
            Job::Creating { start },
            Notice::Created { id: id@, warnings: texts(warnings@) },
        ),
{
    let notes = warning_lines(&warnings);
    let mut r = if start {
        let container = id.clone();
        quietly(Need::Call(Job::Starting { id, warnings }, Call::StartContainer { container }))
    } else {
        write_doc(created_doc(id, warnings, false), Need::Done)
    };
    r.notes = notes;
    r
}

/// Takes the turn behind a notice.
pub fn resume(job: OwnedJob, notice: OwnedNotice) -> (r: OwnedTurn)
    ensures
        r.model() == helper_next(job.model(), notice.model()),
{
    match (job, notice) {
        (Job::Ping, Notice::Agreed) => write_doc(
            Json::object().with("ok", Json::Bool(true)),
            Need::Done,
        ),
        (Job::Ping, Notice::Failed(_)) => write_doc(
            Json::object().with("ok", Json::Bool(false)),
            Need::Done,
        ),
        (job, Notice::Failed(cause)) => fail(&job, cause.as_str()),
        (Job::One { .. }, Notice::Document(t)) => write_text(t.as_str(), Need::Done),
        (Job::List { .. }, Notice::Listing(v)) => {
            let mut r = quietly(Need::Done);
            r.out = lines(&v);
            r
        },
        (Job::Follow { label }, Notice::Document(t)) => write_text(
            t.as_str(),
            Need::Next(Job::Follow { label }),
        ),
        (Job::Follow { .. }, Notice::Ended) => quietly(Need::Done),
        (Job::First { .. }, Notice::Document(t)) => write_text(t.as_str(), Need::Done),
        (Job::First { .. }, Notice::Ended) => quietly(Need::Done),
        (Job::Acknowledge { doc, .. }, Notice::Agreed) => write_doc(doc, Need::Done),
        (Job::Creating { start }, Notice::Created { id, warnings }) => created(start, id, warnings),
        (Job::Starting { id, warnings }, Notice::Agreed) => write_doc(
            created_doc(id, warnings, true),
            Need::Done,
        ),
        (Job::Logs { follow }, Notice::Output(k, bytes)) => if follow {
            write_doc(output_doc(k, bytes.as_slice()), Need::Next(Job::Logs { follow }))
        } else {
            let mut r = quietly(Need::Next(Job::Logs { follow }));
            r.out = bytes;
            r
        },
        (Job::Logs { .. }, Notice::Ended) => quietly(Need::Done),
        (Job::ExecCreating { tty }, Notice::ExecCreated(id)) => {
            let call = Call::StartExec { id: id.clone(), tty: Some(tty) };
            quietly(Need::Call(Job::ExecStarting { id }, call))
        },
        (Job::ExecStarting { id }, Notice::Attached) => quietly(
            Need::Next(Job::ExecRunning { id }),
        ),
        (Job::ExecStarting { id }, Notice::Detached) => write_doc(
            Json::object().with("detached", Json::Bool(true)),
            Need::Call(Job::ExecInspecting, Call::InspectExec { id }),
        ),
        (Job::ExecRunning { id }, Notice::Output(k, bytes)) => write_doc(
            output_doc(k, bytes.as_slice()),
            Need::Next(Job::ExecRunning { id }),
        ),
        (Job::ExecRunning { id }, Notice::Ended) => quietly(
            Need::Call(Job::ExecInspecting, Call::InspectExec { id }),
        ),
        (Job::ExecInspecting, Notice::Exit(code)) => write_doc(
            Json::object().with("exit_code", opt_integer(code)),
            Need::Done,
        ),
        (Job::Packing { call }, Notice::Packed) => quietly(Need::Call(Job::Building, call)),
        (Job::Building, Notice::Report(b)) => write_doc(
            build_info_to_json(b),
            Need::Next(Job::Building),
        ),
        (Job::Building, Notice::Ended) => quietly(Need::Done),
        (Job::Pruning { kind, rest, report }, Notice::Answer(a)) => prune_more(
            rest,
            report.with(kind.word(), a),
        ),
        (job, _) => fail(&job, "unexpected answer"),
    }
}

/// The turn behind a notice, whatever the turn before it asked for. What is done stays done.
pub open spec fn turn_after(turn: TurnModel, n: NoticeModel) -> TurnModel {
    match turn.need {
        Need::Call(job, _) => helper_next(job, n),
        Need::Next(job) => helper_next(job, n),
        Need::Pack(job) => helper_next(job, n),
        Need::Done => quiet(Need::Done),
        Need::Failed(line) => quiet(Need::Failed(line)),
    }
}

/// All that is written from a turn on, through a sequence of notices, and what is needed then.
pub open spec fn transcript(turn: TurnModel, notices: Seq<NoticeModel>) -> (
    Seq<u8>,
    Need<JobModel, CallModel, Seq<char>>,
)
    decreases notices.len(),
{
    if notices.len() == 0 {
        (turn.out, turn.need)
    } else {
        let (out, need) = transcript(turn_after(turn, notices[0]), notices.drop_first());
        (turn.out + out, need)
    }
}

/// The notices of a stream that sends documents and ends.
pub open spec fn document_stream(docs: Seq<Seq<char>>) -> Seq<NoticeModel> {
    docs.map_values(
        |d: Seq<char>| Notice::<Tree, Seq<char>, Seq<Seq<char>>, Seq<u8>>::Document(d),
    ).push(Notice::Ended)
}

/// The notices of a stream that sends output and ends.
pub open spec fn output_stream(chunks: Seq<(StreamKind, Seq<u8>)>) -> Seq<NoticeModel> {
    chunks.map_values(
        |c: (StreamKind, Seq<u8>)|
            Notice::<Tree, Seq<char>, Seq<Seq<char>>, Seq<u8>>::Output(c.0, c.1),
    ).push(Notice::Ended)
}

/// The bytes of output, one behind the other.
pub open spec fn raw_output(chunks: Seq<(StreamKind, Seq<u8>)>) -> Seq<u8>
    decreases chunks.len(),
{
    if chunks.len() == 0 {
        Seq::empty()
    } else {
        chunks[0].1 + raw_output(chunks.drop_first())
    }
}

/// The lines of the documents that show output, one behind the other.
pub open spec fn shown_output(chunks: Seq<(StreamKind, Seq<u8>)>) -> Seq<u8>
    decreases chunks.len(),
{
    if chunks.len() == 0 {
        Seq::empty()
    } else {
        json_line(stream_tree(chunks[0].0, lossy_text(chunks[0].1))) + shown_output(
            chunks.drop_first(),
        )
    }
}

/// The first of some lines stands in front of the others.
proof fn first_line(v: Seq<Seq<char>>)
    requires
        v.len() > 0,
    ensures
        text_lines(v) == text_line(v[0]) + text_lines(v.drop_first()),
    decreases v.len(),
{
    if v.len() == 1 {
        assert(v.drop_last() =~= Seq::empty());
        assert(v.drop_first() =~= Seq::empty());
        assert(text_lines(v.drop_last()) =~= Seq::empty());
        assert(text_lines(v) =~= text_line(v[0]) + text_lines(v.drop_first()));
    } else {
        first_line(v.drop_last());
        assert(v.drop_last().drop_first() =~= v.drop_first().drop_last());
        assert(text_lines(v) =~= text_line(v[0]) + text_lines(v.drop_first()));
    }
}

/// What is written in front of a transcript stands in front of it.
proof fn transcript_behind(
    a: TurnModel,
    b: TurnModel,
    notices: Seq<NoticeModel>,
)
    requires
        a.need == b.need,
        b.out == Seq::<u8>::empty(),
    ensures
        transcript(a, notices) == (a.out + transcript(b, notices).0, transcript(b, notices).1),
{
    if notices.len() > 0 {
        assert(turn_after(a, notices[0]) == turn_after(b, notices[0]));
        let (out, need) = transcript(turn_after(a, notices[0]), notices.drop_first());
        assert(b.out + out =~= out);
    }
    assert(a.out + Seq::<u8>::empty() =~= a.out);
}

/// A followed stream is written line by line, from wherever it is.
proof fn following_writes(label: Seq<char>, docs: Seq<Seq<char>>)
    ensures
        transcript(quiet(Need::Next(Job::Follow { label })), document_stream(docs)) == (
            text_lines(docs),
            Need::<JobModel, CallModel, Seq<char>>::Done,
        ),
    decreases docs.len(),
{
    let job: JobModel = Job::Follow { label };
    let notices = document_stream(docs);
    let turn = quiet(Need::Next(job));
    reveal_with_fuel(transcript, 2);
    if docs.len() == 0 {
        assert(notices =~= seq![Notice::Ended]);
        assert(notices.drop_first() =~= Seq::empty());
        assert(Seq::<u8>::empty() + Seq::<u8>::empty() =~= Seq::<u8>::empty());
    } else {
        let rest = docs.drop_first();
        assert(notices[0] == Notice::<Tree, Seq<char>, Seq<Seq<char>>, Seq<u8>>::Document(docs[0]));
        assert(notices.drop_first() =~= document_stream(rest));
        following_writes(label, rest);
        let next = helper_next(job, notices[0]);
        transcript_behind(next, turn, document_stream(rest));
        first_line(docs);
        assert(turn.out + (next.out + text_lines(rest)) =~= text_lines(docs));
    }
}

/// The commands that follow a stream write each of its documents as a line, in the order in which
/// they come, and are done when it ends.
pub proof fn followed_documents_are_lines(c: CommandModel, docs: Seq<Seq<char>>)
    requires
        command_job(c) is Follow,
    ensures
        transcript(helper_begin(c), document_stream(docs)) == (
            text_lines(docs),
            Need::<JobModel, CallModel, Seq<char>>::Done,
        ),
{
    let job = command_job(c);
    following_writes(job->Follow_label, docs);
    let a = helper_begin(c);
    let b = quiet(Need::Next(job));
    let notices = document_stream(docs);
    assert(turn_after(a, notices[0]) == turn_after(b, notices[0]));
}

/// Logs are written from wherever they are.
proof fn logging_writes(follow: bool, chunks: Seq<(StreamKind, Seq<u8>)>)
    ensures
        transcript(quiet(Need::Next(Job::Logs { follow })), output_stream(chunks)) == (
            if follow {
                shown_output(chunks)
            } else {
                raw_output(chunks)
            },
            Need::<JobModel, CallModel, Seq<char>>::Done,
        ),
    decreases chunks.len(),
{
    let job: JobModel = Job::Logs { follow };
    let notices = output_stream(chunks);
    let turn = quiet(Need::Next(job));
    reveal_with_fuel(transcript, 2);
    if chunks.len() == 0 {
        assert(notices =~= seq![Notice::Ended]);
        assert(notices.drop_first() =~= Seq::empty());
        assert(Seq::<u8>::empty() + Seq::<u8>::empty() =~= Seq::<u8>::empty());
    } else {
        let rest = chunks.drop_first();
        let (k, bytes) = chunks[0];
        assert(notices[0] == Notice::<Tree, Seq<char>, Seq<Seq<char>>, Seq<u8>>::Output(k, bytes));
        assert(notices.drop_first() =~= output_stream(rest));
        logging_writes(follow, rest);
        let next = helper_next(job, notices[0]);
        transcript_behind(next, turn, output_stream(rest));
        let behind = if follow {
            shown_output(rest)
        } else {
            raw_output(rest)
        };
        assert(turn.out + (next.out + behind) =~= next.out + behind);
    }
}

/// Logs are written as they are, byte for byte, where they are not followed, and where they are,
/// as one document for each piece that comes.
pub proof fn logs_are_written_whole(c: CommandModel, chunks: Seq<(StreamKind, Seq<u8>)>)
    requires
        c is Logs,
    ensures
        transcript(helper_begin(c), output_stream(chunks)) == (
            if c->Logs_follow {
                shown_output(chunks)
            } else {
                raw_output(chunks)
            },
            Need::<JobModel, CallModel, Seq<char>>::Done,
        ),
{
    let job = command_job(c);
    logging_writes(c->Logs_follow, chunks);
    let a = helper_begin(c);
    let b = quiet(Need::Next(job));
    let notices = output_stream(chunks);
    assert(turn_after(a, notices[0]) == turn_after(b, notices[0]));
}

/// What a command in a container writes is shown from wherever it is, and then how it ended is
/// asked for.
proof fn executing_writes(id: Seq<char>, chunks: Seq<(StreamKind, Seq<u8>)>)
    ensures
        transcript(quiet(Need::Next(Job::ExecRunning { id })), output_stream(chunks)) == (
            shown_output(chunks),
            Need::<JobModel, CallModel, Seq<char>>::Call(
                Job::ExecInspecting,
                Call::InspectExec { id },
            ),
        ),
    decreases chunks.len(),
{
    let job: JobModel = Job::ExecRunning { id };
    let notices = output_stream(chunks);
    let turn = quiet(Need::Next(job));
    reveal_with_fuel(transcript, 2);
    if chunks.len() == 0 {
        assert(notices =~= seq![Notice::Ended]);
        assert(notices.drop_first() =~= Seq::empty());
        assert(Seq::<u8>::empty() + Seq::<u8>::empty() =~= Seq::<u8>::empty());
    } else {
        let rest = chunks.drop_first();
        let (k, bytes) = chunks[0];
        assert(notices[0] == Notice::<Tree, Seq<char>, Seq<Seq<char>>, Seq<u8>>::Output(k, bytes));
        assert(notices.drop_first() =~= output_stream(rest));
        executing_writes(id, rest);
        let next = helper_next(job, notices[0]);
        transcript_behind(next, turn, output_stream(rest));
        assert(turn.out + (next.out + shown_output(rest)) =~= next.out + shown_output(rest));
    }
}

/// Notices are told one behind the other.
proof fn transcript_joins(turn: TurnModel, a: Seq<NoticeModel>, b: Seq<NoticeModel>)
    ensures
        transcript(turn, a + b) == ({
            let (out, need) = transcript(turn, a);
            let (more, end) = transcript(quiet(need), b);
            (out + more, end)
        }),
    decreases a.len(),
{
    if a.len() == 0 {
        assert(a + b =~= b);
        transcript_behind(turn, quiet(turn.need), b);
    } else {
        assert((a + b).drop_first() =~= a.drop_first() + b);
        assert((a + b)[0] == a[0]);
        let next = turn_after(turn, a[0]);
        transcript_joins(next, a.drop_first(), b);
        let (out, need) = transcript(next, a.drop_first());
        let (more, end) = transcript(quiet(need), b);
        assert(turn.out + (out + more) =~= turn.out + out + more);
    }
}

/// A command in a container is shown by one document for each piece of its output, in the order
/// in which they come, and last by how it ended.
pub proof fn executed_command_is_shown(
    c: CommandModel,
    id: Seq<char>,
    chunks: Seq<(StreamKind, Seq<u8>)>,
    code: Option<i64>,
)
    requires
        c is Exec,
    ensures
        transcript(
            helper_begin(c),
            seq![Notice::ExecCreated(id), Notice::Attached] + output_stream(chunks) + seq![
                Notice::Exit(code),
            ],
        ) == (
            shown_output(chunks) + json_line(single("exit_code"@, nullable_integer(code))),
            Need::<JobModel, CallModel, Seq<char>>::Done,
        ),
{
    let first = seq![
        Notice::<Tree, Seq<char>, Seq<Seq<char>>, Seq<u8>>::ExecCreated(id),
        Notice::Attached,
    ];
    let last = seq![Notice::<Tree, Seq<char>, Seq<Seq<char>>, Seq<u8>>::Exit(code)];
    let stream = output_stream(chunks);
    transcript_joins(helper_begin(c), first + stream, last);
    transcript_joins(helper_begin(c), first, stream);
    executing_writes(id, chunks);
    reveal_with_fuel(transcript, 3);
    assert(first.drop_first() =~= seq![Notice::Attached]);
    assert(first.drop_first().drop_first() =~= Seq::empty());
    assert(last.drop_first() =~= Seq::empty());
    let none = Seq::<u8>::empty();
    assert(none + (none + none) =~= none);
    assert(none + shown_output(chunks) =~= shown_output(chunks));
    let end = json_line(single("exit_code"@, nullable_integer(code)));
    assert(none + end =~= end);
}

/// A container that is run is told as started only once the daemon has agreed to start it.
pub proof fn started_means_started(c: CommandModel, id: Seq<char>, warnings: Seq<Seq<char>>)
    requires
        c is Run,
    ensures
        ({
            let turn = turn_after(helper_begin(c), Notice::Created { id, warnings });
            &&& turn.out == Seq::<u8>::empty()
            &&& turn.need == Need::<JobModel, CallModel, Seq<char>>::Call(
                Job::Starting { id, warnings },
                Call::StartContainer { container: id },
            )
            &&& turn_after(turn, Notice::Agreed) == write(
                json_line(created_tree(id, warnings, true)),
                Need::Done,
            )
        }),
{
}

/// A container that is created is not started, and told so.
pub proof fn created_is_not_started(c: CommandModel, id: Seq<char>, warnings: Seq<Seq<char>>)
    requires
        c is Create,
    ensures
        transcript(helper_begin(c), seq![Notice::Created { id, warnings }]) == (
            json_line(created_tree(id, warnings, false)),
            Need::<JobModel, CallModel, Seq<char>>::Done,
        ),
{
    let notices = seq![
        Notice::<Tree, Seq<char>, Seq<Seq<char>>, Seq<u8>>::Created { id, warnings },
    ];
    reveal_with_fuel(transcript, 2);
    assert(notices.drop_first() =~= Seq::empty());
    let line = json_line(created_tree(id, warnings, false));
    assert(Seq::<u8>::empty() + line =~= line);
}

/// Every command but `ping` tells a failure by one line, with what it was doing and the cause,
/// and writes nothing for it.
pub proof fn helper_failure_is_told(job: JobModel, cause: Seq<char>)
    requires
        !(job is Ping),
    ensures
        helper_next(job, Notice::Failed(cause)) == quiet(
            Need::Failed(failure_line(job_label(job), cause)),
        ),
{
}

/// The answers to the pruning of some kinds, in the order of the kinds.
pub open spec fn prune_answers(
    left: PruneSet,
    answers: spec_fn(PruneKind) -> Tree,
) -> Seq<NoticeModel>
    decreases left.size(),
{
    match left.first() {
        Some(k) => seq![Notice::<Tree, Seq<char>, Seq<Seq<char>>, Seq<u8>>::Answer(answers(k))]
            + prune_answers(left.minus(k), answers),
        None => Seq::empty(),
    }
}

/// Pruning reports, from wherever it is.
proof fn pruning_reports(left: PruneSet, answers: spec_fn(PruneKind) -> Tree, report: Tree)
    ensures
        transcript(prune_turn(left, report), prune_answers(left, answers)) == (
            json_line(prune_report(left, answers, report)),
            Need::<JobModel, CallModel, Seq<char>>::Done,
        ),
    decreases left.size(),
{
    let notices = prune_answers(left, answers);
    if let Some(k) = left.first() {
        let rest = left.minus(k);
        let next = report.with(kind_word(k), answers(k));
        assert(notices.drop_first() =~= prune_answers(rest, answers));
        pruning_reports(rest, answers, next);
        let out = transcript(prune_turn(rest, next), prune_answers(rest, answers)).0;
        assert(Seq::<u8>::empty() + out =~= out);
    }
}

/// `prune` prunes the kinds that it is asked for, one call each, and writes one report: it holds
/// the daemon's answer for each of them, and nothing for the others.
pub proof fn pruned_kinds_are_reported(
    flags: PruneFlags,
    answers: spec_fn(PruneKind) -> Tree,
    k: PruneKind,
)
    ensures
        ({
            let set = prune_set(flags);
            let report = prune_report(set, answers, Tree::Object(no_fields()));
            &&& transcript(
                helper_begin(Command::Prune { flags }),
                prune_answers(set, answers),
            ) == (json_line(report), Need::<JobModel, CallModel, Seq<char>>::Done)
            &&& report.field(kind_word(k)) == if set.has_kind(k) {
                Some(answers(k))
            } else {
                None
            }
        }),
{
    let set = prune_set(flags);
    let empty = Tree::Object(no_fields());
    pruning_reports(set, answers, empty);
    report_holds(set, answers, empty, k);
    assert(helper_begin(Command::Prune { flags }) == prune_turn(set, empty));
}

} // verus!
