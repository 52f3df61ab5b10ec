//! A call of an exported function, from its arguments to its reply.
//!
//! A session says what it needs next: a connection, an answer to a call, the next item of a
//! stream. It is told what came of it by an event, and goes on until it has its reply.

use vstd::prelude::*;
use vstd::utf8::encode_utf8;

use crate::call::{Call, CallModel, OwnedCall};
use crate::json::{
    json_parse, json_text, nests_within, no_fields, plain_within, without_controls, Json, Num, Tree,
};
use crate::ops::{
    checks_first, op_call, op_prune_plan, prune_flags_in, prune_plan, refuses_offline, request,
    text_or, Op,
};
use crate::output::{from_utf8_lossy, lossy_text};
use crate::prune::{
    is_asked, kind_call, kind_word, prune_report, prune_set, report_holds, PruneKind, PruneSet,
};
use crate::refusal::{refusal_text, Field, Refusal};
use crate::reply::{
    answer_tree, args_tree, error_reply, error_tree, finish, opt_bytes, panic_reply, panic_text,
    read_args,
};

verus! {

/// How far a session is.
pub enum Stage<J, T> {
    /// It waits for a connection.
    Connecting,
    /// It waits for the answer to its call.
    Called,
    /// It waits for a command to start.
    Starting,
    /// It gathers texts; this is what it has.
    Gathering(T),
    /// It prunes a kind of object; these are the kinds behind it, and the report so far.
    Pruning { kind: PruneKind, rest: PruneSet, report: J },
}

/// A call of an exported function under way.
pub struct Session<J, T> {
    pub op: Op,
    pub opts: J,
    pub stage: Stage<J, T>,
}

/// What came of the last step.
pub enum Event<J, T, B> {
    /// There is a connection.
    Connected,
    /// The answer to a call, or the first item of a stream, as a document: of a commit the id of
    /// the image, of a call without an answer of its own `null`.
    Answer(J),
    /// The id of the command that was set up.
    Created(T),
    /// The status with which a container exited.
    Exited(i64),
    /// A command has started, and its output follows.
    Attached,
    /// A command has started, and there is no output to follow.
    Detached,
    /// Some bytes of a stream of text.
    Chunk(B),
    /// An item of a stream that is drained.
    Item,
    /// The stream has ended.
    Ended,
    /// The step failed with this message.
    Failed(T),
    /// The step panicked.
    Panicked,
}

/// What a session needs next.
pub enum Step<S, C, T> {
    /// A connection for the arguments of the session.
    Connect(S),
    /// This call, and its answer or the first item of its stream.
    Call(S, C),
    /// The next item of the stream.
    Next(S),
    /// Nothing: this is the reply.
    Reply(T),
}

/// A session as it is held.
pub type OwnedSession = Session<Json, String>;

/// What a session holds.
pub type SessionModel = Session<Tree, Seq<char>>;

/// An event as it is told.
pub type OwnedEvent = Event<Json, String, Vec<u8>>;

/// What an event holds.
pub type EventModel = Event<Tree, Seq<char>, Seq<u8>>;

/// A step as it is taken.
pub type OwnedStep = Step<OwnedSession, OwnedCall, String>;

/// What a step holds.
pub type StepModel = Step<SessionModel, CallModel, Seq<char>>;

impl Session<Json, String> {
    /// What the session holds.
    pub open spec fn model(self) -> SessionModel {
        Session {
            op: self.op,
            opts: self.opts.tree(),
            stage: match self.stage {
                Stage::Connecting => Stage::Connecting,
                Stage::Called => Stage::Called,
                Stage::Starting => Stage::Starting,
                Stage::Gathering(s) => Stage::Gathering(s@),
                Stage::Pruning { kind, rest, report } => Stage::Pruning {
                    kind,
                    rest,
                    report: report.tree(),
                },
            },
        }
    }
}

impl Event<Json, String, Vec<u8>> {
    /// What the event holds.
    pub open spec fn model(self) -> EventModel {
        match self {
            Event::Connected => Event::Connected,
            Event::Answer(j) => Event::Answer(j.tree()),
            Event::Created(s) => Event::Created(s@),
            Event::Exited(n) => Event::Exited(n),
            Event::Attached => Event::Attached,
            Event::Detached => Event::Detached,
            Event::Chunk(b) => Event::Chunk(b@),
            Event::Item => Event::Item,
            Event::Ended => Event::Ended,
            Event::Failed(s) => Event::Failed(s@),
            Event::Panicked => Event::Panicked,
        }
    }
}

impl Step<Session<Json, String>, OwnedCall, String> {
    /// What the step holds.
    pub open spec fn model(self) -> StepModel {
        match self {
            Step::Connect(s) => Step::Connect(s.model()),
            Step::Call(s, c) => Step::Call(s.model(), c.model()),
            Step::Next(s) => Step::Next(s.model()),
            Step::Reply(t) => Step::Reply(t@),
        }
    }

    /// A reply can be sent.
    pub open spec fn sendable(self) -> bool {
        self matches Step::Reply(t) ==> is_reply_text(t@)
    }
}

/// Whether a text is JSON that can be sent: it holds no control character, so that it is one line
/// and can be a C string; it is the text of a document, reads as JSON within the depth that can be
/// read, and reads back as that document where it holds no double.
pub open spec fn is_reply_text(t: Seq<char>) -> bool {
    &&& without_controls(t)
    &&& exists|d: Tree| #[trigger] spells(t, d)
}

/// Whether a text is that of a document, and reads as it.
pub open spec fn spells(t: Seq<char>, d: Tree) -> bool {
    &&& t == json_text(d)
    &&& nests_within(d, 127) ==> json_parse(encode_utf8(t)) is Some
    &&& plain_within(d, 127) ==> json_parse(encode_utf8(t)) == Some(d)
}

/// A document with one field.
pub open spec fn one_field(key: Seq<char>, value: Tree) -> Tree {
    Tree::Object(no_fields().insert(key, value))
}

/// The document that says that it is done.
pub open spec fn ok_tree() -> Tree {
    one_field("ok"@, Tree::Bool(true))
}

/// The published ports in what the daemon says of a container.
pub open spec fn ports_in(info: Tree) -> Tree {
    match info.field("NetworkSettings"@) {
        None => Tree::Null,
        Some(settings) => match settings.field("Ports"@) {
            None => Tree::Null,
            Some(ports) => ports,
        },
    }
}

/// The document that an operation makes of the daemon's answer.
pub open spec fn op_answer(op: Op, opts: Tree, answer: Tree) -> Tree {
    match op {
        Op::Ping => one_field("value"@, answer),
        Op::Ps => one_field("containers"@, answer),
        Op::Images => one_field("images"@, answer),
        Op::Networks => one_field("networks"@, answer),
        Op::Volumes => one_field("volumes"@, answer),
        Op::History => one_field("history"@, answer),
        Op::Commit => one_field("id"@, answer),
        Op::Start | Op::Stop | Op::Restart | Op::Kill | Op::Rm | Op::Rmi | Op::Tag | Op::NetworkRm
        | Op::VolumeRm | Op::Pause | Op::Unpause => ok_tree(),
        Op::Rename => ok_tree().with("renamed"@, Tree::Text(text_or(opts, "name"@, ""@))),
        Op::Update => ok_tree().with("updated"@, Tree::Text(text_or(opts, "container"@, ""@))),
        Op::Diff => one_field(
            "changes"@,
            if answer is Null {
                Tree::List(Seq::empty())
            } else {
                answer
            },
        ),
        Op::Port => one_field("container"@, Tree::Text(text_or(opts, "container"@, ""@))).with(
            "ports"@,
            ports_in(answer),
        ),
        _ => answer,
    }
}

/// The document that an operation makes of the texts that it gathered.
pub open spec fn gathered_answer(op: Op, text: Seq<char>) -> Tree {
    if op == Op::Logs {
        one_field("logs"@, Tree::Text(text))
    } else {
        one_field("output"@, Tree::Text(text))
    }
}

/// The reply that answers by a document, or by an error.
pub open spec fn reply_step(r: Result<Tree, Seq<char>>) -> StepModel {
    Step::Reply(json_text(answer_tree(r)))
}

/// The session at another stage.
pub open spec fn at(s: SessionModel, stage: Stage<Tree, Seq<char>>) -> SessionModel {
    Session { op: s.op, opts: s.opts, stage }
}

/// The first step of an operation. One that looks at its arguments first is refused without a
/// connection.
pub open spec fn begin(op: Op, opts: Tree) -> StepModel {
    match op_call(op, opts) {
        Err(e) if checks_first(op) => reply_step(Err(refusal_text(e))),
        _ => Step::Connect(Session { op, opts, stage: Stage::Connecting }),
    }
}

/// The stage of a session that has sent its first call.
pub open spec fn called_stage(op: Op, opts: Tree) -> Stage<Tree, Seq<char>> {
    match op {
        Op::Logs => Stage::Gathering(Seq::empty()),
        Op::Prune => match prune_plan(opts).first() {
            Some(kind) => Stage::Pruning {
                kind,
                rest: prune_plan(opts).minus(kind),
                report: Tree::Object(no_fields()),
            },
            None => Stage::Called,
        },
        _ => Stage::Called,
    }
}

/// The step that prunes the next kind, or replies by the report where there is none.
pub open spec fn prune_step(s: SessionModel, left: PruneSet, report: Tree) -> StepModel {
    match left.first() {
        Some(kind) => Step::Call(
            at(s, Stage::Pruning { kind, rest: left.minus(kind), report }),
            kind_call(kind),
        ),
        None => reply_step(Ok(report)),
    }
}

/// The step behind an answer to the call of a session.
pub open spec fn after_call(s: SessionModel, e: EventModel) -> StepModel {
    match s.op {
        Op::Exec => match e {
            Event::Created(id) => Step::Call(
                at(s, Stage::Starting),
                Call::StartExec { id, tty: None },
            ),
            _ => reply_step(Err(panic_text())),
        },
        Op::Pull => match e {
            Event::Item => Step::Next(s),
            Event::Ended => reply_step(
                Ok(one_field("image"@, Tree::Text(text_or(s.opts, "image"@, ""@)))),
            ),
            _ => reply_step(Err(panic_text())),
        },
        Op::Wait => match e {
            Event::Exited(n) => reply_step(
                Ok(one_field("status_code"@, Tree::Number(Num::Int(n as int)))),
            ),
            Event::Ended => reply_step(Ok(one_field("status_code"@, Tree::Null))),
            _ => reply_step(Err(panic_text())),
        },
        Op::Stats => match e {
            Event::Answer(a) => reply_step(Ok(a)),
            Event::Ended => reply_step(
                Err(refusal_text(Refusal::NoStats(text_or(s.opts, "container"@, ""@)))),
            ),
            _ => reply_step(Err(panic_text())),
        },
        _ => match e {
            Event::Answer(a) => reply_step(Ok(op_answer(s.op, s.opts, a))),
            _ => reply_step(Err(panic_text())),
        },
    }
}

/// The step behind an event. What fails is told by its message; what panics, or is no event that
/// the session waits for, is told as a panic.
pub open spec fn session_next(s: SessionModel, e: EventModel) -> StepModel {
    match e {
        Event::Failed(message) => reply_step(Err(message)),
        Event::Panicked => reply_step(Err(panic_text())),
        _ => match s.stage {
            Stage::Connecting => match e {
                Event::Connected => match op_call(s.op, s.opts) {
                    Err(x) => reply_step(Err(refusal_text(x))),
                    Ok(call) => Step::Call(at(s, called_stage(s.op, s.opts)), call),
                },
                _ => reply_step(Err(panic_text())),
            },
            Stage::Called => after_call(s, e),
            Stage::Starting => match e {
                Event::Attached => Step::Next(at(s, Stage::Gathering(Seq::empty()))),
                Event::Detached => reply_step(Ok(gathered_answer(s.op, Seq::empty()))),
                _ => reply_step(Err(panic_text())),
            },
            Stage::Gathering(text) => match e {
                Event::Chunk(more) => Step::Next(at(s, Stage::Gathering(text + lossy_text(more)))),
                Event::Ended => reply_step(Ok(gathered_answer(s.op, text))),
                _ => reply_step(Err(panic_text())),
            },
            Stage::Pruning { kind, rest, report } => match e {
                Event::Answer(a) => prune_step(s, rest, report.with(kind_word(kind), a)),
                _ => reply_step(Err(panic_text())),
            },
        },
    }
}

/// Replies by a document.
fn reply(doc: Json) -> (r: OwnedStep)
    ensures
        r.model() == reply_step(Ok(doc.tree())),
        r.sendable(),
{
    let text = finish(Ok(doc));
    assert(spells(text@, doc.tree()));
    Step::Reply(text)
}

/// Replies by an error.
fn refuse(message: String) -> (r: OwnedStep)
    ensures
        r.model() == reply_step(Err(message@)),
        r.sendable(),
{
    let text = error_reply(message);
    assert(spells(text@, error_tree(message@)));
    Step::Reply(text)
}

/// Replies as to a panic.
fn give_up() -> (r: OwnedStep)
    ensures
        r.model() == reply_step(Err(panic_text())),
        r.sendable(),
{
    let text = panic_reply();
    assert(spells(text@, error_tree(panic_text())));
    Step::Reply(text)
}

/// The text of a field, empty where there is none.
fn text_in(opts: &Json, key: &str) -> (r: String)
    ensures
        r@ == text_or(opts.tree(), key@, ""@),
{
    match opts.text_at(key) {
        Some(s) => s.to_owned(),
        None => "".to_owned(),
    }
}

/// The document that an operation makes of the daemon's answer.
fn answer(op: Op, opts: &Json, a: Json) -> (r: Json)
    ensures
        r.tree() == op_answer(op, opts.tree(), a.tree()),
{
    match op {
        Op::Ping => Json::object().with("value", a),
        Op::Ps => Json::object().with("containers", a),
        Op::Images => Json::object().with("images", a),
        Op::Networks => Json::object().with("networks", a),
        Op::Volumes => Json::object().with("volumes", a),
        Op::History => Json::object().with("history", a),
        Op::Commit => Json::object().with("id", a),
        Op::Start | Op::Stop | Op::Restart | Op::Kill | Op::Rm | Op::Rmi | Op::Tag | Op::NetworkRm
        | Op::VolumeRm | Op::Pause | Op::Unpause => Json::object().with("ok", Json::Bool(true)),
        Op::Rename => Json::object().with("ok", Json::Bool(true)).with(
            "renamed",
            Json::Text(text_in(opts, "name")),
        ),
        Op::Update => Json::object().with("ok", Json::Bool(true)).with(
            "updated",
            Json::Text(text_in(opts, "container")),
        ),
        Op::Diff => match a {
            Json::Null => {
                let none = Json::List(Vec::new());
                assert(none.tree()->List_0 =~= Seq::empty());
                Json::object().with("changes", none)
            },
            other => Json::object().with("changes", other),
        },
        Op::Port => Json::object().with("container", Json::Text(text_in(opts, "container"))).with(
            "ports",
            a.into_field("NetworkSettings").into_field("Ports"),
        ),
        _ => a,
    }
}

/// Takes the first step of an operation.
pub fn start(op: Op, opts: Json) -> (r: OwnedStep)
    ensures
        r.model() == begin(op, opts.tree()),
        r.sendable(),
{
    if refuses_offline(op) {
        if let Err(e) = request(op, &opts) {
            return refuse(e.message());
        }
    }
    Step::Connect(Session { op, opts, stage: Stage::Connecting })
}

/// Replies to what an operation gathered.
fn reply_gathered(op: Op, text: String) -> (r: OwnedStep)
    ensures
        r.model() == reply_step(Ok(gathered_answer(op, text@))),
        r.sendable(),
{
    match op {
        Op::Logs => reply(Json::object().with("logs", Json::Text(text))),
        _ => reply(Json::object().with("output", Json::Text(text))),
    }
}

/// Takes the step behind an answer to the call of a session.
fn called(op: Op, opts: Json, event: OwnedEvent) -> (r: OwnedStep)
    ensures
        r.model() == after_call(
            Session { op, opts: opts.tree(), stage: Stage::Called },
            event.model(),
        ),
        r.sendable(),
{
    match (op, event) {
        (Op::Exec, Event::Created(id)) => Step::Call(
            Session { op, opts, stage: Stage::Starting },
            Call::StartExec { id, tty: None },
        ),
        (Op::Pull, Event::Item) => Step::Next(Session { op, opts, stage: Stage::Called }),
        (Op::Pull, Event::Ended) => reply(
            Json::object().with("image", Json::Text(text_in(&opts, "image"))),
        ),
        (Op::Wait, Event::Exited(n)) => reply(
            Json::object().with("status_code", Json::integer(n)),
        ),
        (Op::Wait, Event::Ended) => reply(Json::object().with("status_code", Json::Null)),
        (Op::Stats, Event::Answer(a)) => reply(a),
        (Op::Stats, Event::Ended) => refuse(
            Refusal::NoStats(text_in(&opts, "container")).message(),
        ),
        (Op::Exec, _) | (Op::Pull, _) | (Op::Wait, _) => give_up(),
        (_, Event::Answer(a)) => reply(answer(op, &opts, a)),
        _ => give_up(),
    }
}

/// The stage of a session that has sent its first call.
fn stage_of(op: Op, opts: &Json) -> (r: Stage<Json, String>)
    ensures
        (Session { op, opts: *opts, stage: r }).model().stage == called_stage(op, opts.tree()),
{
    match op {
        Op::Logs => Stage::Gathering(String::new()),
        Op::Prune => match op_prune_plan(opts).split_first() {
            Some((kind, rest)) => Stage::Pruning { kind, rest, report: Json::object() },
            None => Stage::Called,
        },
        _ => Stage::Called,
    }
}

/// Prunes the next kind, or replies by the report where there is none.
fn prune_more(op: Op, opts: Json, left: PruneSet, report: Json) -> (r: OwnedStep)
    ensures
        r.model() == prune_step(
            Session { op, opts: opts.tree(), stage: Stage::Called },
            left,
            report.tree(),
        ),
        r.sendable(),
{
    match left.split_first() {
        Some((kind, rest)) => Step::Call(
            Session { op, opts, stage: Stage::Pruning { kind, rest, report } },
            kind.call(),
        ),
        None => reply(report),
    }
}

/// Takes the step behind an event.
pub fn advance(session: OwnedSession, event: OwnedEvent) -> (r: OwnedStep)
    ensures
        r.model() == session_next(session.model(), event.model()),
        r.sendable(),
{
    let Session { op, opts, stage } = session;
    match (stage, event) {
        (_, Event::Failed(message)) => refuse(message),
        (_, Event::Panicked) => give_up(),
        (Stage::Connecting, Event::Connected) => match request(op, &opts) {
            Err(e) => refuse(e.message()),
            Ok(call) => {
                let stage = stage_of(op, &opts);
                Step::Call(Session { op, opts, stage }, call)
            },
        },
        (Stage::Called, event) => called(op, opts, event),
        (Stage::Starting, Event::Attached) => Step::Next(
            Session { op, opts, stage: Stage::Gathering(String::new()) },
        ),
        (Stage::Starting, Event::Detached) => reply_gathered(op, String::new()),
        (Stage::Gathering(text), Event::Chunk(more)) => {
            let mut text = text;
            text.append(from_utf8_lossy(more.as_slice()).as_str());
            Step::Next(Session { op, opts, stage: Stage::Gathering(text) })
        },
        (Stage::Gathering(text), Event::Ended) => reply_gathered(op, text),
        (Stage::Pruning { kind, rest, report }, Event::Answer(a)) => prune_more(
            op,
            opts,
            rest,
            report.with(kind.word(), a),
        ),
        _ => give_up(),
    }
}

/// The step behind an event, whatever the step before it asked for. A reply is final.
pub open spec fn after(step: StepModel, e: EventModel) -> StepModel {
    match step {
        Step::Connect(s) => session_next(s, e),
        Step::Call(s, _) => session_next(s, e),
        Step::Next(s) => session_next(s, e),
        Step::Reply(_) => step,
    }
}

/// The step behind a sequence of events.
pub open spec fn run(step: StepModel, events: Seq<EventModel>) -> StepModel
    decreases events.len(),
{
    if events.len() == 0 {
        step
    } else {
        run(after(step, events[0]), events.drop_first())
    }
}

/// The texts that bytes are shown as, one behind the other.
pub open spec fn all_of(chunks: Seq<Seq<u8>>) -> Seq<char>
    decreases chunks.len(),
{
    if chunks.len() == 0 {
        Seq::empty()
    } else {
        lossy_text(chunks[0]) + all_of(chunks.drop_first())
    }
}

/// The events of a stream that sends text and ends.
pub open spec fn text_stream(chunks: Seq<Seq<u8>>) -> Seq<EventModel> {
    chunks.map_values(|c: Seq<u8>| Event::<Tree, Seq<char>, Seq<u8>>::Chunk(c)).push(Event::Ended)
}

/// The events of a stream that sends so many items and ends.
pub open spec fn item_stream(count: nat) -> Seq<EventModel> {
    Seq::new(count, |i: int| Event::<Tree, Seq<char>, Seq<u8>>::Item).push(Event::Ended)
}

/// Events are told one behind the other.
proof fn run_joins(step: StepModel, a: Seq<EventModel>, b: Seq<EventModel>)
    ensures
        run(step, a + b) == run(run(step, a), b),
    decreases a.len(),
{
    if a.len() == 0 {
        assert(a + b =~= b);
    } else {
        assert((a + b).drop_first() =~= a.drop_first() + b);
        run_joins(after(step, a[0]), a.drop_first(), b);
    }
}

/// A session that gathers replies by all that it was sent.
proof fn gathering_gathers(s: SessionModel, text: Seq<char>, chunks: Seq<Seq<u8>>)
    requires
        s.stage == Stage::<Tree, Seq<char>>::Gathering(text),
    ensures
        run(Step::Next(s), text_stream(chunks)) == reply_step(
            Ok(gathered_answer(s.op, text + all_of(chunks))),
        ),
    decreases chunks.len(),
{
    let events = text_stream(chunks);
    if chunks.len() == 0 {
        assert(events =~= seq![Event::Ended]);
        assert(text + all_of(chunks) =~= text);
        reveal_with_fuel(run, 2);
        assert(events.drop_first() =~= Seq::empty());
    } else {
        let rest = chunks.drop_first();
        assert(events.drop_first() =~= text_stream(rest));
        assert(events[0] == Event::<Tree, Seq<char>, Seq<u8>>::Chunk(chunks[0]));
        let more = text + lossy_text(chunks[0]);
        gathering_gathers(at(s, Stage::Gathering(more)), more, rest);
        assert(more + all_of(rest) =~= text + all_of(chunks));
    }
}

/// Whatever an operation waits for, a failure is its reply: the message of the failure under
/// `error`.
pub proof fn failure_is_told(step: StepModel, message: Seq<char>)
    requires
        !(step is Reply),
    ensures
        after(step, Event::Failed(message)) == Step::<SessionModel, CallModel, Seq<char>>::Reply(
            json_text(error_tree(message)),
        ),
{
}

/// Whatever an operation waits for, a panic is its reply.
pub proof fn panic_is_told(step: StepModel)
    requires
        !(step is Reply),
    ensures
        after(step, Event::Panicked) == Step::<SessionModel, CallModel, Seq<char>>::Reply(
            json_text(error_tree("stryke-docker handler panicked"@)),
        ),
{
}

/// A reply is final, whatever happens behind it.
pub proof fn reply_is_final(text: Seq<char>, events: Seq<EventModel>)
    ensures
        run(Step::Reply(text), events) == Step::<SessionModel, CallModel, Seq<char>>::Reply(text),
    decreases events.len(),
{
    if events.len() > 0 {
        reply_is_final(text, events.drop_first());
    }
}

/// A reply is the text of a document, whatever led to it.
pub proof fn reply_is_a_document(s: SessionModel, e: EventModel)
    ensures
        session_next(s, e) matches Step::Reply(text) ==> exists|t: Tree| text == #[trigger] json_text(
            t,
        ),
        begin(s.op, s.opts) matches Step::Reply(text) ==> exists|t: Tree|
            text == #[trigger] json_text(t),
{
}

/// Arguments that are refused are refused by the same reply in every operation: by some before
/// they connect, by the others once they have, and by none with a call of the daemon.
pub proof fn refusal_is_told(op: Op, opts: Tree)
    requires
        op_call(op, opts) is Err,
    ensures
        checks_first(op) ==> begin(op, opts) == reply_step(
            Err(refusal_text(op_call(op, opts)->Err_0)),
        ),
        after(begin(op, opts), Event::Connected) == reply_step(
            Err(refusal_text(op_call(op, opts)->Err_0)),
        ),
{
}

/// Arguments that are accepted lead to a connection first, and then to the one call that the
/// operation makes of them.
pub proof fn accepted_call_is_sent(op: Op, opts: Tree)
    requires
        op_call(op, opts) is Ok,
    ensures
        begin(op, opts) is Connect,
        after(begin(op, opts), Event::Connected) matches Step::Call(_, call) && call == op_call(
            op,
            opts,
        )->Ok_0,
{
}

/// The operations about a container are refused where no container is named, by this message.
pub proof fn container_is_required(op: Op, opts: Tree)
    requires
        opts.text_at("container"@) is None,
        op == Op::Inspect || op == Op::Start || op == Op::Stop || op == Op::Restart || op
            == Op::Kill || op == Op::Rm || op == Op::Logs || op == Op::Exec || op == Op::Pause || op
            == Op::Unpause || op == Op::Rename || op == Op::Wait || op == Op::Top || op == Op::Stats
            || op == Op::Commit || op == Op::Diff || op == Op::Port || op == Op::Update,
    ensures
        op_call(op, opts) == Err::<CallModel, Refusal<Seq<char>>>(
            Refusal::Missing(Field::Container),
        ),
        refusal_text(Refusal::Missing(Field::Container)) == "missing container"@,
{
}

/// An operation with a single answer replies by the document that it makes of it.
pub proof fn answer_is_told(op: Op, opts: Tree, answer: Tree)
    requires
        op_call(op, opts) is Ok,
        op != Op::Logs && op != Op::Exec && op != Op::Pull && op != Op::Wait,
        op == Op::Prune ==> prune_plan(opts).first() is None,
    ensures
        run(begin(op, opts), seq![Event::Connected, Event::Answer(answer)]) == reply_step(
            Ok(op_answer(op, opts, answer)),
        ),
{
    let events = seq![Event::<Tree, Seq<char>, Seq<u8>>::Connected, Event::Answer(answer)];
    reveal_with_fuel(run, 3);
    assert(events.drop_first() =~= seq![Event::Answer(answer)]);
    assert(events.drop_first().drop_first() =~= Seq::empty());
}

/// The logs are all that the container sent, in the order in which it came.
pub proof fn logs_are_whole(opts: Tree, chunks: Seq<Seq<u8>>)
    requires
        op_call(Op::Logs, opts) is Ok,
    ensures
        run(begin(Op::Logs, opts), seq![Event::Connected] + text_stream(chunks)) == reply_step(
            Ok(one_field("logs"@, Tree::Text(all_of(chunks)))),
        ),
{
    let first = seq![Event::<Tree, Seq<char>, Seq<u8>>::Connected];
    let stream = text_stream(chunks);
    run_joins(begin(Op::Logs, opts), first, stream);
    reveal_with_fuel(run, 2);
    assert(first.drop_first() =~= Seq::empty());
    let s = Session {
        op: Op::Logs,
        opts,
        stage: Stage::Gathering(Seq::<char>::empty()),
    };
    gathering_gathers(s, Seq::empty(), chunks);
    assert(Seq::<char>::empty() + all_of(chunks) =~= all_of(chunks));
    assert(run(begin(Op::Logs, opts), first) == after(begin(Op::Logs, opts), Event::Connected));
    // The first item is asked for by the call, the others by name: the events do not tell.
    assert(after(Step::Next(s), stream[0]) == session_next(s, stream[0]));
}

/// The output of a command is all that it sent, in the order in which it came.
pub proof fn exec_output_is_whole(opts: Tree, id: Seq<char>, chunks: Seq<Seq<u8>>)
    requires
        op_call(Op::Exec, opts) is Ok,
    ensures
        run(
            begin(Op::Exec, opts),
            seq![Event::Connected, Event::Created(id), Event::Attached] + text_stream(chunks),
        ) == reply_step(Ok(one_field("output"@, Tree::Text(all_of(chunks))))),
{
    let first = seq![
        Event::<Tree, Seq<char>, Seq<u8>>::Connected,
        Event::Created(id),
        Event::Attached,
    ];
    run_joins(begin(Op::Exec, opts), first, text_stream(chunks));
    reveal_with_fuel(run, 4);
    assert(first.drop_first() =~= seq![Event::Created(id), Event::Attached]);
    assert(first.drop_first().drop_first() =~= seq![Event::Attached]);
    assert(first.drop_first().drop_first().drop_first() =~= Seq::empty());
    let s = Session {
        op: Op::Exec,
        opts,
        stage: Stage::Gathering(Seq::<char>::empty()),
    };
    assert(run(begin(Op::Exec, opts), first) == Step::<SessionModel, CallModel, Seq<char>>::Next(
        s,
    ));
    gathering_gathers(s, Seq::empty(), chunks);
    assert(Seq::<char>::empty() + all_of(chunks) =~= all_of(chunks));
}

/// A command that no output can be followed of has none.
pub proof fn detached_exec_has_no_output(opts: Tree, id: Seq<char>)
    requires
        op_call(Op::Exec, opts) is Ok,
    ensures
        run(
            begin(Op::Exec, opts),
            seq![Event::Connected, Event::Created(id), Event::Detached],
        ) == reply_step(Ok(one_field("output"@, Tree::Text(Seq::empty())))),
{
    let first = seq![
        Event::<Tree, Seq<char>, Seq<u8>>::Connected,
        Event::Created(id),
        Event::Detached,
    ];
    reveal_with_fuel(run, 4);
    assert(first.drop_first() =~= seq![Event::Created(id), Event::Detached]);
    assert(first.drop_first().drop_first() =~= seq![Event::Detached]);
    assert(first.drop_first().drop_first().drop_first() =~= Seq::empty());
}

/// A session that drains a pull goes on until the stream ends.
proof fn draining_drains(s: SessionModel, count: nat)
    requires
        s.stage == Stage::<Tree, Seq<char>>::Called,
        s.op == Op::Pull,
    ensures
        run(Step::Next(s), item_stream(count)) == after_call(s, Event::Ended),
    decreases count,
{
    let events = item_stream(count);
    reveal_with_fuel(run, 2);
    if count == 0 {
        assert(events =~= seq![Event::Ended]);
        assert(events.drop_first() =~= Seq::empty());
    } else {
        assert(events.drop_first() =~= item_stream((count - 1) as nat));
        assert(events[0] == Event::<Tree, Seq<char>, Seq<u8>>::Item);
        draining_drains(s, (count - 1) as nat);
    }
}

/// A pull is drained, whatever the number of its items, and replies by the image as it was named.
pub proof fn pull_is_drained(opts: Tree, image: Seq<char>, count: nat)
    requires
        opts.text_at("image"@) == Some(image),
    ensures
        run(begin(Op::Pull, opts), seq![Event::Connected] + item_stream(count)) == reply_step(
            Ok(one_field("image"@, Tree::Text(image))),
        ),
{
    let first = seq![Event::<Tree, Seq<char>, Seq<u8>>::Connected];
    let stream = item_stream(count);
    run_joins(begin(Op::Pull, opts), first, stream);
    reveal_with_fuel(run, 2);
    assert(first.drop_first() =~= Seq::empty());
    let s = Session { op: Op::Pull, opts, stage: Stage::<Tree, Seq<char>>::Called };
    draining_drains(s, count);
    assert(run(begin(Op::Pull, opts), first) == after(begin(Op::Pull, opts), Event::Connected));
    assert(after(Step::Next(s), stream[0]) == session_next(s, stream[0]));
}

/// The answers to the pruning of some kinds, in the order of the kinds.
pub open spec fn prune_answers(
    left: PruneSet,
    answers: spec_fn(PruneKind) -> Tree,
) -> Seq<EventModel>
    decreases left.size(),
{
    match left.first() {
        Some(k) => seq![Event::<Tree, Seq<char>, Seq<u8>>::Answer(answers(k))] + prune_answers(
            left.minus(k),
            answers,
        ),
        None => Seq::empty(),
    }
}

/// Pruning reports, from wherever it is.
proof fn pruning_reports(
    s: SessionModel,
    left: PruneSet,
    answers: spec_fn(PruneKind) -> Tree,
    report: Tree,
)
    ensures
        run(prune_step(s, left, report), prune_answers(left, answers)) == reply_step(
            Ok(prune_report(left, answers, report)),
        ),
    decreases left.size(),
{
    let events = prune_answers(left, answers);
    if let Some(k) = left.first() {
        let rest = left.minus(k);
        let next = report.with(kind_word(k), answers(k));
        let now = at(s, Stage::Pruning { kind: k, rest, report });
        assert(events.drop_first() =~= prune_answers(rest, answers));
        pruning_reports(now, rest, answers, next);
        assert(after(prune_step(s, left, report), events[0]) == prune_step(now, rest, next));
    }
}

/// Pruning by flags prunes the kinds that are asked for, one call each, and replies by one report:
/// it holds the daemon's answer for each of them, and nothing for the others.
pub proof fn pruned_kinds_are_told(
    opts: Tree,
    answers: spec_fn(PruneKind) -> Tree,
    k: PruneKind,
)
    requires
        is_asked(prune_flags_in(opts)),
    ensures
        ({
            let set = prune_set(prune_flags_in(opts));
            let report = prune_report(set, answers, Tree::Object(no_fields()));
            &&& run(
                begin(Op::Prune, opts),
                seq![Event::Connected] + prune_answers(set, answers),
            ) == reply_step(Ok(report))
            &&& report.field(kind_word(k)) == if set.has_kind(k) {
                Some(answers(k))
            } else {
                None
            }
        }),
{
    let set = prune_set(prune_flags_in(opts));
    let empty = Tree::Object(no_fields());
    let first = seq![Event::<Tree, Seq<char>, Seq<u8>>::Connected];
    let s = Session { op: Op::Prune, opts, stage: Stage::<Tree, Seq<char>>::Connecting };
    run_joins(begin(Op::Prune, opts), first, prune_answers(set, answers));
    reveal_with_fuel(run, 2);
    assert(first.drop_first() =~= Seq::empty());
    assert(run(begin(Op::Prune, opts), first) == prune_step(s, set, empty));
    pruning_reports(s, set, answers, empty);
    report_holds(set, answers, empty, k);
}

/// The status of a container that exited is told, and `null` where the daemon tells none.
pub proof fn exit_status_is_told(opts: Tree, status: i64)
    requires
        op_call(Op::Wait, opts) is Ok,
    ensures
        run(begin(Op::Wait, opts), seq![Event::Connected, Event::Exited(status)]) == reply_step(
            Ok(one_field("status_code"@, Tree::Number(Num::Int(status as int)))),
        ),
        run(begin(Op::Wait, opts), seq![Event::Connected, Event::Ended]) == reply_step(
            Ok(one_field("status_code"@, Tree::Null)),
        ),
{
    let a = seq![Event::<Tree, Seq<char>, Seq<u8>>::Connected, Event::Exited(status)];
    let b = seq![Event::<Tree, Seq<char>, Seq<u8>>::Connected, Event::Ended];
    reveal_with_fuel(run, 3);
    assert(a.drop_first() =~= seq![Event::Exited(status)]);
    assert(a.drop_first().drop_first() =~= Seq::empty());
    assert(b.drop_first() =~= seq![Event::Ended]);
    assert(b.drop_first().drop_first() =~= Seq::empty());
}

/// The daemon's version.
pub fn docker__version(args: Option<&[u8]>) -> (r: OwnedStep)
    ensures
        r.model() == begin(Op::Version, args_tree(opt_bytes(args))),
        r.sendable(),
{
    start(Op::Version, read_args(args))
}

/// Whether the daemon answers, and what.
pub fn docker__ping(args: Option<&[u8]>) -> (r: OwnedStep)
    ensures
        r.model() == begin(Op::Ping, args_tree(opt_bytes(args))),
        r.sendable(),
{
    start(Op::Ping, read_args(args))
}

/// What the daemon says of itself.
pub fn docker__info(args: Option<&[u8]>) -> (r: OwnedStep)
    ensures
        r.model() == begin(Op::Info, args_tree(opt_bytes(args))),
        r.sendable(),
{
    start(Op::Info, read_args(args))
}

/// The containers; opts: `all`, `filters`.
pub fn docker__ps(args: Option<&[u8]>) -> (r: OwnedStep)
    ensures
        r.model() == begin(Op::Ps, args_tree(opt_bytes(args))),
        r.sendable(),
{
    start(Op::Ps, read_args(args))
}

/// All about one container.
pub fn docker__inspect(args: Option<&[u8]>) -> (r: OwnedStep)
    ensures
        r.model() == begin(Op::Inspect, args_tree(opt_bytes(args))),
        r.sendable(),
{
    start(Op::Inspect, read_args(args))
}

/// Creates a container; opts: `name`, `cmd`, `env`, `port`, `volume`, `label`, `network`,
/// `workdir`, `user`, `hostname`, `restart`, `rm`, `tty`.
pub fn docker__create(args: Option<&[u8]>) -> (r: OwnedStep)
    ensures
        r.model() == begin(Op::Create, args_tree(opt_bytes(args))),
        r.sendable(),
{
    start(Op::Create, read_args(args))
}

/// Starts a container.
pub fn docker__start(args: Option<&[u8]>) -> (r: OwnedStep)
    ensures
        r.model() == begin(Op::Start, args_tree(opt_bytes(args))),
        r.sendable(),
{
    start(Op::Start, read_args(args))
}

/// Stops a container; opts: `time`.
pub fn docker__stop(args: Option<&[u8]>) -> (r: OwnedStep)
    ensures
        r.model() == begin(Op::Stop, args_tree(opt_bytes(args))),
        r.sendable(),
{
    start(Op::Stop, read_args(args))
}

/// Restarts a container.
pub fn docker__restart(args: Option<&[u8]>) -> (r: OwnedStep)
    ensures
        r.model() == begin(Op::Restart, args_tree(opt_bytes(args))),
        r.sendable(),
{
    start(Op::Restart, read_args(args))
}

/// Sends a signal to a container; opts: `signal`.
pub fn docker__kill(args: Option<&[u8]>) -> (r: OwnedStep)
    ensures
        r.model() == begin(Op::Kill, args_tree(opt_bytes(args))),
        r.sendable(),
{
    start(Op::Kill, read_args(args))
}

/// Removes a container; opts: `force`, `volumes`.
pub fn docker__rm(args: Option<&[u8]>) -> (r: OwnedStep)
    ensures
        r.model() == begin(Op::Rm, args_tree(opt_bytes(args))),
        r.sendable(),
{
    start(Op::Rm, read_args(args))
}

/// What a container has written; opts: `tail`, `timestamps`.
pub fn docker__logs(args: Option<&[u8]>) -> (r: OwnedStep)
    ensures
        r.model() == begin(Op::Logs, args_tree(opt_bytes(args))),
        r.sendable(),
{
    start(Op::Logs, read_args(args))
}

/// Runs a command in a container, and gives what it wrote.
pub fn docker__exec(args: Option<&[u8]>) -> (r: OwnedStep)
    ensures
        r.model() == begin(Op::Exec, args_tree(opt_bytes(args))),
        r.sendable(),
{
    start(Op::Exec, read_args(args))
}

/// The images; opts: `all`.
pub fn docker__images(args: Option<&[u8]>) -> (r: OwnedStep)
    ensures
        r.model() == begin(Op::Images, args_tree(opt_bytes(args))),
        r.sendable(),
{
    start(Op::Images, read_args(args))
}

/// Pulls an image.
pub fn docker__pull(args: Option<&[u8]>) -> (r: OwnedStep)
    ensures
        r.model() == begin(Op::Pull, args_tree(opt_bytes(args))),
        r.sendable(),
{
    start(Op::Pull, read_args(args))
}

/// Removes an image; opts: `force`.
pub fn docker__rmi(args: Option<&[u8]>) -> (r: OwnedStep)
    ensures
        r.model() == begin(Op::Rmi, args_tree(opt_bytes(args))),
        r.sendable(),
{
    start(Op::Rmi, read_args(args))
}

/// Gives an image another name.
pub fn docker__tag(args: Option<&[u8]>) -> (r: OwnedStep)
    ensures
        r.model() == begin(Op::Tag, args_tree(opt_bytes(args))),
        r.sendable(),
{
    start(Op::Tag, read_args(args))
}

/// The networks.
pub fn docker__networks(args: Option<&[u8]>) -> (r: OwnedStep)
    ensures
        r.model() == begin(Op::Networks, args_tree(opt_bytes(args))),
        r.sendable(),
{
    start(Op::Networks, read_args(args))
}

/// Creates a network; opts: `driver`, `subnet`, `gateway`, `label`.
pub fn docker__network_create(args: Option<&[u8]>) -> (r: OwnedStep)
    ensures
        r.model() == begin(Op::NetworkCreate, args_tree(opt_bytes(args))),
        r.sendable(),
{
    start(Op::NetworkCreate, read_args(args))
}

/// Removes a network.
pub fn docker__network_rm(args: Option<&[u8]>) -> (r: OwnedStep)
    ensures
        r.model() == begin(Op::NetworkRm, args_tree(opt_bytes(args))),
        r.sendable(),
{
    start(Op::NetworkRm, read_args(args))
}

/// The volumes.
pub fn docker__volumes(args: Option<&[u8]>) -> (r: OwnedStep)
    ensures
        r.model() == begin(Op::Volumes, args_tree(opt_bytes(args))),
        r.sendable(),
{
    start(Op::Volumes, read_args(args))
}

/// Creates a volume; opts: `driver`, `label`.
pub fn docker__volume_create(args: Option<&[u8]>) -> (r: OwnedStep)
    ensures
        r.model() == begin(Op::VolumeCreate, args_tree(opt_bytes(args))),
        r.sendable(),
{
    start(Op::VolumeCreate, read_args(args))
}

/// Removes a volume; opts: `force`.
pub fn docker__volume_rm(args: Option<&[u8]>) -> (r: OwnedStep)
    ensures
        r.model() == begin(Op::VolumeRm, args_tree(opt_bytes(args))),
        r.sendable(),
{
    start(Op::VolumeRm, read_args(args))
}

/// Removes what is unused; opts: `containers`, `images`, `volumes`, `networks`, `all`, or else
/// `kind`.
pub fn docker__prune(args: Option<&[u8]>) -> (r: OwnedStep)
    ensures
        r.model() == begin(Op::Prune, args_tree(opt_bytes(args))),
        r.sendable(),
{
    start(Op::Prune, read_args(args))
}

/// Pauses a container.
pub fn docker__pause(args: Option<&[u8]>) -> (r: OwnedStep)
    ensures
        r.model() == begin(Op::Pause, args_tree(opt_bytes(args))),
        r.sendable(),
{
    start(Op::Pause, read_args(args))
}

/// Lets a paused container run.
pub fn docker__unpause(args: Option<&[u8]>) -> (r: OwnedStep)
    ensures
        r.model() == begin(Op::Unpause, args_tree(opt_bytes(args))),
        r.sendable(),
{
    start(Op::Unpause, read_args(args))
}

/// Gives a container another name.
pub fn docker__rename(args: Option<&[u8]>) -> (r: OwnedStep)
    ensures
        r.model() == begin(Op::Rename, args_tree(opt_bytes(args))),
        r.sendable(),
{
    start(Op::Rename, read_args(args))
}

/// Waits until a container exits, and gives its status.
pub fn docker__wait(args: Option<&[u8]>) -> (r: OwnedStep)
    ensures
        r.model() == begin(Op::Wait, args_tree(opt_bytes(args))),
        r.sendable(),
{
    start(Op::Wait, read_args(args))
}

/// The processes of a container; opts: `ps_args`.
pub fn docker__top(args: Option<&[u8]>) -> (r: OwnedStep)
    ensures
        r.model() == begin(Op::Top, args_tree(opt_bytes(args))),
        r.sendable(),
{
    start(Op::Top, read_args(args))
}

/// One snapshot of what a container uses.
pub fn docker__stats(args: Option<&[u8]>) -> (r: OwnedStep)
    ensures
        r.model() == begin(Op::Stats, args_tree(opt_bytes(args))),
        r.sendable(),
{
    start(Op::Stats, read_args(args))
}

/// Makes an image of a container; opts: `repo`, `tag`, `comment`, `author`, `pause`.
pub fn docker__commit(args: Option<&[u8]>) -> (r: OwnedStep)
    ensures
        r.model() == begin(Op::Commit, args_tree(opt_bytes(args))),
        r.sendable(),
{
    start(Op::Commit, read_args(args))
}

/// The files that a container has changed.
pub fn docker__diff(args: Option<&[u8]>) -> (r: OwnedStep)
    ensures
        r.model() == begin(Op::Diff, args_tree(opt_bytes(args))),
        r.sendable(),
{
    start(Op::Diff, read_args(args))
}

/// The layers of an image.
pub fn docker__history(args: Option<&[u8]>) -> (r: OwnedStep)
    ensures
        r.model() == begin(Op::History, args_tree(opt_bytes(args))),
        r.sendable(),
{
    start(Op::History, read_args(args))
}

/// The space that the daemon uses.
pub fn docker__df(args: Option<&[u8]>) -> (r: OwnedStep)
    ensures
        r.model() == begin(Op::Df, args_tree(opt_bytes(args))),
        r.sendable(),
{
    start(Op::Df, read_args(args))
}

/// The ports of a container.
pub fn docker__port(args: Option<&[u8]>) -> (r: OwnedStep)
    ensures
        r.model() == begin(Op::Port, args_tree(opt_bytes(args))),
        r.sendable(),
{
    start(Op::Port, read_args(args))
}

/// Sets limits of a container; those that are not named stay.
pub fn docker__update(args: Option<&[u8]>) -> (r: OwnedStep)
    ensures
        r.model() == begin(Op::Update, args_tree(opt_bytes(args))),
        r.sendable(),
{
    start(Op::Update, read_args(args))
}

/// All about one image.
pub fn docker__image_inspect(args: Option<&[u8]>) -> (r: OwnedStep)
    ensures
        r.model() == begin(Op::ImageInspect, args_tree(opt_bytes(args))),
        r.sendable(),
{
    start(Op::ImageInspect, read_args(args))
}

/// All about one volume.
pub fn docker__volume_inspect(args: Option<&[u8]>) -> (r: OwnedStep)
    ensures
        r.model() == begin(Op::VolumeInspect, args_tree(opt_bytes(args))),
        r.sendable(),
{
    start(Op::VolumeInspect, read_args(args))
}

/// All about one network.
pub fn docker__network_inspect(args: Option<&[u8]>) -> (r: OwnedStep)
    ensures
        r.model() == begin(Op::NetworkInspect, args_tree(opt_bytes(args))),
        r.sendable(),
{
    start(Op::NetworkInspect, read_args(args))
}

} // verus!
