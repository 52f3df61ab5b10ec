//! What the exported functions reply.

use vstd::prelude::*;

use crate::call::Call;
use crate::json::{json_parse, nullable, Num, Tree};
use crate::laws::calls::{replied, sends};
use crate::mounts::{mount_parts, MountKind};
use crate::names::is_valid_name;
use crate::ops::{op_call, Op};
use crate::output::lossy_text;
use crate::ports::port_parts;
use crate::reference::image_parts;
use crate::refusal::{refusal_text, Field, Refusal};
use crate::reply::{
    answer_tree, args_tree, image_ref_reply, mount_reply, name_reply, panic_text, port_reply, told,
};
use crate::session::{after, begin, Event, EventModel, StepModel};

verus! {

/// The document with one field.
pub open spec fn only(key: Seq<char>, value: Tree) -> Tree {
    Tree::Object(map![key => value])
}

/// The step behind a connection.
pub open spec fn connected(op: Op, t: Tree) -> StepModel {
    after(begin(op, t), Event::Connected)
}

/// The step behind a connection and an event.
pub open spec fn answered(op: Op, t: Tree, e: EventModel) -> StepModel {
    after(connected(op, t), e)
}

/// The answers of the daemon that are documents of their own are handed on as they are.
pub proof fn whole_answer_is_handed_on(op: Op, t: Tree, a: Tree)
    requires
        op == Op::Version || op == Op::Info || op == Op::Inspect || op == Op::Create || op
            == Op::NetworkCreate || op == Op::VolumeCreate || op == Op::Top || op == Op::Stats || op
            == Op::Df || op == Op::ImageInspect || op == Op::VolumeInspect || op
            == Op::NetworkInspect,
        op_call(op, t) is Ok,
    ensures
        answered(op, t, Event::Answer(a)) == replied(a),
{
}

/// What one kind prunes is handed on as it is told.
pub proof fn pruned_kind_is_handed_on(t: Tree, a: Tree)
    requires
        op_call(Op::Prune, t) is Ok,
        t.flag_at("containers"@) != Some(true),
        t.flag_at("images"@) != Some(true),
        t.flag_at("volumes"@) != Some(true),
        t.flag_at("networks"@) != Some(true),
        t.flag_at("all"@) != Some(true),
    ensures
        answered(Op::Prune, t, Event::Answer(a)) == replied(a),
{
}

/// The answers that are lists or plain values are handed on under a name.
pub proof fn listed_answer_is_named(t: Tree, a: Tree)
    ensures
        answered(Op::Ping, t, Event::Answer(a)) == replied(only("value"@, a)),
        answered(Op::Ps, t, Event::Answer(a)) == replied(only("containers"@, a)),
        answered(Op::Images, t, Event::Answer(a)) == replied(only("images"@, a)),
        answered(Op::Networks, t, Event::Answer(a)) == replied(only("networks"@, a)),
        answered(Op::Volumes, t, Event::Answer(a)) == replied(only("volumes"@, a)),
        t.text_at("image"@) is Some ==> answered(Op::History, t, Event::Answer(a)) == replied(
            only("history"@, a),
        ),
        t.text_at("container"@) is Some ==> answered(Op::Commit, t, Event::Answer(a)) == replied(
            only("id"@, a),
        ),
        t.text_at("container"@) is Some && !(a is Null) ==> answered(Op::Diff, t, Event::Answer(a))
            == replied(only("changes"@, a)),
        t.text_at("container"@) is Some ==> answered(Op::Diff, t, Event::Answer(Tree::Null))
            == replied(only("changes"@, Tree::List(Seq::empty()))),
{
}

/// What has no answer of its own is acknowledged.
pub proof fn deed_is_acknowledged(op: Op, t: Tree, a: Tree)
    requires
        op == Op::Start || op == Op::Stop || op == Op::Restart || op == Op::Kill || op == Op::Rm
            || op == Op::Rmi || op == Op::Tag || op == Op::NetworkRm || op == Op::VolumeRm || op
            == Op::Pause || op == Op::Unpause,
        op_call(op, t) is Ok,
    ensures
        answered(op, t, Event::Answer(a)) == replied(only("ok"@, Tree::Bool(true))),
{
}

/// A new name and new limits are acknowledged with what they are about.
pub proof fn change_is_acknowledged_by_name(t: Tree, c: Seq<char>, name: Seq<char>, a: Tree)
    requires
        t.text_at("container"@) == Some(c),
    ensures
        t.text_at("name"@) == Some(name) ==> answered(Op::Rename, t, Event::Answer(a)) == replied(
            Tree::Object(map!["ok"@ => Tree::Bool(true), "renamed"@ => Tree::Text(name)]),
        ),
        answered(Op::Update, t, Event::Answer(a)) == replied(
            Tree::Object(map!["ok"@ => Tree::Bool(true), "updated"@ => Tree::Text(c)]),
        ),
{
}

/// The ports of a container are the ones in its network settings, and null where there are none.
pub proof fn ports_of_a_container_are_told(
    t: Tree,
    c: Seq<char>,
    info: Map<Seq<char>, Tree>,
    net: Map<Seq<char>, Tree>,
    ports: Tree,
)
    requires
        t.text_at("container"@) == Some(c),
    ensures
        info.contains_pair("NetworkSettings"@, Tree::Object(net)) && net.contains_pair(
            "Ports"@,
            ports,
        ) ==> answered(Op::Port, t, Event::Answer(Tree::Object(info))) == replied(
            Tree::Object(map!["container"@ => Tree::Text(c), "ports"@ => ports]),
        ),
        !info.contains_key("NetworkSettings"@) || (info.contains_pair(
            "NetworkSettings"@,
            Tree::Object(net),
        ) && !net.contains_key("Ports"@)) ==> answered(
            Op::Port,
            t,
            Event::Answer(Tree::Object(info)),
        ) == replied(Tree::Object(map!["container"@ => Tree::Text(c), "ports"@ => Tree::Null])),
{
}

/// A container that has exited is told by its status, and by null where the wait ends without one;
/// a pull is told by the image; statistics that do not come are an error.
pub proof fn streamed_answer_is_told(t: Tree, s: Seq<char>, status: i64)
    ensures
        t.text_at("container"@) == Some(s) ==> {
            &&& answered(Op::Wait, t, Event::Exited(status)) == replied(
                only("status_code"@, Tree::Number(Num::Int(status as int))),
            )
            &&& answered(Op::Wait, t, Event::Ended) == replied(only("status_code"@, Tree::Null))
            &&& answered(Op::Stats, t, Event::Ended) == replied(
                only("error"@, Tree::Text("no stats returned for `"@ + s + "`"@)),
            )
        },
        t.text_at("image"@) == Some(s) ==> {
            &&& answered(Op::Pull, t, Event::Ended) == replied(only("image"@, Tree::Text(s)))
            &&& answered(Op::Pull, t, Event::Item) is Next
            &&& after(answered(Op::Pull, t, Event::Item), Event::Ended) == replied(
                only("image"@, Tree::Text(s)),
            )
        },
{
}

/// Chunks of logs are told one behind the other.
pub proof fn chunks_of_logs_are_told_in_order(t: Tree, first: Seq<u8>, second: Seq<u8>)
    requires
        t.text_at("container"@) is Some,
    ensures
        ({
            let s0 = connected(Op::Logs, t);
            let s1 = after(s0, Event::Chunk(first));
            let s2 = after(s1, Event::Chunk(second));
            &&& s1 is Next
            &&& s2 is Next
            &&& after(s0, Event::Ended) == replied(only("logs"@, Tree::Text(Seq::empty())))
            &&& after(s1, Event::Ended) == replied(only("logs"@, Tree::Text(lossy_text(first))))
            &&& after(s2, Event::Ended) == replied(
                only("logs"@, Tree::Text(lossy_text(first) + lossy_text(second))),
            )
        }),
{
    assert(Seq::<char>::empty() + lossy_text(first) =~= lossy_text(first));
}

/// A command is set up, started by the id that it was given, and its output told in order.
pub proof fn executed_command_is_started_and_told(
    t: Tree,
    id: Seq<char>,
    first: Seq<u8>,
    second: Seq<u8>,
)
    requires
        t.text_at("container"@) is Some,
        t.texts_at("cmd"@) is Some,
    ensures
        ({
            let s0 = answered(Op::Exec, t, Event::Created(id));
            let s1 = after(s0, Event::Attached);
            let s2 = after(s1, Event::Chunk(first));
            let s3 = after(s2, Event::Chunk(second));
            &&& sends(s0, Call::StartExec { id, tty: None })
            &&& s1 is Next
            &&& s2 is Next
            &&& s3 is Next
            &&& after(s0, Event::Detached) == replied(only("output"@, Tree::Text(Seq::empty())))
            &&& after(s1, Event::Ended) == replied(only("output"@, Tree::Text(Seq::empty())))
            &&& after(s3, Event::Ended) == replied(
                only("output"@, Tree::Text(lossy_text(first) + lossy_text(second))),
            )
        }),
{
    assert(Seq::<char>::empty() + lossy_text(first) =~= lossy_text(first));
}

/// The operations that need no daemon to find an argument missing.
pub open spec fn needs_no_daemon(op: Op) -> bool {
    op == Op::Pause || op == Op::Unpause || op == Op::Rename || op == Op::Wait || op == Op::Top
        || op == Op::Stats || op == Op::Commit || op == Op::Diff || op == Op::History || op
        == Op::Port || op == Op::Update
}

/// An operation sends its call once it is connected. One that is refused tells why: at once where
/// it needs no daemon for that, and else once it is connected.
pub proof fn refusal_comes_in_its_time(op: Op, t: Tree)
    ensures
        op_call(op, t) matches Ok(call) ==> begin(op, t) is Connect && sends(
            connected(op, t),
            call,
        ),
        op_call(op, t) matches Err(e) ==> {
            let reply = replied(only("error"@, Tree::Text(refusal_text(e))));
            &&& needs_no_daemon(op) ==> begin(op, t) == reply
            &&& !needs_no_daemon(op) ==> begin(op, t) is Connect && connected(op, t) == reply
        },
{
}

/// A failure is told as an error with its message, a panic with a message of its own, whenever they
/// come before the reply.
pub proof fn failure_is_an_error(step: StepModel, message: Seq<char>)
    requires
        !(step is Reply),
    ensures
        after(step, Event::Failed(message)) == replied(only("error"@, Tree::Text(message))),
        after(step, Event::Panicked) == replied(
            only("error"@, Tree::Text("stryke-docker handler panicked"@)),
        ),
{
}

/// What cannot come of a step is told as a panic: of a connection anything but that, and of a call
/// an answer that is none to it.
pub proof fn stray_event_is_an_error(op: Op, t: Tree, e: EventModel)
    requires
        op_call(op, t) is Ok,
        !(e is Failed),
    ensures
        ({
            let panic = replied(only("error"@, Tree::Text("stryke-docker handler panicked"@)));
            &&& !(e is Connected) ==> after(begin(op, t), e) == panic
            &&& op == Op::Exec && !(e is Created) ==> answered(op, t, e) == panic
            &&& op == Op::Pull && !(e is Item) && !(e is Ended) ==> answered(op, t, e) == panic
            &&& op == Op::Wait && !(e is Exited) && !(e is Ended) ==> answered(op, t, e) == panic
            &&& op == Op::Stats && !(e is Answer) && !(e is Ended) ==> answered(op, t, e) == panic
            &&& op == Op::Logs && !(e is Chunk) && !(e is Ended) ==> answered(op, t, e) == panic
            &&& op != Op::Exec && op != Op::Pull && op != Op::Wait && op != Op::Stats && op
                != Op::Logs && !(e is Answer) ==> answered(op, t, e) == panic
        }),
{
}

/// A result is answered with its document, and an error with the message under `error`.
pub proof fn error_is_answered(t: Tree, message: Seq<char>, e: Refusal<Seq<char>>)
    ensures
        answer_tree(Ok(t)) == t,
        answer_tree(Err(message)) == only("error"@, Tree::Text(message)),
        answer_tree(told(Err(e))) == only("error"@, Tree::Text(refusal_text(e))),
        answer_tree(told(Ok(t))) == t,
        panic_text() == "stryke-docker handler panicked"@,
{
}

/// The arguments are the document that their text spells, and null where there is no text or where
/// it spells none.
pub proof fn arguments_are_read(text: Seq<u8>, t: Tree)
    ensures
        json_parse(text) == Some(t) ==> args_tree(Some(text)) == t,
        json_parse(text) is None ==> args_tree(Some(text)) is Null,
        args_tree(None) is Null,
{
}

/// The parts of an image reference are told each under its own name; the reference is under `ref`,
/// or under `image` where there is no `ref`.
pub proof fn image_reference_is_told(t: Tree, r: Seq<char>)
    ensures
        t.text_at("ref"@) == Some(r) || (t.field("ref"@) is None && t.text_at("image"@) == Some(r))
            ==> {
            &&& r.len() == 0 ==> image_ref_reply(t) == Err::<Tree, Refusal<Seq<char>>>(
                Refusal::EmptyReference,
            )
            &&& r.len() > 0 ==> image_ref_reply(t) == Ok::<Tree, Refusal<Seq<char>>>(
                Tree::Object(
                    map![
                        "registry"@ => nullable(image_parts(r).registry),
                        "namespace"@ => nullable(image_parts(r).namespace),
                        "repository"@ => Tree::Text(image_parts(r).repository),
                        "tag"@ => nullable(image_parts(r).tag),
                        "digest"@ => nullable(image_parts(r).digest),
                        "path"@ => Tree::Text(image_parts(r).path),
                    ],
                ),
            )
        },
        t.text_at("ref"@) is None && (t.field("ref"@) is Some || t.text_at("image"@) is None)
            ==> image_ref_reply(t) == Err::<Tree, Refusal<Seq<char>>>(Refusal::Missing(Field::Ref)),
{
}

/// A text that is there is told as it is, and one that is not as null.
pub proof fn absent_text_is_null(s: Seq<char>)
    ensures
        nullable(Some(s)) == Tree::Text(s),
        nullable(None) == Tree::Null,
{
}

/// A name is told with whether it is valid.
pub proof fn name_is_told(t: Tree, name: Seq<char>)
    ensures
        t.text_at("name"@) == Some(name) ==> name_reply(t) == Ok::<Tree, Refusal<Seq<char>>>(
            Tree::Object(
                map!["name"@ => Tree::Text(name), "valid"@ => Tree::Bool(is_valid_name(name))],
            ),
        ),
        t.text_at("name"@) is None ==> name_reply(t) == Err::<Tree, Refusal<Seq<char>>>(
            Refusal::Missing(Field::Name),
        ),
{
}

/// The parts of a published port are told each under its own name, and what is wrong with it is
/// told where it has none.
pub proof fn port_is_told(t: Tree, spec: Seq<char>)
    ensures
        t.text_at("spec"@) == Some(spec) ==> match port_parts(spec) {
            Ok(p) => port_reply(t) == Ok::<Tree, Refusal<Seq<char>>>(
                Tree::Object(
                    map![
                        "host_ip"@ => nullable(p.host_ip),
                        "host_port"@ => nullable(p.host_port),
                        "container_port"@ => Tree::Text(p.container_port),
                        "protocol"@ => Tree::Text(p.protocol),
                    ],
                ),
            ),
            Err(e) => port_reply(t) == Err::<Tree, Refusal<Seq<char>>>(e),
        },
        t.text_at("spec"@) is None ==> port_reply(t) == Err::<Tree, Refusal<Seq<char>>>(
            Refusal::Missing(Field::Spec),
        ),
{
}

/// The parts of a mount are told each under its own name, its kind by a word, and what is wrong
/// with it is told where it has none.
pub proof fn mount_is_told(t: Tree, spec: Seq<char>)
    ensures
        t.text_at("spec"@) == Some(spec) ==> match mount_parts(spec) {
            Ok(m) => mount_reply(t) == Ok::<Tree, Refusal<Seq<char>>>(
                Tree::Object(
                    map![
                        "type"@ => Tree::Text(
                            match m.kind {
                                MountKind::Bind => "bind"@,
                                MountKind::Volume => "volume"@,
                                MountKind::Anonymous => "anonymous"@,
                            },
                        ),
                        "source"@ => nullable(m.source),
                        "target"@ => Tree::Text(m.target),
                        "readonly"@ => Tree::Bool(m.readonly),
                        "options"@ => Tree::List(
                            m.options.map_values(|s: Seq<char>| Tree::Text(s)),
                        ),
                    ],
                ),
            ),
            Err(e) => mount_reply(t) == Err::<Tree, Refusal<Seq<char>>>(e),
        },
        t.text_at("spec"@) is None ==> mount_reply(t) == Err::<Tree, Refusal<Seq<char>>>(
            Refusal::Missing(Field::Spec),
        ),
{
}

} // verus!
