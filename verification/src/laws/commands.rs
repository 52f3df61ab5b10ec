//! What the commands of the helper send and write.

use vstd::prelude::*;
use vstd::utf8::encode_utf8;

use crate::call::{Call, CallModel, Pool};
use crate::command::{command_call, paired, published, Command, CommandModel, CreateArgs};
use crate::helper::{
    helper_begin, raw_output, shown_output, text_lines, turn_after, Need, Notice, NoticeModel,
    Turn, TurnModel,
};
use crate::json::{json_text, nullable, Num, Tree};
use crate::labels::{grouped, labels};
use crate::laws::calls::{commands, with_if};
use crate::laws::replies::only;
use crate::output::{build_tree, lossy_text, report_fields_differ, BuildInfo, StreamKind};
use crate::prune::PruneFlags;

verus! {

/// The bytes of a text and of the line break behind it.
pub open spec fn line(text: Seq<char>) -> Seq<u8> {
    encode_utf8(text).push(0x0au8)
}

/// The turn that writes some bytes and is the last.
pub open spec fn last_turn(out: Seq<u8>) -> TurnModel {
    Turn { out, notes: Seq::empty(), need: Need::Done }
}

/// The turn that writes a document as a line and is the last.
pub open spec fn closing(doc: Tree) -> TurnModel {
    last_turn(line(json_text(doc)))
}

/// The turn that fails with a line.
pub open spec fn failing(message: Seq<char>) -> TurnModel {
    Turn { out: Seq::empty(), notes: Seq::empty(), need: Need::Failed(message) }
}

/// Whether a turn writes some bytes, no notes, and goes on with the stream.
pub open spec fn goes_on(turn: TurnModel, out: Seq<u8>) -> bool {
    turn.out == out && turn.notes == Seq::<Seq<char>>::empty() && turn.need is Next
}

/// Whether a turn writes some bytes, no notes, and sends a call.
pub open spec fn calls(turn: TurnModel, out: Seq<u8>, call: CallModel) -> bool {
    turn.out == out && turn.notes == Seq::<Seq<char>>::empty() && (turn.need matches Need::Call(
        _,
        c,
    ) && c == call)
}

/// The turn behind the first notice.
pub open spec fn noticed(c: CommandModel, n: NoticeModel) -> TurnModel {
    turn_after(helper_begin(c), n)
}

/// Each command on a container sends its own call, with its own arguments.
pub proof fn container_command_sends_its_own_call(
    c: Seq<char>,
    n: Option<i64>,
    m: Option<isize>,
    s: Option<Seq<char>>,
    p: bool,
    q: bool,
)
    ensures
        commands(Command::Inspect { container: c }, Call::InspectContainer { container: c }),
        commands(Command::Start { container: c }, Call::StartContainer { container: c }),
        commands(
            Command::Stop { container: c, time: n },
            Call::StopContainer { container: c, timeout: n },
        ),
        commands(
            Command::Restart { container: c, time: m },
            Call::RestartContainer { container: c, timeout: m },
        ),
        commands(
            Command::Kill { container: c, signal: s },
            Call::KillContainer { container: c, signal: s },
        ),
        commands(
            Command::Rm { container: c, force: p, volumes: q },
            Call::RemoveContainer { container: c, force: p, volumes: q },
        ),
        commands(
            Command::Stats { container: c, stream: p },
            Call::Stats { container: c, stream: p, one_shot: !p },
        ),
{
}

/// Logs are asked for as the command says, whole where it gives no number of lines, from the
/// beginning and to the end where it gives no times.
pub proof fn logs_are_commanded_as_asked(
    c: Seq<char>,
    tail: Option<Seq<char>>,
    since: Option<i64>,
    until: Option<i64>,
    follow: bool,
    timestamps: bool,
    stdout: bool,
    stderr: bool,
)
    ensures
        commands(
            Command::Logs { container: c, tail, since, until, follow, timestamps, stdout, stderr },
            Call::Logs {
                container: c,
                stdout,
                stderr,
                follow,
                timestamps,
                tail: if tail is Some {
                    tail->0
                } else {
                    "all"@
                },
                since: if since is Some {
                    since->0
                } else {
                    0
                },
                until: if until is Some {
                    until->0
                } else {
                    0
                },
            },
        ),
{
}

/// A command in a container is set up as asked, with both of its outputs.
pub proof fn exec_is_commanded_as_asked(
    c: Seq<char>,
    cmd: Seq<Seq<char>>,
    env: Seq<Seq<char>>,
    workdir: Option<Seq<char>>,
    user: Option<Seq<char>>,
    tty: bool,
)
    ensures
        commands(
            Command::Exec { container: c, cmd, env, workdir, user, tty },
            Call::CreateExec {
                container: c,
                cmd,
                env: if env.len() > 0 {
                    Some(env)
                } else {
                    None
                },
                working_dir: workdir,
                user,
                tty: Some(tty),
                attach_stdout: Some(true),
                attach_stderr: Some(true),
            },
        ),
{
}

/// Listings are asked for with the filters that are given, each key with all of its values.
pub proof fn listing_is_commanded_as_asked(
    all: bool,
    limit: Option<isize>,
    size: bool,
    since: Option<Seq<char>>,
    until: Option<Seq<char>>,
    filters: Seq<(Seq<char>, Seq<char>)>,
)
    ensures
        commands(Command::Ping, Call::Ping),
        commands(Command::Version, Call::Version),
        commands(Command::Info, Call::Info),
        commands(
            Command::Events { since, until, filters },
            Call::Events { since, until, filters: grouped(filters) },
        ),
        commands(
            Command::Ps { all, limit, size, filters },
            Call::ListContainers { all, limit, size, filters: grouped(filters) },
        ),
        commands(
            Command::Images { all, filters },
            Call::ListImages { all, filters: grouped(filters) },
        ),
        commands(Command::Networks { filters }, Call::ListNetworks { filters: grouped(filters) }),
        commands(Command::Volumes { filters }, Call::ListVolumes { filters: grouped(filters) }),
{
}

/// Each command on an image sends its own call, with its own arguments.
pub proof fn image_command_sends_its_own_call(
    image: Seq<char>,
    platform: Option<Seq<char>>,
    force: bool,
    noprune: bool,
)
    ensures
        command_call(Command::Pull { image, platform }) matches Call::CreateImage {
            from_image,
            tag,
            platform: p,
        } && from_image == image && tag.len() == 0 && (platform is Some ==> p == platform->0) && (
        platform is None ==> p.len() == 0),
        command_call(Command::Push { image }) matches Call::PushImage { image: i, tag } && i
            == image && tag.len() == 0,
        commands(
            Command::Rmi { image, force, noprune },
            Call::RemoveImage { image, force, noprune },
        ),
{
    reveal_strlit("");
}

/// A build is asked for with what is given, from `Dockerfile` where no other file is named, and
/// intermediate containers are removed, after failures too, where that is asked for.
pub proof fn build_is_commanded_as_asked(
    tag: Option<Seq<char>>,
    dockerfile: Option<Seq<char>>,
    build_args: Seq<(Seq<char>, Seq<char>)>,
    no_cache: bool,
    pull: bool,
    rm: bool,
)
    ensures
        ({
            let c: CommandModel = Command::Build {
                tag,
                dockerfile,
                build_args,
                no_cache,
                pull,
                rm,
            };
            &&& command_call(c) matches Call::BuildImage {
                dockerfile: file,
                tag: name,
                no_cache: fresh,
                pull: pulled,
                rm: removed,
                force_rm,
                build_args: values,
            } && {
                &&& dockerfile is Some ==> file == dockerfile->0
                &&& dockerfile is None ==> file == "Dockerfile"@
                &&& tag is Some ==> name == tag->0
                &&& tag is None ==> name.len() == 0
                &&& fresh == no_cache && pulled == pull && removed == rm && force_rm == rm
                &&& values == paired(build_args)
            }
            &&& helper_begin(c).need is Pack
            &&& calls(noticed(c, Notice::Packed), Seq::empty(), command_call(c))
        }),
{
    reveal_strlit("");
}

/// Each command on a network or a volume sends its own call, with its own arguments.
pub proof fn network_and_volume_commands_send_their_own_calls(
    name: Seq<char>,
    driver: Seq<char>,
    given: Seq<Seq<char>>,
    subnet: Option<Seq<char>>,
    gateway: Option<Seq<char>>,
    force: bool,
)
    ensures
        commands(
            Command::NetworkCreate { name, driver, subnet, gateway, labels: given },
            Call::CreateNetwork {
                name,
                driver,
                labels: labels(given),
                pool: if subnet is None && gateway is None {
                    None
                } else {
                    Some(Pool { driver: "default"@, subnet, gateway })
                },
            },
        ),
        commands(Command::NetworkRm { name }, Call::RemoveNetwork { name }),
        commands(
            Command::VolumeCreate { name, driver, labels: given },
            Call::CreateVolume { name, driver, labels: labels(given) },
        ),
        commands(Command::VolumeRm { name, force }, Call::RemoveVolume { name, force }),
{
}

/// That a call creates the container that the arguments describe: each setting is from the
/// argument of its own name, an empty list counts as none, and both outputs are attached where
/// there is no terminal.
pub open spec fn creates(
    call: CallModel,
    args: CreateArgs<Seq<char>, Seq<Seq<char>>>,
    rm: bool,
) -> bool {
    call matches Call::CreateContainer { name, settings: s } && {
        &&& name == args.name
        &&& s.image == args.image
        &&& args.cmd.len() > 0 ==> s.cmd == Some(args.cmd)
        &&& args.cmd.len() == 0 ==> s.cmd is None
        &&& args.env.len() > 0 ==> s.env == Some(args.env)
        &&& args.env.len() == 0 ==> s.env is None
        &&& args.labels.len() > 0 ==> s.labels == Some(labels(args.labels))
        &&& args.labels.len() == 0 ==> s.labels is None
        &&& s.working_dir == args.workdir
        &&& s.user == args.user
        &&& s.hostname == args.hostname
        &&& s.tty == Some(args.tty)
        &&& s.attach_stdin == Some(false)
        &&& s.attach_stdout == Some(!args.tty)
        &&& s.attach_stderr == Some(!args.tty)
        &&& args.ports.len() > 0 ==> s.ports == Some(published(args.ports))
        &&& args.ports.len() == 0 ==> s.ports is None
        &&& s.host matches Some(h) && {
            &&& args.volumes.len() > 0 ==> h.binds == Some(args.volumes)
            &&& args.volumes.len() == 0 ==> h.binds is None
            &&& rm ==> h.auto_remove == Some(true)
            &&& !rm ==> h.auto_remove is None
            &&& h.network_mode == args.network
            &&& h.restart is Some <==> args.restart is Some
        }
    }
}

/// `run` and `create` create the container that their arguments describe; one that is created and
/// not run is never removed by itself.
pub proof fn commanded_container_is_created_as_asked(
    args: CreateArgs<Seq<char>, Seq<Seq<char>>>,
    rm: bool,
)
    ensures
        creates(command_call(Command::Run { args, rm }), args, rm),
        creates(command_call(Command::Create { args }), args, false),
{
}

/// Every command but a build begins with its call.
pub proof fn command_begins_with_its_call(c: CommandModel)
    requires
        !(c is Build),
    ensures
        calls(helper_begin(c), Seq::empty(), command_call(c)),
{
}

/// The document about something that was done.
pub open spec fn deed(key: Seq<char>, id: Seq<char>, word: Seq<char>) -> Tree {
    Tree::Object(map![key => Tree::Text(id), word => Tree::Bool(true)])
}

/// What the daemon has agreed to is written as done, with what it was done to.
pub proof fn deed_is_written(
    c: Seq<char>,
    n: Option<i64>,
    m: Option<isize>,
    s: Option<Seq<char>>,
    target: Seq<char>,
    p: bool,
    q: bool,
)
    ensures
        noticed(Command::Start { container: c }, Notice::Agreed) == closing(
            deed("id"@, c, "started"@),
        ),
        noticed(Command::Stop { container: c, time: n }, Notice::Agreed) == closing(
            deed("id"@, c, "stopped"@),
        ),
        noticed(Command::Restart { container: c, time: m }, Notice::Agreed) == closing(
            deed("id"@, c, "restarted"@),
        ),
        noticed(Command::Kill { container: c, signal: s }, Notice::Agreed) == closing(
            deed("id"@, c, "killed"@),
        ),
        noticed(Command::Rm { container: c, force: p, volumes: q }, Notice::Agreed) == closing(
            deed("id"@, c, "removed"@),
        ),
        noticed(Command::NetworkRm { name: c }, Notice::Agreed) == closing(
            deed("name"@, c, "removed"@),
        ),
        noticed(Command::VolumeRm { name: c, force: p }, Notice::Agreed) == closing(
            deed("name"@, c, "removed"@),
        ),
        noticed(Command::Tag { source: c, target }, Notice::Agreed) == closing(
            Tree::Object(
                map![
                    "source"@ => Tree::Text(c),
                    "target"@ => Tree::Text(target),
                    "tagged"@ => Tree::Bool(true),
                ],
            ),
        ),
        noticed(Command::Ping, Notice::Agreed) == closing(only("ok"@, Tree::Bool(true))),
{
}

/// What a command was doing, in the words in which a failure is told.
pub open spec fn task(c: CommandModel) -> Seq<char> {
    match c {
        Command::Ping => "ping"@,
        Command::Version => "version"@,
        Command::Info => "info"@,
        Command::Events { .. } => "event"@,
        Command::Ps { .. } => "list_containers"@,
        Command::Inspect { .. } => "inspect"@,
        Command::Run { .. } => "create_container"@,
        Command::Create { .. } => "create_container"@,
        Command::Start { .. } => "start_container"@,
        Command::Stop { .. } => "stop_container"@,
        Command::Restart { .. } => "restart_container"@,
        Command::Kill { .. } => "kill_container"@,
        Command::Rm { .. } => "remove_container"@,
        Command::Logs { .. } => "logs"@,
        Command::Exec { .. } => "create_exec"@,
        Command::Stats { .. } => "stats"@,
        Command::Images { .. } => "list_images"@,
        Command::Pull { .. } => "pull"@,
        Command::Push { .. } => "push"@,
        Command::Rmi { .. } => "remove_image"@,
        Command::Tag { .. } => "tag_image"@,
        Command::Build { .. } => "tar build context"@,
        Command::Networks { .. } => "list_networks"@,
        Command::NetworkCreate { .. } => "create_network"@,
        Command::NetworkRm { .. } => "remove_network"@,
        Command::Volumes { .. } => "list_volumes"@,
        Command::VolumeCreate { .. } => "create_volume"@,
        Command::VolumeRm { .. } => "remove_volume"@,
        Command::Prune { flags } => if flags.containers || flags.all || !(flags.images
            || flags.volumes || flags.networks) {
            "prune_containers"@
        } else if flags.images {
            "prune_images"@
        } else if flags.volumes {
            "prune_volumes"@
        } else {
            "prune_networks"@
        },
    }
}

/// The line in which a failure is told.
pub open spec fn failure(task: Seq<char>, cause: Seq<char>) -> Seq<char> {
    "stryke-docker-helper: "@ + (task + ": "@ + cause)
}

/// A command that fails tells what it was doing and why, and writes nothing; `ping` writes that the
/// daemon does not answer.
pub proof fn failed_command_says_what_it_was_doing(c: CommandModel, cause: Seq<char>)
    ensures
        !(c is Ping) ==> noticed(c, Notice::Failed(cause)) == failing(failure(task(c), cause)),
        c is Ping ==> noticed(c, Notice::Failed(cause)) == closing(only("ok"@, Tree::Bool(false))),
{
}

/// An answer that is none to what was sent is told as unexpected, with what the command was doing.
pub proof fn stray_notice_is_a_failure(c: CommandModel, id: Seq<char>)
    ensures
        !(c is Build) ==> noticed(c, Notice::Packed) == failing(
            failure(task(c), "unexpected answer"@),
        ),
        !(c is Exec) ==> noticed(c, Notice::ExecCreated(id)) == failing(
            failure(task(c), "unexpected answer"@),
        ),
{
}

/// The commands that answer with one document write it as a line and are done, and those that
/// answer with a list write each of its documents as a line.
pub proof fn answer_is_written(c: CommandModel, doc: Seq<char>, docs: Seq<Seq<char>>)
    ensures
        c is Version || c is Info || c is Inspect || c is Rmi || c is NetworkCreate || c
            is VolumeCreate || (c matches Command::Stats { stream, .. } && !stream) ==> noticed(
            c,
            Notice::Document(doc),
        ) == last_turn(line(doc)),
        c is Ps || c is Images || c is Networks || c is Volumes ==> noticed(
            c,
            Notice::Listing(docs),
        ) == last_turn(text_lines(docs)),
{
}

/// Texts are written each as a line, one behind the other.
pub proof fn texts_are_written_as_lines(v: Seq<Seq<char>>, text: Seq<char>)
    ensures
        text_lines(Seq::empty()) == Seq::<u8>::empty(),
        text_lines(v.push(text)) == text_lines(v) + line(text),
{
    assert(v.push(text).drop_last() =~= v);
}

/// The commands that follow a stream write each of its documents as a line as it comes, tell by the
/// same words what they were doing when it fails, and are done when it ends.
pub proof fn stream_is_followed(c: CommandModel, doc: Seq<char>, cause: Seq<char>)
    requires
        c is Events || c is Pull || c is Push || (c matches Command::Stats { stream, .. }
            && stream),
    ensures
        goes_on(noticed(c, Notice::Document(doc)), line(doc)),
        turn_after(noticed(c, Notice::Document(doc)), Notice::Document(doc)) == noticed(
            c,
            Notice::Document(doc),
        ),
        turn_after(noticed(c, Notice::Document(doc)), Notice::Ended) == last_turn(Seq::empty()),
        turn_after(noticed(c, Notice::Document(doc)), Notice::Failed(cause)) == failing(
            failure(task(c), cause),
        ),
        noticed(c, Notice::Ended) == last_turn(Seq::empty()),
{
}

/// The document about a container that was created.
pub open spec fn created(id: Seq<char>, warnings: Seq<Seq<char>>, started: bool) -> Tree {
    Tree::Object(
        map![
            "id"@ => Tree::Text(id),
            "warnings"@ => Tree::List(warnings.map_values(|w: Seq<char>| Tree::Text(w))),
            "started"@ => Tree::Bool(started),
        ],
    )
}

/// A container that is run is started by the id that it was given, and then written as started; one
/// that is created is written as not started. The warnings of the daemon are noted, each on a line.
pub proof fn container_is_run_or_created(
    run: CommandModel,
    create: CommandModel,
    id: Seq<char>,
    warnings: Seq<Seq<char>>,
    cause: Seq<char>,
)
    requires
        run is Run,
        create is Create,
    ensures
        ({
            let notes = warnings.map_values(
                |w: Seq<char>| "stryke-docker-helper: warning: "@ + w,
            );
            let ran = noticed(run, Notice::Created { id, warnings });
            let made = noticed(create, Notice::Created { id, warnings });
            &&& ran.out == Seq::<u8>::empty()
            &&& ran.notes == notes
            &&& ran.need matches Need::Call(_, call) && call == (Call::StartContainer::<
                Seq<char>,
                Seq<Seq<char>>,
                Map<Seq<char>, Seq<char>>,
                Map<Seq<char>, Seq<Seq<char>>>,
            > { container: id })
            &&& turn_after(ran, Notice::Agreed) == closing(created(id, warnings, true))
            &&& turn_after(ran, Notice::Failed(cause)) == failing(
                failure("start_container"@, cause),
            )
            &&& made.out == line(json_text(created(id, warnings, false)))
            &&& made.notes == notes
            &&& made.need is Done
        }),
{
}

/// The document about a piece of output.
pub open spec fn output(k: StreamKind, text: Seq<char>) -> Tree {
    Tree::Object(
        map![
            "stream"@ => Tree::Text(
                match k {
                    StreamKind::StdOut => "stdout"@,
                    StreamKind::StdErr => "stderr"@,
                    StreamKind::StdIn => "stdin"@,
                    StreamKind::Console => "console"@,
                },
            ),
            "data"@ => Tree::Text(text),
        ],
    )
}

/// Logs that are followed are written as one document for each piece, and others as they are.
pub proof fn logs_are_written_as_asked(c: CommandModel, k: StreamKind, bytes: Seq<u8>)
    requires
        c is Logs,
    ensures
        c->Logs_follow ==> goes_on(
            noticed(c, Notice::Output(k, bytes)),
            line(json_text(output(k, lossy_text(bytes)))),
        ),
        !c->Logs_follow ==> goes_on(noticed(c, Notice::Output(k, bytes)), bytes),
        turn_after(noticed(c, Notice::Output(k, bytes)), Notice::Output(k, bytes)) == noticed(
            c,
            Notice::Output(k, bytes),
        ),
        turn_after(noticed(c, Notice::Output(k, bytes)), Notice::Ended) == last_turn(Seq::empty()),
        noticed(c, Notice::Ended) == last_turn(Seq::empty()),
{
}

/// Output is written piece by piece, in its order.
pub proof fn output_is_written_in_order(
    k: StreamKind,
    bytes: Seq<u8>,
    chunks: Seq<(StreamKind, Seq<u8>)>,
)
    ensures
        ({
            let all = seq![(k, bytes)] + chunks;
            &&& raw_output(all) == bytes + raw_output(chunks)
            &&& shown_output(all) == line(json_text(output(k, lossy_text(bytes)))) + shown_output(
                chunks,
            )
        }),
        raw_output(Seq::empty()) == Seq::<u8>::empty(),
        shown_output(Seq::empty()) == Seq::<u8>::empty(),
{
    assert((seq![(k, bytes)] + chunks).drop_first() =~= chunks);
}

/// A command in a container is started by the id that it was given and with the terminal that was
/// asked for, its output is written as it comes, and how it ended is asked for by the same id and
/// written last.
pub proof fn exec_is_run_and_written(
    c: CommandModel,
    id: Seq<char>,
    k: StreamKind,
    bytes: Seq<u8>,
    code: Option<i64>,
    cause: Seq<char>,
)
    requires
        c is Exec,
    ensures
        ({
            let made = noticed(c, Notice::ExecCreated(id));
            let attached = turn_after(made, Notice::Attached);
            let shown = turn_after(attached, Notice::Output(k, bytes));
            let ended = turn_after(attached, Notice::Ended);
            let detached = turn_after(made, Notice::Detached);
            let status = closing(
                only(
                    "exit_code"@,
                    match code {
                        Some(n) => Tree::Number(Num::Int(n as int)),
                        None => Tree::Null,
                    },
                ),
            );
            &&& calls(made, Seq::empty(), Call::StartExec { id, tty: Some(c->Exec_tty) })
            &&& goes_on(attached, Seq::empty())
            &&& goes_on(shown, line(json_text(output(k, lossy_text(bytes)))))
            &&& turn_after(shown, Notice::Output(k, bytes)) == shown
            &&& turn_after(shown, Notice::Ended) == ended
            &&& calls(ended, Seq::empty(), Call::InspectExec { id })
            &&& calls(
                detached,
                line(json_text(only("detached"@, Tree::Bool(true)))),
                Call::InspectExec { id },
            )
            &&& turn_after(ended, Notice::Exit(code)) == status
            &&& turn_after(detached, Notice::Exit(code)) == status
            &&& turn_after(made, Notice::Failed(cause)) == failing(failure("start_exec"@, cause))
            &&& turn_after(attached, Notice::Failed(cause)) == failing(
                failure("exec stream"@, cause),
            )
            &&& turn_after(ended, Notice::Failed(cause)) == failing(failure("inspect_exec"@, cause))
        }),
{
}

/// What a build reports is written as it comes.
pub proof fn build_is_written(c: CommandModel, b: BuildInfo<Seq<char>>, cause: Seq<char>)
    requires
        c is Build,
    ensures
        ({
            let packed = noticed(c, Notice::Packed);
            let told = turn_after(packed, Notice::Report(b));
            &&& goes_on(told, line(json_text(build_tree(b))))
            &&& turn_after(told, Notice::Report(b)) == told
            &&& turn_after(told, Notice::Ended) == last_turn(Seq::empty())
            &&& turn_after(packed, Notice::Ended) == last_turn(Seq::empty())
            &&& turn_after(packed, Notice::Failed(cause)) == failing(failure("build"@, cause))
        }),
{
}

/// A text that is there, as a field.
pub open spec fn field_of(t: Option<Seq<char>>) -> Option<Tree> {
    match t {
        Some(s) => Some(Tree::Text(s)),
        None => None,
    }
}

/// A number that is there, and else null.
pub open spec fn number_of(n: Option<i64>) -> Tree {
    match n {
        Some(n) => Tree::Number(Num::Int(n as int)),
        None => Tree::Null,
    }
}

/// The report of a build has each of its parts under its own name, and only those that are there.
pub proof fn build_report_is_written_by_name(b: BuildInfo<Seq<char>>)
    ensures
        ({
            let t = build_tree(b);
            &&& t.field("id"@) == field_of(b.id)
            &&& t.field("stream"@) == field_of(b.stream)
            &&& t.field("error"@) == field_of(b.error)
            &&& t.field("status"@) == field_of(b.status)
            &&& t.field("progress"@) == field_of(b.progress)
            &&& t.field("aux"@) == (match b.aux_id {
                Some(id) => Some(only("ID"@, Tree::Text(id))),
                None => None,
            })
            &&& t.field("progressDetail"@) == (match b.progress_detail {
                Some(p) => Some(
                    Tree::Object(
                        map!["current"@ => number_of(p.current), "total"@ => number_of(p.total)],
                    ),
                ),
                None => None,
            })
            &&& t.field("errorDetail"@) == (match b.error_detail {
                Some(e) => Some(
                    Tree::Object(
                        map!["code"@ => number_of(e.code), "message"@ => nullable(e.message)],
                    ),
                ),
                None => None,
            })
        }),
{
    report_fields_differ();
}

/// The turn behind the answer, where the call was one that is wanted.
pub open spec fn turn_if(turn: TurnModel, wanted: bool, answer: Tree) -> TurnModel {
    if wanted {
        turn_after(turn, Notice::Answer(answer))
    } else {
        turn
    }
}

/// `prune` prunes what its flags name, all but the volumes where it is given none, one call after
/// the other, and writes one report with the answer to each call under the word for it.
pub proof fn command_prunes_what_is_named(
    flags: PruneFlags,
    a: Tree,
    b: Tree,
    c: Tree,
    d: Tree,
)
    ensures
        ({
            let plain = !flags.containers && !flags.images && !flags.volumes && !flags.networks
                && !flags.all;
            let containers = flags.containers || flags.all || plain;
            let images = flags.images || flags.all || plain;
            let volumes = flags.volumes || flags.all;
            let networks = flags.networks || flags.all || plain;
            let t0 = helper_begin(Command::Prune { flags });
            let t1 = turn_if(t0, containers, a);
            let t2 = turn_if(t1, images, b);
            let t3 = turn_if(t2, volumes, c);
            let t4 = turn_if(t3, networks, d);
            let m1 = with_if(Map::empty(), containers, "containers"@, a);
            let m2 = with_if(m1, images, "images"@, b);
            let m3 = with_if(m2, volumes, "volumes"@, c);
            let m4 = with_if(m3, networks, "networks"@, d);
            &&& containers ==> calls(t0, Seq::empty(), Call::PruneContainers)
            &&& images ==> calls(t1, Seq::empty(), Call::PruneImages)
            &&& volumes ==> calls(t2, Seq::empty(), Call::PruneVolumes)
            &&& networks ==> calls(t3, Seq::empty(), Call::PruneNetworks)
            &&& t4 == closing(Tree::Object(m4))
        }),
{
}

/// A prune that fails tells which kind it was at.
pub proof fn failed_prune_says_where_it_was(a: Tree, b: Tree, c: Tree, cause: Seq<char>)
    ensures
        ({
            let flags = PruneFlags {
                containers: false,
                images: false,
                volumes: false,
                networks: false,
                all: true,
            };
            let t0 = helper_begin(Command::Prune { flags });
            let t1 = turn_after(t0, Notice::Answer(a));
            let t2 = turn_after(t1, Notice::Answer(b));
            let t3 = turn_after(t2, Notice::Answer(c));
            &&& turn_after(t0, Notice::Failed(cause)) == failing(
                failure("prune_containers"@, cause),
            )
            &&& turn_after(t1, Notice::Failed(cause)) == failing(failure("prune_images"@, cause))
            &&& turn_after(t2, Notice::Failed(cause)) == failing(failure("prune_volumes"@, cause))
            &&& turn_after(t3, Notice::Failed(cause)) == failing(failure("prune_networks"@, cause))
        }),
{
}

} // verus!
