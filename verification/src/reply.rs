//! What goes in and out of every exported function: arguments and replies as JSON texts, and the
//! helpers that need no daemon.

use vstd::prelude::*;
use vstd::utf8::encode_utf8;

use crate::json::{
    json_parse, json_text, nests_within, no_fields, nullable, plain_within, text_list,
    without_controls, Json, Tree,
};
use crate::mounts::{mount_parts, parse_mount, Mount, MountKind};
use crate::names::{is_valid_name, valid_container_name};
use crate::ports::{parse_port_spec, port_parts, PortSpec};
use crate::reference::{image_parts, parse_image_ref, ImageRef};
use crate::refusal::{refusal_text, Field, Refusal};

verus! {

/// The message that stands for a handler that panicked.
pub open spec fn panic_text() -> Seq<char> {
    "stryke-docker handler panicked"@
}

/// The arguments that a text holds. No text, and one that is no JSON, are `null`.
pub open spec fn args_tree(args: Option<Seq<u8>>) -> Tree {
    match args {
        None => Tree::Null,
        Some(text) => match json_parse(text) {
            Some(t) => t,
            None => Tree::Null,
        },
    }
}

/// The bytes of an optional text.
pub open spec fn opt_bytes(args: Option<&[u8]>) -> Option<Seq<u8>> {
    match args {
        Some(b) => Some(b@),
        None => None,
    }
}

/// Reads the arguments of a call. No text, and one that is no JSON, are `null`.
pub fn read_args(args: Option<&[u8]>) -> (r: Json)
    ensures
        r.tree() == args_tree(opt_bytes(args)),
{
    match args {
        None => Json::Null,
        Some(text) => match Json::parse(text) {
            Some(j) => j,
            None => Json::Null,
        },
    }
}

/// The document that tells an error.
pub open spec fn error_tree(message: Seq<char>) -> Tree {
    Tree::Object(no_fields().insert("error"@, Tree::Text(message)))
}

/// The document that answers a call: the value, or its error under `error`.
pub open spec fn answer_tree(r: Result<Tree, Seq<char>>) -> Tree {
    match r {
        Ok(t) => t,
        Err(message) => error_tree(message),
    }
}

/// What a result holds.
pub open spec fn result_model(r: Result<Json, String>) -> Result<Tree, Seq<char>> {
    match r {
        Ok(j) => Ok(j.tree()),
        Err(e) => Err(e@),
    }
}

/// What a result holds, its refusal told by the message.
pub open spec fn told(r: Result<Tree, Refusal<Seq<char>>>) -> Result<Tree, Seq<char>> {
    match r {
        Ok(t) => Ok(t),
        Err(e) => Err(refusal_text(e)),
    }
}

/// What a result holds.
pub open spec fn pure_model(r: Result<Json, Refusal<String>>) -> Result<Tree, Refusal<Seq<char>>> {
    match r {
        Ok(j) => Ok(j.tree()),
        Err(e) => Err(e.model()),
    }
}

/// Writes the reply to a call. It holds no NUL, so that it can be handed out as a C string, and
/// it reads back as the document that it is the text of.
pub fn finish(out: Result<Json, String>) -> (r: String)
    ensures
        r@ == json_text(answer_tree(result_model(out))),
        without_controls(r@),
        nests_within(answer_tree(result_model(out)), 127) ==> json_parse(encode_utf8(r@)) is Some,
        plain_within(answer_tree(result_model(out)), 127) ==> json_parse(encode_utf8(r@)) == Some(
            answer_tree(result_model(out)),
        ),
{
    match out {
        Ok(j) => j.render(),
        Err(message) => error_reply(message),
    }
}

/// Writes the reply that tells an error.
pub fn error_reply(message: String) -> (r: String)
    ensures
        r@ == json_text(error_tree(message@)),
        without_controls(r@),
        json_parse(encode_utf8(r@)) == Some(error_tree(message@)),
{
    proof {
        error_is_plain(message@);
    }
    let doc = Json::object().with("error", Json::Text(message));
    doc.render()
}

/// The document that tells an error is one level deep.
proof fn error_is_plain(message: Seq<char>)
    ensures
        plain_within(error_tree(message), 127),
{
    let fields = no_fields().insert("error"@, Tree::Text(message));
    assert forall|k: Seq<char>| #[trigger] fields.contains_key(k) implies plain_within(
        fields[k],
        126,
    ) by {}
}

/// Writes the reply that stands for a handler that panicked.
pub fn panic_reply() -> (r: String)
    ensures
        r@ == json_text(error_tree(panic_text())),
        without_controls(r@),
        json_parse(encode_utf8(r@)) == Some(error_tree(panic_text())),
{
    error_reply("stryke-docker handler panicked".to_owned())
}

/// The reference that the arguments hold under `ref`, or under `image` where there is no `ref`.
pub open spec fn ref_text(t: Tree) -> Option<Seq<char>> {
    if t.field("ref"@) is Some {
        t.text_at("ref"@)
    } else {
        t.text_at("image"@)
    }
}

/// The parts of an image reference as a document.
pub open spec fn image_tree(m: ImageRef<Seq<char>>) -> Tree {
    Tree::Object(
        no_fields().insert("registry"@, nullable(m.registry)).insert(
            "namespace"@,
            nullable(m.namespace),
        ).insert("repository"@, Tree::Text(m.repository)).insert("tag"@, nullable(m.tag)).insert(
            "digest"@,
            nullable(m.digest),
        ).insert("path"@, Tree::Text(m.path)),
    )
}

/// The reply of `docker__parse_image_ref`.
pub open spec fn image_ref_reply(t: Tree) -> Result<Tree, Refusal<Seq<char>>> {
    match ref_text(t) {
        None => Err(Refusal::Missing(Field::Ref)),
        Some(r) => if r.len() == 0 {
            Err(Refusal::EmptyReference)
        } else {
            Ok(image_tree(image_parts(r)))
        },
    }
}

/// Takes the image reference of the arguments apart.
pub fn op_parse_image_ref(opts: &Json) -> (r: Result<Json, Refusal<String>>)
    ensures
        pure_model(r) == image_ref_reply(opts.tree()),
{
    let found = match opts.field("ref") {
        Some(Json::Text(s)) => Some(s.as_str()),
        Some(_) => None,
        None => opts.text_at("image"),
    };
    match found {
        None => Err(Refusal::Missing(Field::Ref)),
        Some(text) => match parse_image_ref(text) {
            Err(e) => Err(e),
            Ok(parts) => Ok(
                Json::object().with("registry", Json::opt_text(parts.registry)).with(
                    "namespace",
                    Json::opt_text(parts.namespace),
                ).with("repository", Json::Text(parts.repository)).with(
                    "tag",
                    Json::opt_text(parts.tag),
                ).with("digest", Json::opt_text(parts.digest)).with("path", Json::Text(parts.path)),
            ),
        },
    }
}

/// The reply of `docker__valid_container_name`.
pub open spec fn name_reply(t: Tree) -> Result<Tree, Refusal<Seq<char>>> {
    match t.text_at("name"@) {
        None => Err(Refusal::Missing(Field::Name)),
        Some(name) => Ok(
            Tree::Object(
                no_fields().insert("name"@, Tree::Text(name)).insert(
                    "valid"@,
                    Tree::Bool(is_valid_name(name)),
                ),
            ),
        ),
    }
}

/// Says whether the name of the arguments is one that the daemon takes.
pub fn op_valid_container_name(opts: &Json) -> (r: Result<Json, Refusal<String>>)
    ensures
        pure_model(r) == name_reply(opts.tree()),
{
    match opts.text_at("name") {
        None => Err(Refusal::Missing(Field::Name)),
        Some(name) => Ok(
            Json::object().with("name", Json::text(name)).with(
                "valid",
                Json::Bool(valid_container_name(name)),
            ),
        ),
    }
}

/// The parts of a port spec as a document.
pub open spec fn port_tree(p: PortSpec<Seq<char>>) -> Tree {
    Tree::Object(
        no_fields().insert("host_ip"@, nullable(p.host_ip)).insert(
            "host_port"@,
            nullable(p.host_port),
        ).insert("container_port"@, Tree::Text(p.container_port)).insert(
            "protocol"@,
            Tree::Text(p.protocol),
        ),
    )
}

/// The reply of `docker__parse_port_spec`.
pub open spec fn port_reply(t: Tree) -> Result<Tree, Refusal<Seq<char>>> {
    match t.text_at("spec"@) {
        None => Err(Refusal::Missing(Field::Spec)),
        Some(spec) => match port_parts(spec) {
            Ok(p) => Ok(port_tree(p)),
            Err(e) => Err(e),
        },
    }
}

/// Takes the port spec of the arguments apart.
pub fn op_parse_port_spec(opts: &Json) -> (r: Result<Json, Refusal<String>>)
    ensures
        pure_model(r) == port_reply(opts.tree()),
{
    match opts.text_at("spec") {
        None => Err(Refusal::Missing(Field::Spec)),
        Some(spec) => match parse_port_spec(spec) {
            Err(e) => Err(e),
            Ok(p) => Ok(
                Json::object().with("host_ip", Json::opt_text(p.host_ip)).with(
                    "host_port",
                    Json::opt_text(p.host_port),
                ).with("container_port", Json::Text(p.container_port)).with(
                    "protocol",
                    Json::Text(p.protocol),
                ),
            ),
        },
    }
}

/// The word for a kind of mount.
pub open spec fn kind_text(k: MountKind) -> Seq<char> {
    match k {
        MountKind::Bind => "bind"@,
        MountKind::Volume => "volume"@,
        MountKind::Anonymous => "anonymous"@,
    }
}

/// The parts of a mount spec as a document.
pub open spec fn mount_tree(m: Mount<Seq<char>, Seq<Seq<char>>>) -> Tree {
    Tree::Object(
        no_fields().insert("type"@, Tree::Text(kind_text(m.kind))).insert(
            "source"@,
            nullable(m.source),
        ).insert("target"@, Tree::Text(m.target)).insert("readonly"@, Tree::Bool(m.readonly)).insert(
            "options"@,
            text_list(m.options),
        ),
    )
}

/// The reply of `docker__parse_mount`.
pub open spec fn mount_reply(t: Tree) -> Result<Tree, Refusal<Seq<char>>> {
    match t.text_at("spec"@) {
        None => Err(Refusal::Missing(Field::Spec)),
        Some(spec) => match mount_parts(spec) {
            Ok(m) => Ok(mount_tree(m)),
            Err(e) => Err(e),
        },
    }
}

/// Takes the mount spec of the arguments apart.
pub fn op_parse_mount(opts: &Json) -> (r: Result<Json, Refusal<String>>)
    ensures
        pure_model(r) == mount_reply(opts.tree()),
{
    match opts.text_at("spec") {
        None => Err(Refusal::Missing(Field::Spec)),
        Some(spec) => match parse_mount(spec) {
            Err(e) => Err(e),
            Ok(m) => {
                let kind: &str = match m.kind {
                    MountKind::Bind => "bind",
                    MountKind::Volume => "volume",
                    MountKind::Anonymous => "anonymous",
                };
                Ok(
                    Json::object().with("type", Json::text(kind)).with(
                        "source",
                        Json::opt_text(m.source),
                    ).with("target", Json::Text(m.target)).with("readonly", Json::Bool(m.readonly)).with(
                        "options",
                        Json::texts(m.options),
                    ),
                )
            },
        },
    }
}

/// Writes the reply of a helper that needs no daemon.
fn finish_pure(out: Result<Json, Refusal<String>>) -> (r: String)
    ensures
        r@ == json_text(answer_tree(told(pure_model(out)))),
        without_controls(r@),
        plain_within(answer_tree(told(pure_model(out))), 127) ==> json_parse(encode_utf8(r@))
            == Some(answer_tree(told(pure_model(out)))),
{
    match out {
        Ok(j) => finish(Ok(j)),
        Err(e) => finish(Err(e.message())),
    }
}

/// The version of the package.
pub fn docker__pkg_version(args: Option<&[u8]>, version: &str) -> (r: String)
    ensures
        r@ == json_text(Tree::Object(no_fields().insert("version"@, Tree::Text(version@)))),
        without_controls(r@),
        json_parse(encode_utf8(r@)) == Some(
            Tree::Object(no_fields().insert("version"@, Tree::Text(version@))),
        ),
{
    let _ = read_args(args);
    proof {
        with_is_plain(no_fields(), "version"@, Tree::Text(version@), 127);
    }
    Json::object().with("version", Json::text(version)).render()
}

/// The parts of the image reference under `ref`, or under `image`.
pub fn docker__parse_image_ref(args: Option<&[u8]>) -> (r: String)
    ensures
        r@ == json_text(answer_tree(told(image_ref_reply(args_tree(opt_bytes(args)))))),
        without_controls(r@),
        json_parse(encode_utf8(r@)) == Some(
            answer_tree(told(image_ref_reply(args_tree(opt_bytes(args))))),
        ),
{
    let opts = read_args(args);
    proof {
        pure_replies_are_plain(opts.tree());
    }
    finish_pure(op_parse_image_ref(&opts))
}

/// Whether the name under `name` is one that the daemon takes.
pub fn docker__valid_container_name(args: Option<&[u8]>) -> (r: String)
    ensures
        r@ == json_text(answer_tree(told(name_reply(args_tree(opt_bytes(args)))))),
        without_controls(r@),
        json_parse(encode_utf8(r@)) == Some(
            answer_tree(told(name_reply(args_tree(opt_bytes(args))))),
        ),
{
    let opts = read_args(args);
    proof {
        pure_replies_are_plain(opts.tree());
    }
    finish_pure(op_valid_container_name(&opts))
}

/// The parts of the port spec under `spec`.
pub fn docker__parse_port_spec(args: Option<&[u8]>) -> (r: String)
    ensures
        r@ == json_text(answer_tree(told(port_reply(args_tree(opt_bytes(args)))))),
        without_controls(r@),
        json_parse(encode_utf8(r@)) == Some(
            answer_tree(told(port_reply(args_tree(opt_bytes(args))))),
        ),
{
    let opts = read_args(args);
    proof {
        pure_replies_are_plain(opts.tree());
    }
    finish_pure(op_parse_port_spec(&opts))
}

/// The parts of the mount spec under `spec`.
pub fn docker__parse_mount(args: Option<&[u8]>) -> (r: String)
    ensures
        r@ == json_text(answer_tree(told(mount_reply(args_tree(opt_bytes(args)))))),
        without_controls(r@),
        json_parse(encode_utf8(r@)) == Some(
            answer_tree(told(mount_reply(args_tree(opt_bytes(args))))),
        ),
{
    let opts = read_args(args);
    proof {
        pure_replies_are_plain(opts.tree());
    }
    finish_pure(op_parse_mount(&opts))
}

/// An object is as plain as its fields.
proof fn with_is_plain(fields: Map<Seq<char>, Tree>, key: Seq<char>, value: Tree, levels: nat)
    requires
        levels > 0,
        plain_within(Tree::Object(fields), levels),
        plain_within(value, (levels - 1) as nat),
    ensures
        plain_within(Tree::Object(fields.insert(key, value)), levels),
{
    let new = fields.insert(key, value);
    assert forall|k: Seq<char>| #[trigger] new.contains_key(k) implies plain_within(
        new[k],
        (levels - 1) as nat,
    ) by {
        if k != key {
            assert(fields.contains_key(k));
            assert(new[k] == fields[k]);
            let t = Tree::Object(fields);
            assert(t->Object_0.contains_key(k));
            assert(plain_within(t->Object_0[k], (levels - 1) as nat));
        } else {
            assert(new[k] == value);
        }
    }
}

/// The replies of the helpers that need no daemon hold no doubles and nest two levels at most.
proof fn pure_replies_are_plain(t: Tree)
    ensures
        plain_within(answer_tree(told(image_ref_reply(t))), 127),
        plain_within(answer_tree(told(name_reply(t))), 127),
        plain_within(answer_tree(told(port_reply(t))), 127),
        plain_within(answer_tree(told(mount_reply(t))), 127),
{
    let e = no_fields();
    assert(plain_within(Tree::Object(e), 127));
    match image_ref_reply(t) {
        Err(x) => error_is_plain(refusal_text(x)),
        Ok(_) => {
            let m = image_parts(ref_text(t)->0);
            let f1 = e.insert("registry"@, nullable(m.registry));
            let f2 = f1.insert("namespace"@, nullable(m.namespace));
            let f3 = f2.insert("repository"@, Tree::Text(m.repository));
            let f4 = f3.insert("tag"@, nullable(m.tag));
            let f5 = f4.insert("digest"@, nullable(m.digest));
            with_is_plain(e, "registry"@, nullable(m.registry), 127);
            with_is_plain(f1, "namespace"@, nullable(m.namespace), 127);
            with_is_plain(f2, "repository"@, Tree::Text(m.repository), 127);
            with_is_plain(f3, "tag"@, nullable(m.tag), 127);
            with_is_plain(f4, "digest"@, nullable(m.digest), 127);
            with_is_plain(f5, "path"@, Tree::Text(m.path), 127);
        },
    }
    match name_reply(t) {
        Err(x) => error_is_plain(refusal_text(x)),
        Ok(_) => {
            let name = t.text_at("name"@)->0;
            with_is_plain(e, "name"@, Tree::Text(name), 127);
            with_is_plain(
                e.insert("name"@, Tree::Text(name)),
                "valid"@,
                Tree::Bool(is_valid_name(name)),
                127,
            );
        },
    }
    match port_reply(t) {
        Err(x) => error_is_plain(refusal_text(x)),
        Ok(_) => {
            let p = port_parts(t.text_at("spec"@)->0)->Ok_0;
            let f1 = e.insert("host_ip"@, nullable(p.host_ip));
            let f2 = f1.insert("host_port"@, nullable(p.host_port));
            let f3 = f2.insert("container_port"@, Tree::Text(p.container_port));
            with_is_plain(e, "host_ip"@, nullable(p.host_ip), 127);
            with_is_plain(f1, "host_port"@, nullable(p.host_port), 127);
            with_is_plain(f2, "container_port"@, Tree::Text(p.container_port), 127);
            with_is_plain(f3, "protocol"@, Tree::Text(p.protocol), 127);
        },
    }
    match mount_reply(t) {
        Err(x) => error_is_plain(refusal_text(x)),
        Ok(_) => {
            let m = mount_parts(t.text_at("spec"@)->0)->Ok_0;
            let f1 = e.insert("type"@, Tree::Text(kind_text(m.kind)));
            let f2 = f1.insert("source"@, nullable(m.source));
            let f3 = f2.insert("target"@, Tree::Text(m.target));
            let f4 = f3.insert("readonly"@, Tree::Bool(m.readonly));
            with_is_plain(e, "type"@, Tree::Text(kind_text(m.kind)), 127);
            with_is_plain(f1, "source"@, nullable(m.source), 127);
            with_is_plain(f2, "target"@, Tree::Text(m.target), 127);
            with_is_plain(f3, "readonly"@, Tree::Bool(m.readonly), 127);
            assert(plain_within(text_list(m.options), 126)) by {
                let items = text_list(m.options)->List_0;
                assert forall|i: int| 0 <= i < items.len() implies plain_within(
                    #[trigger] items[i],
                    125,
                ) by {
                    assert(items[i] == Tree::Text(m.options[i]));
                }
            }
            with_is_plain(f4, "options"@, text_list(m.options), 127);
        },
    }
}

} // verus!
