//! Documents about what a container writes and what a build reports.

use vstd::prelude::*;
use vstd::utf8::{decode_utf8, valid_utf8};

use crate::json::{no_fields, nullable, Json, Num, Tree};
use crate::text::opt_text;

verus! {

/// A stream that a container writes to or reads from.
#[derive(Clone, Copy, Debug, PartialEq, Eq, Structural)]
pub enum StreamKind {
    StdOut,
    StdErr,
    StdIn,
    Console,
}

/// The word for a stream.
pub open spec fn stream_word(k: StreamKind) -> Seq<char> {
    match k {
        StreamKind::StdOut => "stdout"@,
        StreamKind::StdErr => "stderr"@,
        StreamKind::StdIn => "stdin"@,
        StreamKind::Console => "console"@,
    }
}

/// The text that bytes are shown as.
pub uninterp spec fn lossy_text(bytes: Seq<u8>) -> Seq<char>;

/// `String::from_utf8_lossy`: the text that the bytes encode, and where they encode none, one in
/// which replacement characters stand for what is no UTF-8. How many of them stand where is left
/// to the name [`lossy_text`].
#[verifier::external_body]
pub(crate) fn from_utf8_lossy(bytes: &[u8]) -> (r: String)
    ensures
        r@ == lossy_text(bytes@),
        valid_utf8(bytes@) ==> r@ == decode_utf8(bytes@),
{
    String::from_utf8_lossy(bytes).into_owned()
}

/// The document that shows some text of a stream.
pub open spec fn stream_tree(k: StreamKind, data: Seq<char>) -> Tree {
    Tree::Object(
        no_fields().insert("stream"@, Tree::Text(stream_word(k))).insert("data"@, Tree::Text(data)),
    )
}

/// Shows some text of a stream.
pub fn stream_doc(k: StreamKind, data: String) -> (r: Json)
    ensures
        r.tree() == stream_tree(k, data@),
{
    let word: &str = match k {
        StreamKind::StdOut => "stdout",
        StreamKind::StdErr => "stderr",
        StreamKind::StdIn => "stdin",
        StreamKind::Console => "console",
    };
    Json::object().with("stream", Json::text(word)).with("data", Json::Text(data))
}

/// Shows some bytes of a stream.
pub fn output_doc(k: StreamKind, data: &[u8]) -> (r: Json)
    ensures
        r.tree() == stream_tree(k, lossy_text(data@)),
        valid_utf8(data@) ==> r.tree() == stream_tree(k, decode_utf8(data@)),
{
    stream_doc(k, from_utf8_lossy(data))
}

/// How far a step of a build is.
#[derive(Clone, Copy, Debug)]
pub struct Progress {
    pub current: Option<i64>,
    pub total: Option<i64>,
}

/// What went wrong in a build.
#[derive(Debug)]
pub struct BuildError<T> {
    pub code: Option<i64>,
    pub message: Option<T>,
}

/// What a build reports.
#[derive(Debug)]
pub struct BuildInfo<T> {
    pub id: Option<T>,
    pub stream: Option<T>,
    pub error: Option<T>,
    pub error_detail: Option<BuildError<T>>,
    pub status: Option<T>,
    pub progress: Option<T>,
    pub progress_detail: Option<Progress>,
    /// The id of the image that was built.
    pub aux_id: Option<T>,
}

impl BuildInfo<String> {
    /// What the report holds.
    pub open spec fn model(self) -> BuildInfo<Seq<char>> {
        BuildInfo {
            id: opt_text(self.id),
            stream: opt_text(self.stream),
            error: opt_text(self.error),
            error_detail: match self.error_detail {
                Some(e) => Some(BuildError { code: e.code, message: opt_text(e.message) }),
                None => None,
            },
            status: opt_text(self.status),
            progress: opt_text(self.progress),
            progress_detail: self.progress_detail,
            aux_id: opt_text(self.aux_id),
        }
    }
}

/// A report in which everything is absent.
pub fn empty_report() -> (r: BuildInfo<String>)
    ensures
        r.model() == (BuildInfo::<Seq<char>> {
            id: None,
            stream: None,
            error: None,
            error_detail: None,
            status: None,
            progress: None,
            progress_detail: None,
            aux_id: None,
        }),
{
    BuildInfo {
        id: None,
        stream: None,
        error: None,
        error_detail: None,
        status: None,
        progress: None,
        progress_detail: None,
        aux_id: None,
    }
}

/// An optional integer as a document: `null` where there is none.
pub open spec fn nullable_integer(n: Option<i64>) -> Tree {
    match n {
        Some(n) => Tree::Number(Num::Int(n as int)),
        None => Tree::Null,
    }
}

/// An optional integer as a document.
pub fn opt_integer(n: Option<i64>) -> (r: Json)
    ensures
        r.tree() == nullable_integer(n),
{
    match n {
        Some(n) => Json::integer(n),
        None => Json::Null,
    }
}

/// The fields with one more, if there is a value for it.
pub open spec fn with_some(
    fields: Map<Seq<char>, Tree>,
    key: Seq<char>,
    value: Option<Tree>,
) -> Map<Seq<char>, Tree> {
    match value {
        Some(v) => fields.insert(key, v),
        None => fields,
    }
}

/// An optional text as a value.
pub open spec fn text_value(t: Option<Seq<char>>) -> Option<Tree> {
    match t {
        Some(s) => Some(Tree::Text(s)),
        None => None,
    }
}

/// The id of an image that was built, as a value.
pub open spec fn aux_value(id: Option<Seq<char>>) -> Option<Tree> {
    match id {
        Some(id) => Some(Tree::Object(no_fields().insert("ID"@, Tree::Text(id)))),
        None => None,
    }
}

/// How far a step of a build is, as a value.
pub open spec fn progress_value(p: Option<Progress>) -> Option<Tree> {
    match p {
        Some(p) => Some(
            Tree::Object(
                no_fields().insert("current"@, nullable_integer(p.current)).insert(
                    "total"@,
                    nullable_integer(p.total),
                ),
            ),
        ),
        None => None,
    }
}

/// What went wrong in a build, as a value.
pub open spec fn error_value(e: Option<BuildError<Seq<char>>>) -> Option<Tree> {
    match e {
        Some(e) => Some(
            Tree::Object(
                no_fields().insert("code"@, nullable_integer(e.code)).insert(
                    "message"@,
                    nullable(e.message),
                ),
            ),
        ),
        None => None,
    }
}

/// The report of a build as a document: what is absent has no field.
pub open spec fn build_tree(b: BuildInfo<Seq<char>>) -> Tree {
    let f = with_some(no_fields(), "id"@, text_value(b.id));
    let f = with_some(f, "stream"@, text_value(b.stream));
    let f = with_some(f, "error"@, text_value(b.error));
    let f = with_some(f, "status"@, text_value(b.status));
    let f = with_some(f, "progress"@, text_value(b.progress));
    let f = with_some(f, "aux"@, aux_value(b.aux_id));
    let f = with_some(f, "progressDetail"@, progress_value(b.progress_detail));
    let f = with_some(f, "errorDetail"@, error_value(b.error_detail));
    Tree::Object(f)
}

/// Adds a field to an object, if there is a text for it.
fn add_text(doc: Json, key: &str, value: Option<String>) -> (r: Json)
    requires
        doc.tree() is Object,
    ensures
        r.tree() == Tree::Object(
            with_some(doc.tree()->Object_0, key@, text_value(opt_text(value))),
        ),
{
    match value {
        Some(s) => doc.with(key, Json::Text(s)),
        None => doc,
    }
}

/// The report of a build as a document.
pub fn build_info_to_json(b: BuildInfo<String>) -> (r: Json)
    ensures
        r.tree() == build_tree(b.model()),
{
    let m = Json::object();
    let m = add_text(m, "id", b.id);
    let m = add_text(m, "stream", b.stream);
    let m = add_text(m, "error", b.error);
    let m = add_text(m, "status", b.status);
    let m = add_text(m, "progress", b.progress);
    let m = match b.aux_id {
        Some(id) => m.with("aux", Json::object().with("ID", Json::Text(id))),
        None => m,
    };
    let m = match b.progress_detail {
        Some(p) => m.with(
            "progressDetail",
            Json::object().with("current", opt_integer(p.current)).with(
                "total",
                opt_integer(p.total),
            ),
        ),
        None => m,
    };
    match b.error_detail {
        Some(e) => m.with(
            "errorDetail",
            Json::object().with("code", opt_integer(e.code)).with(
                "message",
                Json::opt_text(e.message),
            ),
        ),
        None => m,
    }
}

/// The names of the fields of a report are different ones.
pub proof fn report_fields_differ()
    ensures
        "id"@ != "stream"@,
        "id"@ != "error"@,
        "id"@ != "status"@,
        "id"@ != "progress"@,
        "id"@ != "aux"@,
        "id"@ != "progressDetail"@,
        "id"@ != "errorDetail"@,
        "stream"@ != "error"@,
        "stream"@ != "status"@,
        "stream"@ != "progress"@,
        "stream"@ != "aux"@,
        "stream"@ != "progressDetail"@,
        "stream"@ != "errorDetail"@,
        "error"@ != "status"@,
        "error"@ != "progress"@,
        "error"@ != "aux"@,
        "error"@ != "progressDetail"@,
        "error"@ != "errorDetail"@,
        "status"@ != "progress"@,
        "status"@ != "aux"@,
        "status"@ != "progressDetail"@,
        "status"@ != "errorDetail"@,
        "progress"@ != "aux"@,
        "progress"@ != "progressDetail"@,
        "progress"@ != "errorDetail"@,
        "aux"@ != "progressDetail"@,
        "aux"@ != "errorDetail"@,
        "progressDetail"@ != "errorDetail"@,
{
    assert("id"@.len() == 2) by {
        reveal_strlit("id");
    }
    assert("stream"@.len() == 6) by {
        reveal_strlit("stream");
    }
    assert("error"@.len() == 5) by {
        reveal_strlit("error");
    }
    assert("status"@.len() == 6) by {
        reveal_strlit("status");
    }
    assert("progress"@.len() == 8) by {
        reveal_strlit("progress");
    }
    assert("aux"@.len() == 3) by {
        reveal_strlit("aux");
    }
    assert("progressDetail"@.len() == 14) by {
        reveal_strlit("progressDetail");
    }
    assert("errorDetail"@.len() == 11) by {
        reveal_strlit("errorDetail");
    }
    assert("stream"@[2] == 'r') by {
        reveal_strlit("stream");
    }
    assert("status"@[2] == 'a') by {
        reveal_strlit("status");
    }
}

/// Whether a key is one that a report can have.
pub open spec fn is_report_key(k: Seq<char>) -> bool {
    k == "id"@ || k == "stream"@ || k == "error"@ || k == "status"@ || k == "progress"@ || k
        == "aux"@ || k == "progressDetail"@ || k == "errorDetail"@
}

/// A report has a field exactly for what is in it, with its document, and no other field.
pub proof fn report_has_what_is_there(b: BuildInfo<Seq<char>>)
    ensures
        build_tree(b).field("id"@) == text_value(b.id),
        build_tree(b).field("stream"@) == text_value(b.stream),
        build_tree(b).field("error"@) == text_value(b.error),
        build_tree(b).field("status"@) == text_value(b.status),
        build_tree(b).field("progress"@) == text_value(b.progress),
        build_tree(b).field("aux"@) == aux_value(b.aux_id),
        build_tree(b).field("progressDetail"@) == progress_value(b.progress_detail),
        build_tree(b).field("errorDetail"@) == error_value(b.error_detail),
        forall|k: Seq<char>| !is_report_key(k) ==> #[trigger] build_tree(b).field(k) is None,
{
    report_fields_differ();
}

} // verus!
