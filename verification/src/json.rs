//! JSON documents: the arguments of a call, its reply, and their text.
//!
//! The text is read and written by `serde_json`. What a document holds is a [`Tree`]; the items
//! that reach into `serde_json` say which tree goes in and which comes out.

use vstd::prelude::*;
use vstd::utf8::{
    encode_scalar, encode_utf8, has_width_1_encoding, last_continuation_byte, leading_byte_width_1,
    leading_byte_width_2, leading_byte_width_3, leading_byte_width_4, second_last_continuation_byte,
    third_last_continuation_byte,
};

use crate::text::same;
use crate::textmap::{list_values, TextMap};

verus! {

/// A JSON document.
///
/// A key that an object lists more than once has the value that it was given last.
pub enum Json {
    Null,
    Bool(bool),
    Number(serde_json::Number),
    Text(String),
    List(Vec<Json>),
    Object(Vec<(String, Json)>),
}

/// The value of a JSON number: an integer, or the bits of a double.
pub enum Num {
    Int(int),
    Real(nat),
}

/// What a JSON document holds.
#[verifier::ext_equal]
pub enum Tree {
    Null,
    Bool(bool),
    Number(Num),
    Text(Seq<char>),
    List(Seq<Tree>),
    Object(Map<Seq<char>, Tree>),
}

/// A number of `serde_json`. It is carried through and read by [`number_i64`] and
/// [`number_u64`] alone.
#[verifier::external_type_specification]
#[verifier::external_body]
pub struct ExNumber(serde_json::Number);

/// A document of `serde_json`, on its way from or to its text.
#[verifier::external_type_specification]
#[verifier::external_body]
pub struct ExValue(serde_json::Value);

/// The fields of an object of `serde_json`.
#[verifier::external_type_specification]
#[verifier::external_body]
#[verifier::reject_recursive_types(K)]
#[verifier::reject_recursive_types(V)]
pub struct ExMap<K, V>(serde_json::Map<K, V>);

/// The value that a number of `serde_json` holds.
pub uninterp spec fn number_value(n: serde_json::Number) -> Num;

/// The tree that a document of `serde_json` holds.
pub uninterp spec fn value_tree(v: serde_json::Value) -> Tree;

/// The fields that an object of `serde_json` holds.
pub uninterp spec fn map_fields(m: serde_json::Map<String, serde_json::Value>) -> Map<
    Seq<char>,
    Tree,
>;

/// The document that a text spells, if it is the text of one.
pub uninterp spec fn json_parse(text: Seq<u8>) -> Option<Tree>;

/// The text that a document is written as.
pub uninterp spec fn json_text(t: Tree) -> Seq<char>;

/// The fields of an object: a later one replaces an earlier one of the same key.
pub open spec fn fields_tree(fields: Seq<(String, Json)>) -> Map<Seq<char>, Tree>
    decreases fields,
{
    if fields.len() == 0 {
        Map::empty()
    } else {
        fields_tree(fields.drop_last()).insert(fields.last().0@, fields.last().1.tree())
    }
}

impl Json {
    /// What the document holds.
    pub open spec fn tree(self) -> Tree
        decreases self,
    {
        match self {
            Json::Null => Tree::Null,
            Json::Bool(b) => Tree::Bool(b),
            Json::Number(n) => Tree::Number(number_value(n)),
            Json::Text(s) => Tree::Text(s@),
            Json::List(v) => Tree::List(
                Seq::new(
                    v@.len(),
                    |i: int|
                        if 0 <= i < v@.len() {
                            v@[i].tree()
                        } else {
                            Tree::Null
                        },
                ),
            ),
            Json::Object(v) => Tree::Object(fields_tree(v@)),
        }
    }
}

/// A document of `serde_json`, opened one level deep.
pub(crate) enum Node {
    Null,
    Bool(bool),
    Number(serde_json::Number),
    Text(String),
    List(Vec<serde_json::Value>),
    Object(serde_json::Map<String, serde_json::Value>),
}

/// The trees of a list of documents of `serde_json`.
pub open spec fn value_trees(v: Seq<serde_json::Value>) -> Seq<Tree> {
    v.map_values(|x: serde_json::Value| value_tree(x))
}

/// The fields that a list of entries gives an object.
pub open spec fn entries_tree(v: Seq<(String, serde_json::Value)>) -> Map<Seq<char>, Tree>
    decreases v.len(),
{
    if v.len() == 0 {
        Map::empty()
    } else {
        entries_tree(v.drop_last()).insert(v.last().0@, value_tree(v.last().1))
    }
}

impl Node {
    /// What the document holds.
    pub(crate) open spec fn tree(self) -> Tree {
        match self {
            Node::Null => Tree::Null,
            Node::Bool(b) => Tree::Bool(b),
            Node::Number(n) => Tree::Number(number_value(n)),
            Node::Text(s) => Tree::Text(s@),
            Node::List(v) => Tree::List(value_trees(v@)),
            Node::Object(m) => Tree::Object(map_fields(m)),
        }
    }
}

/// Whether the document holds no double and nests at most `levels` lists and objects.
pub open spec fn plain_within(t: Tree, levels: nat) -> bool
    decreases levels,
{
    match t {
        Tree::Number(Num::Real(_)) => false,
        Tree::List(items) => levels > 0 && forall|i: int|
            0 <= i < items.len() ==> plain_within(#[trigger] items[i], (levels - 1) as nat),
        Tree::Object(fields) => levels > 0 && forall|k: Seq<char>| #[trigger]
            fields.contains_key(k) ==> plain_within(fields[k], (levels - 1) as nat),
        _ => true,
    }
}

/// Whether the document nests at most `levels` lists and objects.
pub open spec fn nests_within(t: Tree, levels: nat) -> bool
    decreases levels,
{
    match t {
        Tree::List(items) => levels > 0 && forall|i: int|
            0 <= i < items.len() ==> nests_within(#[trigger] items[i], (levels - 1) as nat),
        Tree::Object(fields) => levels > 0 && forall|k: Seq<char>| #[trigger]
            fields.contains_key(k) ==> nests_within(fields[k], (levels - 1) as nat),
        _ => true,
    }
}

/// Whether the text holds no control character below the space: no line break, no NUL.
pub open spec fn without_controls(s: Seq<char>) -> bool {
    forall|i: int| 0 <= i < s.len() ==> #[trigger] s[i] >= ' '
}

/// The fields of an empty object.
pub open spec fn no_fields() -> Map<Seq<char>, Tree> {
    Map::empty()
}

/// Reads a text with `serde_json::from_slice`.
///
/// The document that comes out is named [`json_parse`]; `None` stands for its error.
#[verifier::external_body]
fn parse_value(text: &[u8]) -> (r: Option<serde_json::Value>)
    ensures
        match r {
            Some(v) => json_parse(text@) == Some(value_tree(v)),
            None => json_parse(text@) is None,
        },
{
    serde_json::from_slice::<serde_json::Value>(text).ok()
}

/// Writes a document with `serde_json::to_string`.
///
/// The text is named [`json_text`]. A `serde_json::Value` has text keys only and its
/// serialisation has no failure of its own, so there always is one. Every control character is
/// written as an escape. `serde_json::from_slice` reads the text back, as long as the document
/// nests within the limit of 127 that the reader has, and as the same document where that holds
/// no double; which double is read back is not said.
#[verifier::external_body]
fn render_value(v: &serde_json::Value) -> (r: Option<String>)
    ensures
        r is Some,
        r->0@ == json_text(value_tree(*v)),
        without_controls(r->0@),
        nests_within(value_tree(*v), 127) ==> json_parse(encode_utf8(r->0@)) is Some,
        plain_within(value_tree(*v), 127) ==> json_parse(encode_utf8(r->0@)) == Some(
            value_tree(*v),
        ),
{
    serde_json::to_string(v).ok()
}

/// Tells apart the six variants of `serde_json::Value`, and hands out their fields.
#[verifier::external_body]
fn open_value(v: serde_json::Value) -> (r: Node)
    ensures
        r.tree() == value_tree(v),
{
    match v {
        serde_json::Value::Null => Node::Null,
        serde_json::Value::Bool(b) => Node::Bool(b),
        serde_json::Value::Number(n) => Node::Number(n),
        serde_json::Value::String(s) => Node::Text(s),
        serde_json::Value::Array(items) => Node::List(items),
        serde_json::Value::Object(fields) => Node::Object(fields),
    }
}

/// Builds one of the six variants of `serde_json::Value` from its fields.
#[verifier::external_body]
fn close_value(n: Node) -> (r: serde_json::Value)
    ensures
        value_tree(r) == n.tree(),
{
    match n {
        Node::Null => serde_json::Value::Null,
        Node::Bool(b) => serde_json::Value::Bool(b),
        Node::Number(n) => serde_json::Value::Number(n),
        Node::Text(s) => serde_json::Value::String(s),
        Node::List(items) => serde_json::Value::Array(items),
        Node::Object(fields) => serde_json::Value::Object(fields),
    }
}

/// `serde_json::Map::new`: an object without fields.
#[verifier::external_body]
fn map_new() -> (r: serde_json::Map<String, serde_json::Value>)
    ensures
        map_fields(r) == no_fields(),
{
    serde_json::Map::new()
}

/// `serde_json::Map::insert`: the key has the given value afterwards, whatever it had before.
#[verifier::external_body]
fn map_insert(m: &mut serde_json::Map<String, serde_json::Value>, k: String, v: serde_json::Value)
    ensures
        map_fields(*final(m)) == map_fields(*old(m)).insert(k@, value_tree(v)),
{
    m.insert(k, v);
}

/// `serde_json::Map::into_iter`: every field once, in an order that is left unsaid.
#[verifier::external_body]
fn map_entries(m: serde_json::Map<String, serde_json::Value>) -> (r: Vec<
    (String, serde_json::Value),
>)
    ensures
        entries_tree(r@) == map_fields(m),
        entries_distinct(r@),
{
    m.into_iter().collect()
}

/// `serde_json::Number::as_i64`: an integer of that range, else nothing.
#[verifier::external_body]
fn number_i64(n: &serde_json::Number) -> (r: Option<i64>)
    ensures
        r == num_i64(number_value(*n)),
{
    n.as_i64()
}

/// `serde_json::Number::as_u64`: an integer of that range, else nothing.
#[verifier::external_body]
fn number_u64(n: &serde_json::Number) -> (r: Option<u64>)
    ensures
        r == num_u64(number_value(*n)),
{
    n.as_u64()
}

/// `serde_json::Number::from` of an `i64`: that integer.
#[verifier::external_body]
fn number_from(i: i64) -> (r: serde_json::Number)
    ensures
        number_value(r) == Num::Int(i as int),
{
    serde_json::Number::from(i)
}

/// The integer, where it is one that an `i64` holds.
pub open spec fn num_i64(n: Num) -> Option<i64> {
    match n {
        Num::Int(i) => if i64::MIN <= i <= i64::MAX {
            Some(i as i64)
        } else {
            None
        },
        Num::Real(_) => None,
    }
}

/// The integer, where it is one that a `u64` holds.
pub open spec fn num_u64(n: Num) -> Option<u64> {
    match n {
        Num::Int(i) => if 0 <= i <= u64::MAX {
            Some(i as u64)
        } else {
            None
        },
        Num::Real(_) => None,
    }
}

impl Tree {
    /// The value of a field; a document that is no object has none.
    pub open spec fn field(self, key: Seq<char>) -> Option<Tree> {
        match self {
            Tree::Object(m) => if m.contains_key(key) {
                Some(m[key])
            } else {
                None
            },
            _ => None,
        }
    }

    /// The object with one field more, or with a new value for one that it has.
    pub open spec fn with(self, key: Seq<char>, value: Tree) -> Tree {
        match self {
            Tree::Object(m) => Tree::Object(m.insert(key, value)),
            other => other,
        }
    }

    /// The text of a field that holds a text.
    pub open spec fn text_at(self, key: Seq<char>) -> Option<Seq<char>> {
        match self.field(key) {
            Some(Tree::Text(s)) => Some(s),
            _ => None,
        }
    }

    /// The truth value of a field that holds one.
    pub open spec fn bool_at(self, key: Seq<char>) -> Option<bool> {
        match self.field(key) {
            Some(Tree::Bool(b)) => Some(b),
            _ => None,
        }
    }

    /// The truth value of a field that holds a flag: `true` or `false`, or an integer, of which
    /// every one but zero is true.
    pub open spec fn flag_at(self, key: Seq<char>) -> Option<bool> {
        if self.bool_at(key) is Some {
            self.bool_at(key)
        } else if self.i64_at(key) is Some {
            Some(self.i64_at(key) != Some(0i64))
        } else if self.u64_at(key) is Some {
            Some(true)
        } else {
            None
        }
    }

    /// The integer of a field that holds one in the range of `i64`.
    pub open spec fn i64_at(self, key: Seq<char>) -> Option<i64> {
        match self.field(key) {
            Some(Tree::Number(n)) => num_i64(n),
            _ => None,
        }
    }

    /// The integer of a field that holds one in the range of `u64`.
    pub open spec fn u64_at(self, key: Seq<char>) -> Option<u64> {
        match self.field(key) {
            Some(Tree::Number(n)) => num_u64(n),
            _ => None,
        }
    }

    /// The texts among the items of a field that holds a list.
    pub open spec fn texts_at(self, key: Seq<char>) -> Option<Seq<Seq<char>>> {
        match self.field(key) {
            Some(Tree::List(items)) => Some(text_items(items)),
            _ => None,
        }
    }

    /// The lists of a field that holds an object, with the texts among their items. What is no
    /// list in the object is left out.
    pub open spec fn lists_at(self, key: Seq<char>) -> Map<Seq<char>, Seq<Seq<char>>> {
        match self.field(key) {
            Some(Tree::Object(m)) => lists_in(m),
            _ => Map::empty(),
        }
    }
}

/// The texts among the items of a list, in their order.
pub open spec fn text_items(items: Seq<Tree>) -> Seq<Seq<char>>
    decreases items.len(),
{
    if items.len() == 0 {
        Seq::empty()
    } else {
        let init = text_items(items.drop_last());
        match items.last() {
            Tree::Text(s) => init.push(s),
            _ => init,
        }
    }
}

/// The lists among fields, with the texts among their items.
pub open spec fn lists_in(m: Map<Seq<char>, Tree>) -> Map<Seq<char>, Seq<Seq<char>>> {
    m.filter_keys(|k: Seq<char>| m[k] is List).map_values(|v: Tree| text_items(v->List_0))
}

/// A list of texts as a document.
pub open spec fn text_list(v: Seq<Seq<char>>) -> Tree {
    Tree::List(v.map_values(|s: Seq<char>| Tree::Text(s)))
}

/// The line that a document is written as: its text and a line break.
pub open spec fn json_line(t: Tree) -> Seq<u8> {
    encode_utf8(json_text(t)).push(10u8)
}

/// An optional text as a document: `null` where there is none.
pub open spec fn nullable(t: Option<Seq<char>>) -> Tree {
    match t {
        Some(s) => Tree::Text(s),
        None => Tree::Null,
    }
}

/// The fields that entries give an object grow entry by entry.
proof fn entries_step(v: Seq<(String, serde_json::Value)>, i: int)
    requires
        0 <= i < v.len(),
    ensures
        entries_tree(v.take(i + 1)) == entries_tree(v.take(i)).insert(v[i].0@, value_tree(v[i].1)),
{
    assert(v.take(i + 1).drop_last() =~= v.take(i));
}

/// Entries give an object finitely many fields.
proof fn entries_finite(v: Seq<(String, serde_json::Value)>)
    ensures
        entries_tree(v).dom().finite(),
    decreases v.len(),
{
    if v.len() > 0 {
        entries_finite(v.drop_last());
    }
}

/// Every entry's value is a field of the object, unless a later entry has its key.
proof fn entry_is_smaller(v: Seq<(String, serde_json::Value)>, i: int)
    requires
        0 <= i < v.len(),
        entries_distinct(v),
    ensures
        entries_tree(v).contains_key(v[i].0@),
        entries_tree(v)[v[i].0@] == value_tree(v[i].1),
    decreases v.len(),
{
    if i < v.len() - 1 {
        let w = v.drop_last();
        assert forall|a: int, b: int| 0 <= a < b < w.len() implies (#[trigger] w[a]).0@ != (
        #[trigger] w[b]).0@ by {
            assert(w[a] == v[a] && w[b] == v[b]);
        }
        entry_is_smaller(w, i);
        assert(v[i].0@ != v[v.len() - 1].0@);
    }
}

/// Whether no key occurs twice among the entries.
pub open spec fn entries_distinct(v: Seq<(String, serde_json::Value)>) -> bool {
    forall|a: int, b: int|
        0 <= a < b < v.len() ==> (#[trigger] v[a]).0@ != (#[trigger] v[b]).0@
}

proof fn fields_step(v: Seq<(String, Json)>, f: (String, Json))
    ensures
        fields_tree(v.push(f)) == fields_tree(v).insert(f.0@, f.1.tree()),
{
    assert(v.push(f).drop_last() =~= v);
}

impl Json {
    /// The document that a document of `serde_json` holds.
    pub fn from_value(v: serde_json::Value) -> (r: Json)
        ensures
            r.tree() == value_tree(v),
        decreases value_tree(v),
    {
        match open_value(v) {
            Node::Null => Json::Null,
            Node::Bool(b) => Json::Bool(b),
            Node::Number(n) => Json::Number(n),
            Node::Text(s) => Json::Text(s),
            Node::List(items) => {
                let ghost all = items@;
                let mut out: Vec<Json> = Vec::new();
                for x in it: items
                    invariant
                        it.seq() == all,
                        value_tree(v) == Tree::List(value_trees(all)),
                        out.len() == it.index(),
                        forall|j: int|
                            0 <= j < out.len() ==> (#[trigger] out@[j]).tree() == value_tree(
                                all[j],
                            ),
                {
                    proof {
                        let i = it.index();
                        assert(value_trees(all)[i] == value_tree(x));
                        let t = value_tree(v);
                        assert(decreases_to!(t => t->List_0));
                        assert(decreases_to!(t->List_0 => t->List_0[i]));
                    }
                    out.push(Json::from_value(x));
                }
                proof {
                    assert(Json::List(out).tree()->List_0 =~= value_trees(all));
                }
                Json::List(out)
            },
            Node::Object(m) => {
                let entries = map_entries(m);
                let ghost all = entries@;
                let mut out: Vec<(String, Json)> = Vec::new();
                proof {
                    assert(all.take(0) =~= Seq::empty());
                }
                for e in it: entries
                    invariant
                        it.seq() == all,
                        value_tree(v) == Tree::Object(entries_tree(all)),
                        entries_distinct(all),
                        fields_tree(out@) == entries_tree(all.take(it.index())),
                {
                    proof {
                        let i = it.index();
                        entries_step(all, i);
                        entry_is_smaller(all, i);
                        entries_finite(all);
                        let t = value_tree(v);
                        assert(decreases_to!(t => t->Object_0));
                        assert(decreases_to!(t->Object_0 => t->Object_0[e.0@]));
                    }
                    let f = (e.0, Json::from_value(e.1));
                    proof {
                        fields_step(out@, f);
                    }
                    out.push(f);
                }
                proof {
                    assert(all.take(all.len() as int) =~= all);
                }
                Json::Object(out)
            },
        }
    }

    /// The document as one of `serde_json`.
    pub fn to_value(self) -> (r: serde_json::Value)
        ensures
            value_tree(r) == self.tree(),
        decreases self,
    {
        match self {
            Json::Null => close_value(Node::Null),
            Json::Bool(b) => close_value(Node::Bool(b)),
            Json::Number(n) => close_value(Node::Number(n)),
            Json::Text(s) => close_value(Node::Text(s)),
            Json::List(items) => {
                let ghost all = items@;
                let mut out: Vec<serde_json::Value> = Vec::new();
                for x in it: items
                    invariant
                        it.seq() == all,
                        all == items@,
                        self == Json::List(items),
                        out.len() == it.index(),
                        forall|j: int|
                            0 <= j < out.len() ==> value_tree(#[trigger] out@[j]) == all[j].tree(),
                {
                    proof {
                        assert(decreases_to!(self => self->List_0));
                        assert(decreases_to!(items => items@));
                        assert(decreases_to!(items@ => items@[it.index()]));
                    }
                    out.push(x.to_value());
                }
                assert(value_trees(out@) =~= self.tree()->List_0);
                close_value(Node::List(out))
            },
            Json::Object(fields) => {
                let ghost all = fields@;
                let mut out = map_new();
                proof {
                    assert(all.take(0) =~= Seq::empty());
                }
                for f in it: fields
                    invariant
                        it.seq() == all,
                        all == fields@,
                        self == Json::Object(fields),
                        map_fields(out) == fields_tree(all.take(it.index())),
                {
                    proof {
                        let i = it.index();
                        assert(decreases_to!(self => self->Object_0));
                        assert(decreases_to!(fields => fields@));
                        assert(decreases_to!(fields@ => fields@[i]));
                        assert(decreases_to!(fields@[i] => fields@[i].1));
                        assert(all.take(i + 1) =~= all.take(i).push(all[i]));
                        fields_step(all.take(i), all[i]);
                    }
                    map_insert(&mut out, f.0, f.1.to_value());
                }
                assert(all.take(all.len() as int) =~= all);
                close_value(Node::Object(out))
            },
        }
    }

    /// The document that a text spells; `None` for a text that spells none.
    pub fn parse(text: &[u8]) -> (r: Option<Json>)
        ensures
            match r {
                Some(j) => json_parse(text@) == Some(j.tree()),
                None => json_parse(text@) is None,
            },
    {
        match parse_value(text) {
            Some(v) => Some(Json::from_value(v)),
            None => None,
        }
    }

    /// The text of the document, on one line and free of control characters.
    pub fn render(self) -> (r: String)
        ensures
            r@ == json_text(self.tree()),
            without_controls(r@),
            nests_within(self.tree(), 127) ==> json_parse(encode_utf8(r@)) is Some,
            plain_within(self.tree(), 127) ==> json_parse(encode_utf8(r@)) == Some(self.tree()),
    {
        let v = self.to_value();
        match render_value(&v) {
            Some(s) => s,
            None => "{\"error\":\"serialize\"}".to_owned(),
        }
    }

    /// A text as a document.
    pub fn text(s: &str) -> (r: Json)
        ensures
            r.tree() == Tree::Text(s@),
    {
        Json::Text(s.to_owned())
    }

    /// An integer as a document.
    pub fn integer(i: i64) -> (r: Json)
        ensures
            r.tree() == Tree::Number(Num::Int(i as int)),
    {
        Json::Number(number_from(i))
    }

    /// A text as a document, `null` where there is none.
    pub fn opt_text(s: Option<String>) -> (r: Json)
        ensures
            r.tree() == nullable(crate::text::opt_text(s)),
    {
        match s {
            Some(s) => Json::Text(s),
            None => Json::Null,
        }
    }

    /// A list of texts as a document.
    pub fn texts(v: Vec<String>) -> (r: Json)
        ensures
            r.tree() == text_list(crate::text::texts(v@)),
    {
        let ghost all = v@;
        let mut out: Vec<Json> = Vec::new();
        for s in it: v
            invariant
                it.seq() == all,
                out.len() == it.index(),
                forall|j: int| 0 <= j < out.len() ==> #[trigger] out@[j] == Json::Text(all[j]),
        {
            out.push(Json::Text(s));
        }
        let r = Json::List(out);
        proof {
            let items = r.tree()->List_0;
            assert forall|j: int| 0 <= j < all.len() implies #[trigger] items[j] == Tree::Text(
                all[j]@,
            ) by {
                assert(out@[j] == Json::Text(all[j]));
                assert(out@[j].tree() == Tree::Text(all[j]@));
            }
            assert(items =~= text_list(crate::text::texts(all))->List_0);
        }
        r
    }

    /// An object without fields.
    pub fn object() -> (r: Json)
        ensures
            r.tree() == Tree::Object(no_fields()),
    {
        let fields: Vec<(String, Json)> = Vec::new();
        let r = Json::Object(fields);
        assert(fields_tree(fields@) =~= no_fields());
        r
    }

    /// The object with one field more, or with a new value for one that it has. A document that
    /// is no object is left as it is.
    pub fn with(self, key: &str, value: Json) -> (r: Json)
        ensures
            r.tree() == self.tree().with(key@, value.tree()),
    {
        match self {
            Json::Object(fields) => {
                let mut fields = fields;
                let f = (key.to_owned(), value);
                proof {
                    fields_step(fields@, f);
                }
                fields.push(f);
                Json::Object(fields)
            },
            other => other,
        }
    }

    /// The value of a field.
    pub fn field(&self, key: &str) -> (r: Option<&Json>)
        ensures
            match r {
                Some(j) => self.tree().field(key@) == Some(j.tree()),
                None => self.tree().field(key@) is None,
            },
    {
        match self {
            Json::Object(fields) => {
                let mut i: usize = fields.len();
                assert(fields@.take(i as int) =~= fields@);
                while i > 0
                    invariant
                        i <= fields@.len(),
                        fields_tree(fields@).contains_key(key@) == fields_tree(
                            fields@.take(i as int),
                        ).contains_key(key@),
                        fields_tree(fields@).contains_key(key@) ==> fields_tree(fields@)[key@]
                            == fields_tree(fields@.take(i as int))[key@],
                        *self == Json::Object(*fields),
                    decreases i,
                {
                    i = i - 1;
                    proof {
                        assert(fields@.take(i + 1).drop_last() =~= fields@.take(i as int));
                    }
                    if same(fields[i].0.as_str(), key) {
                        return Some(&fields[i].1);
                    }
                }
                None
            },
            _ => None,
        }
    }

    /// Takes the value of a field out of the document; `null` where there is none.
    pub fn into_field(self, key: &str) -> (r: Json)
        ensures
            r.tree() == (match self.tree().field(key@) {
                Some(t) => t,
                None => Tree::Null,
            }),
    {
        match self {
            Json::Object(fields) => {
                let mut fields = fields;
                let ghost all = fields@;
                assert(all.take(all.len() as int) =~= all);
                while fields.len() > 0
                    invariant
                        fields@ == all.take(fields@.len() as int),
                        fields@.len() <= all.len(),
                        self.tree() == Tree::Object(fields_tree(all)),
                        fields_tree(all).contains_key(key@) == fields_tree(fields@).contains_key(
                            key@,
                        ),
                        fields_tree(all).contains_key(key@) ==> fields_tree(all)[key@]
                            == fields_tree(fields@)[key@],
                    decreases fields@.len(),
                {
                    let ghost n = fields@.len() as int;
                    if let Some((k, v)) = fields.pop() {
                        assert(all.take(n).drop_last() =~= all.take(n - 1));
                        if same(k.as_str(), key) {
                            return v;
                        }
                    }
                }
                Json::Null
            },
            _ => Json::Null,
        }
    }

    /// The text of a field that holds a text.
    pub fn text_at(&self, key: &str) -> (r: Option<&str>)
        ensures
            match r {
                Some(s) => self.tree().text_at(key@) == Some(s@),
                None => self.tree().text_at(key@) is None,
            },
    {
        match self.field(key) {
            Some(Json::Text(s)) => Some(s.as_str()),
            _ => None,
        }
    }

    /// The truth value of a field that holds one.
    pub fn bool_at(&self, key: &str) -> (r: Option<bool>)
        ensures
            r == self.tree().bool_at(key@),
    {
        match self.field(key) {
            Some(Json::Bool(b)) => Some(*b),
            _ => None,
        }
    }

    /// The integer of a field that holds one in the range of `i64`.
    pub fn i64_at(&self, key: &str) -> (r: Option<i64>)
        ensures
            r == self.tree().i64_at(key@),
    {
        match self.field(key) {
            Some(Json::Number(n)) => number_i64(n),
            _ => None,
        }
    }

    /// The integer of a field that holds one in the range of `u64`.
    pub fn u64_at(&self, key: &str) -> (r: Option<u64>)
        ensures
            r == self.tree().u64_at(key@),
    {
        match self.field(key) {
            Some(Json::Number(n)) => number_u64(n),
            _ => None,
        }
    }

    /// The truth value of a field that holds a flag.
    pub fn flag_at(&self, key: &str) -> (r: Option<bool>)
        ensures
            r == self.tree().flag_at(key@),
    {
        match self.bool_at(key) {
            Some(b) => Some(b),
            None => match self.i64_at(key) {
                Some(n) => Some(n != 0),
                None => match self.u64_at(key) {
                    Some(_) => Some(true),
                    None => None,
                },
            },
        }
    }

    /// The texts among the items of a field that holds a list.
    pub fn texts_at(&self, key: &str) -> (r: Option<Vec<String>>)
        ensures
            match r {
                Some(v) => self.tree().texts_at(key@) == Some(crate::text::texts(v@)),
                None => self.tree().texts_at(key@) is None,
            },
    {
        match self.field(key) {
            Some(Json::List(items)) => Some(texts_among(items)),
            _ => None,
        }
    }

    /// The lists of a field that holds an object, with the texts among their items.
    pub fn lists_at(&self, key: &str) -> (r: TextMap<Vec<String>>)
        ensures
            list_values(r@) == self.tree().lists_at(key@),
    {
        let mut out: TextMap<Vec<String>> = TextMap::new();
        assert(list_values(out@) =~= Map::empty());
        if let Some(doc) = self.field(key) {
            if let Json::Object(fields) = doc {
                let ghost m = fields_tree(fields@);
                let mut i: usize = 0;
                while i < fields.len()
                    invariant
                        i <= fields@.len(),
                        *doc == Json::Object(*fields),
                        m == fields_tree(fields@),
                        forall|k: Seq<char>| #[trigger]
                            list_values(out@).contains_key(k) <==> listed_before(
                                fields@,
                                i as int,
                                k,
                            ) && m.contains_key(k) && m[k] is List,
                        forall|k: Seq<char>| #[trigger]
                            list_values(out@).contains_key(k) ==> list_values(out@)[k]
                                == text_items(m[k]->List_0),
                    decreases fields.len() - i,
                {
                    let k = fields[i].0.as_str();
                    let ghost before = out@;
                    proof {
                        fields_keys(fields@, k@);
                    }
                    if let Some(Json::List(items)) = doc.field(k) {
                        let list = texts_among(items);
                        assert(m[k@] == Json::List(*items).tree());
                        out.insert(k, list);
                        assert(list_values(out@) =~= list_values(before).insert(
                            k@,
                            text_items(m[k@]->List_0),
                        ));
                    }
                    proof {
                        assert forall|j: Seq<char>|
                            listed_before(fields@, i + 1, j) <==> listed_before(
                                fields@,
                                i as int,
                                j,
                            ) || j == k@ by {
                            listed_step(fields@, i as int, j);
                        }
                    }
                    i = i + 1;
                }
                proof {
                    assert forall|k: Seq<char>| #[trigger] m.contains_key(k) <==> listed_before(
                        fields@,
                        fields@.len() as int,
                        k,
                    ) by {
                        fields_keys(fields@, k);
                    }
                    assert(list_values(out@) =~= lists_in(m));
                }
            }
        }
        out
    }
}

/// Whether a key is among those of the first `n` fields.
spec fn listed_before(fields: Seq<(String, Json)>, n: int, key: Seq<char>) -> bool {
    exists|j: int| 0 <= j < n && (#[trigger] fields[j]).0@ == key
}

/// The keys of the first fields and of the next one.
proof fn listed_step(fields: Seq<(String, Json)>, n: int, key: Seq<char>)
    requires
        0 <= n < fields.len(),
    ensures
        listed_before(fields, n + 1, key) <==> listed_before(fields, n, key) || fields[n].0@ == key,
{
    if listed_before(fields, n, key) {
        let j = choose|j: int| 0 <= j < n && (#[trigger] fields[j]).0@ == key;
        assert(fields[j].0@ == key);
    }
}

/// The keys of an object are those of its fields.
proof fn fields_keys(fields: Seq<(String, Json)>, key: Seq<char>)
    ensures
        fields_tree(fields).contains_key(key) <==> listed_before(
            fields,
            fields.len() as int,
            key,
        ),
    decreases fields.len(),
{
    if fields.len() > 0 {
        let init = fields.drop_last();
        let n = fields.len() - 1;
        fields_keys(init, key);
        listed_step(fields, n, key);
        if listed_before(init, n, key) {
            let j = choose|j: int| 0 <= j < n && (#[trigger] init[j]).0@ == key;
            assert(fields[j].0@ == key);
        }
        if listed_before(fields, n, key) {
            let j = choose|j: int| 0 <= j < n && (#[trigger] fields[j]).0@ == key;
            assert(init[j].0@ == key);
        }
    }
}

/// The texts among the items of a list.
fn texts_among(items: &Vec<Json>) -> (r: Vec<String>)
    ensures
        crate::text::texts(r@) == text_items(Json::List(*items).tree()->List_0),
{
    let ghost all = Json::List(*items).tree()->List_0;
    let mut out: Vec<String> = Vec::new();
    let mut i: usize = 0;
    assert(crate::text::texts(out@) =~= Seq::empty());
    while i < items.len()
        invariant
            i <= items.len(),
            all == Json::List(*items).tree()->List_0,
            crate::text::texts(out@) == text_items(all.take(i as int)),
        decreases items.len() - i,
    {
        proof {
            assert(all.take(i + 1).drop_last() =~= all.take(i as int));
            assert(all[i as int] == items@[i as int].tree());
        }
        if let Json::Text(s) = &items[i] {
            assert(crate::text::texts(out@.push(*s)) =~= crate::text::texts(out@).push(s@));
            out.push(s.clone());
        }
        i = i + 1;
    }
    assert(all.take(all.len() as int) =~= all);
    out
}

/// Whether the text of a document is one line that reads as it: within the depth that can be read
/// it reads as JSON, and where it holds no double it reads back as the document.
pub open spec fn reads_back(t: Tree) -> bool {
    let text = json_text(t);
    &&& without_controls(text)
    &&& nests_within(t, 127) ==> json_parse(encode_utf8(text)) is Some
    &&& plain_within(t, 127) ==> json_parse(encode_utf8(text)) == Some(t)
}

/// Writes a document behind what `out` holds, as a line of its own. No line break is in its text,
/// and it reads back as the document.
pub fn emit_ndjson(out: &mut Vec<u8>, v: Json)
    ensures
        final(out)@ == old(out)@ + json_line(v.tree()),
        !encode_utf8(json_text(v.tree())).contains(10u8),
        reads_back(v.tree()),
{
    let text = v.render();
    proof {
        no_line_break(text@);
    }
    emit_line(out, text.as_str());
}

/// Writes a text behind what `out` holds, as a line of its own.
pub fn emit_line(out: &mut Vec<u8>, text: &str)
    ensures
        final(out)@ == old(out)@ + encode_utf8(text@).push(10u8),
{
    out.extend_from_slice(text.as_bytes());
    out.push(10);
    assert(out@ =~= old(out)@ + encode_utf8(text@).push(10u8));
}

/// The UTF-8 of a character that is no control character has no byte of a line break.
proof fn character_breaks_no_line(c: char)
    requires
        c >= ' ',
    ensures
        !encode_scalar(c as u32).contains(10u8),
{
    let n = c as u32;
    assert(n >= 32);
    if has_width_1_encoding(n) {
        assert((n & 0x7F) as u8 != 10u8) by (bit_vector)
            requires
                32 <= n <= 0x7f,
        ;
        assert(leading_byte_width_1(n) != 10u8);
    } else {
        assert(last_continuation_byte(n) != 10u8) by (bit_vector);
        assert(second_last_continuation_byte(n) != 10u8) by (bit_vector);
        assert(third_last_continuation_byte(n) != 10u8) by (bit_vector);
        assert(leading_byte_width_2(n) != 10u8) by (bit_vector);
        assert(leading_byte_width_3(n) != 10u8) by (bit_vector);
        assert(leading_byte_width_4(n) != 10u8) by (bit_vector);
    }
}

/// The UTF-8 of a text without control characters has no byte of a line break.
proof fn no_line_break(s: Seq<char>)
    requires
        without_controls(s),
    ensures
        !encode_utf8(s).contains(10u8),
    decreases s.len(),
{
    if s.len() > 0 {
        let rest = s.drop_first();
        assert forall|i: int| 0 <= i < rest.len() implies #[trigger] rest[i] >= ' ' by {
            assert(rest[i] == s[i + 1]);
        }
        no_line_break(rest);
        character_breaks_no_line(s[0]);
        let head = encode_scalar(s[0] as u32);
        let tail = encode_utf8(rest);
        let all = encode_utf8(s);
        assert(all == head + tail);
        assert forall|i: int| 0 <= i < all.len() implies #[trigger] all[i] != 10u8 by {
            if i < head.len() {
                assert(head.contains(head[i]));
            } else {
                assert(tail.contains(tail[i - head.len()]));
            }
        }
    }
}

/// The lines of documents, in their order.
pub open spec fn json_lines(docs: Seq<Tree>) -> Seq<u8>
    decreases docs.len(),
{
    if docs.len() == 0 {
        Seq::empty()
    } else {
        json_line(docs[0]) + json_lines(docs.drop_first())
    }
}

/// The lines of some bytes: what stands in front of each line break.
pub open spec fn lines_of(b: Seq<u8>) -> Seq<Seq<u8>>
    decreases b.len(),
{
    proof {
        b.index_of_first_ensures(10u8);
    }
    match b.index_of_first(10u8) {
        Some(i) => seq![b.take(i)] + lines_of(b.skip(i + 1)),
        None => Seq::empty(),
    }
}

/// A document that is written behind others is one line more.
pub proof fn written_document_is_a_line_more(docs: Seq<Tree>, doc: Tree)
    ensures
        json_lines(docs.push(doc)) == json_lines(docs) + json_line(doc),
    decreases docs.len(),
{
    let all = docs.push(doc);
    if docs.len() == 0 {
        reveal_with_fuel(json_lines, 2);
        assert(all.drop_first() =~= Seq::empty());
        assert(json_lines(all) =~= json_lines(docs) + json_line(doc));
    } else {
        assert(all.drop_first() =~= docs.drop_first().push(doc));
        written_document_is_a_line_more(docs.drop_first(), doc);
        assert(json_lines(all) =~= json_lines(docs) + json_line(doc));
    }
}

/// Documents that are written one behind the other are as many lines, each line is the text of
/// its document, and reads back as it. What is asked of each document is what [`emit_ndjson`] says
/// of each that it writes. A document that holds a double reads as JSON, and one that nests too
/// deep for the reader need not.
pub proof fn written_documents_are_lines(docs: Seq<Tree>)
    requires
        forall|i: int| 0 <= i < docs.len() ==> reads_back(#[trigger] docs[i]),
    ensures
        lines_of(json_lines(docs)) == docs.map_values(|d: Tree| encode_utf8(json_text(d))),
        lines_of(json_lines(docs)).len() == docs.len(),
        forall|i: int|
            0 <= i < docs.len() && nests_within(docs[i], 127) ==> json_parse(
                #[trigger] lines_of(json_lines(docs))[i],
            ) is Some,
        forall|i: int|
            0 <= i < docs.len() && plain_within(docs[i], 127) ==> json_parse(
                #[trigger] lines_of(json_lines(docs))[i],
            ) == Some(docs[i]),
    decreases docs.len(),
{
    let want = docs.map_values(|d: Tree| encode_utf8(json_text(d)));
    let all = json_lines(docs);
    all.index_of_first_ensures(10u8);
    if docs.len() == 0 {
        assert(lines_of(all) =~= want);
    } else {
        let rest = docs.drop_first();
        assert forall|i: int| 0 <= i < rest.len() implies reads_back(#[trigger] rest[i]) by {
            assert(rest[i] == docs[i + 1]);
        }
        written_documents_are_lines(rest);
        let text = encode_utf8(json_text(docs[0]));
        assert(reads_back(docs[0]));
        no_line_break(json_text(docs[0]));
        let n = text.len() as int;
        assert(all[n] == 10u8);
        assert(all.contains(10u8));
        let i = all.index_of_first(10u8)->0;
        if i < n {
            assert(text[i] == all[i]);
            assert(text.contains(10u8));
        }
        assert(all.take(n) =~= text);
        assert(all.skip(n + 1) =~= json_lines(rest));
        assert(lines_of(all) =~= want);
    }
}

} // verus!
