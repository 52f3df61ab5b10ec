//! How values are read, and what the models of values keep.

use vstd::prelude::*;

use crate::json::{lists_in, text_items, text_list, Num, Tree};
use crate::text::{decimal, digit, texts, trimmed_prefix, trimmed_start};
use crate::textmap::{list_values, text_values};

verus! {

/// A field is read by its kind: as a text where it holds one, as a truth value where it holds one,
/// as an integer where it holds one in range, and as a flag where it holds a truth value or an
/// integer, of which zero alone is false.
pub proof fn field_is_read_by_its_kind(m: Map<Seq<char>, Tree>, key: Seq<char>, value: Tree)
    ensures
        ({
            let t = Tree::Object(m.insert(key, value));
            &&& t.field(key) == Some(value)
            &&& t.text_at(key) == (match value {
                Tree::Text(s) => Some(s),
                _ => None,
            })
            &&& t.bool_at(key) == (match value {
                Tree::Bool(b) => Some(b),
                _ => None,
            })
            &&& t.i64_at(key) is Some <==> (value matches Tree::Number(Num::Int(n)) && i64::MIN <= n
                <= i64::MAX)
            &&& t.i64_at(key) matches Some(n) ==> value == Tree::Number(Num::Int(n as int))
            &&& t.u64_at(key) is Some <==> (value matches Tree::Number(Num::Int(n)) && 0 <= n
                <= u64::MAX)
            &&& t.u64_at(key) matches Some(n) ==> value == Tree::Number(Num::Int(n as int))
            &&& t.texts_at(key) is Some <==> value is List
            &&& t.flag_at(key) == (match value {
                Tree::Bool(b) => Some(b),
                Tree::Number(Num::Int(n)) => if i64::MIN <= n <= u64::MAX {
                    Some(n != 0)
                } else {
                    None
                },
                _ => None,
            })
        }),
{
}

/// A field that is not there reads as nothing, in an object as in a document that is none.
pub proof fn absent_field_is_nothing(t: Tree, key: Seq<char>)
    requires
        t matches Tree::Object(m) ==> !m.contains_key(key),
    ensures
        t.field(key) is None,
        t.text_at(key) is None,
        t.bool_at(key) is None,
        t.flag_at(key) is None,
        t.i64_at(key) is None,
        t.u64_at(key) is None,
        t.texts_at(key) is None,
        t.lists_at(key) == Map::<Seq<char>, Seq<Seq<char>>>::empty(),
{
}

/// A field that is added is there, and the other fields stay.
pub proof fn added_field_is_there(
    m: Map<Seq<char>, Tree>,
    key: Seq<char>,
    value: Tree,
    other: Seq<char>,
)
    ensures
        Tree::Object(m).with(key, value).field(key) == Some(value),
        other != key ==> Tree::Object(m).with(key, value).field(other) == Tree::Object(m).field(
            other,
        ),
{
}

/// Of the items of a list the texts count, each in its turn.
pub proof fn texts_of_a_list_count(items: Seq<Tree>, item: Tree)
    ensures
        text_items(Seq::<Tree>::empty()) == Seq::<Seq<char>>::empty(),
        item matches Tree::Text(s) ==> text_items(items.push(item)) == text_items(items).push(s),
        !(item is Text) ==> text_items(items.push(item)) == text_items(items),
{
    assert(items.push(item).drop_last() =~= items);
}

/// A list of texts is read as those texts.
pub proof fn text_list_reads_back(m: Map<Seq<char>, Tree>, key: Seq<char>, list: Seq<Seq<char>>)
    ensures
        Tree::Object(m.insert(key, text_list(list))).texts_at(key) == Some(list),
{
    text_items_of_texts(list);
}

/// The texts of a list of texts are all of them.
proof fn text_items_of_texts(list: Seq<Seq<char>>)
    ensures
        text_items(list.map_values(|s: Seq<char>| Tree::Text(s))) == list,
    decreases list.len(),
{
    let items = list.map_values(|s: Seq<char>| Tree::Text(s));
    if list.len() == 0 {
        assert(text_items(items) =~= list);
    } else {
        text_items_of_texts(list.drop_last());
        assert(items.drop_last() =~= list.drop_last().map_values(|s: Seq<char>| Tree::Text(s)));
        assert(list.drop_last().push(list.last()) =~= list);
    }
}

/// The lists of an object are read under their keys, and what is no list is left out.
pub proof fn lists_of_an_object_are_read(
    m: Map<Seq<char>, Tree>,
    key: Seq<char>,
    inner: Map<Seq<char>, Tree>,
    k: Seq<char>,
)
    ensures
        ({
            let read = Tree::Object(m.insert(key, Tree::Object(inner))).lists_at(key);
            &&& read.contains_key(k) <==> inner.contains_key(k) && inner[k] is List
            &&& read.contains_key(k) ==> Some(read[k]) == Tree::Object(inner).texts_at(k)
        }),
{
    assert(lists_in(inner).contains_key(k) <==> inner.contains_key(k) && inner[k] is List);
}

/// The number that a decimal numeral stands for.
pub open spec fn numeral_value(s: Seq<char>) -> int
    decreases s.len(),
{
    if s.len() == 0 {
        0
    } else {
        numeral_value(s.drop_last()) * 10 + (s.last() as int - '0' as int)
    }
}

/// The numeral of a number stands for it, holds digits alone, and has no zero in front.
pub proof fn numeral_stands_for_its_number(n: nat)
    ensures
        numeral_value(decimal(n)) == n,
        decimal(n).len() > 0,
        forall|i: int| 0 <= i < decimal(n).len() ==> '0' <= #[trigger] decimal(n)[i] <= '9',
        n > 0 ==> decimal(n)[0] != '0',
        n < 10 ==> decimal(n).len() == 1,
    decreases n,
{
    let s = decimal(n);
    if n < 10 {
        assert(s.drop_last() =~= Seq::empty());
        reveal_with_fuel(numeral_value, 2);
        assert(s[0] == digit(n));
    } else {
        let init = decimal(n / 10);
        numeral_stands_for_its_number(n / 10);
        assert(s.drop_last() =~= init);
        assert(s.last() == digit(n % 10));
        assert forall|i: int| 0 <= i < s.len() implies '0' <= #[trigger] s[i] <= '9' by {
            if i < init.len() {
                assert(s[i] == init[i]);
            }
        }
        assert(s[0] == init[0]);
    }
}

/// What is trimmed is all of the leading characters and nothing else.
pub proof fn trimming_drops_what_leads(s: Seq<char>, c: char)
    ensures
        ({
            let r = trimmed_start(s, c);
            let k = s.len() - r.len();
            &&& k >= 0
            &&& s.skip(k) == r
            &&& forall|i: int| 0 <= i < k ==> #[trigger] s[i] == c
            &&& r.len() > 0 ==> r[0] != c
        }),
    decreases s.len(),
{
    if s.len() > 0 && s[0] == c {
        let t = s.drop_first();
        trimming_drops_what_leads(t, c);
        let r = trimmed_start(s, c);
        let k = s.len() - r.len();
        assert(s.skip(k) =~= t.skip(k - 1));
        assert forall|i: int| 0 <= i < k implies #[trigger] s[i] == c by {
            if i > 0 {
                assert(t[i - 1] == c);
            }
        }
    } else {
        assert(s.skip(0) =~= s);
    }
}

/// A prefix is trimmed as often as it leads, and then no more.
pub proof fn trimming_drops_a_prefix(s: Seq<char>, prefix: Seq<char>)
    requires
        prefix.len() > 0,
    ensures
        trimmed_prefix(prefix + s, prefix) == trimmed_prefix(s, prefix),
        !prefix.is_prefix_of(s) ==> trimmed_prefix(s, prefix) == s,
{
    assert((prefix + s).skip(prefix.len() as int) =~= s);
    assert((prefix + s).subrange(0, prefix.len() as int) =~= prefix);
    assert(prefix.is_prefix_of(prefix + s));
}

/// The models of lists and maps keep every text where it stands.
pub proof fn models_keep_their_texts(
    v: Seq<String>,
    m: Map<Seq<char>, String>,
    l: Map<Seq<char>, Vec<String>>,
    i: int,
    k: Seq<char>,
)
    ensures
        texts(v).len() == v.len(),
        0 <= i < v.len() ==> texts(v)[i] == v[i]@,
        text_values(m).contains_key(k) <==> m.contains_key(k),
        m.contains_key(k) ==> text_values(m)[k] == m[k]@,
        list_values(l).contains_key(k) <==> l.contains_key(k),
        l.contains_key(k) ==> list_values(l)[k].len() == l[k]@.len() && (0 <= i < l[k]@.len()
            ==> list_values(l)[k][i] == l[k]@[i]@),
{
}

} // verus!
