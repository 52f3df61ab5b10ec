//! `key=value` arguments: filters, labels and build arguments.

use vstd::prelude::*;

use crate::text::{concat3, cut_first, cut_first_of, cut_nowhere, split_once, texts};
use crate::textmap::{list_values, text_values, with_listed, TextMap};

verus! {

/// The characters of pairs of texts.
pub open spec fn pair_texts(pairs: Seq<(String, String)>) -> Seq<(Seq<char>, Seq<char>)> {
    pairs.map_values(|p: (String, String)| (p.0@, p.1@))
}

/// Takes a `key=value` apart at its first `=`. Key and value may be empty.
pub fn parse_kv(s: &str) -> (r: Result<(String, String), String>)
    ensures
        match r {
            Ok((k, v)) => cut_first(s@, '=') == Some((k@, v@)),
            Err(e) => cut_first(s@, '=') is None && e@ == "expected key=value, got `"@ + s@ + "`"@,
        },
{
    match split_once(s, '=') {
        Some((k, v)) => Ok((k.to_owned(), v.to_owned())),
        None => Err(concat3("expected key=value, got `", s, "`")),
    }
}

/// The values of each key, in the order of the pairs.
pub open spec fn grouped(pairs: Seq<(Seq<char>, Seq<char>)>) -> Map<Seq<char>, Seq<Seq<char>>>
    decreases pairs.len(),
{
    if pairs.len() == 0 {
        Map::empty()
    } else {
        with_listed(grouped(pairs.drop_last()), pairs.last().0, pairs.last().1)
    }
}

/// Groups the values of equal keys.
pub fn kv_pairs(pairs: &[(String, String)]) -> (r: TextMap<Vec<String>>)
    ensures
        list_values(r@) == grouped(pair_texts(pairs@)),
{
    let mut out: TextMap<Vec<String>> = TextMap::new();
    let ghost all = pair_texts(pairs@);
    let mut i: usize = 0;
    assert(list_values(out@) =~= Map::empty());
    while i < pairs.len()
        invariant
            i <= pairs@.len(),
            all == pair_texts(pairs@),
            list_values(out@) == grouped(all.take(i as int)),
        decreases pairs.len() - i,
    {
        assert(all.take(i + 1).drop_last() =~= all.take(i as int));
        out.add(pairs[i].0.as_str(), pairs[i].1.as_str());
        i = i + 1;
    }
    assert(all.take(all.len() as int) =~= all);
    out
}

/// The labels that a list of texts gives: what has no `=` gives none, and the last value of a
/// key counts.
pub open spec fn labels(list: Seq<Seq<char>>) -> Map<Seq<char>, Seq<char>>
    decreases list.len(),
{
    if list.len() == 0 {
        Map::empty()
    } else {
        let init = labels(list.drop_last());
        match cut_first(list.last(), '=') {
            Some((k, v)) => init.insert(k, v),
            None => init,
        }
    }
}

/// Reads labels from a list of `key=value`.
pub fn label_vec_to_map(v: &[String]) -> (r: TextMap<String>)
    ensures
        text_values(r@) == labels(texts(v@)),
{
    let mut out: TextMap<String> = TextMap::new();
    let ghost all = texts(v@);
    let mut i: usize = 0;
    assert(text_values(out@) =~= Map::empty());
    while i < v.len()
        invariant
            i <= v@.len(),
            all == texts(v@),
            text_values(out@) == labels(all.take(i as int)),
        decreases v.len() - i,
    {
        let ghost before = out@;
        assert(all.take(i + 1).drop_last() =~= all.take(i as int));
        if let Some((k, value)) = split_once(v[i].as_str(), '=') {
            out.insert(k, value.to_owned());
            assert(text_values(out@) =~= text_values(before).insert(k@, value@));
        }
        i = i + 1;
    }
    assert(all.take(all.len() as int) =~= all);
    out
}

/// The values that pairs give a key, in their order.
pub open spec fn values_of(pairs: Seq<(Seq<char>, Seq<char>)>, key: Seq<char>) -> Seq<Seq<char>>
    decreases pairs.len(),
{
    if pairs.len() == 0 {
        Seq::empty()
    } else {
        let init = values_of(pairs.drop_last(), key);
        if pairs.last().0 == key {
            init.push(pairs.last().1)
        } else {
            init
        }
    }
}

/// A key has exactly the values that the pairs give it, in their order; a key without a value is
/// absent.
pub proof fn grouping_keeps_order(pairs: Seq<(Seq<char>, Seq<char>)>, key: Seq<char>)
    ensures
        grouped(pairs).contains_key(key) <==> values_of(pairs, key).len() > 0,
        grouped(pairs).contains_key(key) ==> grouped(pairs)[key] == values_of(pairs, key),
    decreases pairs.len(),
{
    if pairs.len() > 0 {
        grouping_keeps_order(pairs.drop_last(), key);
        if pairs.last().0 == key && !grouped(pairs.drop_last()).contains_key(key) {
            assert(values_of(pairs, key) =~= seq![pairs.last().1]);
        }
    }
}

/// The value of every pair is among those of its key.
pub proof fn listed_value_is_grouped(pairs: Seq<(Seq<char>, Seq<char>)>, i: int)
    requires
        0 <= i < pairs.len(),
    ensures
        grouped(pairs).contains_key(pairs[i].0),
        grouped(pairs)[pairs[i].0].contains(pairs[i].1),
    decreases pairs.len(),
{
    let key = pairs[i].0;
    let value = pairs[i].1;
    let m = grouped(pairs.drop_last());
    let n = grouped(pairs);
    if i == pairs.len() - 1 {
        assert(n[key][n[key].len() - 1] == value);
    } else {
        assert(pairs.drop_last()[i] == pairs[i]);
        listed_value_is_grouped(pairs.drop_last(), i);
        let j = choose|j: int| 0 <= j < m[key].len() && m[key][j] == value;
        assert(n[key][j] == value);
    }
}

/// `key=value` is taken apart into its key and its value, which may hold further `=`.
pub proof fn pair_reads_back(key: Seq<char>, value: Seq<char>)
    requires
        !key.contains('='),
    ensures
        cut_first(key + seq!['='] + value, '=') == Some((key, value)),
{
    cut_first_of(key, '=', value);
}

/// The last value of a label counts.
pub proof fn last_label_counts(list: Seq<Seq<char>>, i: int, key: Seq<char>, value: Seq<char>)
    requires
        0 <= i < list.len(),
        cut_first(list[i], '=') == Some((key, value)),
        forall|j: int|
            i < j < list.len() ==> !(cut_first(#[trigger] list[j], '=') matches Some((k, _)) && k
                == key),
    ensures
        labels(list).contains_key(key),
        labels(list)[key] == value,
    decreases list.len(),
{
    if i < list.len() - 1 {
        let init = list.drop_last();
        assert(init[i] == list[i]);
        assert forall|j: int| i < j < init.len() implies !(cut_first(#[trigger] init[j], '=')
            matches Some((k, _)) && k == key) by {
            assert(init[j] == list[j]);
        }
        last_label_counts(init, i, key, value);
        assert(list.last() == list[list.len() - 1]);
    }
}

/// What is no `key=value` is dropped without a trace, wherever it stands.
pub proof fn malformed_label_is_dropped(
    before: Seq<Seq<char>>,
    malformed: Seq<char>,
    behind: Seq<Seq<char>>,
)
    requires
        !malformed.contains('='),
    ensures
        labels(before.push(malformed) + behind) == labels(before + behind),
    decreases behind.len(),
{
    cut_nowhere(malformed, '=');
    let a = before.push(malformed) + behind;
    let b = before + behind;
    if behind.len() == 0 {
        assert(a.drop_last() =~= before);
        assert(b =~= before);
        assert(a.last() == malformed);
    } else {
        assert(a.drop_last() =~= before.push(malformed) + behind.drop_last());
        assert(b.drop_last() =~= before + behind.drop_last());
        assert(a.last() == b.last());
        malformed_label_is_dropped(before, malformed, behind.drop_last());
    }
}

} // verus!
