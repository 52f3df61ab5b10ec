//! Searching, cutting and assembling of text, over its sequence of characters.

use vstd::prelude::*;

verus! {

/// The characters of each text in a list.
pub open spec fn texts(v: Seq<String>) -> Seq<Seq<char>> {
    v.map_values(|t: String| t@)
}

/// The characters of an optional text.
pub open spec fn opt_text(t: Option<String>) -> Option<Seq<char>> {
    match t {
        Some(s) => Some(s@),
        None => None,
    }
}

/// What stands before and after the first `sep`, if there is one.
pub open spec fn cut_first(s: Seq<char>, sep: char) -> Option<(Seq<char>, Seq<char>)> {
    match s.index_of_first(sep) {
        Some(i) => Some((s.take(i), s.skip(i + 1))),
        None => None,
    }
}

/// What stands before and after the last `sep`, if there is one.
pub open spec fn cut_last(s: Seq<char>, sep: char) -> Option<(Seq<char>, Seq<char>)> {
    match s.index_of_last(sep) {
        Some(i) => Some((s.take(i), s.skip(i + 1))),
        None => None,
    }
}

/// The pieces between the occurrences of `sep`; a text without it is one piece.
pub open spec fn pieces(s: Seq<char>, sep: char) -> Seq<Seq<char>>
    decreases s.len(),
{
    proof {
        s.index_of_first_ensures(sep);
    }
    match cut_first(s, sep) {
        Some((head, rest)) => seq![head] + pieces(rest, sep),
        None => seq![s],
    }
}

/// The pieces with `sep` between each two of them.
pub open spec fn joined(parts: Seq<Seq<char>>, sep: char) -> Seq<char>
    decreases parts.len(),
{
    if parts.len() == 0 {
        Seq::empty()
    } else if parts.len() == 1 {
        parts[0]
    } else {
        parts[0] + seq![sep] + joined(parts.drop_first(), sep)
    }
}

/// The text without the `c` that it starts with.
pub open spec fn trimmed_start(s: Seq<char>, c: char) -> Seq<char>
    decreases s.len(),
{
    if s.len() > 0 && s[0] == c {
        trimmed_start(s.drop_first(), c)
    } else {
        s
    }
}

/// The text without the repetitions of `prefix` that it starts with.
pub open spec fn trimmed_prefix(s: Seq<char>, prefix: Seq<char>) -> Seq<char>
    decreases s.len(),
{
    if prefix.len() > 0 && prefix.is_prefix_of(s) {
        trimmed_prefix(s.skip(prefix.len() as int), prefix)
    } else {
        s
    }
}

/// The decimal digit with the value `d`.
pub open spec fn digit(d: nat) -> char {
    (('0' as int) + d) as char
}

/// The decimal numeral of `n`, without leading zeros.
pub open spec fn decimal(n: nat) -> Seq<char>
    decreases n,
{
    if n < 10 {
        seq![digit(n)]
    } else {
        decimal(n / 10).push(digit(n % 10))
    }
}

/// Cutting at the first separator loses nothing, and what stands before it is free of it.
pub proof fn cut_first_rejoins(s: Seq<char>, sep: char)
    ensures
        match cut_first(s, sep) {
            Some((head, rest)) => s == head + seq![sep] + rest && !head.contains(sep),
            None => !s.contains(sep),
        },
{
    s.index_of_first_ensures(sep);
    if let Some(i) = s.index_of_first(sep) {
        assert(s =~= s.take(i) + seq![sep] + s.skip(i + 1));
    }
}

/// Cutting at the last separator loses nothing, and what stands behind it is free of it.
pub proof fn cut_last_rejoins(s: Seq<char>, sep: char)
    ensures
        match cut_last(s, sep) {
            Some((head, rest)) => s == head + seq![sep] + rest && !rest.contains(sep),
            None => !s.contains(sep),
        },
{
    s.index_of_last_ensures(sep);
    if let Some(i) = s.index_of_last(sep) {
        assert(s =~= s.take(i) + seq![sep] + s.skip(i + 1));
        let rest = s.skip(i + 1);
        assert forall|j: int| 0 <= j < rest.len() implies #[trigger] rest[j] != sep by {
            assert(rest[j] == s[i + 1 + j]);
        }
    }
}

/// A text assembled around a separator is cut there, if that is the first one.
pub proof fn cut_first_of(head: Seq<char>, sep: char, rest: Seq<char>)
    requires
        !head.contains(sep),
    ensures
        cut_first(head + seq![sep] + rest, sep) == Some((head, rest)),
{
    let s = head + seq![sep] + rest;
    let n = head.len() as int;
    s.index_of_first_ensures(sep);
    assert(s[n] == sep);
    assert(s.contains(sep));
    let i = s.index_of_first(sep)->0;
    if i < n {
        assert(head[i] == s[i]);
        assert(head.contains(sep));
    }
    assert(s.take(n) =~= head);
    assert(s.skip(n + 1) =~= rest);
}

/// A text assembled around a separator is cut there, if that is the last one.
pub proof fn cut_last_of(head: Seq<char>, sep: char, rest: Seq<char>)
    requires
        !rest.contains(sep),
    ensures
        cut_last(head + seq![sep] + rest, sep) == Some((head, rest)),
{
    let s = head + seq![sep] + rest;
    let n = head.len() as int;
    s.index_of_last_ensures(sep);
    assert(s[n] == sep);
    assert(s.contains(sep));
    let i = s.index_of_last(sep)->0;
    if i > n {
        assert(rest[i - n - 1] == s[i]);
        assert(rest.contains(sep));
    }
    assert(s.take(n) =~= head);
    assert(s.skip(n + 1) =~= rest);
}

/// A text without the separator is not cut.
pub proof fn cut_nowhere(s: Seq<char>, sep: char)
    requires
        !s.contains(sep),
    ensures
        cut_first(s, sep) is None,
        cut_last(s, sep) is None,
{
    s.index_of_first_ensures(sep);
    s.index_of_last_ensures(sep);
}

/// A character occurs in an assembled text where it occurs in one of its parts.
pub proof fn contains_assembled(head: Seq<char>, sep: char, rest: Seq<char>, c: char)
    ensures
        (head + seq![sep] + rest).contains(c) <==> head.contains(c) || sep == c || rest.contains(c),
{
    let s = head + seq![sep] + rest;
    let n = head.len() as int;
    if s.contains(c) {
        let i = choose|i: int| 0 <= i < s.len() && s[i] == c;
        if i < n {
            assert(head[i] == c);
        } else if i > n {
            assert(rest[i - n - 1] == c);
        }
    }
    if head.contains(c) {
        let i = choose|i: int| 0 <= i < head.len() && head[i] == c;
        assert(s[i] == c);
    }
    if rest.contains(c) {
        let i = choose|i: int| 0 <= i < rest.len() && rest[i] == c;
        assert(s[n + 1 + i] == c);
    }
    assert(s[n] == sep);
}

/// A text is its pieces, joined again; no piece holds the separator.
pub proof fn pieces_rejoin(s: Seq<char>, sep: char)
    ensures
        pieces(s, sep).len() > 0,
        joined(pieces(s, sep), sep) == s,
        forall|i: int|
            0 <= i < pieces(s, sep).len() ==> !(#[trigger] pieces(s, sep)[i]).contains(sep),
    decreases s.len(),
{
    s.index_of_first_ensures(sep);
    cut_first_rejoins(s, sep);
    if let Some((head, rest)) = cut_first(s, sep) {
        pieces_rejoin(rest, sep);
        let p = pieces(s, sep);
        assert(p.drop_first() =~= pieces(rest, sep));
        assert(joined(p, sep) =~= s);
        assert forall|i: int| 0 <= i < p.len() implies !(#[trigger] p[i]).contains(sep) by {
            if i > 0 {
                assert(p[i] == pieces(rest, sep)[i - 1]);
            }
        }
    }
}

/// A text without the separator is one piece; in front of a separator it is the first of them.
pub proof fn pieces_of(head: Seq<char>, sep: char, rest: Seq<char>)
    requires
        !head.contains(sep),
    ensures
        pieces(head, sep) == seq![head],
        pieces(head + seq![sep] + rest, sep) == seq![head] + pieces(rest, sep),
{
    cut_nowhere(head, sep);
    cut_first_of(head, sep, rest);
}

/// A first occurrence within a suffix is the first one at or behind its start.
proof fn first_in_suffix(s: Seq<char>, sep: char, start: int, i: int)
    requires
        0 <= start <= i < s.len(),
        s[i] == sep,
        forall|j: int| start <= j < i ==> s[j] != sep,
    ensures
        cut_first(s.skip(start), sep) == Some((s.subrange(start, i), s.skip(i + 1))),
{
    let t = s.skip(start);
    t.index_of_first_ensures(sep);
    assert(t[i - start] == sep);
    assert(t.contains(sep));
    let k = t.index_of_first(sep)->0;
    assert(s[start + k] == sep);
    assert(k == i - start);
    assert(t.take(k) =~= s.subrange(start, i));
    assert(t.skip(k + 1) =~= s.skip(i + 1));
}

/// The position of the first `sep`, counted in characters.
pub fn find_first(s: &str, sep: char) -> (r: Option<usize>)
    ensures
        match r {
            Some(i) => s@.index_of_first(sep) == Some(i as int) && i < s@.len(),
            None => s@.index_of_first(sep) is None,
        },
{
    proof {
        s@.index_of_first_ensures(sep);
    }
    let n = s.unicode_len();
    let mut i: usize = 0;
    for c in it: s.chars()
        invariant
            it.seq() == s@,
            n == s@.len(),
            i == it.index(),
            forall|j: int| 0 <= j < i ==> s@[j] != sep,
            s@.contains(sep) == (s@.index_of_first(sep) is Some),
            s@.index_of_first(sep) matches Some(k) ==> 0 <= k < s@.len() && s@[k] == sep && forall|
                j: int,
            |
                0 <= j < k ==> s@[j] != sep,
    {
        if c == sep {
            assert(s@[i as int] == sep);
            assert(s@.contains(sep));
            return Some(i);
        }
        i = i + 1;
    }
    None
}

/// The position of the last `sep`, counted in characters.
pub fn find_last(s: &str, sep: char) -> (r: Option<usize>)
    ensures
        match r {
            Some(i) => s@.index_of_last(sep) == Some(i as int) && i < s@.len(),
            None => s@.index_of_last(sep) is None,
        },
{
    let n = s.unicode_len();
    let mut i: usize = 0;
    let mut found: Option<usize> = None;
    for c in it: s.chars()
        invariant
            it.seq() == s@,
            n == s@.len(),
            i == it.index(),
            match found {
                Some(k) => k < i && s@[k as int] == sep && forall|j: int| k < j < i ==> s@[j] != sep,
                None => forall|j: int| 0 <= j < i ==> s@[j] != sep,
            },
    {
        if c == sep {
            found = Some(i);
        }
        i = i + 1;
    }
    proof {
        s@.index_of_last_ensures(sep);
        if let Some(k) = found {
            assert(s@.contains(s@[k as int]));
        }
    }
    found
}

/// Cuts at the first `sep`.
pub fn split_once<'a>(s: &'a str, sep: char) -> (r: Option<(&'a str, &'a str)>)
    ensures
        match r {
            Some((head, rest)) => cut_first(s@, sep) == Some((head@, rest@)),
            None => cut_first(s@, sep) is None,
        },
{
    match find_first(s, sep) {
        Some(i) => {
            let n = s.unicode_len();
            Some((s.substring_char(0, i), s.substring_char(i + 1, n)))
        },
        None => None,
    }
}

/// Cuts at the last `sep`.
pub fn rsplit_once<'a>(s: &'a str, sep: char) -> (r: Option<(&'a str, &'a str)>)
    ensures
        match r {
            Some((head, rest)) => cut_last(s@, sep) == Some((head@, rest@)),
            None => cut_last(s@, sep) is None,
        },
{
    match find_last(s, sep) {
        Some(i) => {
            let n = s.unicode_len();
            Some((s.substring_char(0, i), s.substring_char(i + 1, n)))
        },
        None => None,
    }
}

/// Whether the character occurs.
pub fn contains_char(s: &str, c: char) -> (r: bool)
    ensures
        r == s@.contains(c),
{
    proof {
        s@.index_of_first_ensures(c);
    }
    find_first(s, c).is_some()
}

/// The pieces between the occurrences of `sep`.
pub fn split(s: &str, sep: char) -> (r: Vec<String>)
    ensures
        texts(r@) == pieces(s@, sep),
        r.len() > 0,
{
    let n = s.unicode_len();
    let mut out: Vec<String> = Vec::new();
    let mut start: usize = 0;
    let mut i: usize = 0;
    assert(s@.skip(0) =~= s@);
    assert(texts(out@) + pieces(s@, sep) =~= pieces(s@, sep));
    for c in it: s.chars()
        invariant
            it.seq() == s@,
            n == s@.len(),
            i == it.index(),
            start <= i <= n,
            texts(out@) + pieces(s@.skip(start as int), sep) == pieces(s@, sep),
            forall|j: int| start <= j < i ==> s@[j] != sep,
    {
        if c == sep {
            let piece = s.substring_char(start, i).to_owned();
            proof {
                first_in_suffix(s@, sep, start as int, i as int);
                assert(texts(out@.push(piece)) =~= texts(out@).push(piece@));
                assert(texts(out@).push(piece@) + pieces(s@.skip(i + 1), sep) =~= texts(out@) + (
                seq![piece@] + pieces(s@.skip(i + 1), sep)));
            }
            out.push(piece);
            start = i + 1;
        }
        i = i + 1;
    }
    let last = s.substring_char(start, n).to_owned();
    proof {
        let t = s@.skip(start as int);
        assert(last@ =~= t);
        t.index_of_first_ensures(sep);
        assert(cut_first(t, sep) is None);
        assert(texts(out@.push(last)) =~= texts(out@) + seq![last@]);
    }
    out.push(last);
    out
}

/// Whether two texts hold the same characters.
pub fn same(a: &str, b: &str) -> (r: bool)
    ensures
        r == (a@ == b@),
{
    a.to_owned() == b.to_owned()
}

/// Whether the text starts with `c`.
pub fn starts_with_char(s: &str, c: char) -> (r: bool)
    ensures
        r == (s@.len() > 0 && s@[0] == c),
{
    !s.is_empty() && s.get_char(0) == c
}

/// Whether the text starts with `prefix`.
pub fn starts_with(s: &str, prefix: &str) -> (r: bool)
    ensures
        r == prefix@.is_prefix_of(s@),
{
    let k = prefix.unicode_len();
    if s.unicode_len() < k {
        return false;
    }
    same(s.substring_char(0, k), prefix)
}

/// Drops every `c` that the text starts with.
pub fn trim_start_char<'a>(s: &'a str, c: char) -> (r: &'a str)
    ensures
        r@ == trimmed_start(s@, c),
{
    let n = s.unicode_len();
    let mut i: usize = 0;
    assert(s@.skip(0) =~= s@);
    while i < n && s.get_char(i) == c
        invariant
            i <= n,
            n == s@.len(),
            trimmed_start(s@.skip(i as int), c) == trimmed_start(s@, c),
        decreases n - i,
    {
        assert(s@.skip(i as int).drop_first() =~= s@.skip(i + 1));
        i = i + 1;
    }
    s.substring_char(i, n)
}

/// Drops every repetition of `prefix` that the text starts with.
pub fn trim_start_text<'a>(s: &'a str, prefix: &str) -> (r: &'a str)
    ensures
        r@ == trimmed_prefix(s@, prefix@),
{
    let k = prefix.unicode_len();
    if k == 0 {
        return s;
    }
    let mut t: &'a str = s;
    while starts_with(t, prefix)
        invariant
            k == prefix@.len(),
            k > 0,
            trimmed_prefix(t@, prefix@) == trimmed_prefix(s@, prefix@),
        decreases t@.len(),
    {
        let n = t.unicode_len();
        t = t.substring_char(k, n);
    }
    t
}

/// Puts two texts one behind the other.
pub fn concat2(a: &str, b: &str) -> (r: String)
    ensures
        r@ == a@ + b@,
{
    let mut out = a.to_owned();
    out.append(b);
    out
}

/// Puts three texts one behind the other.
pub fn concat3(a: &str, b: &str, c: &str) -> (r: String)
    ensures
        r@ == a@ + b@ + c@,
{
    let mut out = a.to_owned();
    out.append(b);
    out.append(c);
    out
}

/// The text of a decimal digit.
fn digit_text(d: u64) -> (r: &'static str)
    requires
        d < 10,
    ensures
        r@ == seq![digit(d as nat)],
{
    proof {
        reveal_strlit("0");
        reveal_strlit("1");
        reveal_strlit("2");
        reveal_strlit("3");
        reveal_strlit("4");
        reveal_strlit("5");
        reveal_strlit("6");
        reveal_strlit("7");
        reveal_strlit("8");
        reveal_strlit("9");
    }
    let r = if d == 0 {
        "0"
    } else if d == 1 {
        "1"
    } else if d == 2 {
        "2"
    } else if d == 3 {
        "3"
    } else if d == 4 {
        "4"
    } else if d == 5 {
        "5"
    } else if d == 6 {
        "6"
    } else if d == 7 {
        "7"
    } else if d == 8 {
        "8"
    } else {
        "9"
    };
    assert(r@ =~= seq![digit(d as nat)]);
    r
}

/// Writes a number in decimal.
pub fn to_decimal(n: u64) -> (r: String)
    ensures
        r@ == decimal(n as nat),
    decreases n,
{
    if n < 10 {
        digit_text(n).to_owned()
    } else {
        let mut out = to_decimal(n / 10);
        out.append(digit_text(n % 10));
        assert(out@ =~= decimal(n as nat));
        out
    }
}

/// Clones a list of texts.
pub fn clone_texts(v: &Vec<String>) -> (r: Vec<String>)
    ensures
        r@ == v@,
{
    let mut out: Vec<String> = Vec::new();
    let mut i: usize = 0;
    while i < v.len()
        invariant
            i <= v.len(),
            out@ == v@.take(i as int),
        decreases v.len() - i,
    {
        out.push(v[i].clone());
        i = i + 1;
        assert(v@.take(i as int) =~= v@.take(i - 1).push(v@[i - 1]));
    }
    assert(v@.take(v@.len() as int) =~= v@);
    out
}

} // verus!
