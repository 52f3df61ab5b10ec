//! Names of containers, volumes and networks: `/?[a-zA-Z0-9][a-zA-Z0-9_.-]+`.

use vstd::prelude::*;

use crate::text::starts_with_char;

verus! {

/// Whether the character is an ASCII letter or digit.
pub open spec fn is_alphanumeric(c: char) -> bool {
    ('a' <= c && c <= 'z') || ('A' <= c && c <= 'Z') || ('0' <= c && c <= '9')
}

/// Whether the character may stand in a name.
pub open spec fn is_name_char(c: char) -> bool {
    is_alphanumeric(c) || c == '_' || c == '.' || c == '-'
}

/// The name without the slash that it may start with.
pub open spec fn bare_name(name: Seq<char>) -> Seq<char> {
    if name.len() > 0 && name[0] == '/' {
        name.skip(1)
    } else {
        name
    }
}

/// Whether the daemon takes the name: behind an optional slash it has two characters or more, the
/// first one alphanumeric, and no others than name characters.
pub open spec fn is_valid_name(name: Seq<char>) -> bool {
    let n = bare_name(name);
    n.len() >= 2 && is_alphanumeric(n[0]) && forall|i: int|
        0 <= i < n.len() ==> is_name_char(#[trigger] n[i])
}

/// Whether the character is an ASCII letter or digit.
fn alphanumeric(c: char) -> (r: bool)
    ensures
        r == is_alphanumeric(c),
{
    ('a' <= c && c <= 'z') || ('A' <= c && c <= 'Z') || ('0' <= c && c <= '9')
}

/// Whether the daemon takes the name.
pub fn valid_container_name(name: &str) -> (r: bool)
    ensures
        r == is_valid_name(name@),
{
    let len = name.unicode_len();
    let n: &str = if starts_with_char(name, '/') {
        name.substring_char(1, len)
    } else {
        name
    };
    assert(n@ =~= bare_name(name@));
    if n.unicode_len() < 2 {
        return false;
    }
    if !alphanumeric(n.get_char(0)) {
        return false;
    }
    for c in it: n.chars()
        invariant
            it.seq() == n@,
            n@ == bare_name(name@),
            forall|i: int| 0 <= i < it.index() ==> is_name_char(#[trigger] n@[i]),
    {
        if !(alphanumeric(c) || c == '_' || c == '.' || c == '-') {
            assert(!is_name_char(n@[it.index()]));
            return false;
        }
    }
    true
}

/// A leading slash makes no difference to a name that has none.
pub proof fn slash_is_optional(name: Seq<char>)
    requires
        name.len() > 0 ==> name[0] != '/',
    ensures
        is_valid_name(seq!['/'] + name) == is_valid_name(name),
{
    assert((seq!['/'] + name).skip(1) =~= name);
}

} // verus!
