//! Names in generated code: case conversion and string escaping (done by
//! `convert_case` and the standard library), and the parts of registry
//! identifiers and data file names that the generators read.

use convert_case::{Case, Casing};
use vstd::prelude::*;

verus! {

/// What `convert_case` makes of a string converted to `Case::Pascal`.
pub uninterp spec fn pascal_case(s: Seq<char>) -> Seq<char>;

/// What `convert_case` makes of a string converted to `Case::Constant`.
pub uninterp spec fn constant_case(s: Seq<char>) -> Seq<char>;

/// What the standard library's `Debug` formatting writes for a `str`
/// (the string in double quotes, with escapes).
pub uninterp spec fn debug_str(s: Seq<char>) -> Seq<char>;

/// What the standard library's `str::escape_debug` yields for a string.
pub uninterp spec fn escape_debug_str(s: Seq<char>) -> Seq<char>;

/// Trusted: calls `convert_case::Casing::to_case` with `Case::Pascal`.
/// The contract claims only that the result is the value of `pascal_case`
/// at the input: the conversion depends on the input string alone.
#[verifier::external_body]
pub(crate) fn to_pascal_case(s: &str) -> (res: String)
    ensures
        res@ == pascal_case(s@),
{
    s.to_case(Case::Pascal)
}

/// Trusted: calls `convert_case::Casing::to_case` with `Case::Constant`.
/// The contract claims only that the result is the value of `constant_case`
/// at the input: the conversion depends on the input string alone.
#[verifier::external_body]
pub(crate) fn to_constant_case(s: &str) -> (res: String)
    ensures
        res@ == constant_case(s@),
{
    s.to_case(Case::Constant)
}

/// Trusted: formats a `str` with `{:?}` (the standard library's `Debug` for
/// `str`). The contract claims only that the result is the value of
/// `debug_str` at the input.
#[verifier::external_body]
pub(crate) fn debug_quote(s: &str) -> (res: String)
    ensures
        res@ == debug_str(s@),
{
    format!("{:?}", s)
}

/// Trusted: collects the standard library's `str::escape_debug` into a
/// `String`. The contract claims only that the result is the value of
/// `escape_debug_str` at the input.
#[verifier::external_body]
pub(crate) fn escape_debug(s: &str) -> (res: String)
    ensures
        res@ == escape_debug_str(s@),
{
    s.escape_debug().to_string()
}

/// The first position at or after `from` where `s` holds `c`, or `s.len()`
/// where there is none.
pub open spec fn find_char(s: Seq<char>, c: char, from: int) -> int
    decreases s.len() - from,
{
    if from >= s.len() {
        s.len() as int
    } else if s[from] == c {
        from
    } else {
        find_char(s, c, from + 1)
    }
}

/// The second `:`-separated segment of a string, `None` where it holds no
/// `:` (what `s.split(":").skip(1).next()` gives).
pub open spec fn second_segment(s: Seq<char>) -> Option<Seq<char>> {
    let i = find_char(s, ':', 0);
    if i >= s.len() {
        None
    } else {
        Some(s.subrange(i + 1, find_char(s, ':', i + 1)))
    }
}

/// The position of the last `.` in `s`, or -1 where there is none.
pub open spec fn last_dot(s: Seq<char>) -> int
    decreases s.len(),
{
    if s.len() == 0 {
        -1
    } else if s.last() == '.' {
        s.len() - 1
    } else {
        last_dot(s.drop_last())
    }
}

/// The stem of a file name, as `std::path::Path::file_stem` documents it:
/// the whole name where it holds no `.` or its only `.` is the first
/// character; else the part before the last `.`. The name `..`, which no
/// directory entry has and of which `Path` finds no stem, is kept whole.
pub open spec fn file_stem(name: Seq<char>) -> Seq<char> {
    if name == seq!['.', '.'] || last_dot(name) <= 0 {
        name
    } else {
        name.take(last_dot(name))
    }
}

proof fn lemma_find_char(s: Seq<char>, c: char, from: int)
    requires
        0 <= from <= s.len(),
    ensures
        from <= find_char(s, c, from) <= s.len(),
        find_char(s, c, from) < s.len() ==> s[find_char(s, c, from)] == c,
        forall|k: int| from <= k < find_char(s, c, from) ==> s[k] != c,
    decreases s.len() - from,
{
    if from < s.len() && s[from] != c {
        lemma_find_char(s, c, from + 1);
    }
}

proof fn lemma_last_dot(s: Seq<char>)
    ensures
        -1 <= last_dot(s) < s.len(),
        last_dot(s) >= 0 ==> s[last_dot(s)] == '.',
        forall|k: int| last_dot(s) < k < s.len() ==> s[k] != '.',
    decreases s.len(),
{
    if s.len() > 0 && s.last() != '.' {
        lemma_last_dot(s.drop_last());
        assert forall|k: int| last_dot(s) < k < s.len() implies s[k] != '.' by {
            if k < s.len() - 1 {
                assert(s[k] == s.drop_last()[k]);
            }
        }
    }
}

/// Law: the second segment of a string holds no `:`, stands in the string
/// right after its first `:`, and ends at the next `:` or at the end.
pub proof fn lemma_second_segment(s: Seq<char>)
    ensures
        second_segment(s) is None <==> !s.contains(':'),
        second_segment(s) matches Some(p) ==> {
            let i = find_char(s, ':', 0);
            &&& !p.contains(':')
            &&& 0 <= i < s.len()
            &&& s[i] == ':'
            &&& !s.take(i).contains(':')
            &&& s.subrange(i + 1, i + 1 + p.len()) == p
            &&& (i + 1 + p.len() == s.len() || s[i + 1 + p.len()] == ':')
        },
{
    lemma_find_char(s, ':', 0);
    let i = find_char(s, ':', 0);
    if i < s.len() {
        lemma_find_char(s, ':', i + 1);
        let p = s.subrange(i + 1, find_char(s, ':', i + 1));
        assert forall|k: int| 0 <= k < p.len() implies p[k] != ':' by {
            assert(p[k] == s[i + 1 + k]);
        }
        assert forall|k: int| 0 <= k < i implies s.take(i)[k] != ':' by {
            assert(s.take(i)[k] == s[k]);
        }
        assert(s.contains(':')) by {
            assert(s[i] == ':');
        }
    } else {
        assert forall|k: int| 0 <= k < s.len() implies s[k] != ':' by {}
    }
}

/// Law: a file's stem is a prefix of its name, and where it is shorter, the
/// rest of the name is a `.` followed by a part that holds no `.`, so the
/// stem is the part before the last `.`. The stem is shorter exactly where
/// the name has a `.` after its first character (and is not `..`); else it
/// is the whole name.
pub proof fn lemma_file_stem(name: Seq<char>)
    ensures
        (name != seq!['.', '.'] && exists|k: int| 1 <= k < name.len() && name[k] == '.')
            ==> file_stem(name).len() < name.len(),
        (forall|k: int| 1 <= k < name.len() ==> name[k] != '.') ==> file_stem(name) == name,
        file_stem(name).len() <= name.len(),
        name.take(file_stem(name).len() as int) == file_stem(name),
        file_stem(name).len() < name.len() ==> {
            let n = file_stem(name).len() as int;
            &&& n > 0
            &&& name[n] == '.'
            &&& !name.skip(n + 1).contains('.')
        },
{
    lemma_last_dot(name);
    let stem = file_stem(name);
    if exists|k: int| 1 <= k < name.len() && name[k] == '.' {
        let k = choose|k: int| 1 <= k < name.len() && name[k] == '.';
        assert(last_dot(name) >= k);
    }
    if stem.len() < name.len() {
        let n = stem.len() as int;
        let rest = name.skip(n + 1);
        assert forall|k: int| 0 <= k < rest.len() implies #[trigger] rest[k] != '.' by {
            assert(rest[k] == name[n + 1 + k]);
        }
    }
    assert(name.take(stem.len() as int) =~= stem);
}

/// The second `:`-separated segment of `s`, `None` where `s` holds no `:`.
pub fn second_segment_of(s: &str) -> (res: Option<String>)
    ensures
        match res {
            Some(p) => second_segment(s@) == Some(p@),
            None => second_segment(s@) is None,
        },
{
    let len = s.unicode_len();
    let mut i: usize = 0;
    while i < len && s.get_char(i) != ':'
        invariant
            len == s@.len(),
            i <= len,
            find_char(s@, ':', 0) == find_char(s@, ':', i as int),
        decreases len - i,
    {
        i = i + 1;
    }
    if i == len {
        return None;
    }
    let mut j: usize = i + 1;
    while j < len && s.get_char(j) != ':'
        invariant
            len == s@.len(),
            i < j <= len,
            find_char(s@, ':', 0) == i,
            s@[i as int] == ':',
            find_char(s@, ':', i + 1) == find_char(s@, ':', j as int),
        decreases len - j,
    {
        j = j + 1;
    }
    let part = s.substring_char(i + 1, j);
    Some(String::from_str(part))
}

/// The stem of a file name (see `file_stem`): how a data file's name
/// becomes the identifier of its entry.
pub fn file_stem_of(name: &str) -> (res: String)
    ensures
        res@ == file_stem(name@),
{
    let len = name.unicode_len();
    if len == 2 && name.get_char(0) == '.' && name.get_char(1) == '.' {
        assert(name@ =~= seq!['.', '.']);
        return String::from_str(name);
    }
    let mut k: usize = len;
    assert(name@.take(len as int) =~= name@);
    while k > 0 && name.get_char(k - 1) != '.'
        invariant
            len == name@.len(),
            k <= len,
            last_dot(name@) == last_dot(name@.take(k as int)),
        decreases k,
    {
        assert(name@.take(k as int).drop_last() =~= name@.take(k - 1));
        k = k - 1;
    }
    proof {
        if k > 0 {
            assert(name@.take(k as int).last() == '.');
        }
        assert(name@.take(len as int) =~= name@);
    }
    if k <= 1 {
        String::from_str(name)
    } else {
        String::from_str(name.substring_char(0, k - 1))
    }
}

} // verus!
