//! Character-level string scanning: first/last occurrence of a delimiter,
//! substring extraction, and the path pieces (file name, stem, extension)
//! that the vendor decomposition rules operate on.

use vstd::prelude::*;

verus! {

/// Finds the first occurrence of a character.
pub fn find_first(s: &str, c: char) -> (r: Option<usize>)
    ensures
        match r {
            Some(i) => i < s@.len() && s@[i as int] == c && s@.index_of_first(c) == Some(i as int),
            None => s@.index_of_first(c) is None,
        },
{
    let n = s.unicode_len();
    let mut i: usize = 0;
    while i < n
        invariant
            n == s@.len(),
            0 <= i <= n,
            forall|k: int| 0 <= k < i ==> s@[k] != c,
        decreases n - i,
    {
        if s.get_char(i) == c {
            proof {
                s@.index_of_first_ensures(c);
                assert(s@.contains(c)) by {
                    assert(s@[i as int] == c);
                }
            }
            return Some(i);
        }
        i = i + 1;
    }
    proof {
        s@.index_of_first_ensures(c);
        assert(!s@.contains(c)) by {
            assert(forall|k: int| 0 <= k < s@.len() ==> s@[k] != c);
        }
    }
    None
}

/// Finds the last occurrence of a character.
pub fn find_last(s: &str, c: char) -> (r: Option<usize>)
    ensures
        match r {
            Some(i) => i < s@.len() && s@[i as int] == c && s@.index_of_last(c) == Some(i as int),
            None => s@.index_of_last(c) is None,
        },
{
    let n = s.unicode_len();
    let mut i: usize = n;
    while i > 0
        invariant
            n == s@.len(),
            0 <= i <= n,
            forall|k: int| i <= k < n ==> s@[k] != c,
        decreases i,
    {
        i = i - 1;
        if s.get_char(i) == c {
            proof {
                s@.index_of_last_ensures(c);
                assert(s@.contains(c)) by {
                    assert(s@[i as int] == c);
                }
            }
            return Some(i);
        }
    }
    proof {
        s@.index_of_last_ensures(c);
        assert(!s@.contains(c)) by {
            assert(forall|k: int| 0 <= k < s@.len() ==> s@[k] != c);
        }
    }
    None
}

/// Copies the characters in `from..to` into an owned string.
pub fn substring(s: &str, from: usize, to: usize) -> (r: String)
    requires
        from <= to <= s@.len(),
    ensures
        r@ == s@.subrange(from as int, to as int),
{
    let sub = s.substring_char(from, to);
    String::from_str(sub)
}

/// Index right after the last path separator, or 0 when there is none.
/// Both `/` and `\` count as separators, so paths from either convention
/// reduce to their base name.
pub open spec fn spec_base_start(s: Seq<char>) -> int {
    match (s.index_of_last('/'), s.index_of_last('\\')) {
        (Some(i), Some(j)) => if i > j { i + 1 } else { j + 1 },
        (Some(i), None) => i + 1,
        (None, Some(j)) => j + 1,
        (None, None) => 0,
    }
}

/// The file name of a path: everything after the last separator.
pub open spec fn spec_file_name(s: Seq<char>) -> Seq<char> {
    s.subrange(spec_base_start(s), s.len() as int)
}

/// The stem of a file name: the part before its last `.`, except that a
/// leading `.` (a hidden file) does not start an extension.
pub open spec fn spec_stem_of_name(name: Seq<char>) -> Seq<char> {
    match name.index_of_last('.') {
        Some(j) => if j > 0 {
            name.subrange(0, j)
        } else {
            name
        },
        None => name,
    }
}

/// The extension of a file name: the part after its last `.`, empty when
/// there is none (or only a leading one).
pub open spec fn spec_ext_of_name(name: Seq<char>) -> Seq<char> {
    match name.index_of_last('.') {
        Some(j) => if j > 0 {
            name.subrange(j + 1, name.len() as int)
        } else {
            Seq::empty()
        },
        None => Seq::empty(),
    }
}

/// The stem of a full path: its file name with the final extension stripped.
pub open spec fn spec_stem(s: Seq<char>) -> Seq<char> {
    spec_stem_of_name(spec_file_name(s))
}

/// The extension of a full path.
pub open spec fn spec_extension(s: Seq<char>) -> Seq<char> {
    spec_ext_of_name(spec_file_name(s))
}

/// Returns the file name of a path: everything after the last separator.
pub fn file_name(s: &str) -> (r: String)
    ensures
        r@ == spec_file_name(s@),
{
    let n = s.unicode_len();
    let slash = find_last(s, '/');
    let backslash = find_last(s, '\\');
    let start: usize = match (slash, backslash) {
        (Some(i), Some(j)) => if i > j { i + 1 } else { j + 1 },
        (Some(i), None) => i + 1,
        (None, Some(j)) => j + 1,
        (None, None) => 0,
    };
    substring(s, start, n)
}

/// Splits a file name just after its last meaningful `.`, returning the
/// boundary, or None when the name carries no extension.
fn name_dot_split(name: &str) -> (r: Option<usize>)
    ensures
        match r {
            Some(j) => 0 < j < name@.len() && name@.index_of_last('.') == Some(j as int),
            None => spec_stem_of_name(name@) == name@ && spec_ext_of_name(name@) == Seq::<char>::empty(),
        },
{
    match find_last(name, '.') {
        Some(j) => {
            if j > 0 {
                Some(j)
            } else {
                None
            }
        },
        None => None,
    }
}

/// Returns the stem of a path: file name with directory and final
/// extension stripped.
pub fn file_stem(s: &str) -> (r: String)
    ensures
        r@ == spec_stem(s@),
{
    let name = file_name(s);
    match name_dot_split(name.as_str()) {
        Some(j) => substring(name.as_str(), 0, j),
        None => name,
    }
}

/// Returns the extension of a path, empty when there is none.
pub fn extension(s: &str) -> (r: String)
    ensures
        r@ == spec_extension(s@),
{
    let name = file_name(s);
    let n = name.as_str().unicode_len();
    match name_dot_split(name.as_str()) {
        Some(j) => substring(name.as_str(), j + 1, n),
        None => String::new(),
    }
}

/// Returns the directory part of a path: everything up to and including
/// the last separator, empty when there is none.
pub fn dir_prefix(s: &str) -> (r: String)
    ensures
        r@ == s@.subrange(0, spec_base_start(s@)),
{
    let n = s.unicode_len();
    let slash = find_last(s, '/');
    let backslash = find_last(s, '\\');
    let start: usize = match (slash, backslash) {
        (Some(i), Some(j)) => if i > j { i + 1 } else { j + 1 },
        (Some(i), None) => i + 1,
        (None, Some(j)) => j + 1,
        (None, None) => 0,
    };
    substring(s, 0, start)
}

/// Relies on String::push: appends the given character at the end of the
/// string.
#[verifier::external_body]
pub(crate) fn push_char(s: &mut String, c: char)
    ensures
        final(s)@ == old(s)@.push(c),
{
    s.push(c);
}

/// Relies on String::pop: removes and returns the last character, or
/// returns None when the string is empty.
#[verifier::external_body]
pub(crate) fn pop_char(s: &mut String) -> (r: Option<char>)
    ensures
        match r {
            Some(c) => old(s)@.len() > 0 && c == old(s)@.last() && final(s)@ == old(s)@.drop_last(),
            None => old(s)@.len() == 0 && final(s)@ == old(s)@,
        },
{
    s.pop()
}

} // verus!
