//! File paths as text: the extension of a path, and quoting for the shell.

use crate::text::chars_of;
use vstd::prelude::*;

verus! {

/// What `find_file_extension` and `change_file_extension` report for a path
/// that holds no dot.
pub const NO_EXTENSION_FOUND: &'static str = "No extension found.";

/// The position of the last occurrence of `c` in `s`.
pub open spec fn last_index_of(s: Seq<char>, c: char) -> Option<int>
    decreases s.len(),
{
    if s.len() == 0 {
        None
    } else if s.last() == c {
        Some(s.len() - 1)
    } else {
        last_index_of(s.drop_last(), c)
    }
}

/// `last_index_of` finds an occurrence of `c` with no other to its right, and
/// finds none only where there is none.
pub proof fn lemma_last_index_of(s: Seq<char>, c: char)
    ensures
        match last_index_of(s, c) {
            Some(i) => 0 <= i < s.len() && s[i] == c && forall|j: int|
                i < j < s.len() ==> s[j] != c,
            None => forall|j: int| 0 <= j < s.len() ==> s[j] != c,
        },
    decreases s.len(),
{
    if s.len() > 0 && s.last() != c {
        let t = s.drop_last();
        lemma_last_index_of(t, c);
        match last_index_of(t, c) {
            Some(i) => {
                assert forall|j: int| i < j < s.len() implies s[j] != c by {
                    if j < t.len() {
                        assert(s[j] == t[j]);
                    }
                }
            },
            None => {
                assert forall|j: int| 0 <= j < s.len() implies s[j] != c by {
                    if j < t.len() {
                        assert(s[j] == t[j]);
                    }
                }
            },
        }
    }
}

/// An occurrence of `c` with no other to its right is the one that
/// `last_index_of` finds.
pub proof fn lemma_last_index_of_unique(s: Seq<char>, c: char, i: int)
    requires
        0 <= i < s.len(),
        s[i] == c,
        forall|j: int| i < j < s.len() ==> s[j] != c,
    ensures
        last_index_of(s, c) == Some(i),
{
    lemma_last_index_of(s, c);
}

/// The extension of `path`: its text from the last dot on, the dot included.
/// A path without a dot has none.
pub open spec fn file_extension(path: Seq<char>) -> Option<Seq<char>> {
    match last_index_of(path, '.') {
        Some(i) => Some(path.skip(i)),
        None => None,
    }
}

/// `path` with `new_extension` in place of its extension. A path without a dot
/// has no extension to replace.
pub open spec fn with_extension(path: Seq<char>, new_extension: Seq<char>) -> Option<Seq<char>> {
    match last_index_of(path, '.') {
        Some(i) => Some(path.take(i) + new_extension),
        None => None,
    }
}

/// A path that ends in a dot and dot-free text has that ending as its
/// extension.
pub proof fn lemma_extension_of_suffix(stem: Seq<char>, ending: Seq<char>)
    requires
        !ending.contains('.'),
    ensures
        file_extension(stem + seq!['.'] + ending) == Some(seq!['.'] + ending),
        with_extension(stem + seq!['.'] + ending, seq!['.'] + ending) == Some(
            stem + seq!['.'] + ending,
        ),
{
    let path = stem + seq!['.'] + ending;
    let dot = stem.len() as int;
    assert(path[dot] == '.');
    assert forall|j: int| dot < j < path.len() implies path[j] != '.' by {
        assert(path[j] == ending[j - dot - 1]);
    }
    lemma_last_index_of_unique(path, '.', dot);
    assert(path.skip(dot) =~= seq!['.'] + ending);
    assert(path.take(dot) + (seq!['.'] + ending) =~= path);
}

/// Replacing the extension of a path by a dot and dot-free text gives a path
/// with that extension.
pub proof fn lemma_with_extension(path: Seq<char>, ending: Seq<char>)
    requires
        !ending.contains('.'),
        file_extension(path) is Some,
    ensures
        with_extension(path, seq!['.'] + ending) is Some,
        file_extension(with_extension(path, seq!['.'] + ending)->0) == Some(seq!['.'] + ending),
{
    lemma_last_index_of(path, '.');
    let dot = last_index_of(path, '.')->0;
    let stem = path.take(dot);
    lemma_extension_of_suffix(stem, ending);
    assert(stem + (seq!['.'] + ending) =~= stem + seq!['.'] + ending);
}

/// `s` between double quotes if it holds a space, else `s` itself.
pub open spec fn quoted(s: Seq<char>) -> Seq<char> {
    if s.contains(' ') {
        seq!['"'] + s + seq!['"']
    } else {
        s
    }
}

/// The position, counted in characters, of the last `to_find` in `s`.
pub fn last_index_of_char(s: &str, to_find: char) -> (r: Option<usize>)
    ensures
        match r {
            Some(i) => last_index_of(s@, to_find) == Some(i as int),
            None => last_index_of(s@, to_find) is None,
        },
{
    let chars = chars_of(s);
    let mut i: usize = chars.len();
    while i > 0
        invariant
            i <= chars.len(),
            chars@ == s@,
            forall|j: int| i <= j < chars.len() ==> chars@[j] != to_find,
        decreases i,
    {
        i -= 1;
        if chars[i] == to_find {
            proof {
                lemma_last_index_of_unique(s@, to_find, i as int);
            }
            return Some(i);
        }
    }
    proof {
        lemma_last_index_of(s@, to_find);
    }
    None
}

/// The extension of the file at `path`, with its dot.
pub fn find_file_extension(path: &str) -> (r: Result<String, &'static str>)
    ensures
        match file_extension(path@) {
            Some(extension) => r is Ok && r->Ok_0@ == extension,
            None => r is Err && r->Err_0@ == NO_EXTENSION_FOUND@,
        },
{
    match last_index_of_char(path, '.') {
        Some(idx) => {
            proof {
                lemma_last_index_of(path@, '.');
            }
            let len = path.unicode_len();
            let extension = path.substring_char(idx, len);
            Ok(extension.to_owned())
        },
        None => Err(NO_EXTENSION_FOUND),
    }
}

/// The path that differs from `path` in its extension alone, which is
/// `new_extension`.
pub fn change_file_extension(path: &str, new_extension: &str) -> (r: Result<String, &'static str>)
    ensures
        match with_extension(path@, new_extension@) {
            Some(new_path) => r is Ok && r->Ok_0@ == new_path,
            None => r is Err && r->Err_0@ == NO_EXTENSION_FOUND@,
        },
{
    match last_index_of_char(path, '.') {
        Some(idx) => {
            proof {
                lemma_last_index_of(path@, '.');
            }
            let stem = path.substring_char(0, idx);
            Ok(stem.to_owned().concat(new_extension))
        },
        None => Err(NO_EXTENSION_FOUND),
    }
}

/// Puts `s` between double quotes if it holds a space.
pub fn wrap_with_quotes_if_whitespace(s: &str) -> (r: String)
    ensures
        r@ == quoted(s@),
{
    let chars = chars_of(s);
    let mut has_space = false;
    let mut i: usize = 0;
    while i < chars.len()
        invariant
            i <= chars.len(),
            chars@ == s@,
            has_space == s@.take(i as int).contains(' '),
        decreases chars.len() - i,
    {
        if chars[i] == ' ' {
            has_space = true;
        }
        proof {
            let before = s@.take(i as int);
            let after = s@.take(i + 1);
            if before.contains(' ') {
                let k = choose|k: int| 0 <= k < before.len() && before[k] == ' ';
                assert(after[k] == ' ');
            }
            if chars@[i as int] == ' ' {
                assert(after[i as int] == ' ');
            }
            if after.contains(' ') && chars@[i as int] != ' ' {
                let k = choose|k: int| 0 <= k < after.len() && after[k] == ' ';
                assert(before[k] == ' ');
            }
        }
        i += 1;
    }
    proof {
        assert(s@.take(chars.len() as int) =~= s@);
        reveal_strlit("\"");
        assert("\""@ =~= seq!['"']);
    }
    if has_space {
        String::from_str("\"").concat(s).concat("\"")
    } else {
        s.to_owned()
    }
}

/// Quotes the input path and the output path, each if it holds a space.
pub fn add_quotes_if_whitespace_present(input: &str, output: &str) -> (r: (String, String))
    ensures
        r.0@ == quoted(input@),
        r.1@ == quoted(output@),
{
    let input = wrap_with_quotes_if_whitespace(input);
    let output = wrap_with_quotes_if_whitespace(output);
    (input, output)
}

} // verus!
