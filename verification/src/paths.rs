//! The parts of a path that the library reads: its parent, its file name, the
//! file name's extension and stem, and the joining of a directory and a name.
//!
//! Parent, file name and joining are those of `std::path::Path`; how std
//! splits a path into components is not restated here, so their results are
//! named. Extension and stem are computed here from the file name, as std
//! documents them.
use vstd::prelude::*;

verus! {

/// What `Path::parent` returns for the path with this text.
pub uninterp spec fn path_parent_of(path: Seq<char>) -> Option<Seq<char>>;

/// What `Path::file_name` returns for the path with this text.
pub uninterp spec fn path_file_name_of(path: Seq<char>) -> Option<Seq<char>>;

/// What `Path::join` returns for a base path and a path to append.
pub uninterp spec fn path_join_of(base: Seq<char>, tail: Seq<char>) -> Seq<char>;

/// The view of an optional string.
pub open spec fn opt_view(o: Option<String>) -> Option<Seq<char>> {
    match o {
        Some(s) => Some(s@),
        None => None,
    }
}

/// `Path::parent` of the path `path`. The claim is only that the result is a
/// function of the path's text, named `path_parent_of`.
#[verifier::external_body]
fn std_path_parent(path: &str) -> (r: Option<String>)
    ensures
        opt_view(r) == path_parent_of(path@),
{
    match std::path::Path::new(path).parent() {
        Some(p) => Some(p.to_string_lossy().into_owned()),
        None => None,
    }
}

/// `Path::file_name` of the path `path`. The claim is only that the result is
/// a function of the path's text, named `path_file_name_of`.
#[verifier::external_body]
fn std_path_file_name(path: &str) -> (r: Option<String>)
    ensures
        opt_view(r) == path_file_name_of(path@),
{
    match std::path::Path::new(path).file_name() {
        Some(p) => Some(p.to_string_lossy().into_owned()),
        None => None,
    }
}

/// `Path::join` of `base` and `tail`. The claim is only that the result is a
/// function of the two texts, named `path_join_of`.
#[verifier::external_body]
fn std_path_join(base: &str, tail: &str) -> (r: String)
    ensures
        r@ == path_join_of(base@, tail@),
{
    std::path::Path::new(base).join(tail).to_string_lossy().into_owned()
}

/// Index of the last `c` in `s`, or -1 when `c` does not occur.
pub open spec fn last_index_of(s: Seq<char>, c: char) -> int
    decreases s.len(),
{
    if s.len() == 0 {
        -1
    } else if s.last() == c {
        s.len() - 1
    } else {
        last_index_of(s.drop_last(), c)
    }
}

/// The extension of a file name, as `Path::extension` documents it: none
/// without an embedded `.`, none when the name starts with `.` and has no
/// other `.`, and otherwise what follows the final `.`.
pub open spec fn extension_of_name(name: Seq<char>) -> Option<Seq<char>> {
    let i = last_index_of(name, '.');
    if i <= 0 {
        None
    } else {
        Some(name.subrange(i + 1, name.len() as int))
    }
}

/// The stem of a file name, as `Path::file_stem` documents it: the whole name
/// without an embedded `.` or when the name starts with `.` and has no other
/// `.`, and otherwise what precedes the final `.`.
pub open spec fn stem_of_name(name: Seq<char>) -> Seq<char> {
    let i = last_index_of(name, '.');
    if i <= 0 {
        name
    } else {
        name.subrange(0, i)
    }
}

/// The extension of an optional file name: none without a file name.
pub open spec fn opt_extension_of_name(name: Option<Seq<char>>) -> Option<Seq<char>> {
    match name {
        Some(n) => extension_of_name(n),
        None => None,
    }
}

/// The stem of an optional file name: none without a file name.
pub open spec fn opt_stem_of_name(name: Option<Seq<char>>) -> Option<Seq<char>> {
    match name {
        Some(n) => Some(stem_of_name(n)),
        None => None,
    }
}

/// The extension of the path with this text.
pub open spec fn path_extension_of(path: Seq<char>) -> Option<Seq<char>> {
    opt_extension_of_name(path_file_name_of(path))
}

/// The file stem of the path with this text.
pub open spec fn path_file_stem_of(path: Seq<char>) -> Option<Seq<char>> {
    opt_stem_of_name(path_file_name_of(path))
}

pub proof fn lemma_last_index_bounds(s: Seq<char>, c: char)
    ensures
        -1 <= last_index_of(s, c) < s.len(),
        last_index_of(s, c) >= 0 ==> s[last_index_of(s, c)] == c,
        forall|j: int| last_index_of(s, c) < j < s.len() ==> s[j] != c,
    decreases s.len(),
{
    if s.len() > 0 && s.last() != c {
        lemma_last_index_bounds(s.drop_last(), c);
        assert forall|j: int| last_index_of(s, c) < j < s.len() implies s[j] != c by {
            if j < s.len() - 1 {
                assert(s.drop_last()[j] == s[j]);
            }
        }
    }
}

/// Position of the last `.` of `name`, if any.
fn last_dot(name: &str) -> (r: Option<usize>)
    ensures
        match r {
            Some(i) => i as int == last_index_of(name@, '.'),
            None => last_index_of(name@, '.') == -1,
        },
{
    let n = name.unicode_len();
    let mut k: usize = n;
    assert(name@.subrange(0, n as int) =~= name@);
    while k > 0
        invariant
            n == name@.len(),
            k <= n,
            last_index_of(name@, '.') == last_index_of(name@.subrange(0, k as int), '.'),
        decreases k,
    {
        let ghost pre = name@.subrange(0, k as int);
        assert(pre.drop_last() =~= name@.subrange(0, k - 1));
        if name.get_char(k - 1) == '.' {
            return Some(k - 1);
        }
        k = k - 1;
    }
    None
}

/// The extension of the file name `name`.
pub fn extension_from_file_name(name: &str) -> (r: Option<String>)
    ensures
        opt_view(r) == extension_of_name(name@),
{
    proof {
        lemma_last_index_bounds(name@, '.');
    }
    match last_dot(name) {
        Some(i) => {
            if i == 0 {
                None
            } else {
                let n = name.unicode_len();
                Some(String::from_str(name.substring_char(i + 1, n)))
            }
        },
        None => None,
    }
}

/// The stem of the file name `name`.
pub fn stem_from_file_name(name: &str) -> (r: String)
    ensures
        r@ == stem_of_name(name@),
{
    proof {
        lemma_last_index_bounds(name@, '.');
    }
    match last_dot(name) {
        Some(i) => {
            if i == 0 {
                String::from_str(name)
            } else {
                String::from_str(name.substring_char(0, i))
            }
        },
        None => String::from_str(name),
    }
}

/// The parent directory of `path`, as `Path::parent` gives it.
pub fn parent(path: &str) -> (r: Option<String>)
    ensures
        opt_view(r) == path_parent_of(path@),
{
    std_path_parent(path)
}

/// The file name of `path`, as `Path::file_name` gives it.
pub fn file_name(path: &str) -> (r: Option<String>)
    ensures
        opt_view(r) == path_file_name_of(path@),
{
    std_path_file_name(path)
}

/// The extension of an optional file name.
pub fn extension_of_file_name(name: &Option<String>) -> (r: Option<String>)
    ensures
        opt_view(r) == opt_extension_of_name(opt_view(*name)),
{
    match name {
        Some(n) => extension_from_file_name(n.as_str()),
        None => None,
    }
}

/// The stem of an optional file name.
pub fn stem_of_file_name(name: &Option<String>) -> (r: Option<String>)
    ensures
        opt_view(r) == opt_stem_of_name(opt_view(*name)),
{
    match name {
        Some(n) => Some(stem_from_file_name(n.as_str())),
        None => None,
    }
}

/// The extension of `path`: that of its file name.
pub fn extension(path: &str) -> (r: Option<String>)
    ensures
        opt_view(r) == path_extension_of(path@),
{
    extension_of_file_name(&std_path_file_name(path))
}

/// The file stem of `path`: that of its file name.
pub fn file_stem(path: &str) -> (r: Option<String>)
    ensures
        opt_view(r) == path_file_stem_of(path@),
{
    stem_of_file_name(&std_path_file_name(path))
}

/// `base` joined with `tail`, as `Path::join` gives it.
pub fn join(base: &str, tail: &str) -> (r: String)
    ensures
        r@ == path_join_of(base@, tail@),
{
    std_path_join(base, tail)
}

} // verus!
