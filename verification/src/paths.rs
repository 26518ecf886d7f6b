//! Path and file-name arithmetic over character sequences.
//!
//! A path is modelled as its sequence of characters. The file name is the
//! suffix after the last `/`. A file name splits into a stem and an
//! extension at its last `.`, provided that dot is not the leading
//! character (a name such as `.config` has no extension); a name without
//! such a dot has the empty extension.

use vstd::prelude::*;

verus! {

/// Index of the last occurrence of `c` in `s`, if any.
pub open spec fn find_last(s: Seq<char>, c: char) -> Option<int>
    decreases s.len(),
{
    if s.len() == 0 {
        None
    } else if s[s.len() - 1] == c {
        Some(s.len() - 1)
    } else {
        find_last(s.drop_last(), c)
    }
}

/// `find_last` returns the greatest index holding `c`, or `None` when `c`
/// does not occur.
pub proof fn lemma_find_last(s: Seq<char>, c: char)
    ensures
        match find_last(s, c) {
            Some(k) => 0 <= k < s.len() && s[k] == c && (forall|j: int|
                k < j < s.len() ==> s[j] != c),
            None => forall|j: int| 0 <= j < s.len() ==> s[j] != c,
        },
    decreases s.len(),
{
    if s.len() > 0 && s[s.len() - 1] != c {
        lemma_find_last(s.drop_last(), c);
        assert forall|j: int| 0 <= j < s.len() - 1 implies s.drop_last()[j] == s[j] by {}
    }
}

/// `find_last` over a concatenation: a hit in the right part wins; absent
/// one, the left part decides.
pub proof fn lemma_find_last_concat(a: Seq<char>, b: Seq<char>, c: char)
    ensures
        find_last(a + b, c) == (match find_last(b, c) {
            Some(k) => Some(a.len() + k),
            None => find_last(a, c),
        }),
    decreases b.len(),
{
    if b.len() == 0 {
        assert(a + b =~= a);
    } else if b[b.len() - 1] == c {
        assert((a + b)[(a + b).len() - 1] == c);
    } else {
        assert((a + b).drop_last() =~= a + b.drop_last());
        lemma_find_last_concat(a, b.drop_last(), c);
    }
}

fn find_last_char(s: &str, c: char) -> (r: Option<usize>)
    ensures
        match r {
            Some(k) => find_last(s@, c) == Some(k as int) && (k as int) < s@.len(),
            None => find_last(s@, c) is None,
        },
{
    let n = s.unicode_len();
    let mut i = n;
    while i > 0
        invariant
            i <= n,
            n == s@.len(),
            forall|j: int| i <= j < n ==> s@[j] != c,
        decreases i,
    {
        i = i - 1;
        if s.get_char(i) == c {
            proof {
                lemma_find_last(s@, c);
            }
            return Some(i);
        }
    }
    proof {
        lemma_find_last(s@, c);
    }
    None
}

/// The file name of a path: everything after the last `/`, or the whole
/// path when it holds no `/`.
pub open spec fn file_name_spec(p: Seq<char>) -> Seq<char> {
    match find_last(p, '/') {
        Some(k) => p.subrange(k + 1, p.len() as int),
        None => p,
    }
}

/// Index of the dot splitting a file name into stem and extension: the last
/// `.`, unless it is the name's first character.
pub open spec fn split_dot(name: Seq<char>) -> Option<int> {
    match find_last(name, '.') {
        Some(k) => if k > 0 {
            Some(k)
        } else {
            None
        },
        None => None,
    }
}

/// The stem of a file name: what precedes the splitting dot, or the whole
/// name when there is none.
pub open spec fn stem_spec(name: Seq<char>) -> Seq<char> {
    match split_dot(name) {
        Some(k) => name.subrange(0, k),
        None => name,
    }
}

/// The extension of a file name: what follows the splitting dot, empty when
/// there is none.
pub open spec fn ext_spec(name: Seq<char>) -> Seq<char> {
    match split_dot(name) {
        Some(k) => name.subrange(k + 1, name.len() as int),
        None => Seq::empty(),
    }
}

/// The extension of a path's file name.
pub open spec fn path_ext(p: Seq<char>) -> Seq<char> {
    ext_spec(file_name_spec(p))
}

/// The stem of a path's file name.
pub open spec fn path_stem(p: Seq<char>) -> Seq<char> {
    stem_spec(file_name_spec(p))
}

/// The file name of `path`.
pub fn file_name_of(path: &str) -> (r: String)
    ensures
        r@ == file_name_spec(path@),
{
    let n = path.unicode_len();
    match find_last_char(path, '/') {
        Some(k) => path.substring_char(k + 1, n).to_owned(),
        None => path.to_owned(),
    }
}

fn split_dot_of(name: &str) -> (r: Option<usize>)
    ensures
        match r {
            Some(k) => split_dot(name@) == Some(k as int) && 0 < (k as int) < name@.len(),
            None => split_dot(name@) is None,
        },
{
    match find_last_char(name, '.') {
        Some(k) => if k > 0 {
            Some(k)
        } else {
            None
        },
        None => None,
    }
}

/// The stem of `path`'s file name.
pub fn stem_of(path: &str) -> (r: String)
    ensures
        r@ == path_stem(path@),
{
    let name = file_name_of(path);
    match split_dot_of(name.as_str()) {
        Some(k) => name.as_str().substring_char(0, k).to_owned(),
        None => name,
    }
}

/// The extension of `path`'s file name.
pub fn extension_of(path: &str) -> (r: String)
    ensures
        r@ == path_ext(path@),
{
    let name = file_name_of(path);
    let n = name.as_str().unicode_len();
    match split_dot_of(name.as_str()) {
        Some(k) => name.as_str().substring_char(k + 1, n).to_owned(),
        None => {
            let r = String::new();
            proof {
                assert(r@ =~= ext_spec(name@));
            }
            r
        },
    }
}

/// Joining a directory and a file name: a `/` is placed between them unless
/// the directory already ends with one.
pub open spec fn join_spec(dir: Seq<char>, name: Seq<char>) -> Seq<char> {
    if dir.len() > 0 && dir[dir.len() - 1] == '/' {
        dir + name
    } else {
        dir + "/"@ + name
    }
}

/// A file name holds no separator.
pub proof fn lemma_file_name_no_sep(p: Seq<char>)
    ensures
        forall|j: int| 0 <= j < file_name_spec(p).len() ==> file_name_spec(p)[j] != '/',
{
    lemma_find_last(p, '/');
}

/// A stem holds no separator: it is a prefix of the file name.
pub proof fn lemma_stem_no_sep(p: Seq<char>)
    ensures
        forall|j: int| 0 <= j < path_stem(p).len() ==> path_stem(p)[j] != '/',
{
    lemma_file_name_no_sep(p);
    let name = file_name_spec(p);
    lemma_find_last(name, '.');
    match split_dot(name) {
        Some(k) => {
            assert(0 <= k < name.len());
            assert(forall|j: int|
                0 <= j < path_stem(p).len() ==> path_stem(p)[j] == name[j]);
        },
        None => {},
    }
}

/// A name with an extension has a nonempty stem.
pub proof fn lemma_stem_nonempty(p: Seq<char>)
    ensures
        path_ext(p).len() > 0 ==> path_stem(p).len() > 0,
{
    let name = file_name_spec(p);
    lemma_find_last(name, '.');
}

/// Splitting an assembled name `stem.ext` recovers the parts, provided the
/// extension is nonempty and dotless and the stem is nonempty.
pub proof fn lemma_split_of_dotted_name(stem: Seq<char>, ext: Seq<char>)
    requires
        stem.len() > 0,
        ext.len() > 0,
        forall|j: int| 0 <= j < ext.len() ==> ext[j] != '.',
    ensures
        ext_spec(stem + "."@ + ext) == ext,
        stem_spec(stem + "."@ + ext) == stem,
{
    let name = stem + "."@ + ext;
    reveal_strlit(".");
    lemma_find_last(ext, '.');
    assert(find_last(ext, '.') is None);
    lemma_find_last_concat(stem + "."@, ext, '.');
    assert((stem + "."@)[(stem + "."@).len() - 1] == '.');
    assert(find_last(stem + "."@, '.') == Some((stem + "."@).len() - 1));
    assert(find_last(name, '.') == Some(stem.len() as int));
    assert(split_dot(name) == Some(stem.len() as int));
    assert(ext_spec(name) =~= ext);
    assert(stem_spec(name) =~= stem);
}

/// The file name of a joined path is the joined name, provided the name
/// holds no separator.
pub proof fn lemma_file_name_of_join(dir: Seq<char>, name: Seq<char>)
    requires
        forall|j: int| 0 <= j < name.len() ==> name[j] != '/',
    ensures
        file_name_spec(join_spec(dir, name)) == name,
{
    reveal_strlit("/");
    lemma_find_last(name, '/');
    assert(find_last(name, '/') is None);
    if dir.len() > 0 && dir[dir.len() - 1] == '/' {
        let joined = dir + name;
        lemma_find_last_concat(dir, name, '/');
        assert(find_last(dir, '/') == Some(dir.len() - 1));
        assert(find_last(joined, '/') == Some(dir.len() - 1));
        assert(file_name_spec(joined) =~= name);
    } else {
        let left = dir + "/"@;
        let joined = left + name;
        lemma_find_last_concat(left, name, '/');
        assert(left[left.len() - 1] == '/');
        assert(find_last(left, '/') == Some(left.len() - 1));
        assert(find_last(joined, '/') == Some(dir.len() as int));
        assert(join_spec(dir, name) == joined);
        assert(file_name_spec(joined) =~= name);
    }
}

/// Joins a directory path and a file name.
pub fn join_path(dir: &str, name: &str) -> (r: String)
    ensures
        r@ == join_spec(dir@, name@),
{
    let n = dir.unicode_len();
    let mut out = dir.to_owned();
    if n == 0 || dir.get_char(n - 1) != '/' {
        out.append("/");
    }
    out.append(name);
    out
}

} // verus!
