//! Path handling over plain strings.
//!
//! The library keeps every filesystem location as a string and gives the
//! few path operations the logic needs exact specifications: joining with a
//! separator, and reading a file name, its stem and its extension.

use vstd::prelude::*;

verus! {

/// Index of the last occurrence of `c` in `s`, or `-1` when `c` does not
/// occur.
pub open spec fn spec_last_index_of(s: Seq<char>, c: char) -> int
    decreases s.len(),
{
    if s.len() == 0 {
        -1
    } else if s[s.len() - 1] == c {
        s.len() - 1
    } else {
        spec_last_index_of(s.take(s.len() - 1), c)
    }
}

/// The last occurrence really is one, and nothing follows it.
pub proof fn lemma_last_index_of(s: Seq<char>, c: char)
    ensures
        spec_last_index_of(s, c) >= 0 ==> {
            &&& spec_last_index_of(s, c) < s.len()
            &&& s[spec_last_index_of(s, c)] == c
            &&& forall|j: int| spec_last_index_of(s, c) < j < s.len() ==> s[j] != c
        },
        spec_last_index_of(s, c) == -1 ==> forall|j: int| 0 <= j < s.len() ==> s[j] != c,
    decreases s.len(),
{
    if s.len() > 0 && s[s.len() - 1] != c {
        let t = s.take(s.len() - 1);
        lemma_last_index_of(t, c);
        assert(forall|j: int| 0 <= j < t.len() ==> t[j] == s[j]);
    }
}

/// Index of the last occurrence of `c` in `s`, if any.
pub fn last_index_of(s: &str, c: char) -> (r: Option<usize>)
    ensures
        match r {
            Some(i) => i == spec_last_index_of(s@, c),
            None => spec_last_index_of(s@, c) == -1,
        },
{
    let len = s.unicode_len();
    proof {
        assert(s@.take(len as int) =~= s@);
    }
    let mut j: usize = len;
    while j > 0
        invariant
            len == s@.len(),
            j <= len,
            spec_last_index_of(s@, c) == spec_last_index_of(s@.take(j as int), c),
        decreases j,
    {
        let cj = s.get_char(j - 1);
        proof {
            assert(s@.take(j as int).len() == j);
            assert(s@.take(j as int)[j - 1] == s@[j - 1]);
        }
        if cj == c {
            return Some(j - 1);
        }
        proof {
            assert(s@.take(j as int).take(j - 1) =~= s@.take(j - 1));
        }
        j -= 1;
    }
    proof {
        assert(s@.take(0) =~= Seq::<char>::empty());
    }
    None
}

/// Joining two path strings: an absolute right side stands alone; otherwise
/// the sides are glued with exactly one separator between them.
pub open spec fn spec_path_join(a: Seq<char>, b: Seq<char>) -> Seq<char> {
    if b.len() > 0 && b[0] == '/' {
        b
    } else if a.len() == 0 {
        b
    } else if a[a.len() - 1] == '/' {
        a + b
    } else {
        a + "/"@ + b
    }
}

/// Joins two path strings.
pub fn path_join(a: &str, b: &str) -> (r: String)
    ensures
        r@ == spec_path_join(a@, b@),
{
    let lb = b.unicode_len();
    if lb > 0 && b.get_char(0) == '/' {
        return b.to_owned();
    }
    let la = a.unicode_len();
    if la == 0 {
        return b.to_owned();
    }
    let mut r = a.to_owned();
    if a.get_char(la - 1) != '/' {
        r.append("/");
    }
    r.append(b);
    r
}

/// The part of a path after its last separator.
pub open spec fn spec_file_name(s: Seq<char>) -> Seq<char> {
    s.subrange(spec_last_index_of(s, '/') + 1, s.len() as int)
}

/// The part of a path after its last separator.
pub fn file_name(s: &str) -> (r: String)
    ensures
        r@ == spec_file_name(s@),
{
    proof {
        lemma_last_index_of(s@, '/');
    }
    let len = s.unicode_len();
    match last_index_of(s, '/') {
        Some(i) => s.substring_char(i + 1, len).to_owned(),
        None => {
            proof {
                assert(s@.subrange(0, s@.len() as int) =~= s@);
            }
            s.to_owned()
        },
    }
}

/// The extension of a path: what follows the last dot of its file name,
/// unless that dot is the file name's first character or there is none.
pub open spec fn spec_extension(s: Seq<char>) -> Option<Seq<char>> {
    let name = spec_file_name(s);
    let d = spec_last_index_of(name, '.');
    if d <= 0 {
        None
    } else {
        Some(name.subrange(d + 1, name.len() as int))
    }
}

/// The stem of a path's file name: the file name up to its extension.
pub open spec fn spec_file_stem(s: Seq<char>) -> Seq<char> {
    let name = spec_file_name(s);
    let d = spec_last_index_of(name, '.');
    if d <= 0 {
        name
    } else {
        name.subrange(0, d)
    }
}

/// The extension of a path, if its file name has one.
pub fn extension(s: &str) -> (r: Option<String>)
    ensures
        match r {
            Some(e) => spec_extension(s@) == Some(e@),
            None => spec_extension(s@) is None,
        },
{
    let name = file_name(s);
    let name_str = name.as_str();
    let len = name_str.unicode_len();
    proof {
        lemma_last_index_of(name_str@, '.');
    }
    match last_index_of(name_str, '.') {
        Some(d) => {
            if d > 0 {
                Some(name_str.substring_char(d + 1, len).to_owned())
            } else {
                None
            }
        },
        None => None,
    }
}

/// Whether the path's extension is exactly `ext`.
pub fn has_extension(s: &str, ext: &str) -> (r: bool)
    ensures
        r == (spec_extension(s@) == Some(ext@)),
{
    match extension(s) {
        Some(e) => crate::strutil::str_eq(e.as_str(), ext),
        None => false,
    }
}

/// The name a package is known by: the stem of its file name. It names the
/// per-package directory under the results root.
pub fn get_package_name(path: &str) -> (r: String)
    ensures
        r@ == spec_file_stem(path@),
{
    let name = file_name(path);
    let name_str = name.as_str();
    proof {
        lemma_last_index_of(name_str@, '.');
    }
    let d_opt = last_index_of(name_str, '.');
    match d_opt {
        Some(d) => {
            if d > 0 {
                name_str.substring_char(0, d).to_owned()
            } else {
                name_str.to_owned()
            }
        },
        None => name_str.to_owned(),
    }
}

} // verus!
