//! Paths as text: the last component, its stem and extension, the parent, and
//! joining a directory with a name, with `/` as the separator.
use crate::text::push_char;
use vstd::prelude::*;

verus! {

/// The position of the last `c` in `s`, or -1 when `s` holds none.
pub open spec fn rfind(s: Seq<char>, c: char) -> int
    decreases s.len(),
{
    if s.len() == 0 {
        -1
    } else if s.last() == c {
        s.len() - 1
    } else {
        rfind(s.drop_last(), c)
    }
}

/// The last component of `p`: what follows its last `/`.
pub open spec fn file_name(p: Seq<char>) -> Seq<char> {
    p.subrange(rfind(p, '/') + 1, p.len() as int)
}

/// The name without its extension, as `Path::file_stem` cuts it: a name with
/// no dot, or whose only dot leads, is its own stem.
pub open spec fn stem(name: Seq<char>) -> Seq<char> {
    if rfind(name, '.') <= 0 {
        name
    } else {
        name.subrange(0, rfind(name, '.'))
    }
}

/// The text after the last dot of a name, as `Path::extension` gives it.
pub open spec fn extension(name: Seq<char>) -> Option<Seq<char>> {
    if rfind(name, '.') <= 0 {
        None
    } else {
        Some(name.subrange(rfind(name, '.') + 1, name.len() as int))
    }
}

/// The directory that holds `p`, for a path with a `/` in it.
pub open spec fn parent(p: Seq<char>) -> Seq<char> {
    if rfind(p, '/') == 0 {
        seq!['/']
    } else {
        p.subrange(0, rfind(p, '/'))
    }
}

/// `name` inside directory `dir`.
pub open spec fn join(dir: Seq<char>, name: Seq<char>) -> Seq<char> {
    dir + seq!['/'] + name
}

pub proof fn lemma_rfind_bounds(s: Seq<char>, c: char)
    ensures
        -1 <= rfind(s, c) < s.len(),
        rfind(s, c) >= 0 ==> s[rfind(s, c)] == c,
        forall|k: int| rfind(s, c) < k < s.len() ==> s[k] != c,
    decreases s.len(),
{
    if s.len() > 0 && s.last() != c {
        lemma_rfind_bounds(s.drop_last(), c);
        assert forall|k: int| rfind(s, c) < k < s.len() implies s[k] != c by {
            if k < s.len() - 1 {
                assert(s.drop_last()[k] == s[k]);
            }
        }
    }
}

/// The position of the last `c` in `s`, if any.
pub fn last_index_of(s: &str, c: char) -> (r: Option<usize>)
    ensures
        match r {
            Some(i) => i == rfind(s@, c),
            None => rfind(s@, c) == -1,
        },
{
    let n = s.unicode_len();
    let mut j: usize = n;
    assert(s@.subrange(0, n as int) =~= s@);
    while j > 0
        invariant
            j <= n == s@.len(),
            rfind(s@, c) == rfind(s@.subrange(0, j as int), c),
        decreases j,
    {
        if s.get_char(j - 1) == c {
            return Some(j - 1);
        }
        assert(s@.subrange(0, j as int).drop_last() =~= s@.subrange(0, j - 1));
        j = j - 1;
    }
    None
}

/// The last component of `p`.
pub fn file_name_of(p: &str) -> (r: &str)
    ensures
        r@ == file_name(p@),
{
    proof {
        lemma_rfind_bounds(p@, '/');
    }
    let n = p.unicode_len();
    match last_index_of(p, '/') {
        Some(i) => p.substring_char(i + 1, n),
        None => p.substring_char(0, n),
    }
}

/// The stem of the last component of `p`: the job prefix of an input file.
pub fn stem_of(p: &str) -> (r: String)
    ensures
        r@ == stem(file_name(p@)),
{
    let name = file_name_of(p);
    proof {
        lemma_rfind_bounds(name@, '.');
    }
    match last_index_of(name, '.') {
        Some(i) => {
            if i == 0 {
                String::from_str(name)
            } else {
                String::from_str(name.substring_char(0, i))
            }
        },
        None => {
            assert(name@.subrange(0, name@.len() as int) =~= name@);
            String::from_str(name)
        },
    }
}

/// The extension of a file name.
pub fn extension_of(name: &str) -> (r: Option<&str>)
    ensures
        match r {
            Some(e) => extension(name@) == Some(e@),
            None => extension(name@) is None,
        },
{
    proof {
        lemma_rfind_bounds(name@, '.');
    }
    let n = name.unicode_len();
    match last_index_of(name, '.') {
        Some(i) => {
            if i == 0 {
                None
            } else {
                Some(name.substring_char(i + 1, n))
            }
        },
        None => None,
    }
}

/// The directory that holds `p`, for a path that has one.
pub fn parent_of(p: &str) -> (r: Option<String>)
    ensures
        match r {
            Some(d) => rfind(p@, '/') >= 0 && d@ == parent(p@),
            None => rfind(p@, '/') == -1,
        },
{
    proof {
        lemma_rfind_bounds(p@, '/');
    }
    match last_index_of(p, '/') {
        Some(i) => {
            if i == 0 {
                let mut d = String::new();
                push_char(&mut d, '/');
                assert(d@ =~= seq!['/']);
                Some(d)
            } else {
                Some(String::from_str(p.substring_char(0, i)))
            }
        },
        None => None,
    }
}

/// `name` inside directory `dir`.
pub fn joined(dir: &str, name: &str) -> (r: String)
    ensures
        r@ == join(dir@, name@),
{
    let mut r = String::from_str(dir);
    push_char(&mut r, '/');
    r.append(name);
    r
}

} // verus!
