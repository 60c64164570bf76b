//! File names and extensions of `/`-separated paths, as `std::path::Path`
//! reads them on Unix.
use vstd::prelude::*;
use crate::text::chars_of;

verus! {

/// Position of the last `c` in `s`, or `-1`.
pub open spec fn last_index_of_char(s: Seq<char>, c: char) -> int
    decreases s.len(),
{
    if s.len() == 0 {
        -1
    } else if s.last() == c {
        s.len() - 1
    } else {
        last_index_of_char(s.drop_last(), c)
    }
}

/// The final component of a path that names a file or directory: its
/// last `/`-separated segment that is neither empty nor `"."` (both are
/// skipped), or `None` when there is none.
pub open spec fn last_component(p: Seq<char>) -> Option<Seq<char>>
    decreases p.len(),
{
    if p.len() == 0 {
        None
    } else {
        let k = last_index_of_char(p, '/') + 1;
        let seg = p.subrange(k, p.len() as int);
        if seg.len() == 0 || seg == seq!['.'] {
            if k <= 0 || k > p.len() {
                None
            } else {
                last_component(p.subrange(0, k - 1))
            }
        } else {
            Some(seg)
        }
    }
}

/// The file name of a path (`Path::file_name`): its final component,
/// unless that is `".."`.
pub open spec fn file_name_of(p: Seq<char>) -> Option<Seq<char>> {
    match last_component(p) {
        Some(f) => if f == seq!['.', '.'] {
            None
        } else {
            Some(f)
        },
        None => None,
    }
}

/// The extension of a path (`Path::extension`): the part of its file name
/// after the final `.`; `None` when there is no file name, no `.`, or the
/// only `.` opens the name.
pub open spec fn extension_of(p: Seq<char>) -> Option<Seq<char>> {
    match file_name_of(p) {
        Some(f) => {
            let d = last_index_of_char(f, '.');
            if d <= 0 {
                None
            } else {
                Some(f.subrange(d + 1, f.len() as int))
            }
        },
        None => None,
    }
}

/// The extension of `path`, or `default` when it has none.
pub open spec fn extension_or(path: Seq<char>, default: Seq<char>) -> Seq<char> {
    match extension_of(path) {
        Some(e) => e,
        None => default,
    }
}

pub proof fn lemma_last_index_bounds(s: Seq<char>, c: char)
    ensures
        -1 <= last_index_of_char(s, c) < s.len(),
        last_index_of_char(s, c) >= 0 ==> s[last_index_of_char(s, c)] == c,
        forall|j: int| last_index_of_char(s, c) < j < s.len() ==> s[j] != c,
    decreases s.len(),
{
    if s.len() > 0 && s.last() != c {
        lemma_last_index_bounds(s.drop_last(), c);
        assert forall|j: int| last_index_of_char(s, c) < j < s.len() implies s[j] != c by {
            if j < s.len() - 1 {
                assert(s.drop_last()[j] == s[j]);
            }
        }
    }
}

/// A text without `c` has its last `c` nowhere.
pub proof fn lemma_last_index_absent(s: Seq<char>, c: char)
    requires
        !s.contains(c),
    ensures
        last_index_of_char(s, c) == -1,
{
    lemma_last_index_bounds(s, c);
    if last_index_of_char(s, c) >= 0 {
        assert(s.contains(c));
    }
}

/// The final component of a path holds no `/`.
pub proof fn lemma_last_component_no_slash(p: Seq<char>)
    ensures
        last_component(p) matches Some(f) ==> !f.contains('/'),
    decreases p.len(),
{
    if p.len() > 0 {
        let k = last_index_of_char(p, '/') + 1;
        lemma_last_index_bounds(p, '/');
        let seg = p.subrange(k, p.len() as int);
        if seg.len() == 0 || seg == seq!['.'] {
            if 0 < k <= p.len() {
                lemma_last_component_no_slash(p.subrange(0, k - 1));
            }
        } else {
            assert forall|j: int| 0 <= j < seg.len() implies seg[j] != '/' by {
                assert(seg[j] == p[k + j]);
            }
        }
    }
}

/// An extension holds neither `.` nor `/`.
pub proof fn lemma_extension_chars(p: Seq<char>)
    ensures
        extension_of(p) matches Some(e) ==> !e.contains('.') && !e.contains('/'),
{
    lemma_last_component_no_slash(p);
    if let Some(f) = file_name_of(p) {
        let d = last_index_of_char(f, '.');
        lemma_last_index_bounds(f, '.');
        if d > 0 {
            let e = f.subrange(d + 1, f.len() as int);
            assert forall|j: int| 0 <= j < e.len() implies e[j] != '.' && e[j] != '/' by {
                assert(e[j] == f[d + 1 + j]);
            }
        }
    }
}

/// A name `u.e` whose parts hold no `/` and no `.`, with `u` not empty,
/// has extension `e`.
pub proof fn lemma_plain_name_extension(u: Seq<char>, e: Seq<char>)
    requires
        u.len() > 0,
        !u.contains('/'),
        !u.contains('.'),
        !e.contains('/'),
        !e.contains('.'),
    ensures
        extension_of(u + seq!['.'] + e) == Some(e),
{
    let p = u + seq!['.'] + e;
    let n = u.len() as int;
    assert(!p.contains('/')) by {
        if p.contains('/') {
            let j = choose|j: int| 0 <= j < p.len() && p[j] == '/';
            if j < n {
                assert(u[j] == '/');
            } else if j > n {
                assert(e[j - n - 1] == '/');
            }
        }
    }
    lemma_last_index_absent(p, '/');
    assert(p.subrange(0, p.len() as int) =~= p);
    assert(p != seq!['.']);
    assert(last_component(p) == Some(p));
    assert(p != seq!['.', '.']) by {
        if p == seq!['.', '.'] {
            assert(p[0] == u[0]);
        }
    }
    lemma_last_index_bounds(p, '.');
    let d = last_index_of_char(p, '.');
    assert(p[n] == '.');
    assert(d == n) by {
        if d < n {
            assert(p[n] != '.');
        } else if d > n {
            assert(p[d] == e[d - n - 1]);
        }
    }
    assert(p.subrange(d + 1, p.len() as int) =~= e);
}

/// Position of the last `c` in `v[from..to]`, counted from `from`, or `-1`.
fn last_index_in(v: &Vec<char>, from: usize, to: usize, c: char) -> (r: Option<usize>)
    requires
        from <= to <= v@.len(),
    ensures
        match r {
            Some(d) => d as int == last_index_of_char(v@.subrange(from as int, to as int), c),
            None => last_index_of_char(v@.subrange(from as int, to as int), c) == -1,
        },
{
    let mut i = to;
    while i > from
        invariant
            from <= i <= to <= v@.len(),
            last_index_of_char(v@.subrange(from as int, to as int), c) == last_index_of_char(
                v@.subrange(from as int, i as int),
                c,
            ),
        decreases i,
    {
        let ghost s = v@.subrange(from as int, i as int);
        assert(s.last() == v@[i - 1]);
        if v[i - 1] == c {
            return Some(i - 1 - from);
        }
        assert(s.drop_last() =~= v@.subrange(from as int, i - 1));
        i = i - 1;
    }
    assert(v@.subrange(from as int, i as int).len() == 0);
    None
}

/// Start and end of the final component of `v` (see `last_component`).
fn last_component_range(v: &Vec<char>) -> (r: Option<(usize, usize)>)
    ensures
        match r {
            Some((k, j)) => k <= j <= v@.len() && last_component(v@) == Some(
                v@.subrange(k as int, j as int),
            ),
            None => last_component(v@) is None,
        },
{
    let mut j = v.len();
    assert(v@.subrange(0, j as int) =~= v@);
    loop
        invariant
            j <= v@.len(),
            last_component(v@) == last_component(v@.subrange(0, j as int)),
        decreases j,
    {
        let ghost p = v@.subrange(0, j as int);
        if j == 0 {
            return None;
        }
        let slash = last_index_in(v, 0, j, '/');
        proof {
            lemma_last_index_bounds(p, '/');
        }
        let k = match slash {
            Some(d) => d + 1,
            None => 0,
        };
        assert(p.subrange(k as int, p.len() as int) =~= v@.subrange(k as int, j as int));
        if k == j || (j - k == 1 && v[k] == '.') {
            proof {
                if j - k == 1 {
                    assert(v@.subrange(k as int, j as int) =~= seq!['.']);
                }
            }
            if k == 0 {
                return None;
            }
            assert(p.subrange(0, k - 1) =~= v@.subrange(0, k - 1));
            j = k - 1;
        } else {
            proof {
                if v@.subrange(k as int, j as int) == seq!['.'] {
                    assert(v@.subrange(k as int, j as int)[0] == v@[k as int]);
                }
            }
            return Some((k, j));
        }
    }
}

/// The extension of `path` as `Path::extension` reads it (see
/// `extension_of`).
pub fn path_extension(path: &str) -> (r: Option<String>)
    ensures
        match r {
            Some(e) => extension_of(path@) == Some(e@),
            None => extension_of(path@) is None,
        },
{
    let v = chars_of(path);
    match last_component_range(&v) {
        None => None,
        Some((k, j)) => {
            let ghost f = v@.subrange(k as int, j as int);
            if j - k == 2 && v[k] == '.' && v[k + 1] == '.' {
                assert(f =~= seq!['.', '.']);
                return None;
            }
            proof {
                if f == seq!['.', '.'] {
                    assert(f[0] == v@[k as int] && f[1] == v@[k + 1]);
                }
            }
            let dot = last_index_in(&v, k, j, '.');
            proof {
                lemma_last_index_bounds(f, '.');
            }
            let d = match dot {
                Some(d) => d,
                None => 0,
            };
            if d == 0 {
                None
            } else {
                let start = k + d + 1;
                proof {
                    lemma_last_index_bounds(f, '.');
                }
                let e = crate::text::string_of_range(&v, start, j);
                assert(f.subrange(d + 1, f.len() as int) =~= v@.subrange(start as int, j as int));
                Some(e)
            }
        },
    }
}

} // verus!
