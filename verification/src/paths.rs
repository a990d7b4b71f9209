//! Unix path text: joining the way `Path::join` joins, and the file name
//! and extension the way `Path::file_name` and `Path::extension` read them.

use vstd::prelude::*;
use crate::text::{chars_of, extend_chars, lower_char_exec, string_of, to_lower};

verus! {

/// `base` joined with `rel`: an absolute `rel` replaces `base`; otherwise a
/// `/` separates them unless `base` is empty or already ends with one.
pub open spec fn path_join(base: Seq<char>, rel: Seq<char>) -> Seq<char> {
    if rel.len() > 0 && rel[0] == '/' {
        rel
    } else if base.len() == 0 || base.last() == '/' {
        base + rel
    } else {
        base + seq!['/'] + rel
    }
}

/// `base` joined with `rel`.
pub fn join_path(base: &str, rel: &str) -> (out: String)
    ensures
        out@ == path_join(base@, rel@),
{
    let b = chars_of(base);
    let r = chars_of(rel);
    if r.len() > 0 && r[0] == '/' {
        return string_of(&r);
    }
    let mut out: Vec<char> = Vec::new();
    extend_chars(&mut out, &b);
    assert(out@ =~= b@);
    if !(b.len() == 0 || b[b.len() - 1] == '/') {
        out.push('/');
    }
    extend_chars(&mut out, &r);
    string_of(&out)
}

/// The index of the last `c` in `s`, or -1.
pub open spec fn last_index(s: Seq<char>, c: char) -> int
    decreases s.len(),
{
    if s.len() == 0 {
        -1
    } else if s.last() == c {
        s.len() - 1
    } else {
        last_index(s.drop_last(), c)
    }
}

/// `p` without trailing separators and trailing `/.` components.
pub open spec fn trim_tail(p: Seq<char>) -> Seq<char>
    decreases p.len(),
{
    if p.len() > 0 && p.last() == '/' {
        trim_tail(p.drop_last())
    } else if p.len() >= 2 && p.last() == '.' && p[p.len() - 2] == '/' {
        trim_tail(p.take(p.len() - 2))
    } else {
        p
    }
}

/// The final component of `p` when it is a normal name: not the root, not
/// `.`, not `..`.
pub open spec fn file_name(p: Seq<char>) -> Option<Seq<char>> {
    let t = trim_tail(p);
    let name = t.skip(last_index(t, '/') + 1);
    if t.len() == 0 || t == seq!['.'] || name == seq!['.', '.'] {
        None
    } else {
        Some(name)
    }
}

/// The text after the last `.` of a file name, unless that dot is the
/// first character.
pub open spec fn extension(name: Seq<char>) -> Option<Seq<char>> {
    let i = last_index(name, '.');
    if i <= 0 {
        None
    } else {
        Some(name.skip(i + 1))
    }
}

/// The path names a JSON file: its extension is `json` in any ASCII case.
pub open spec fn is_json_path(p: Seq<char>) -> bool {
    match file_name(p) {
        Some(n) => match extension(n) {
            Some(e) => to_lower(e) == "json"@,
            None => false,
        },
        None => false,
    }
}

fn last_index_exec(s: &Vec<char>, n: usize, c: char) -> (r: i64)
    requires
        n <= s.len(),
        s.len() < i64::MAX,
    ensures
        r == last_index(s@.take(n as int), c),
{
    let mut k: usize = n;
    while k > 0
        invariant
            k <= n <= s.len(),
            s.len() < i64::MAX,
            last_index(s@.take(n as int), c) == last_index(s@.take(k as int), c),
        decreases k,
    {
        let ghost t = s@.take(k as int);
        assert(t.drop_last() =~= s@.take(k - 1));
        if s[k - 1] == c {
            return (k - 1) as i64;
        }
        k -= 1;
    }
    -1
}

proof fn lemma_last_index_bounds(s: Seq<char>, c: char)
    ensures
        -1 <= last_index(s, c) < s.len(),
    decreases s.len(),
{
    if s.len() > 0 {
        lemma_last_index_bounds(s.drop_last(), c);
    }
}

/// The extension of the path's file name, the way `Path::extension`
/// reads it.
pub open spec fn path_extension(p: Seq<char>) -> Option<Seq<char>> {
    match file_name(p) {
        Some(n) => extension(n),
        None => None,
    }
}

/// The extension of `path`'s file name, if it has one.
pub fn extension_of(path: &str) -> (r: Option<Vec<char>>)
    requires
        path@.len() < i64::MAX,
    ensures
        match r {
            Some(e) => path_extension(path@) == Some(e@),
            None => path_extension(path@) is None,
        },
{
    let p = chars_of(path);
    let mut end: usize = p.len();
    proof {
        assert(p@.take(end as int) =~= p@);
    }
    loop
        invariant
            end <= p.len(),
            p@ == path@,
            trim_tail(path@) == trim_tail(p@.take(end as int)),
        ensures
            end <= p.len(),
            p@ == path@,
            trim_tail(path@) == p@.take(end as int),
        decreases end,
    {
        let ghost t = p@.take(end as int);
        if end > 0 && p[end - 1] == '/' {
            assert(t.drop_last() =~= p@.take(end - 1));
            end -= 1;
        } else if end >= 2 && p[end - 1] == '.' && p[end - 2] == '/' {
            assert(t.take(t.len() - 2) =~= p@.take(end - 2));
            end -= 2;
        } else {
            assert(trim_tail(t) == t);
            break;
        }
    }
    let ghost t = p@.take(end as int);
    if end == 0 || (end == 1 && p[0] == '.') {
        proof {
            if end == 1 {
                assert(t =~= seq!['.']);
            }
        }
        return None;
    }
    let slash = last_index_exec(&p, end, '/');
    proof {
        lemma_last_index_bounds(t, '/');
        assert(t != seq!['.']) by {
            if t == seq!['.'] {
                assert(t[0] == p@[0]);
            }
        }
    }
    let start: usize = (slash + 1) as usize;
    let mut name: Vec<char> = Vec::new();
    let mut k: usize = start;
    while k < end
        invariant
            start <= k <= end <= p.len(),
            name@ == p@.subrange(start as int, k as int),
        decreases end - k,
    {
        name.push(p[k]);
        assert(p@.subrange(start as int, k + 1) =~= p@.subrange(start as int, k as int).push(
            p@[k as int],
        ));
        k += 1;
    }
    assert(name@ =~= t.skip(start as int));
    if name.len() == 2 && name[0] == '.' && name[1] == '.' {
        assert(name@ =~= seq!['.', '.']);
        return None;
    }
    proof {
        if name@ == seq!['.', '.'] {
            assert(name@[0] == '.' && name@[1] == '.');
        }
    }
    let dot = last_index_exec(&name, name.len(), '.');
    proof {
        assert(name@.take(name.len() as int) =~= name@);
        lemma_last_index_bounds(name@, '.');
    }
    if dot <= 0 {
        return None;
    }
    let from: usize = (dot + 1) as usize;
    let mut ext: Vec<char> = Vec::new();
    let mut q: usize = from;
    while q < name.len()
        invariant
            from <= q <= name.len(),
            ext@ == name@.subrange(from as int, q as int),
        decreases name.len() - q,
    {
        ext.push(name[q]);
        assert(name@.subrange(from as int, q + 1) =~= name@.subrange(from as int, q as int).push(
            name@[q as int],
        ));
        q += 1;
    }
    assert(ext@ =~= name@.skip(from as int));
    Some(ext)
}

/// Whether `path`'s file name has exactly the extension `ext`.
pub fn has_extension(path: &str, ext: &str) -> (r: bool)
    requires
        path@.len() < i64::MAX,
    ensures
        r == (path_extension(path@) == Some(ext@)),
{
    match extension_of(path) {
        Some(e) => crate::text::equals_str(&e, ext),
        None => false,
    }
}

/// Whether `path` names a JSON plan by its extension.
pub fn looks_plan_json(path: &str) -> (r: bool)
    requires
        path@.len() < i64::MAX,
    ensures
        r == is_json_path(path@),
{
    let e = match extension_of(path) {
        Some(e) => e,
        None => {
            return false;
        },
    };
    proof {
        reveal_strlit("json");
    }
    if e.len() != 4 {
        assert(to_lower(e@).len() == e@.len());
        return false;
    }
    let a = lower_char_exec(e[0]);
    let b = lower_char_exec(e[1]);
    let c = lower_char_exec(e[2]);
    let d = lower_char_exec(e[3]);
    let r = a == 'j' && b == 's' && c == 'o' && d == 'n';
    proof {
        let l = to_lower(e@);
        assert(l[0] == a && l[1] == b && l[2] == c && l[3] == d);
        if r {
            assert(l =~= "json"@);
        } else {
            assert(l != "json"@) by {
                if l == "json"@ {
                    assert("json"@[0] == 'j');
                }
            }
        }
    }
    r
}
} // verus!
