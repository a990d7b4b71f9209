//! Character-level text operations with their meaning stated over `Seq<char>`.
//!
//! The factory reads YAML, Markdown, and file names as text. Every check it
//! makes on such text is one of these operations: prefix, suffix, substring,
//! line split, whitespace trim, ASCII lowercase, or decimal rendering.

use vstd::prelude::*;

verus! {

// ---------------------------------------------------------------- spec

/// The texts held by `v`.
pub open spec fn views(v: Seq<Vec<char>>) -> Seq<Seq<char>> {
    v.map_values(|x: Vec<char>| x@)
}

/// `p` is a prefix of `s`.
pub open spec fn starts_with(s: Seq<char>, p: Seq<char>) -> bool {
    p.len() <= s.len() && s.subrange(0, p.len() as int) == p
}

/// `p` is a suffix of `s`.
pub open spec fn ends_with(s: Seq<char>, p: Seq<char>) -> bool {
    p.len() <= s.len() && s.subrange(s.len() - p.len(), s.len() as int) == p
}

/// `p` occurs in `s` starting at index `i`.
pub open spec fn occurs_at(s: Seq<char>, p: Seq<char>, i: int) -> bool {
    0 <= i && i + p.len() <= s.len() && s.subrange(i, i + p.len()) == p
}

/// `p` occurs somewhere in `s` (the empty text occurs in every text).
pub open spec fn contains(s: Seq<char>, p: Seq<char>) -> bool {
    exists|i: int| occurs_at(s, p, i)
}

/// Index of the first `c` in `s`, or -1.
pub open spec fn char_index(s: Seq<char>, c: char) -> int
    decreases s.len(),
{
    if s.len() == 0 {
        -1
    } else if s[0] == c {
        0
    } else {
        let r = char_index(s.drop_first(), c);
        if r < 0 {
            -1
        } else {
            r + 1
        }
    }
}

/// A line ended by `\n` loses one `\r` just before that `\n`.
pub open spec fn strip_cr(l: Seq<char>) -> Seq<char> {
    if l.len() > 0 && l.last() == '\r' {
        l.drop_last()
    } else {
        l
    }
}

/// The lines of `s`: split at `\n`, a `\r\n` ending counts as `\n`, a final
/// line ending adds no empty line, and the empty text has no lines.
pub open spec fn lines(s: Seq<char>) -> Seq<Seq<char>>
    decreases s.len(),
{
    if s.len() == 0 {
        seq![]
    } else {
        let i = char_index(s, '\n');
        if i < 0 {
            seq![s]
        } else {
            proof {
                lemma_char_index(s, '\n');
            }
            seq![strip_cr(s.take(i))] + lines(s.skip(i + 1))
        }
    }
}

/// The pieces of `parts`, with `sep` between neighbours.
pub open spec fn join(parts: Seq<Seq<char>>, sep: Seq<char>) -> Seq<char>
    decreases parts.len(),
{
    if parts.len() == 0 {
        seq![]
    } else if parts.len() == 1 {
        parts[0]
    } else {
        join(parts.drop_last(), sep) + sep + parts.last()
    }
}

/// The Unicode `White_Space` characters (what `char::is_whitespace` tests).
pub open spec fn is_ws(c: char) -> bool {
    ||| c == ' '
    ||| ('\u{9}' <= c && c <= '\u{d}')
    ||| c == '\u{85}'
    ||| c == '\u{a0}'
    ||| c == '\u{1680}'
    ||| ('\u{2000}' <= c && c <= '\u{200a}')
    ||| c == '\u{2028}'
    ||| c == '\u{2029}'
    ||| c == '\u{202f}'
    ||| c == '\u{205f}'
    ||| c == '\u{3000}'
}

/// `s` without its leading whitespace.
pub open spec fn trim_start(s: Seq<char>) -> Seq<char>
    decreases s.len(),
{
    if s.len() > 0 && is_ws(s[0]) {
        trim_start(s.drop_first())
    } else {
        s
    }
}

/// `s` without its trailing whitespace.
pub open spec fn trim_end(s: Seq<char>) -> Seq<char>
    decreases s.len(),
{
    if s.len() > 0 && is_ws(s.last()) {
        trim_end(s.drop_last())
    } else {
        s
    }
}

/// `s` without leading and trailing whitespace.
pub open spec fn trim(s: Seq<char>) -> Seq<char> {
    trim_end(trim_start(s))
}

/// ASCII `A`..`Z` become `a`..`z`; every other character stays.
pub open spec fn lower_char(c: char) -> char {
    if 'A' <= c && c <= 'Z' {
        ((c as int) + 32) as char
    } else {
        c
    }
}

/// `s` with ASCII letters lowercased.
pub open spec fn to_lower(s: Seq<char>) -> Seq<char> {
    s.map_values(|c: char| lower_char(c))
}

/// The ten decimal digits.
pub open spec fn digit_char(d: int) -> char {
    seq!['0', '1', '2', '3', '4', '5', '6', '7', '8', '9'][d]
}

/// `n` in decimal, without leading zeros.
pub open spec fn decimal(n: nat) -> Seq<char>
    decreases n,
{
    if n < 10 {
        seq![digit_char(n as int)]
    } else {
        decimal(n / 10).push(digit_char((n % 10) as int))
    }
}

/// The sixteen lowercase hexadecimal digits.
pub open spec fn hex_char(d: int) -> char {
    seq!['0', '1', '2', '3', '4', '5', '6', '7', '8', '9', 'a', 'b', 'c', 'd', 'e', 'f'][d]
}

/// Each byte as two lowercase hexadecimal digits, high nibble first.
pub open spec fn hex_lower(b: Seq<u8>) -> Seq<char>
    decreases b.len(),
{
    if b.len() == 0 {
        seq![]
    } else {
        hex_lower(b.drop_last()) + seq![
            hex_char((b.last() / 16) as int),
            hex_char((b.last() % 16) as int),
        ]
    }
}

// ---------------------------------------------------------------- lemmas

/// `char_index` is the first position of `c`.
pub proof fn lemma_char_index(s: Seq<char>, c: char)
    ensures
        char_index(s, c) < 0 ==> forall|j: int| 0 <= j < s.len() ==> s[j] != c,
        char_index(s, c) >= 0 ==> {
            &&& char_index(s, c) < s.len()
            &&& s[char_index(s, c)] == c
            &&& forall|j: int| 0 <= j < char_index(s, c) ==> s[j] != c
        },
    decreases s.len(),
{
    if s.len() > 0 && s[0] != c {
        lemma_char_index(s.drop_first(), c);
        assert forall|j: int| 1 <= j < s.len() implies s[j] == s.drop_first()[j - 1] by {}
    }
}

/// A position that holds `c`, with no `c` before it, is `char_index`.
pub proof fn lemma_char_index_is(s: Seq<char>, c: char, i: int)
    requires
        0 <= i < s.len(),
        s[i] == c,
        forall|j: int| 0 <= j < i ==> s[j] != c,
    ensures
        char_index(s, c) == i,
{
    lemma_char_index(s, c);
}

/// No `c` in `s` means `char_index` is -1.
pub proof fn lemma_char_index_none(s: Seq<char>, c: char)
    requires
        forall|j: int| 0 <= j < s.len() ==> s[j] != c,
    ensures
        char_index(s, c) == -1,
{
    lemma_char_index(s, c);
}

/// A text has no more lines than characters.
pub proof fn lemma_lines_len(s: Seq<char>)
    ensures
        lines(s).len() <= s.len(),
    decreases s.len(),
{
    if s.len() > 0 {
        let i = char_index(s, '\n');
        lemma_char_index(s, '\n');
        if i >= 0 {
            lemma_lines_len(s.skip(i + 1));
        }
    }
}

/// `lines` of `a + "\n" + b`, where `a` has no line feed.
pub proof fn lemma_lines_cons(a: Seq<char>, b: Seq<char>)
    requires
        forall|j: int| 0 <= j < a.len() ==> a[j] != '\n',
    ensures
        lines(a + seq!['\n'] + b) == seq![strip_cr(a)] + lines(b),
{
    let s = a + seq!['\n'] + b;
    assert(s[a.len() as int] == '\n');
    assert forall|j: int| 0 <= j < a.len() implies s[j] != '\n' by {
        assert(s[j] == a[j]);
    }
    lemma_char_index_is(s, '\n', a.len() as int);
    assert(s.take(a.len() as int) == a);
    assert(s.skip(a.len() as int + 1) == b);
}

// ---------------------------------------------------------------- exec

/// The characters of `s`, in order.
pub fn chars_of(s: &str) -> (out: Vec<char>)
    ensures
        out@ == s@,
{
    let mut out: Vec<char> = Vec::new();
    for c in it: s.chars()
        invariant
            out@ == it.seq().take(it.index() as int),
    {
        out.push(c);
    }
    out
}

/// `String::push`, which std documents as appending the given `char` to the
/// end of the string. The contract claims exactly that: the text afterwards
/// is the text before with `c` added at the end.
#[verifier::external_body]
fn push_char(s: &mut String, c: char)
    ensures
        final(s)@ == old(s)@.push(c),
{
    s.push(c);
}

/// The text made of `cs`.
pub fn string_of(cs: &Vec<char>) -> (out: String)
    ensures
        out@ == cs@,
{
    let mut out = String::new();
    for i in 0..cs.len()
        invariant
            out@ == cs@.take(i as int),
    {
        push_char(&mut out, cs[i]);
        assert(cs@.take(i + 1) == cs@.take(i as int).push(cs@[i as int]));
    }
    assert(cs@.take(cs.len() as int) == cs@);
    out
}

/// Appends every character of `t` to `out`.
pub fn extend_chars(out: &mut Vec<char>, t: &Vec<char>)
    ensures
        final(out)@ == old(out)@ + t@,
{
    let ghost start = out@;
    for i in 0..t.len()
        invariant
            out@ == start + t@.take(i as int),
    {
        out.push(t[i]);
        assert(t@.take(i + 1) == t@.take(i as int).push(t@[i as int]));
    }
    assert(t@.take(t.len() as int) == t@);
}

/// Appends every character of `t` to `out`.
pub fn extend_str(out: &mut Vec<char>, t: &str)
    ensures
        final(out)@ == old(out)@ + t@,
{
    let cs = chars_of(t);
    extend_chars(out, &cs);
}

/// Whether `p` occurs in `s` at index `i`.
pub fn occurs_at_exec(s: &Vec<char>, p: &Vec<char>, i: usize) -> (r: bool)
    ensures
        r == occurs_at(s@, p@, i as int),
{
    if i > s.len() || p.len() > s.len() - i {
        return false;
    }
    let mut k: usize = 0;
    while k < p.len()
        invariant
            i + p.len() <= s.len(),
            k <= p.len(),
            forall|j: int| 0 <= j < k ==> s@[i + j] == p@[j],
        decreases p.len() - k,
    {
        if s[i + k] != p[k] {
            assert(s@.subrange(i as int, i + p.len())[k as int] != p@[k as int]);
            return false;
        }
        k += 1;
    }
    assert(s@.subrange(i as int, i + p.len()) =~= p@);
    true
}

/// Whether `p` is a prefix of `s`.
pub fn starts_with_exec(s: &Vec<char>, p: &Vec<char>) -> (r: bool)
    ensures
        r == starts_with(s@, p@),
{
    occurs_at_exec(s, p, 0)
}

/// Whether `p` is a suffix of `s`.
pub fn ends_with_exec(s: &Vec<char>, p: &Vec<char>) -> (r: bool)
    ensures
        r == ends_with(s@, p@),
{
    if p.len() > s.len() {
        return false;
    }
    occurs_at_exec(s, p, s.len() - p.len())
}

/// Whether `p` occurs in `s`.
pub fn contains_exec(s: &Vec<char>, p: &Vec<char>) -> (r: bool)
    ensures
        r == contains(s@, p@),
{
    if p.len() > s.len() {
        assert forall|i: int| !occurs_at(s@, p@, i) by {}
        return false;
    }
    if p.len() == 0 {
        assert(s@.subrange(0, 0) =~= p@);
        assert(occurs_at(s@, p@, 0));
        return true;
    }
    let mut i: usize = 0;
    while i <= s.len() - p.len()
        invariant
            0 < p.len() <= s.len(),
            i <= s.len() - p.len() + 1,
            forall|j: int| 0 <= j < i ==> !occurs_at(s@, p@, j),
        decreases s.len() - p.len() + 1 - i,
    {
        if occurs_at_exec(s, p, i) {
            return true;
        }
        i += 1;
    }
    assert forall|j: int| !occurs_at(s@, p@, j) by {
        if 0 <= j < i {
        }
    }
    false
}

/// Whether the text `p` occurs in `s`.
pub fn contains_str(s: &Vec<char>, p: &str) -> (r: bool)
    ensures
        r == contains(s@, p@),
{
    let pc = chars_of(p);
    contains_exec(s, &pc)
}

/// Whether the text `p` is a prefix of `s`.
pub fn starts_with_str(s: &Vec<char>, p: &str) -> (r: bool)
    ensures
        r == starts_with(s@, p@),
{
    let pc = chars_of(p);
    starts_with_exec(s, &pc)
}

/// Whether the text `p` is a suffix of `s`.
pub fn ends_with_str(s: &Vec<char>, p: &str) -> (r: bool)
    ensures
        r == ends_with(s@, p@),
{
    let pc = chars_of(p);
    ends_with_exec(s, &pc)
}

/// Whether `s` is exactly the text `p`.
pub fn equals_str(s: &Vec<char>, p: &str) -> (r: bool)
    ensures
        r == (s@ == p@),
{
    let pc = chars_of(p);
    if s.len() != pc.len() {
        return false;
    }
    assert(s@.subrange(0, s@.len() as int) =~= s@);
    starts_with_exec(s, &pc)
}

/// Position of the first `c` in `s` at or after `from`, relative to `from`.
pub fn find_char_from(s: &Vec<char>, c: char, from: usize) -> (r: Option<usize>)
    requires
        from <= s.len(),
    ensures
        match r {
            Some(i) => from <= i < s.len() && char_index(s@.skip(from as int), c) == i - from,
            None => char_index(s@.skip(from as int), c) == -1,
        },
{
    let mut i = from;
    while i < s.len()
        invariant
            from <= i <= s.len(),
            forall|j: int| from <= j < i ==> s@[j] != c,
        decreases s.len() - i,
    {
        if s[i] == c {
            proof {
                let t = s@.skip(from as int);
                assert forall|j: int| 0 <= j < i - from implies t[j] != c by {
                    assert(t[j] == s@[from + j]);
                }
                lemma_char_index_is(t, c, i - from);
            }
            return Some(i);
        }
        i += 1;
    }
    proof {
        let t = s@.skip(from as int);
        assert forall|j: int| 0 <= j < t.len() implies t[j] != c by {
            assert(t[j] == s@[from + j]);
        }
        lemma_char_index_none(t, c);
    }
    None
}

/// `s[a..b]` as a new vector.
pub fn slice_chars(s: &Vec<char>, a: usize, b: usize) -> (out: Vec<char>)
    requires
        a <= b <= s.len(),
    ensures
        out@ == s@.subrange(a as int, b as int),
{
    let mut out: Vec<char> = Vec::new();
    let mut i = a;
    while i < b
        invariant
            a <= i <= b <= s.len(),
            out@ == s@.subrange(a as int, i as int),
        decreases b - i,
    {
        out.push(s[i]);
        assert(s@.subrange(a as int, i + 1) == s@.subrange(a as int, i as int).push(s@[i as int]));
        i += 1;
    }
    out
}

/// The lines of `s` (see `lines`).
pub fn split_lines(s: &Vec<char>) -> (out: Vec<Vec<char>>)
    ensures
        views(out@) == lines(s@),
{
    let mut out: Vec<Vec<char>> = Vec::new();
    let mut pos: usize = 0;
    assert(s@.skip(0) == s@);
    while pos < s.len()
        invariant
            pos <= s.len(),
            lines(s@) == views(out@) + lines(s@.skip(pos as int)),
        decreases s.len() - pos,
    {
        let ghost rest = s@.skip(pos as int);
        let ghost before = views(out@);
        match find_char_from(s, '\n', pos) {
            Some(i) => {
                let mut end = i;
                if end > pos && s[end - 1] == '\r' {
                    end = end - 1;
                }
                let line = slice_chars(s, pos, end);
                proof {
                    let k = i - pos;
                    assert(rest.take(k) == s@.subrange(pos as int, i as int));
                    assert(rest.skip(k + 1) == s@.skip(i + 1));
                    assert(strip_cr(rest.take(k)) == line@);
                }
                out.push(line);
                proof {
                    assert(views(out@) =~= before + seq![line@]);
                }
                pos = i + 1;
            },
            None => {
                let line = slice_chars(s, pos, s.len());
                proof {
                    assert(rest == line@);
                }
                out.push(line);
                proof {
                    assert(views(out@) =~= before + seq![line@]);
                    assert(s@.skip(s.len() as int) == Seq::<char>::empty());
                }
                pos = s.len();
            },
        }
    }
    assert(s@.skip(pos as int) == Seq::<char>::empty());
    assert(lines(s@.skip(pos as int)) == Seq::<Seq<char>>::empty());
    assert(lines(s@) =~= views(out@));
    out
}

/// Whether `c` is a whitespace character (see `is_ws`).
pub fn is_ws_exec(c: char) -> (r: bool)
    ensures
        r == is_ws(c),
{
    c == ' ' || ('\u{9}' <= c && c <= '\u{d}') || c == '\u{85}' || c == '\u{a0}' || c
        == '\u{1680}' || ('\u{2000}' <= c && c <= '\u{200a}') || c == '\u{2028}' || c
        == '\u{2029}' || c == '\u{202f}' || c == '\u{205f}' || c == '\u{3000}'
}

/// `trim_start(s.skip(i))` for the first `i` at or after `from` that is not
/// whitespace.
proof fn lemma_trim_start_skip(s: Seq<char>, from: int, i: int)
    requires
        0 <= from <= i <= s.len(),
        forall|j: int| from <= j < i ==> is_ws(s[j]),
        i < s.len() ==> !is_ws(s[i]),
    ensures
        trim_start(s.skip(from)) == s.skip(i),
    decreases i - from,
{
    if from < i {
        assert(s.skip(from).drop_first() == s.skip(from + 1));
        lemma_trim_start_skip(s, from + 1, i);
    }
}

proof fn lemma_trim_end_take(s: Seq<char>, to: int, i: int)
    requires
        0 <= i <= to <= s.len(),
        forall|j: int| i <= j < to ==> is_ws(s[j]),
        i > 0 ==> !is_ws(s[i - 1]),
    ensures
        trim_end(s.take(to)) == s.take(i),
    decreases to - i,
{
    if i < to {
        assert(s.take(to).drop_last() == s.take(to - 1));
        lemma_trim_end_take(s, to - 1, i);
    }
}

/// `s` without leading whitespace.
pub fn trim_start_exec(s: &Vec<char>) -> (out: Vec<char>)
    ensures
        out@ == trim_start(s@),
{
    let mut i: usize = 0;
    while i < s.len() && is_ws_exec(s[i])
        invariant
            i <= s.len(),
            forall|j: int| 0 <= j < i ==> is_ws(s@[j]),
        decreases s.len() - i,
    {
        i += 1;
    }
    proof {
        lemma_trim_start_skip(s@, 0, i as int);
        assert(s@.skip(0) == s@);
        assert(s@.skip(i as int) == s@.subrange(i as int, s.len() as int));
    }
    slice_chars(s, i, s.len())
}

/// `s` without leading and trailing whitespace.
pub fn trim_exec(s: &Vec<char>) -> (out: Vec<char>)
    ensures
        out@ == trim(s@),
{
    let t = trim_start_exec(s);
    let mut e: usize = t.len();
    while e > 0 && is_ws_exec(t[e - 1])
        invariant
            e <= t.len(),
            forall|j: int| e <= j < t.len() ==> is_ws(t@[j]),
        decreases e,
    {
        e -= 1;
    }
    proof {
        lemma_trim_end_take(t@, t.len() as int, e as int);
        assert(t@.take(t.len() as int) == t@);
        assert(t@.take(e as int) == t@.subrange(0, e as int));
    }
    slice_chars(&t, 0, e)
}

/// `c` with an ASCII capital lowercased.
pub fn lower_char_exec(c: char) -> (r: char)
    ensures
        r == lower_char(c),
{
    if 'A' <= c && c <= 'Z' {
        let b = (c as u32) + 32;
        let r = char_from_ascii(b as u8);
        r
    } else {
        c
    }
}

/// The character with ASCII code `b` (`char::from`).
pub fn char_from_ascii(b: u8) -> (r: char)
    ensures
        r == b as char,
{
    b as char
}

/// `s` with ASCII letters lowercased.
pub fn to_lower_exec(s: &Vec<char>) -> (out: Vec<char>)
    ensures
        out@ == to_lower(s@),
{
    let mut out: Vec<char> = Vec::new();
    for i in 0..s.len()
        invariant
            out@ == to_lower(s@.take(i as int)),
    {
        let c = lower_char_exec(s[i]);
        out.push(c);
        assert(s@.take(i + 1) == s@.take(i as int).push(s@[i as int]));
        assert(to_lower(s@.take(i + 1)) =~= to_lower(s@.take(i as int)).push(c));
    }
    assert(s@.take(s.len() as int) == s@);
    out
}

/// `n` in decimal.
pub fn decimal_exec(n: u64) -> (out: Vec<char>)
    ensures
        out@ == decimal(n as nat),
    decreases n,
{
    let digits: [char; 10] = ['0', '1', '2', '3', '4', '5', '6', '7', '8', '9'];
    proof {
        assert(digits@ == seq!['0', '1', '2', '3', '4', '5', '6', '7', '8', '9']);
    }
    if n < 10 {
        let mut out: Vec<char> = Vec::new();
        out.push(digits[n as usize]);
        out
    } else {
        let mut out = decimal_exec(n / 10);
        out.push(digits[(n % 10) as usize]);
        out
    }
}

/// `n` in decimal, appended to `out`.
pub fn push_decimal(out: &mut Vec<char>, n: u64)
    ensures
        final(out)@ == old(out)@ + decimal(n as nat),
{
    let d = decimal_exec(n);
    extend_chars(out, &d);
}

/// `b` as lowercase hexadecimal.
pub fn hex_lower_exec(b: &Vec<u8>) -> (out: Vec<char>)
    ensures
        out@ == hex_lower(b@),
{
    let digits: [char; 16] = [
        '0', '1', '2', '3', '4', '5', '6', '7', '8', '9', 'a', 'b', 'c', 'd', 'e', 'f',
    ];
    proof {
        assert(digits@ == seq![
            '0', '1', '2', '3', '4', '5', '6', '7', '8', '9', 'a', 'b', 'c', 'd', 'e', 'f',
        ]);
    }
    let mut out: Vec<char> = Vec::new();
    for i in 0..b.len()
        invariant
            out@ == hex_lower(b@.take(i as int)),
            digits@ == seq![
                '0', '1', '2', '3', '4', '5', '6', '7', '8', '9', 'a', 'b', 'c', 'd', 'e', 'f',
            ],
    {
        let x = b[i];
        let ghost prev = out@;
        let h: usize = (x / 16) as usize;
        let l: usize = (x % 16) as usize;
        assert(h < 16 && l < 16);
        let hi = digits[h];
        let lo = digits[l];
        assert(hi == digits@[h as int]);
        out.push(hi);
        out.push(lo);
        proof {
            let t = b@.take(i + 1);
            assert(t.drop_last() == b@.take(i as int));
            assert(t.last() == x);
            assert(hi == hex_char((x / 16) as int));
            assert(lo == hex_char((x % 16) as int));
            assert(hex_lower(t) == hex_lower(t.drop_last()) + seq![hi, lo]);
            assert(out@ =~= prev + seq![hi, lo]);
        }
    }
    assert(b@.take(b.len() as int) == b@);
    out
}


// ---------------------------------------------------------------- order

/// `a` sorts strictly before `b`: code-point lexicographic order, the order
/// in which `String`'s `Ord` sorts.
pub open spec fn lex_lt(a: Seq<char>, b: Seq<char>) -> bool
    decreases a.len(),
{
    if b.len() == 0 {
        false
    } else if a.len() == 0 {
        true
    } else if a[0] != b[0] {
        a[0] < b[0]
    } else {
        lex_lt(a.drop_first(), b.drop_first())
    }
}

/// Every text of `s` sorts strictly before every later one.
pub open spec fn strictly_sorted(s: Seq<Seq<char>>) -> bool {
    forall|i: int, j: int| 0 <= i < j < s.len() ==> lex_lt(s[i], s[j])
}

pub proof fn lemma_lex_irreflexive(a: Seq<char>)
    ensures
        !lex_lt(a, a),
    decreases a.len(),
{
    if a.len() > 0 {
        lemma_lex_irreflexive(a.drop_first());
    }
}

pub proof fn lemma_lex_transitive(a: Seq<char>, b: Seq<char>, c: Seq<char>)
    requires
        lex_lt(a, b),
        lex_lt(b, c),
    ensures
        lex_lt(a, c),
    decreases a.len(),
{
    if a.len() > 0 && b.len() > 0 && c.len() > 0 && a[0] == b[0] && b[0] == c[0] {
        lemma_lex_transitive(a.drop_first(), b.drop_first(), c.drop_first());
    }
}

pub proof fn lemma_lex_total(a: Seq<char>, b: Seq<char>)
    requires
        a != b,
    ensures
        lex_lt(a, b) || lex_lt(b, a),
    decreases a.len(),
{
    if a.len() > 0 && b.len() > 0 && a[0] == b[0] {
        if a.drop_first() == b.drop_first() {
            assert(a =~= seq![a[0]] + a.drop_first());
            assert(b =~= seq![b[0]] + b.drop_first());
        }
        lemma_lex_total(a.drop_first(), b.drop_first());
    } else if a.len() > 0 && b.len() > 0 {
    } else if a.len() == 0 && b.len() == 0 {
        assert(a =~= b);
    }
}

pub proof fn lemma_lex_asymmetric(a: Seq<char>, b: Seq<char>)
    requires
        lex_lt(a, b),
    ensures
        !lex_lt(b, a),
{
    if lex_lt(b, a) {
        lemma_lex_transitive(a, b, a);
        lemma_lex_irreflexive(a);
    }
}

/// Whether `a` sorts strictly before `b`.
pub fn lex_lt_exec(a: &Vec<char>, b: &Vec<char>) -> (r: bool)
    ensures
        r == lex_lt(a@, b@),
{
    let mut i: usize = 0;
    assert(a@.skip(0) =~= a@);
    assert(b@.skip(0) =~= b@);
    while i < a.len() && i < b.len() && a[i] == b[i]
        invariant
            i <= a.len(),
            i <= b.len(),
            lex_lt(a@, b@) == lex_lt(a@.skip(i as int), b@.skip(i as int)),
        decreases a.len() - i,
    {
        proof {
            let sa = a@.skip(i as int);
            let sb = b@.skip(i as int);
            assert(sa.drop_first() =~= a@.skip(i + 1));
            assert(sb.drop_first() =~= b@.skip(i + 1));
        }
        i += 1;
    }
    let ghost sa = a@.skip(i as int);
    let ghost sb = b@.skip(i as int);
    if i == b.len() {
        assert(sb.len() == 0);
        false
    } else if i == a.len() {
        assert(sa.len() == 0);
        true
    } else {
        assert(sa[0] == a@[i as int] && sb[0] == b@[i as int]);
        a[i] < b[i]
    }
}

/// The distinct texts of `v` in strictly increasing order.
pub fn sorted_unique(v: &Vec<Vec<char>>) -> (out: Vec<Vec<char>>)
    ensures
        strictly_sorted(views(out@)),
        forall|x: Seq<char>|
            #![trigger views(out@).contains(x)]
            #![trigger views(v@).contains(x)]
            views(out@).contains(x) <==> views(v@).contains(x),
{
    let mut out: Vec<Vec<char>> = Vec::new();
    for n in 0..v.len()
        invariant
            strictly_sorted(views(out@)),
            forall|x: Seq<char>| views(out@).contains(x) <==> views(v@).take(n as int).contains(x),
    {
        let x = &v[n];
        let ghost before = views(out@);
        let mut k: usize = 0;
        while k < out.len() && lex_lt_exec(&out[k], x)
            invariant
                k <= out.len(),
                views(out@) == before,
                forall|j: int| 0 <= j < k ==> lex_lt(before[j], x@),
            decreases out.len() - k,
        {
            k += 1;
        }
        let dup = k < out.len() && equals_vec(&out[k], x);
        let ghost out_k_view = if k < out.len() { out@[k as int]@ } else { x@ };
        if !dup {
            out.insert(k, x.clone());
            proof {
                let after = views(out@);
                assert(after =~= before.take(k as int).push(x@) + before.skip(k as int));
                assert forall|i: int, j: int| 0 <= i < j < after.len() implies lex_lt(after[i], after[j]) by {
                    if k < before.len() {
                        assert(before[k as int] == out_k_view);
                        lemma_lex_total(x@, before[k as int]);
                    }
                    if i < k && j == k {
                    } else if i < k && j > k {
                        if j - 1 > k {
                            lemma_lex_transitive(x@, before[k as int], before[j - 1]);
                        }
                        lemma_lex_transitive(before[i], x@, before[j - 1]);
                    } else if i == k && j > k {
                        if j - 1 > k {
                            lemma_lex_transitive(x@, before[k as int], before[j - 1]);
                        }
                    } else if i > k {
                        assert(after[i] == before[i - 1] && after[j] == before[j - 1]);
                    }
                }
            }
        }
        proof {
            let after = views(out@);
            let tk = views(v@).take(n + 1);
            let tn = views(v@).take(n as int);
            assert(tk =~= tn.push(x@));
            if dup {
                assert(before[k as int] == x@);
                assert(after == before);
            } else {
                assert(after =~= before.take(k as int).push(x@) + before.skip(k as int));
            }
            assert forall|y: Seq<char>| after.contains(y) implies tk.contains(y) by {
                let w = choose|w: int| 0 <= w < after.len() && after[w] == y;
                if y == x@ {
                    assert(tk[n as int] == y);
                } else {
                    if !dup {
                        if w < k {
                            assert(before[w] == y);
                        } else {
                            assert(w != k);
                            assert(before[w - 1] == y);
                        }
                    }
                    assert(before.contains(y));
                    assert(tn.contains(y));
                    let u = choose|u: int| 0 <= u < tn.len() && tn[u] == y;
                    assert(tk[u] == y);
                }
            }
            assert forall|y: Seq<char>| tk.contains(y) implies after.contains(y) by {
                let w = choose|w: int| 0 <= w < tk.len() && tk[w] == y;
                if w == n {
                    if dup {
                        assert(after[k as int] == y);
                    } else {
                        assert(after[k as int] == y);
                    }
                } else {
                    assert(tn[w] == y);
                    assert(before.contains(y));
                    let u = choose|u: int| 0 <= u < before.len() && before[u] == y;
                    if dup {
                        assert(after[u] == y);
                    } else if u < k {
                        assert(after[u] == y);
                    } else {
                        assert(after[u + 1] == y);
                    }
                }
            }
        }
    }
    assert(views(v@).take(v.len() as int) =~= views(v@));
    out
}

/// Whether two character vectors hold the same text.
pub fn equals_vec(a: &Vec<char>, b: &Vec<char>) -> (r: bool)
    ensures
        r == (a@ == b@),
{
    if a.len() != b.len() {
        return false;
    }
    assert(a@.subrange(0, a@.len() as int) =~= a@);
    starts_with_exec(a, b)
}


/// The strictly sorted text sequence holding exactly the texts of `s`.
pub open spec fn sorted_set(s: Seq<Seq<char>>) -> Seq<Seq<char>> {
    choose|t: Seq<Seq<char>>|
        strictly_sorted(t) && forall|x: Seq<char>| #![trigger t.contains(x)] #![trigger s.contains(x)] t.contains(x) <==> s.contains(x)
}

/// Two strictly sorted sequences with the same texts are equal.
pub proof fn lemma_sorted_same_set_equal(a: Seq<Seq<char>>, b: Seq<Seq<char>>)
    requires
        strictly_sorted(a),
        strictly_sorted(b),
        forall|x: Seq<char>| #![trigger a.contains(x)] #![trigger b.contains(x)] a.contains(x) <==> b.contains(x),
    ensures
        a == b,
    decreases a.len(),
{
    if a.len() == 0 {
        if b.len() > 0 {
            assert(b.contains(b[0]));
        }
        assert(a =~= b);
    } else {
        assert(a.contains(a[0]));
        assert(b.len() > 0);
        assert(b.contains(b[0]));
        let i = choose|i: int| 0 <= i < b.len() && b[i] == a[0];
        let j = choose|j: int| 0 <= j < a.len() && a[j] == b[0];
        if i > 0 {
            assert(lex_lt(b[0], b[i]));
            if j > 0 {
                assert(lex_lt(a[0], a[j]));
                lemma_lex_asymmetric(a[0], b[0]);
            } else {
                lemma_lex_irreflexive(a[0]);
            }
        }
        assert(a[0] == b[0]);
        let a1 = a.drop_first();
        let b1 = b.drop_first();
        assert forall|x: Seq<char>| #![trigger a1.contains(x)] #![trigger b1.contains(x)] a1.contains(x) <==> b1.contains(x) by {
            if a1.contains(x) {
                let k = choose|k: int| 0 <= k < a1.len() && a1[k] == x;
                assert(a[k + 1] == x);
                assert(lex_lt(a[0], x));
                assert(a.contains(x));
                let m = choose|m: int| 0 <= m < b.len() && b[m] == x;
                if m == 0 {
                    lemma_lex_irreflexive(x);
                }
                assert(b1[m - 1] == x);
            }
            if b1.contains(x) {
                let k = choose|k: int| 0 <= k < b1.len() && b1[k] == x;
                assert(b[k + 1] == x);
                assert(lex_lt(b[0], x));
                assert(b.contains(x));
                let m = choose|m: int| 0 <= m < a.len() && a[m] == x;
                if m == 0 {
                    lemma_lex_irreflexive(x);
                }
                assert(a1[m - 1] == x);
            }
        }
        lemma_sorted_same_set_equal(a1, b1);
        assert(a =~= seq![a[0]] + a1);
        assert(b =~= seq![b[0]] + b1);
    }
}

/// What `sorted_unique` returns is `sorted_set` of its input.
pub proof fn lemma_is_sorted_set(t: Seq<Seq<char>>, s: Seq<Seq<char>>)
    requires
        strictly_sorted(t),
        forall|x: Seq<char>| #![trigger t.contains(x)] #![trigger s.contains(x)] t.contains(x) <==> s.contains(x),
    ensures
        t == sorted_set(s),
{
    let u = sorted_set(s);
    assert(strictly_sorted(t) && forall|x: Seq<char>| #![trigger t.contains(x)] #![trigger s.contains(x)] t.contains(x) <==> s.contains(x));
    assert(strictly_sorted(u) && forall|x: Seq<char>| #![trigger u.contains(x)] #![trigger s.contains(x)] u.contains(x) <==> s.contains(x));
    lemma_sorted_same_set_equal(t, u);
}

} // verus!
