//! Reading the mount point out of what the disk-image tool prints.
//!
//! The tool is asked for its property-list output, but the reading is
//! tolerant. In order:
//! 1. the first line holding `<string>/Volumes` gives the text between its
//!    first `<string>` and its first `</string>`;
//! 2. else the first line holding `/Volumes` gives the text from there up to
//!    a closing `</string>`, or to the end of the line;
//! 3. else the third tab-separated field of the last line, as older versions
//!    of the tool printed it.
//!
//! Each result is trimmed of white space.
use vstd::prelude::*;
use crate::text::{chars_of, string_of};

verus! {

/// Whether `n` occurs in `h` at index `i`.
pub open spec fn occurs_at(h: Seq<char>, n: Seq<char>, i: int) -> bool {
    0 <= i && i + n.len() <= h.len() && h.subrange(i, i + n.len()) == n
}

pub open spec fn occurs(h: Seq<char>, n: Seq<char>) -> bool {
    exists|i: int| occurs_at(h, n, i)
}

/// `i` is the first index at which `n` occurs in `h`.
pub open spec fn first_at(h: Seq<char>, n: Seq<char>, i: int) -> bool {
    occurs_at(h, n, i) && forall|j: int| 0 <= j < i ==> !occurs_at(h, n, j)
}

/// The first index at which `n` occurs in `h`, if any.
pub open spec fn find_spec(h: Seq<char>, n: Seq<char>) -> Option<int> {
    if occurs(h, n) {
        Some(choose|i: int| first_at(h, n, i))
    } else {
        None
    }
}

/// The index of the first `c` in `s`, or the length of `s` where there is none.
pub open spec fn first_char(s: Seq<char>, c: char) -> int
    decreases s.len(),
{
    if s.len() == 0 {
        0
    } else if s[0] == c {
        0
    } else {
        1 + first_char(s.drop_first(), c)
    }
}

/// A line without the carriage return that ended it.
pub open spec fn strip_cr(l: Seq<char>) -> Seq<char> {
    if l.len() > 0 && l[l.len() - 1] == '\r' {
        l.drop_last()
    } else {
        l
    }
}

/// The lines of `s` as `str::lines` gives them: split at each line feed, a
/// carriage return before it dropped, and no empty line after a final line feed.
pub open spec fn lines_of(s: Seq<char>) -> Seq<Seq<char>>
    decreases s.len(),
{
    if s.len() == 0 {
        seq![]
    } else {
        let k = first_char(s, '\n');
        if 0 <= k < s.len() {
            seq![strip_cr(s.take(k))] + lines_of(s.skip(k + 1))
        } else {
            seq![s]
        }
    }
}

/// The characters of the Unicode `White_Space` property, which
/// `char::is_whitespace` and `str::trim` go by.
pub open spec fn is_white(c: char) -> bool {
    ('\u{9}' <= c && c <= '\u{d}') || c == ' ' || c == '\u{85}' || c == '\u{a0}'
        || c == '\u{1680}' || ('\u{2000}' <= c && c <= '\u{200a}') || c == '\u{2028}'
        || c == '\u{2029}' || c == '\u{202f}' || c == '\u{205f}' || c == '\u{3000}'
}

fn white(c: char) -> (r: bool)
    ensures
        r == is_white(c),
{
    ('\u{9}' <= c && c <= '\u{d}') || c == ' ' || c == '\u{85}' || c == '\u{a0}'
        || c == '\u{1680}' || ('\u{2000}' <= c && c <= '\u{200a}') || c == '\u{2028}'
        || c == '\u{2029}' || c == '\u{202f}' || c == '\u{205f}' || c == '\u{3000}'
}

pub open spec fn trim_start(s: Seq<char>) -> Seq<char>
    decreases s.len(),
{
    if s.len() > 0 && is_white(s[0]) {
        trim_start(s.drop_first())
    } else {
        s
    }
}

pub open spec fn trim_end(s: Seq<char>) -> Seq<char>
    decreases s.len(),
{
    if s.len() > 0 && is_white(s[s.len() - 1]) {
        trim_end(s.drop_last())
    } else {
        s
    }
}

/// `s` without leading and trailing white space, as `str::trim` gives it.
pub open spec fn trim(s: Seq<char>) -> Seq<char> {
    trim_end(trim_start(s))
}

/// The value of a `<string>` element on a line that holds `<string>/Volumes`.
pub open spec fn tag_value(l: Seq<char>) -> Option<Seq<char>> {
    if occurs(l, "<string>/Volumes"@) {
        match (find_spec(l, "<string>"@), find_spec(l, "</string>"@)) {
            (Some(s), Some(e)) => if s + 8 <= e {
                Some(trim(l.subrange(s + 8, e)))
            } else {
                None
            },
            _ => None,
        }
    } else {
        None
    }
}

/// The first value that [`tag_value`] finds on the lines.
pub open spec fn first_tag_value(ls: Seq<Seq<char>>) -> Option<Seq<char>>
    decreases ls.len(),
{
    if ls.len() == 0 {
        None
    } else {
        match tag_value(ls[0]) {
            Some(v) => Some(v),
            None => first_tag_value(ls.drop_first()),
        }
    }
}

/// The index of the first line holding `/Volumes`.
pub open spec fn first_volume_line(ls: Seq<Seq<char>>) -> Option<int> {
    if exists|i: int| 0 <= i < ls.len() && occurs(#[trigger] ls[i], "/Volumes"@) {
        Some(
            choose|i: int|
                0 <= i < ls.len() && occurs(#[trigger] ls[i], "/Volumes"@) && forall|j: int|
                    0 <= j < i ==> !occurs(#[trigger] ls[j], "/Volumes"@),
        )
    } else {
        None
    }
}

/// From the first `/Volumes` of a line up to a `</string>`, or to the end.
pub open spec fn volume_text(l: Seq<char>) -> Seq<char> {
    let rest = l.skip(find_spec(l, "/Volumes"@).unwrap_or(0));
    match find_spec(rest, "</string>"@) {
        Some(e) => trim(rest.take(e)),
        None => trim(rest),
    }
}

/// The `n`th field of `s` split at tab characters, counted from zero.
pub open spec fn field(s: Seq<char>, n: nat) -> Option<Seq<char>>
    decreases n,
{
    let k = first_char(s, '\t');
    if n == 0 {
        Some(s.take(k))
    } else if k < s.len() {
        field(s.skip(k + 1), (n - 1) as nat)
    } else {
        None
    }
}

/// The mount point that the tool's output `out` names, if any.
pub open spec fn mount_point_of(out: Seq<char>) -> Option<Seq<char>> {
    let ls = lines_of(out);
    match first_tag_value(ls) {
        Some(v) => Some(v),
        None => match first_volume_line(ls) {
            Some(i) => Some(volume_text(ls[i])),
            None => if ls.len() > 0 {
                match field(ls[ls.len() - 1], 2) {
                    Some(f) => Some(trim(f)),
                    None => None,
                }
            } else {
                None
            },
        },
    }
}

spec fn char_views(v: Seq<Vec<char>>) -> Seq<Seq<char>> {
    v.map_values(|l: Vec<char>| l@)
}

/// The characters of `s` from `a` to `b`.
fn slice_chars(s: &Vec<char>, a: usize, b: usize) -> (r: Vec<char>)
    requires
        a <= b <= s.len(),
    ensures
        r@ == s@.subrange(a as int, b as int),
{
    let mut out: Vec<char> = Vec::new();
    let mut i: usize = a;
    while i < b
        invariant
            a <= i <= b <= s.len(),
            out@ == s@.subrange(a as int, i as int),
        decreases b - i,
    {
        out.push(s[i]);
        assert(out@ =~= s@.subrange(a as int, i + 1));
        i += 1;
    }
    out
}

proof fn lemma_first_char_step(s: Seq<char>, j: int, c: char)
    requires
        0 <= j < s.len(),
    ensures
        s[j] == c ==> first_char(s.skip(j), c) == 0,
        s[j] != c ==> first_char(s.skip(j), c) == 1 + first_char(s.skip(j + 1), c),
{
    assert(s.skip(j).drop_first() =~= s.skip(j + 1));
}

/// The index of the first `c` in `s` at or after `from`, or the length of `s`.
fn index_of_char(s: &Vec<char>, from: usize, c: char) -> (r: usize)
    requires
        from <= s.len(),
    ensures
        r == from + first_char(s@.skip(from as int), c),
        from <= r <= s.len(),
        r < s.len() ==> s@[r as int] == c,
{
    let mut j: usize = from;
    while j < s.len() && s[j] != c
        invariant
            from <= j <= s.len(),
            first_char(s@.skip(from as int), c) == (j - from) + first_char(s@.skip(j as int), c),
        decreases s.len() - j,
    {
        proof {
            lemma_first_char_step(s@, j as int, c);
        }
        j += 1;
    }
    proof {
        if j < s.len() {
            lemma_first_char_step(s@, j as int, c);
        } else {
            assert(s@.skip(j as int).len() == 0);
        }
    }
    j
}

/// Splits `s` into lines as [`lines_of`] describes.
fn split_lines(s: &Vec<char>) -> (r: Vec<Vec<char>>)
    ensures
        char_views(r@) == lines_of(s@),
{
    let mut out: Vec<Vec<char>> = Vec::new();
    let mut start: usize = 0;
    assert(s@.skip(0) =~= s@);
    while start < s.len()
        invariant
            start <= s.len(),
            char_views(out@) + lines_of(s@.skip(start as int)) == lines_of(s@),
        decreases s.len() - start,
    {
        let k = index_of_char(s, start, '\n');
        let ghost rest = s@.skip(start as int);
        let ghost before = char_views(out@);
        if k < s.len() {
            let end = if k > start && s[k - 1] == '\r' { k - 1 } else { k };
            let line = slice_chars(s, start, end);
            proof {
                assert(rest.take(k - start) =~= s@.subrange(start as int, k as int));
                assert(rest.skip(k - start + 1) =~= s@.skip(k + 1));
                assert(line@ == strip_cr(rest.take(k - start))) by {
                    if k > start && s@[k - 1] == '\r' {
                        assert(line@ =~= s@.subrange(start as int, k as int).drop_last());
                    }
                }
            }
            out.push(line);
            proof {
                assert(char_views(out@) =~= before.push(line@));
                assert(char_views(out@) + lines_of(s@.skip(k + 1)) =~= before + lines_of(rest));
            }
            start = k + 1;
        } else {
            let line = slice_chars(s, start, s.len());
            proof {
                assert(line@ =~= rest);
            }
            out.push(line);
            proof {
                assert(char_views(out@) =~= before.push(line@));
                assert(s@.skip(s.len() as int).len() == 0);
                assert(char_views(out@) + lines_of(s@.skip(s.len() as int)) =~= before
                    + lines_of(rest));
            }
            start = s.len();
        }
    }
    proof {
        assert(s@.skip(start as int).len() == 0);
        assert(char_views(out@) + lines_of(s@.skip(start as int)) =~= char_views(out@));
    }
    out
}

/// The characters of `s` from `a` to `b`, trimmed of white space.
fn trim_range(s: &Vec<char>, a: usize, b: usize) -> (r: Vec<char>)
    requires
        a <= b <= s.len(),
    ensures
        r@ == trim(s@.subrange(a as int, b as int)),
{
    let mut i: usize = a;
    while i < b && white(s[i])
        invariant
            a <= i <= b <= s.len(),
            trim_start(s@.subrange(a as int, b as int)) == trim_start(s@.subrange(i as int, b as int)),
        decreases b - i,
    {
        assert(s@.subrange(i as int, b as int).drop_first() =~= s@.subrange(i + 1, b as int));
        i += 1;
    }
    let mut j: usize = b;
    while j > i && white(s[j - 1])
        invariant
            a <= i <= j <= b <= s.len(),
            trim_end(s@.subrange(i as int, b as int)) == trim_end(s@.subrange(i as int, j as int)),
        decreases j - i,
    {
        assert(s@.subrange(i as int, j as int).drop_last() =~= s@.subrange(i as int, j - 1));
        j -= 1;
    }
    slice_chars(s, i, j)
}

/// Whether `n` occurs in `h` at `i`.
fn matches_at(h: &Vec<char>, n: &Vec<char>, i: usize) -> (r: bool)
    ensures
        r == occurs_at(h@, n@, i as int),
{
    if i > h.len() || n.len() > h.len() - i {
        return false;
    }
    let mut k: usize = 0;
    while k < n.len()
        invariant
            i + n.len() <= h.len(),
            k <= n.len(),
            forall|m: int| 0 <= m < k ==> h@[i + m] == n@[m],
        decreases n.len() - k,
    {
        if h[i + k] != n[k] {
            assert(h@.subrange(i as int, i + n.len())[k as int] != n@[k as int]);
            return false;
        }
        k += 1;
    }
    assert(h@.subrange(i as int, i + n.len()) =~= n@);
    true
}

proof fn lemma_first_unique(h: Seq<char>, n: Seq<char>, i: int)
    requires
        first_at(h, n, i),
    ensures
        find_spec(h, n) == Some(i),
{
    let c = choose|c: int| first_at(h, n, c);
    if c < i {
        assert(!occurs_at(h, n, c));
    } else if c > i {
        assert(!occurs_at(h, n, i));
    }
}

/// The first index at which `n` occurs in `h`.
fn find(h: &Vec<char>, n: &Vec<char>) -> (r: Option<usize>)
    ensures
        r matches Some(i) ==> find_spec(h@, n@) == Some(i as int) && occurs_at(h@, n@, i as int),
        r is None ==> find_spec(h@, n@) is None,
{
    let mut i: usize = 0;
    while i < h.len()
        invariant
            i <= h.len(),
            forall|j: int| 0 <= j < i ==> !occurs_at(h@, n@, j),
        decreases h.len() - i,
    {
        if matches_at(h, n, i) {
            proof {
                lemma_first_unique(h@, n@, i as int);
            }
            return Some(i);
        }
        i += 1;
    }
    if matches_at(h, n, i) {
        proof {
            lemma_first_unique(h@, n@, i as int);
        }
        return Some(i);
    }
    assert(!occurs(h@, n@)) by {
        assert forall|j: int| !occurs_at(h@, n@, j) by {
            if 0 <= j && j <= i {
            }
        }
    }
    None
}

/// The literals that the reading looks for, as character vectors.
struct Marks {
    open_volumes: Vec<char>,
    open: Vec<char>,
    close: Vec<char>,
    volumes: Vec<char>,
}

impl Marks {
    spec fn wf(&self) -> bool {
        &&& self.open_volumes@ == "<string>/Volumes"@
        &&& self.open@ == "<string>"@
        &&& self.close@ == "</string>"@
        &&& self.volumes@ == "/Volumes"@
    }

    fn new() -> (r: Self)
        ensures
            r.wf(),
    {
        Marks {
            open_volumes: chars_of("<string>/Volumes"),
            open: chars_of("<string>"),
            close: chars_of("</string>"),
            volumes: chars_of("/Volumes"),
        }
    }
}

fn tag_value_in(l: &Vec<char>, m: &Marks) -> (r: Option<Vec<char>>)
    requires
        m.wf(),
    ensures
        r matches Some(v) ==> tag_value(l@) == Some(v@),
        r is None ==> tag_value(l@) is None,
{
    if find(l, &m.open_volumes).is_none() {
        return None;
    }
    match (find(l, &m.open), find(l, &m.close)) {
        (Some(st), Some(en)) => {
            if st <= en && en - st >= 8 {
                Some(trim_range(l, st + 8, en))
            } else {
                None
            }
        },
        _ => None,
    }
}

fn first_tag_value_in(ls: &Vec<Vec<char>>, m: &Marks) -> (r: Option<Vec<char>>)
    requires
        m.wf(),
    ensures
        r matches Some(v) ==> first_tag_value(char_views(ls@)) == Some(v@),
        r is None ==> first_tag_value(char_views(ls@)) is None,
{
    let ghost vs = char_views(ls@);
    let mut i: usize = 0;
    assert(vs.skip(0) =~= vs);
    while i < ls.len()
        invariant
            m.wf(),
            i <= ls.len(),
            vs == char_views(ls@),
            first_tag_value(vs) == first_tag_value(vs.skip(i as int)),
        decreases ls.len() - i,
    {
        let found = tag_value_in(&ls[i], m);
        proof {
            assert(vs.skip(i as int)[0] == ls@[i as int]@);
            assert(vs.skip(i as int).drop_first() =~= vs.skip(i + 1));
        }
        if found.is_some() {
            return found;
        }
        i += 1;
    }
    assert(vs.skip(i as int).len() == 0);
    None
}

fn first_volume_line_in(ls: &Vec<Vec<char>>, m: &Marks) -> (r: Option<usize>)
    requires
        m.wf(),
    ensures
        r matches Some(i) ==> {
            &&& first_volume_line(char_views(ls@)) == Some(i as int)
            &&& i < ls.len()
            &&& occurs(ls@[i as int]@, "/Volumes"@)
        },
        r is None ==> first_volume_line(char_views(ls@)) is None,
{
    let ghost vs = char_views(ls@);
    let mut i: usize = 0;
    while i < ls.len()
        invariant
            m.wf(),
            i <= ls.len(),
            vs == char_views(ls@),
            forall|j: int| 0 <= j < i ==> !occurs(#[trigger] vs[j], "/Volumes"@),
        decreases ls.len() - i,
    {
        if find(&ls[i], &m.volumes).is_some() {
            proof {
                assert(vs[i as int] == ls@[i as int]@);
                assert(occurs(vs[i as int], "/Volumes"@));
                assert(vs[i as int] == ls@[i as int]@);
                let c = choose|c: int|
                    0 <= c < vs.len() && occurs(#[trigger] vs[c], "/Volumes"@) && forall|j: int|
                        0 <= j < c ==> !occurs(#[trigger] vs[j], "/Volumes"@);
                if c < i {
                } else if c > i {
                    assert(!occurs(vs[i as int], "/Volumes"@));
                }
            }
            return Some(i);
        }
        assert(vs[i as int] == ls@[i as int]@);
        i += 1;
    }
    None
}

fn volume_text_in(l: &Vec<char>, m: &Marks) -> (r: Vec<char>)
    requires
        m.wf(),
        occurs(l@, "/Volumes"@),
    ensures
        r@ == volume_text(l@),
{
    let st = match find(l, &m.volumes) {
        Some(st) => st,
        None => 0,
    };
    let rest = slice_chars(l, st, l.len());
    assert(rest@ =~= l@.skip(st as int));
    match find(&rest, &m.close) {
        Some(e) => {
            assert(rest@.take(e as int) =~= rest@.subrange(0, e as int));
            trim_range(&rest, 0, e)
        },
        None => {
            assert(rest@ =~= rest@.subrange(0, rest@.len() as int));
            trim_range(&rest, 0, rest.len())
        },
    }
}

/// The `n`th tab-separated field of `s`, trimmed.
fn trimmed_field(s: &Vec<char>, n: usize) -> (r: Option<Vec<char>>)
    ensures
        r matches Some(v) ==> field(s@, n as nat) matches Some(f) && v@ == trim(f),
        r is None ==> field(s@, n as nat) is None,
{
    let mut p: usize = 0;
    let mut left: usize = n;
    assert(s@.skip(0) =~= s@);
    loop
        invariant
            p <= s.len(),
            field(s@, n as nat) == field(s@.skip(p as int), left as nat),
        decreases left,
    {
        let k = index_of_char(s, p, '\t');
        proof {
            assert(s@.skip(p as int).take(k - p) =~= s@.subrange(p as int, k as int));
        }
        if left == 0 {
            return Some(trim_range(s, p, k));
        }
        if k < s.len() {
            proof {
                assert(s@.skip(p as int).skip(k - p + 1) =~= s@.skip(k + 1));
            }
            p = k + 1;
            left = left - 1;
        } else {
            return None;
        }
    }
}

/// The mount point named in the output of the disk-image tool, read as
/// [`mount_point_of`] describes; `None` where no reading finds one.
pub fn parse_mount_point(output: &str) -> (r: Option<String>)
    ensures
        r matches Some(p) ==> mount_point_of(output@) == Some(p@),
        r is None ==> mount_point_of(output@) is None,
{
    let m = Marks::new();
    let text = chars_of(output);
    let ls = split_lines(&text);
    let ghost vs = char_views(ls@);
    if let Some(v) = first_tag_value_in(&ls, &m) {
        return Some(string_of(&v));
    }
    if let Some(i) = first_volume_line_in(&ls, &m) {
        assert(vs[i as int] == ls@[i as int]@);
        let v = volume_text_in(&ls[i], &m);
        return Some(string_of(&v));
    }
    if ls.len() == 0 {
        return None;
    }
    assert(vs[vs.len() - 1] == ls@[ls.len() - 1]@);
    match trimmed_field(&ls[ls.len() - 1], 2) {
        Some(f) => Some(string_of(&f)),
        None => None,
    }
}

/// Whether `needle` occurs in `hay`.
pub fn find_in(hay: &str, needle: &str) -> (r: bool)
    ensures
        r == occurs(hay@, needle@),
{
    let h = chars_of(hay);
    let n = chars_of(needle);
    find(&h, &n).is_some()
}

} // verus!
