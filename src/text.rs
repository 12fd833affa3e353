//! Character-level text model shared by the parsers: lines, trimming,
//! substring search and the small builders that turn characters back into
//! strings.
use vstd::prelude::*;

verus! {

/// Relies on `String::push`: appends one character at the end.
pub assume_specification[ String::push ](s: &mut String, ch: char)
    ensures
        final(s)@ == old(s)@.push(ch),
;

/// Unicode `White_Space`, the set that `char::is_whitespace` accepts.
pub open spec fn is_space(c: char) -> bool {
    ('\t' <= c && c <= '\r') || c == ' ' || c == '\u{85}' || c == '\u{a0}' || c == '\u{1680}'
        || ('\u{2000}' <= c && c <= '\u{200a}') || c == '\u{2028}' || c == '\u{2029}'
        || c == '\u{202f}' || c == '\u{205f}' || c == '\u{3000}'
}

/// ASCII case folding of one character; other characters are kept.
pub open spec fn fold_char(c: char) -> char {
    if 'A' <= c && c <= 'Z' {
        ((c as u32) + 32) as char
    } else {
        c
    }
}

pub open spec fn fold_ascii(s: Seq<char>) -> Seq<char> {
    s.map_values(|c: char| fold_char(c))
}

/// `n` occurs in `h` as a contiguous run.
pub open spec fn contains(h: Seq<char>, n: Seq<char>) -> bool {
    exists|i: int| 0 <= i && i + n.len() <= h.len() && #[trigger] h.subrange(i, i + n.len()) == n
}

/// Index of the first line feed, or the length when there is none.
pub open spec fn first_nl(s: Seq<char>) -> nat
    decreases s.len(),
{
    if s.len() == 0 || s[0] == '\n' {
        0
    } else {
        1 + first_nl(s.drop_first())
    }
}

pub open spec fn strip_cr(l: Seq<char>) -> Seq<char> {
    if l.len() > 0 && l.last() == '\r' {
        l.drop_last()
    } else {
        l
    }
}

/// The lines of a text: split at each line feed, one carriage return before
/// it dropped, and no empty line after a final line feed.
pub open spec fn lines(s: Seq<char>) -> Seq<Seq<char>>
    decreases s.len(),
{
    if s.len() == 0 {
        seq![]
    } else {
        let k = first_nl(s) as int;
        if k < s.len() {
            seq![strip_cr(s.take(k))] + lines(s.skip(k + 1))
        } else {
            seq![strip_cr(s)]
        }
    }
}

pub open spec fn trim_start(s: Seq<char>) -> Seq<char>
    decreases s.len(),
{
    if s.len() > 0 && is_space(s[0]) {
        trim_start(s.drop_first())
    } else {
        s
    }
}

pub open spec fn trim_end(s: Seq<char>) -> Seq<char>
    decreases s.len(),
{
    if s.len() > 0 && is_space(s.last()) {
        trim_end(s.drop_last())
    } else {
        s
    }
}

/// White space removed at both ends.
pub open spec fn trim(s: Seq<char>) -> Seq<char> {
    trim_end(trim_start(s))
}

/// What follows the last `c` of `l`; all of `l` when `c` does not occur.
pub open spec fn after_last(l: Seq<char>, c: char) -> Seq<char>
    decreases l.len(),
{
    if l.len() == 0 || l.last() == c {
        seq![]
    } else {
        after_last(l.drop_last(), c).push(l.last())
    }
}

/// `s` with every `c` at its start removed.
pub open spec fn strip_start(s: Seq<char>, c: char) -> Seq<char>
    decreases s.len(),
{
    if s.len() > 0 && s[0] == c {
        strip_start(s.drop_first(), c)
    } else {
        s
    }
}

/// `s` with every `c` at its end removed.
pub open spec fn strip_end(s: Seq<char>, c: char) -> Seq<char>
    decreases s.len(),
{
    if s.len() > 0 && s.last() == c {
        strip_end(s.drop_last(), c)
    } else {
        s
    }
}

/// `s` with the `c`s that surround it removed; those inside are kept.
pub open spec fn strip_char(s: Seq<char>, c: char) -> Seq<char> {
    strip_end(strip_start(s, c), c)
}

/// How a line is matched against a key.
pub open spec fn line_has(l: Seq<char>, key: Seq<char>, at_start: bool) -> bool {
    if at_start {
        key.is_prefix_of(l)
    } else {
        contains(l, key)
    }
}

/// The first of `ls` that has `key`.
pub open spec fn first_line(ls: Seq<Seq<char>>, key: Seq<char>, at_start: bool) -> Option<
    Seq<char>,
>
    decreases ls.len(),
{
    if ls.len() == 0 {
        None
    } else if line_has(ls[0], key, at_start) {
        Some(ls[0])
    } else {
        first_line(ls.drop_first(), key, at_start)
    }
}

/// The line that `first_line` picks has the key.
pub proof fn lemma_first_line_has(ls: Seq<Seq<char>>, key: Seq<char>, at_start: bool)
    ensures
        first_line(ls, key, at_start) matches Some(l) ==> line_has(l, key, at_start),
    decreases ls.len(),
{
    if ls.len() > 0 && !line_has(ls[0], key, at_start) {
        lemma_first_line_has(ls.drop_first(), key, at_start);
    }
}

pub proof fn lemma_first_nl(s: Seq<char>, k: int)
    requires
        0 <= k <= s.len(),
        forall|i: int| 0 <= i < k ==> s[i] != '\n',
        k == s.len() || s[k] == '\n',
    ensures
        first_nl(s) == k,
    decreases k,
{
    if k > 0 {
        lemma_first_nl(s.drop_first(), k - 1);
    }
}

/// The characters of a string, in order.
pub fn chars_of(s: &str) -> (r: Vec<char>)
    ensures
        r@ == s@,
{
    let mut r: Vec<char> = Vec::new();
    for c in it: s.chars()
        invariant
            it.seq() == s@,
            r@ == s@.take(it.index() as int),
    {
        r.push(c);
    }
    assert(r@ =~= s@);
    r
}

/// Unfolds `lines` at a line that starts at `start` and ends before `k`.
pub proof fn lemma_lines_step(s: Seq<char>, start: int, k: int)
    requires
        0 <= start < k <= s.len() || 0 <= start == k < s.len(),
        forall|i: int| start <= i < k ==> s[i] != '\n',
        k == s.len() || s[k] == '\n',
    ensures
        lines(s.skip(start)) == seq![strip_cr(s.subrange(start, k))] + lines(
            s.skip(if k < s.len() { k + 1 } else { k }),
        ),
{
    let t = s.skip(start);
    lemma_first_nl(t, k - start);
    assert(t.take(k - start) =~= s.subrange(start, k));
    if k < s.len() {
        assert(t.skip(k - start + 1) =~= s.skip(k + 1));
    } else {
        assert(t =~= s.subrange(start, k));
        assert(s.skip(k).len() == 0);
        assert(seq![strip_cr(t)] + lines(s.skip(k)) =~= seq![strip_cr(t)]);
    }
}

/// End of the line that starts at `start`: the next line feed, or the end.
pub fn line_end(v: &Vec<char>, start: usize) -> (k: usize)
    requires
        start <= v@.len(),
    ensures
        start <= k <= v@.len(),
        forall|i: int| start <= i < k ==> v@[i] != '\n',
        k == v@.len() || v@[k as int] == '\n',
{
    let mut k = start;
    while k < v.len() && v[k] != '\n'
        invariant
            start <= k <= v@.len(),
            forall|i: int| start <= i < k ==> v@[i] != '\n',
        decreases v@.len() - k,
    {
        k = k + 1;
    }
    k
}

/// Index past the line's content: one carriage return before `k` is left out.
pub fn content_end(v: &Vec<char>, start: usize, k: usize) -> (e: usize)
    requires
        start <= k <= v@.len(),
    ensures
        start <= e <= k,
        v@.subrange(start as int, e as int) == strip_cr(v@.subrange(start as int, k as int)),
{
    let ghost l = v@.subrange(start as int, k as int);
    if k > start && v[k - 1] == '\r' {
        assert(l.drop_last() =~= v@.subrange(start as int, k - 1));
        k - 1
    } else {
        k
    }
}

/// Whether `n` occurs in `h[lo..hi]`.
pub fn occurs_in(h: &Vec<char>, lo: usize, hi: usize, n: &Vec<char>) -> (r: bool)
    requires
        lo <= hi <= h@.len(),
    ensures
        r == contains(h@.subrange(lo as int, hi as int), n@),
{
    let ghost w = h@.subrange(lo as int, hi as int);
    if n.len() > hi - lo {
        return false;
    }
    let last = hi - lo - n.len();
    let mut i: usize = 0;
    while i <= last
        invariant
            lo <= hi <= h@.len(),
            n@.len() <= hi - lo,
            last == hi - lo - n@.len(),
            i <= last + 1,
            w == h@.subrange(lo as int, hi as int),
            forall|p: int| 0 <= p < i ==> #[trigger] w.subrange(p, p + n@.len()) != n@,
        decreases last + 1 - i,
    {
        if starts_with_at(h, lo + i, hi, n) {
            assert(w.subrange(i as int, i + n@.len()) =~= n@);
            return true;
        }
        assert(w.subrange(i as int, i + n@.len()) != n@) by {
            if w.subrange(i as int, i + n@.len()) == n@ {
                assert(n@ =~= h@.subrange(lo + i, hi as int).subrange(0, n@.len() as int));
            }
        }
        i = i + 1;
    }
    false
}

/// Whether `h[lo..hi]` begins with `n`.
pub fn starts_with_at(h: &Vec<char>, lo: usize, hi: usize, n: &Vec<char>) -> (r: bool)
    requires
        lo <= hi <= h@.len(),
    ensures
        r == n@.is_prefix_of(h@.subrange(lo as int, hi as int)),
{
    if n.len() > hi - lo {
        return false;
    }
    let mut j: usize = 0;
    while j < n.len()
        invariant
            lo <= hi <= h@.len(),
            n@.len() <= hi - lo,
            j <= n@.len(),
            forall|q: int| 0 <= q < j ==> n@[q] == h@[lo + q],
        decreases n@.len() - j,
    {
        if n[j] != h[lo + j] {
            return false;
        }
        j = j + 1;
    }
    true
}

/// The characters of `v[lo..hi]` as a string.
pub fn string_of(v: &Vec<char>, lo: usize, hi: usize) -> (r: String)
    requires
        lo <= hi <= v@.len(),
    ensures
        r@ == v@.subrange(lo as int, hi as int),
{
    let mut r = String::new();
    let mut i = lo;
    while i < hi
        invariant
            lo <= i <= hi <= v@.len(),
            r@ == v@.subrange(lo as int, i as int),
        decreases hi - i,
    {
        r.push(v[i]);
        assert(r@ =~= v@.subrange(lo as int, i + 1));
        i = i + 1;
    }
    r
}

/// The first line of `v` that has `key`, as bounds into `v`.
pub fn find_line(v: &Vec<char>, key: &Vec<char>, at_start: bool) -> (r: Option<(usize, usize)>)
    ensures
        match r {
            None => first_line(lines(v@), key@, at_start) is None,
            Some((a, b)) => a <= b <= v@.len() && first_line(lines(v@), key@, at_start) == Some(
                v@.subrange(a as int, b as int),
            ),
        },
{
    let mut pos: usize = 0;
    assert(v@.skip(0) =~= v@);
    while pos < v.len()
        invariant
            pos <= v@.len(),
            first_line(lines(v@), key@, at_start) == first_line(
                lines(v@.skip(pos as int)),
                key@,
                at_start,
            ),
        decreases v@.len() - pos,
    {
        let k = line_end(v, pos);
        let e = content_end(v, pos, k);
        let next = if k < v.len() { k + 1 } else { k };
        proof {
            lemma_lines_step(v@, pos as int, k as int);
            let ls = lines(v@.skip(pos as int));
            assert(ls.drop_first() =~= lines(v@.skip(next as int)));
        }
        let hit = if at_start { starts_with_at(v, pos, e, key) } else { occurs_in(v, pos, e, key) };
        if hit {
            return Some((pos, e));
        }
        pos = next;
    }
    assert(v@.skip(pos as int).len() == 0);
    None
}

/// Whether `c` is white space.
pub fn is_space_char(c: char) -> (r: bool)
    ensures
        r == is_space(c),
{
    ('\t' <= c && c <= '\r') || c == ' ' || c == '\u{85}' || c == '\u{a0}' || c == '\u{1680}'
        || ('\u{2000}' <= c && c <= '\u{200a}') || c == '\u{2028}' || c == '\u{2029}'
        || c == '\u{202f}' || c == '\u{205f}' || c == '\u{3000}'
}

/// Start of `v[lo..hi]` once its leading white space is skipped.
pub fn skip_space(v: &Vec<char>, lo: usize, hi: usize) -> (a: usize)
    requires
        lo <= hi <= v@.len(),
    ensures
        lo <= a <= hi,
        v@.subrange(a as int, hi as int) == trim_start(v@.subrange(lo as int, hi as int)),
{
    let mut a = lo;
    while a < hi && is_space_char(v[a])
        invariant
            lo <= a <= hi <= v@.len(),
            trim_start(v@.subrange(lo as int, hi as int)) == trim_start(
                v@.subrange(a as int, hi as int),
            ),
        decreases hi - a,
    {
        assert(v@.subrange(a as int, hi as int).drop_first() =~= v@.subrange(a + 1, hi as int));
        a = a + 1;
    }
    a
}

/// Bounds of `v[lo..hi]` with white space removed at both ends.
pub fn trim_bounds(v: &Vec<char>, lo: usize, hi: usize) -> (r: (usize, usize))
    requires
        lo <= hi <= v@.len(),
    ensures
        lo <= r.0 <= r.1 <= hi,
        v@.subrange(r.0 as int, r.1 as int) == trim(v@.subrange(lo as int, hi as int)),
{
    let a = skip_space(v, lo, hi);
    let mut b = hi;
    while b > a && is_space_char(v[b - 1])
        invariant
            lo <= a <= b <= hi <= v@.len(),
            trim_start(v@.subrange(lo as int, hi as int)) == v@.subrange(a as int, hi as int),
            trim_end(v@.subrange(a as int, hi as int)) == trim_end(v@.subrange(a as int, b as int)),
        decreases b - a,
    {
        assert(v@.subrange(a as int, b as int).drop_last() =~= v@.subrange(a as int, b - 1));
        b = b - 1;
    }
    (a, b)
}

/// `s` with white space removed at both ends.
pub fn trimmed(s: &str) -> (r: String)
    ensures
        r@ == trim(s@),
{
    let v = chars_of(s);
    let (a, b) = trim_bounds(&v, 0, v.len());
    assert(v@.subrange(0, v@.len() as int) =~= s@);
    string_of(&v, a, b)
}

/// `s` with white space removed at its end.
pub fn trimmed_end(s: &str) -> (r: String)
    ensures
        r@ == trim_end(s@),
{
    let v = chars_of(s);
    let mut b = v.len();
    assert(v@.subrange(0, b as int) =~= s@);
    while b > 0 && is_space_char(v[b - 1])
        invariant
            b <= v@.len(),
            v@ == s@,
            trim_end(s@) == trim_end(v@.subrange(0, b as int)),
        decreases b,
    {
        assert(v@.subrange(0, b as int).drop_last() =~= v@.subrange(0, b - 1));
        b = b - 1;
    }
    string_of(&v, 0, b)
}

/// How many lines `v` holds.
pub fn line_count(v: &Vec<char>) -> (r: usize)
    ensures
        r == lines(v@).len(),
{
    let mut pos: usize = 0;
    let mut n: usize = 0;
    assert(v@.skip(0) =~= v@);
    while pos < v.len()
        invariant
            pos <= v@.len(),
            n <= pos,
            lines(v@).len() == n + lines(v@.skip(pos as int)).len(),
        decreases v@.len() - pos,
    {
        let k = line_end(v, pos);
        proof {
            lemma_lines_step(v@, pos as int, k as int);
        }
        pos = if k < v.len() { k + 1 } else { k };
        n = n + 1;
    }
    assert(v@.skip(pos as int).len() == 0);
    n
}

/// What follows the last `c` in `v[lo..hi]`, with the `q`s around it removed.
pub fn after_last_stripped(v: &Vec<char>, lo: usize, hi: usize, c: char, q: char) -> (r: String)
    requires
        lo <= hi <= v@.len(),
    ensures
        r@ == strip_char(after_last(v@.subrange(lo as int, hi as int), c), q),
{
    let ghost l = v@.subrange(lo as int, hi as int);
    let mut s = hi;
    while s > lo && v[s - 1] != c
        invariant
            lo <= s <= hi <= v@.len(),
            l == v@.subrange(lo as int, hi as int),
            after_last(l, c) == after_last(v@.subrange(lo as int, s as int), c) + v@.subrange(
                s as int,
                hi as int,
            ),
        decreases s - lo,
    {
        let ghost p = v@.subrange(lo as int, s as int);
        assert(p.drop_last() =~= v@.subrange(lo as int, s - 1));
        assert(after_last(p, c) + v@.subrange(s as int, hi as int) =~= after_last(
            v@.subrange(lo as int, s - 1),
            c,
        ) + v@.subrange(s - 1, hi as int));
        s = s - 1;
    }
    assert(after_last(l, c) =~= v@.subrange(s as int, hi as int));
    let mut a = s;
    while a < hi && v[a] == q
        invariant
            s <= a <= hi <= v@.len(),
            strip_start(v@.subrange(s as int, hi as int), q) == strip_start(
                v@.subrange(a as int, hi as int),
                q,
            ),
        decreases hi - a,
    {
        assert(v@.subrange(a as int, hi as int).drop_first() =~= v@.subrange(a + 1, hi as int));
        a = a + 1;
    }
    let mut b = hi;
    while b > a && v[b - 1] == q
        invariant
            s <= a <= b <= hi <= v@.len(),
            strip_start(v@.subrange(s as int, hi as int), q) == v@.subrange(a as int, hi as int),
            strip_end(v@.subrange(a as int, hi as int), q) == strip_end(
                v@.subrange(a as int, b as int),
                q,
            ),
        decreases b - a,
    {
        assert(v@.subrange(a as int, b as int).drop_last() =~= v@.subrange(a as int, b - 1));
        b = b - 1;
    }
    string_of(v, a, b)
}

} // verus!
