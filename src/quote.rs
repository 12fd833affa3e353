//! The quote of the day: picking the quote out of the service's answer, and
//! deciding between the cached answer and a new one.
use vstd::prelude::*;

use crate::text::{
    chars_of, content_end, lemma_lines_step, line_end, lines, starts_with_at, string_of, trim,
    trim_bounds,
};

verus! {

/// The line of the answer that holds the quote.
pub const QUOTE_LINE: usize = 7;

/// `s` with every occurrence of `pat`, taken from the left without overlap,
/// removed.
pub open spec fn remove_all(s: Seq<char>, pat: Seq<char>) -> Seq<char>
    decreases s.len(),
{
    if s.len() == 0 {
        seq![]
    } else if pat.len() > 0 && pat.is_prefix_of(s) {
        remove_all(s.skip(pat.len() as int), pat)
    } else {
        seq![s[0]] + remove_all(s.drop_first(), pat)
    }
}

/// The quote that an answer holds: its line at `QUOTE_LINE`, trimmed, with
/// the field's key and closing quote removed; empty when the answer is
/// shorter.
pub open spec fn quote_text(body: Seq<char>) -> Seq<char> {
    let ls = lines(body);
    if ls.len() > QUOTE_LINE {
        remove_all(remove_all(trim(ls[QUOTE_LINE as int]), "\"quote\": \""@), "\","@)
    } else {
        seq![]
    }
}

/// Bounds of line `n` of `v`, if it has that many lines.
fn nth_line(v: &Vec<char>, n: usize) -> (r: Option<(usize, usize)>)
    ensures
        match r {
            Some((a, b)) => a <= b <= v@.len() && n < lines(v@).len() && lines(v@)[n as int]
                == v@.subrange(a as int, b as int),
            None => n >= lines(v@).len(),
        },
{
    let mut pos: usize = 0;
    let mut i: usize = 0;
    assert(v@.skip(0) =~= v@);
    while pos < v.len()
        invariant
            pos <= v@.len(),
            i <= n,
            lines(v@).skip(i as int) == lines(v@.skip(pos as int)),
            i <= lines(v@).len(),
        decreases v@.len() - pos,
    {
        let k = line_end(v, pos);
        let e = content_end(v, pos, k);
        let next = if k < v.len() { k + 1 } else { k };
        proof {
            lemma_lines_step(v@, pos as int, k as int);
            assert(lines(v@.skip(pos as int)).len() > 0);
            assert(lines(v@).skip(i as int).len() == lines(v@).len() - i);
            assert(i < lines(v@).len());
            assert(lines(v@).skip(i as int)[0] == lines(v@)[i as int]);
            assert(lines(v@).skip(i + 1) =~= lines(v@).skip(i as int).drop_first());
            assert(lines(v@.skip(pos as int)).drop_first() =~= lines(v@.skip(next as int)));
        }
        if i == n {
            return Some((pos, e));
        }
        pos = next;
        i = i + 1;
    }
    assert(v@.skip(pos as int).len() == 0);
    assert(lines(v@).skip(i as int).len() == 0);
    None
}

/// `v[lo..hi]` with every occurrence of `pat` removed.
fn remove_all_in(v: &Vec<char>, lo: usize, hi: usize, pat: &Vec<char>) -> (r: Vec<char>)
    requires
        lo <= hi <= v@.len(),
        pat@.len() > 0,
    ensures
        r@ == remove_all(v@.subrange(lo as int, hi as int), pat@),
{
    let mut out: Vec<char> = Vec::new();
    let mut i = lo;
    while i < hi
        invariant
            lo <= i <= hi <= v@.len(),
            pat@.len() > 0,
            out@ + remove_all(v@.subrange(i as int, hi as int), pat@) == remove_all(
                v@.subrange(lo as int, hi as int),
                pat@,
            ),
        decreases hi - i,
    {
        let ghost s = v@.subrange(i as int, hi as int);
        if starts_with_at(v, i, hi, pat) {
            assert(s.skip(pat@.len() as int) =~= v@.subrange(i + pat@.len(), hi as int));
            i = i + pat.len();
        } else {
            assert(s.drop_first() =~= v@.subrange(i + 1, hi as int));
            let ghost old_out = out@;
            out.push(v[i]);
            assert(old_out + remove_all(s, pat@) =~= out@ + remove_all(
                v@.subrange(i + 1, hi as int),
                pat@,
            ));
            i = i + 1;
        }
    }
    assert(v@.subrange(i as int, hi as int).len() == 0);
    assert(out@ + seq![] =~= out@);
    out
}

/// Picks the quote out of the quote service's answer.
pub fn parse_quote(body: &str) -> (r: String)
    ensures
        r@ == quote_text(body@),
{
    let v = chars_of(body);
    match nth_line(&v, QUOTE_LINE) {
        None => String::new(),
        Some((a, b)) => {
            let (c, d) = trim_bounds(&v, a, b);
            let key = chars_of("\"quote\": \"");
            let end = chars_of("\",");
            proof {
                reveal_strlit("\"quote\": \"");
                reveal_strlit("\",");
            }
            let w = remove_all_in(&v, c, d, &key);
            let x = remove_all_in(&w, 0, w.len(), &end);
            assert(w@.subrange(0, w@.len() as int) =~= w@);
            string_of(&x, 0, x.len())
        },
    }
}

/// The quote of the day: taken from the cached answer when there is one;
/// otherwise from the answer that `fetch` brings, empty when it brings none.
pub fn get_quote<F>(cached: Option<String>, fetch: F) -> (r: String)
    where
        F: FnOnce() -> Option<String>,
    requires
        fetch.requires(()),
    ensures
        match cached {
            Some(b) => r@ == quote_text(b@),
            None => exists|o: Option<String>| #[trigger]
                fetch.ensures((), o) && r@ == match o {
                    Some(b) => quote_text(b@),
                    None => seq![],
                },
        },
{
    match cached {
        Some(b) => parse_quote(b.as_str()),
        None => {
            let o = fetch();
            match o {
                Some(b) => parse_quote(b.as_str()),
                None => String::new(),
            }
        },
    }
}

} // verus!
