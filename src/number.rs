//! Decimal numbers in text: reading a leading run of digits and writing a
//! natural number.
use vstd::prelude::*;

verus! {

pub open spec fn is_digit(c: char) -> bool {
    '0' <= c && c <= '9'
}

pub open spec fn digit_value(c: char) -> nat {
    (c as u32 - '0' as u32) as nat
}

pub open spec fn digit_char(d: nat) -> char {
    (d + '0' as u32) as char
}

/// Length of the run of digits that `s` starts with.
pub open spec fn digit_run(s: Seq<char>) -> nat
    decreases s.len(),
{
    if s.len() > 0 && is_digit(s[0]) {
        1 + digit_run(s.drop_first())
    } else {
        0
    }
}

/// The number that a sequence of digits writes.
pub open spec fn value_of(d: Seq<char>) -> nat
    decreases d.len(),
{
    if d.len() == 0 {
        0
    } else {
        value_of(d.drop_last()) * 10 + digit_value(d.last())
    }
}

/// The number that `s` starts with, if it starts with a digit.
pub open spec fn leading_number(s: Seq<char>) -> Option<nat> {
    if digit_run(s) == 0 {
        None
    } else {
        Some(value_of(s.take(digit_run(s) as int)))
    }
}

/// The decimal digits of `n`, without leading zeros.
pub open spec fn decimal(n: nat) -> Seq<char>
    decreases n,
{
    if n < 10 {
        seq![digit_char(n)]
    } else {
        decimal(n / 10).push(digit_char(n % 10))
    }
}

pub proof fn lemma_digit_run(s: Seq<char>, k: int)
    requires
        0 <= k <= s.len(),
        forall|i: int| 0 <= i < k ==> is_digit(s[i]),
        k == s.len() || !is_digit(s[k]),
    ensures
        digit_run(s) == k,
    decreases k,
{
    if k > 0 {
        lemma_digit_run(s.drop_first(), k - 1);
    }
}

/// Reads the number that `v[lo..hi]` starts with; `None` when it does not
/// start with a digit or the number does not fit in a `u64`.
pub fn parse_leading(v: &Vec<char>, lo: usize, hi: usize) -> (r: Option<u64>)
    requires
        lo <= hi <= v@.len(),
    ensures
        match leading_number(v@.subrange(lo as int, hi as int)) {
            Some(n) => if n <= u64::MAX {
                r == Some(n as u64)
            } else {
                r is None
            },
            None => r is None,
        },
{
    let ghost s = v@.subrange(lo as int, hi as int);
    let mut i = lo;
    let mut acc: u64 = 0;
    let mut fits = true;
    while i < hi && '0' <= v[i] && v[i] <= '9'
        invariant
            lo <= i <= hi <= v@.len(),
            s == v@.subrange(lo as int, hi as int),
            forall|j: int| lo <= j < i ==> is_digit(v@[j]),
            fits ==> acc == value_of(v@.subrange(lo as int, i as int)),
            !fits ==> value_of(v@.subrange(lo as int, i as int)) > u64::MAX,
        decreases hi - i,
    {
        let d = (v[i] as u32 - '0' as u32) as u64;
        let ghost p = v@.subrange(lo as int, i + 1);
        assert(p.drop_last() =~= v@.subrange(lo as int, i as int));
        assert(value_of(p) == value_of(v@.subrange(lo as int, i as int)) * 10 + d);
        if fits && acc <= (u64::MAX - d) / 10 {
            acc = acc * 10 + d;
        } else {
            assert(value_of(p) > u64::MAX) by (nonlinear_arith)
                requires
                    value_of(p) == value_of(v@.subrange(lo as int, i as int)) * 10 + d,
                    fits ==> acc == value_of(v@.subrange(lo as int, i as int)),
                    fits ==> acc > (u64::MAX - d) / 10,
                    !fits ==> value_of(v@.subrange(lo as int, i as int)) > u64::MAX,
                    d <= 9,
            ;
            fits = false;
        }
        i = i + 1;
    }
    proof {
        lemma_digit_run(s, i - lo);
        assert(s.take(i - lo) =~= v@.subrange(lo as int, i as int));
    }
    if i == lo || !fits {
        None
    } else {
        Some(acc)
    }
}

/// The decimal digits of `n`.
pub fn decimal_string(n: u64) -> (r: String)
    ensures
        r@ == decimal(n as nat),
    decreases n,
{
    if n < 10 {
        let mut r = String::new();
        r.push(digit_of(n));
        r
    } else {
        let mut r = decimal_string(n / 10);
        r.push(digit_of(n % 10));
        r
    }
}

fn digit_of(d: u64) -> (c: char)
    requires
        d < 10,
    ensures
        c == digit_char(d as nat),
{
    ((d as u8) + 48) as char
}

} // verus!
