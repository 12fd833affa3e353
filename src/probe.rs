//! Readings taken from the kernel's descriptor files: CPU model, memory
//! figures and temperature.
use vstd::prelude::*;

use crate::number::{
    decimal, decimal_string, digit_char, digit_run, is_digit, leading_number, lemma_digit_run,
    parse_leading, value_of,
};
use crate::text::{
    chars_of, find_line, first_line, lemma_first_line_has, lines, skip_space, string_of, trim,
    trim_bounds, trim_start,
};

verus! {

/// Kilobytes in a gigabyte, the unit the memory line is shown in.
pub const KB_PER_GB: u64 = 1000000;

/// Memory figures in kilobytes, each with the number of kilobytes that make
/// one displayed gigabyte.
#[derive(Clone, Copy, Debug, PartialEq, Eq, Structural)]
pub struct Memory {
    pub used_kb: u64,
    pub total_kb: u64,
    pub used_scale: u64,
    pub total_scale: u64,
}

impl Memory {
    pub open spec fn from_kb_spec(used_kb: u64, total_kb: u64) -> Memory {
        Memory { used_kb, total_kb, used_scale: KB_PER_GB, total_scale: KB_PER_GB }
    }

    pub open spec fn wf(&self) -> bool {
        self.used_scale > 0 && self.total_scale > 0
    }

    /// Figures shown in decimal gigabytes.
    pub fn from_kb(used_kb: u64, total_kb: u64) -> (r: Memory)
        ensures
            r == Memory::from_kb_spec(used_kb, total_kb),
            r.wf(),
    {
        Memory { used_kb, total_kb, used_scale: KB_PER_GB, total_scale: KB_PER_GB }
    }
}

/// What follows the first `": "` of a line.
pub open spec fn after_separator(l: Seq<char>) -> Option<Seq<char>>
    decreases l.len(),
{
    if l.len() < 2 {
        None
    } else if l[0] == ':' && l[1] == ' ' {
        Some(l.skip(2))
    } else {
        after_separator(l.drop_first())
    }
}

/// The CPU model that a CPU descriptor names: on its first line that starts
/// with `model name`, what follows the first `": "`.
pub open spec fn cpu_model_spec(contents: Seq<char>) -> Option<Seq<char>> {
    match first_line(lines(contents), "model name"@, true) {
        Some(l) => after_separator(l),
        None => None,
    }
}

/// The number on the first line of a memory descriptor that starts with `key`,
/// after the key and white space.
pub open spec fn meminfo_field(contents: Seq<char>, key: Seq<char>) -> Option<nat> {
    match first_line(lines(contents), key, true) {
        Some(l) => leading_number(trim_start(l.skip(key.len() as int))),
        None => None,
    }
}

/// Reads the CPU model from the contents of a CPU descriptor.
pub fn parse_cpu_model(contents: &str) -> (r: Option<String>)
    ensures
        match cpu_model_spec(contents@) {
            Some(m) => r is Some && r->Some_0@ == m,
            None => r is None,
        },
{
    let v = chars_of(contents);
    match find_line(&v, &chars_of("model name"), true) {
        None => None,
        Some((a, b)) => {
            let mut i = a;
            while b - i >= 2 && !(v[i] == ':' && v[i + 1] == ' ')
                invariant
                    a <= i <= b <= v@.len(),
                    after_separator(v@.subrange(a as int, b as int)) == after_separator(
                        v@.subrange(i as int, b as int),
                    ),
                decreases b - i,
            {
                assert(v@.subrange(i as int, b as int).drop_first() =~= v@.subrange(
                    i + 1,
                    b as int,
                ));
                i = i + 1;
            }
            if b - i >= 2 {
                assert(v@.subrange(i as int, b as int).skip(2) =~= v@.subrange(i + 2, b as int));
                Some(string_of(&v, i + 2, b))
            } else {
                None
            }
        },
    }
}

/// Reads the number on the first line of `contents` that starts with `key`.
pub fn meminfo_value(contents: &str, key: &str) -> (r: Option<u64>)
    ensures
        match meminfo_field(contents@, key@) {
            Some(n) => if n <= u64::MAX {
                r == Some(n as u64)
            } else {
                r is None
            },
            None => r is None,
        },
{
    let v = chars_of(contents);
    let k = chars_of(key);
    match find_line(&v, &k, true) {
        None => None,
        Some((a, b)) => {
            proof {
                lemma_first_line_has(lines(v@), k@, true);
            }
            assert(v@.subrange(a as int, b as int).skip(k@.len() as int) =~= v@.subrange(
                a + k@.len(),
                b as int,
            ));
            let s = skip_space(&v, a + k.len(), b);
            parse_leading(&v, s, b)
        },
    }
}

/// Reads the total and free memory from the contents of a memory descriptor.
pub fn parse_meminfo(contents: &str) -> (r: Option<Memory>)
    ensures
        match (meminfo_field(contents@, "MemFree:"@), meminfo_field(contents@, "MemTotal:"@)) {
            (Some(u), Some(t)) => if u <= u64::MAX && t <= u64::MAX {
                r == Some(Memory::from_kb_spec(u as u64, t as u64))
            } else {
                r is None
            },
            _ => r is None,
        },
{
    let used = meminfo_value(contents, "MemFree:");
    let total = meminfo_value(contents, "MemTotal:");
    match (used, total) {
        (Some(u), Some(t)) => Some(Memory::from_kb(u, t)),
        _ => None,
    }
}

/// `s` read as a whole number: digits only, at least one.
pub open spec fn whole_number(s: Seq<char>) -> Option<nat> {
    if s.len() > 0 && digit_run(s) == s.len() {
        Some(value_of(s))
    } else {
        None
    }
}

/// A thermal zone's reading in millidegrees: a whole number, possibly
/// negative, with white space around it.
pub open spec fn millis_spec(contents: Seq<char>) -> Option<int> {
    let t = trim(contents);
    if t.len() > 0 && t[0] == '-' {
        match whole_number(t.drop_first()) {
            Some(n) => Some(-n),
            None => None,
        }
    } else {
        match whole_number(t) {
            Some(n) => Some(n as int),
            None => None,
        }
    }
}

/// Reads `v[lo..hi]` as a whole number that fits in an `i64`.
fn parse_whole(v: &Vec<char>, lo: usize, hi: usize) -> (r: Option<i64>)
    requires
        lo <= hi <= v@.len(),
    ensures
        match whole_number(v@.subrange(lo as int, hi as int)) {
            Some(n) => if n <= i64::MAX {
                r == Some(n as i64)
            } else {
                r is None
            },
            None => r is None,
        },
{
    let ghost s = v@.subrange(lo as int, hi as int);
    let mut i = lo;
    while i < hi && '0' <= v[i] && v[i] <= '9'
        invariant
            lo <= i <= hi <= v@.len(),
            forall|j: int| lo <= j < i ==> is_digit(#[trigger] v@[j]),
        decreases hi - i,
    {
        i = i + 1;
    }
    proof {
        lemma_digit_run(s, i - lo);
        assert(s.take(s.len() as int) =~= s);
    }
    if i < hi || i == lo {
        return None;
    }
    match parse_leading(v, lo, hi) {
        Some(n) => if n <= 9223372036854775807 {
            Some(n as i64)
        } else {
            None
        },
        None => None,
    }
}

/// Reads a thermal zone's reading, in millidegrees.
pub fn parse_millis(contents: &str) -> (r: Option<i64>)
    ensures
        match millis_spec(contents@) {
            Some(m) => if i64::MIN < m <= i64::MAX {
                r == Some(m as i64)
            } else {
                r is None
            },
            None => r is None,
        },
{
    let v = chars_of(contents);
    assert(v@.subrange(0, v@.len() as int) =~= contents@);
    let (a, b) = trim_bounds(&v, 0, v.len());
    if a < b && v[a] == '-' {
        assert(v@.subrange(a as int, b as int).drop_first() =~= v@.subrange(a + 1, b as int));
        match parse_whole(&v, a + 1, b) {
            Some(n) => Some(-n),
            None => None,
        }
    } else {
        parse_whole(&v, a, b)
    }
}

/// Fraction digits of a thousandth count, trailing zeros dropped.
pub open spec fn fraction_text(f: nat) -> Seq<char> {
    if f == 0 {
        seq![]
    } else if f % 100 == 0 {
        seq!['.', digit_char(f / 100)]
    } else if f % 10 == 0 {
        seq!['.', digit_char(f / 100), digit_char(f / 10 % 10)]
    } else {
        seq!['.', digit_char(f / 100), digit_char(f / 10 % 10), digit_char(f % 10)]
    }
}

/// A temperature given in millidegrees, written in degrees Celsius with
/// the shortest decimal fraction.
pub open spec fn celsius_text(m: int) -> Seq<char> {
    let a: nat = if m < 0 { (-m) as nat } else { m as nat };
    (if m < 0 { seq!['-'] } else { seq![] }) + decimal(a / 1000) + fraction_text(a % 1000)
        + "°C"@
}

/// Writes a temperature given in millidegrees.
pub fn celsius_string(m: i64) -> (r: String)
    ensures
        r@ == celsius_text(m as int),
{
    let a: u64 = if m < 0 {
        ((-(m + 1)) as u64) + 1
    } else {
        m as u64
    };
    let mut r = if m < 0 {
        String::from_str("-")
    } else {
        String::new()
    };
    proof {
        reveal_strlit("-");
    }
    let whole = decimal_string(a / 1000);
    r.append(whole.as_str());
    let f = a % 1000;
    if f != 0 {
        r.push('.');
        r.push(((f / 100) as u8 + 48) as char);
        if f % 100 != 0 {
            r.push(((f / 10 % 10) as u8 + 48) as char);
            if f % 10 != 0 {
                r.push(((f % 10) as u8 + 48) as char);
            }
        }
    }
    assert(r@ =~= (if m < 0 { seq!['-'] } else { seq![] }) + decimal((a / 1000) as nat)
        + fraction_text((a % 1000) as nat));
    r.append("°C");
    r
}

/// Kilobytes shown as whole gigabytes, rounded up.
pub open spec fn ceil_div(a: nat, b: nat) -> nat
    recommends
        b > 0,
{
    ((a + b - 1) / (b as int)) as nat
}

/// The memory figures as `<used>G / <total>G`, each rounded up.
pub open spec fn memory_text(m: Memory) -> Seq<char> {
    decimal(ceil_div(m.used_kb as nat, m.used_scale as nat)) + "G / "@ + decimal(
        ceil_div(m.total_kb as nat, m.total_scale as nat),
    ) + "G"@
}

fn ceil_div_u64(a: u64, b: u64) -> (r: u64)
    requires
        b > 0,
    ensures
        r == ceil_div(a as nat, b as nat),
{
    let q = a / b;
    if a % b != 0 {
        assert(b > 1);
        assert(q <= a / 2) by (nonlinear_arith)
            requires
                b > 1,
                q == a / b,
        ;
    }
    let r = if a % b != 0 { q + 1 } else { q };
    assert(r as int == (a + b - 1) / (b as int)) by (nonlinear_arith)
        requires
            b > 0,
            q == a / b,
            a % b != 0 ==> r == q + 1,
            a % b == 0 ==> r == q,
    ;
    r
}

/// Writes the memory figures as `<used>G / <total>G`.
pub fn memory_string(m: Memory) -> (r: String)
    requires
        m.wf(),
    ensures
        r@ == memory_text(m),
{
    let mut r = decimal_string(ceil_div_u64(m.used_kb, m.used_scale));
    r.append("G / ");
    let t = decimal_string(ceil_div_u64(m.total_kb, m.total_scale));
    r.append(t.as_str());
    r.append("G");
    r
}

} // verus!
