//! Which distribution the host runs, from the release descriptor.
use vstd::prelude::*;

use crate::text::{
    after_last, after_last_stripped, chars_of, contains, find_line, first_line, fold_ascii,
    fold_char, lines, occurs_in, strip_char,
};

verus! {

/// The distributions this tool tells apart.
#[derive(Clone, Copy, Debug, PartialEq, Eq, Structural)]
pub enum DistroId {
    Void,
    Arch,
    Artix,
    Debian,
    Ubuntu,
    Gentoo,
    Unknown,
}

/// No line of the descriptor names the distribution.
#[derive(Clone, Copy, Debug, PartialEq, Eq, Structural)]
pub struct NotFound;

/// Classification of a display name: case-insensitive search for each
/// distribution's name, in a fixed order, the first hit winning.
pub open spec fn classify_spec(raw: Seq<char>) -> DistroId {
    let l = fold_ascii(raw);
    if contains(l, "void"@) {
        DistroId::Void
    } else if contains(l, "artix"@) {
        DistroId::Artix
    } else if contains(l, "arch"@) {
        DistroId::Arch
    } else if contains(l, "debian"@) {
        DistroId::Debian
    } else if contains(l, "ubuntu"@) {
        DistroId::Ubuntu
    } else if contains(l, "gentoo"@) {
        DistroId::Gentoo
    } else {
        DistroId::Unknown
    }
}

/// The value of a descriptor line: what follows its last `=`, without the
/// double quotes around it.
pub open spec fn pretty_value(l: Seq<char>) -> Seq<char> {
    strip_char(after_last(l, '='), '"')
}

/// The display name that a release descriptor gives, if any line names it.
pub open spec fn pretty_name_spec(contents: Seq<char>) -> Option<Seq<char>> {
    match first_line(lines(contents), "PRETTY"@, false) {
        Some(l) => Some(pretty_value(l)),
        None => None,
    }
}

fn folded(v: &Vec<char>) -> (r: Vec<char>)
    ensures
        r@ == fold_ascii(v@),
{
    let mut r: Vec<char> = Vec::new();
    let mut i: usize = 0;
    while i < v.len()
        invariant
            i <= v@.len(),
            r@ == fold_ascii(v@.take(i as int)),
        decreases v@.len() - i,
    {
        let c = v[i];
        let f = if 'A' <= c && c <= 'Z' {
            ((c as u8) + 32) as char
        } else {
            c
        };
        assert(f == fold_char(c));
        r.push(f);
        assert(fold_ascii(v@.take(i + 1)) =~= fold_ascii(v@.take(i as int)).push(fold_char(c)));
        i = i + 1;
    }
    assert(v@.take(i as int) =~= v@);
    r
}

/// Maps a distribution's display name to its identifier.
pub fn classify(raw: &str) -> (r: DistroId)
    ensures
        r == classify_spec(raw@),
{
    let l = folded(&chars_of(raw));
    let n = l.len();
    assert(l@.subrange(0, n as int) =~= l@);
    if occurs_in(&l, 0, n, &chars_of("void")) {
        DistroId::Void
    } else if occurs_in(&l, 0, n, &chars_of("artix")) {
        DistroId::Artix
    } else if occurs_in(&l, 0, n, &chars_of("arch")) {
        DistroId::Arch
    } else if occurs_in(&l, 0, n, &chars_of("debian")) {
        DistroId::Debian
    } else if occurs_in(&l, 0, n, &chars_of("ubuntu")) {
        DistroId::Ubuntu
    } else if occurs_in(&l, 0, n, &chars_of("gentoo")) {
        DistroId::Gentoo
    } else {
        DistroId::Unknown
    }
}

/// Takes the display name out of the contents of a release descriptor: the
/// first line that holds `PRETTY`, after its last `=`, without the quotes
/// around it.
pub fn find_pretty_name(s: &str) -> (r: Result<String, NotFound>)
    ensures
        match pretty_name_spec(s@) {
            Some(name) => r is Ok && r->Ok_0@ == name,
            None => r == Err::<String, NotFound>(NotFound),
        },
{
    let v = chars_of(s);
    match find_line(&v, &chars_of("PRETTY"), false) {
        Some((a, b)) => Ok(after_last_stripped(&v, a, b, '=', '"')),
        None => Err(NotFound),
    }
}

/// Classification ignores case: names that differ only in the case of
/// ASCII letters get the same identifier.
pub proof fn lemma_classify_ignores_case(a: Seq<char>, b: Seq<char>)
    requires
        fold_ascii(a) == fold_ascii(b),
    ensures
        classify_spec(a) == classify_spec(b),
{
}

/// A name that holds `arch` in any case, and neither `artix` nor `void`,
/// is classified as Arch.
pub proof fn lemma_arch_names(raw: Seq<char>)
    requires
        contains(fold_ascii(raw), "arch"@),
        !contains(fold_ascii(raw), "artix"@),
        !contains(fold_ascii(raw), "void"@),
    ensures
        classify_spec(raw) == DistroId::Arch,
{
}

/// A name that holds `artix` in any case, and not `void`, is classified as
/// Artix, whether or not it also holds `arch`.
pub proof fn lemma_artix_names(raw: Seq<char>)
    requires
        contains(fold_ascii(raw), "artix"@),
        !contains(fold_ascii(raw), "void"@),
    ensures
        classify_spec(raw) == DistroId::Artix,
{
}

} // verus!
