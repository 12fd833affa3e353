//! How installed packages are counted on each distribution.
use vstd::prelude::*;

use crate::distro::DistroId;
use crate::text::{chars_of, line_count, lines, trim, trimmed};

verus! {

/// A package query tool and the argument that lists what is installed.
#[derive(Debug)]
pub struct PackageQuery {
    pub program: String,
    pub arg: String,
}

/// Why a query's output could not be had.
#[derive(Clone, Copy, Debug, PartialEq, Eq, Structural)]
pub enum ProcessError {
    /// The program could not be started.
    Spawn,
    /// Its output is not UTF-8.
    Decode,
}

/// The query tool and argument for a distribution; none where no tool is known.
pub open spec fn query_spec(id: DistroId) -> Option<(Seq<char>, Seq<char>)> {
    match id {
        DistroId::Void => Some(("xbps-query"@, "-l"@)),
        DistroId::Arch | DistroId::Artix => Some(("pacman"@, "-Q"@)),
        DistroId::Debian | DistroId::Ubuntu => Some(("dpkg"@, "-l"@)),
        DistroId::Gentoo | DistroId::Unknown => None,
    }
}

/// The number of lines of a query's output, white space trimmed at both ends.
pub open spec fn output_count(out: Seq<char>) -> nat {
    lines(trim(out)).len()
}

/// The query that lists a distribution's installed packages.
pub fn package_query(id: DistroId) -> (r: Option<PackageQuery>)
    ensures
        match query_spec(id) {
            Some((p, a)) => r is Some && r->Some_0.program@ == p && r->Some_0.arg@ == a,
            None => r is None,
        },
{
    let (p, a) = match id {
        DistroId::Void => ("xbps-query", "-l"),
        DistroId::Arch | DistroId::Artix => ("pacman", "-Q"),
        DistroId::Debian | DistroId::Ubuntu => ("dpkg", "-l"),
        DistroId::Gentoo | DistroId::Unknown => {
            return None;
        },
    };
    Some(PackageQuery { program: String::from_str(p), arg: String::from_str(a) })
}

/// Counts the lines of a query tool's output.
pub fn count_output_lines(out: &str) -> (r: usize)
    ensures
        r == output_count(out@),
{
    let t = trimmed(out);
    line_count(&chars_of(t.as_str()))
}

/// Counts the installed packages of a distribution: runs its query through
/// `run` and counts the lines of the output; 0 where no tool is known.
pub fn count_packages<F>(id: DistroId, run: F) -> (r: Result<usize, ProcessError>)
    where
        F: FnOnce(PackageQuery) -> Result<String, ProcessError>,
    requires
        forall|q: PackageQuery| run.requires((q,)),
    ensures
        match query_spec(id) {
            None => r == Ok::<usize, ProcessError>(0),
            Some((p, a)) => exists|q: PackageQuery, o: Result<String, ProcessError>|
                q.program@ == p && q.arg@ == a && #[trigger] run.ensures((q,), o) && match o {
                    Ok(t) => r is Ok && r->Ok_0 == output_count(t@),
                    Err(e) => r == Err::<usize, ProcessError>(e),
                },
        },
{
    match package_query(id) {
        None => Ok(0),
        Some(q) => {
            let ghost gq = q;
            let o = run(q);
            assert(run.ensures((gq,), o));
            match o {
                Ok(t) => Ok(count_output_lines(t.as_str())),
                Err(e) => Err(e),
            }
        },
    }
}

} // verus!
