//! The snapshot of host facts taken once per run, and the lines it is
//! shown as.
use vstd::prelude::*;

use crate::banner::{banner_art, banner_color, read_banner};
use crate::distro::{classify, classify_spec, DistroId};
use crate::number::{decimal, decimal_string};
use crate::packages::{count_packages, output_count, query_spec, PackageQuery, ProcessError};
use crate::probe::{celsius_string, celsius_text, memory_string, memory_text, Memory};
use crate::style::{
    bold_codes, bold_in, bold_italic_yellow, bold_italic_yellow_codes, italic, italic_codes,
    painted, Color,
};

verus! {

/// Shown in place of a fact that could not be read.
pub const UNKNOWN: &'static str = "unknown";

/// Shown in place of a temperature that could not be read.
pub const UNAVAILABLE: &'static str = "unavailable";

/// The kinds of fact, each with its own icon.
#[derive(Clone, Copy, Debug, PartialEq, Eq, Structural)]
pub enum EntryType {
    CPU,
    Distro,
    Memory,
    PackageCount,
    Temperature,
    User,
}

pub open spec fn prefix_spec(entry_type: EntryType) -> Seq<char> {
    match entry_type {
        EntryType::User => "👤"@,
        EntryType::Distro => "🖥️ "@,
        EntryType::PackageCount => "🗃️ "@,
        EntryType::CPU => "💻"@,
        EntryType::Memory => "🧠"@,
        EntryType::Temperature => "🌡️ "@,
    }
}

/// The icon that opens the line of a kind of fact.
pub fn get_prefix(entry_type: EntryType) -> (r: String)
    ensures
        r@ == prefix_spec(entry_type),
{
    let s = match entry_type {
        EntryType::User => "👤",
        EntryType::Distro => "🖥️ ",
        EntryType::PackageCount => "🗃️ ",
        EntryType::CPU => "💻",
        EntryType::Memory => "🧠",
        EntryType::Temperature => "🌡️ ",
    };
    String::from_str(s)
}

/// `r` is the line of a fact: the icon of its kind, the label in bold green
/// (or plain, when colouring is off), and the value, separated by spaces.
pub open spec fn labelled(
    r: Seq<char>,
    entry_type: EntryType,
    label: Seq<char>,
    value: Seq<char>,
) -> bool {
    exists|l: Seq<char>|
        #[trigger] painted(l, label, bold_codes(Color::Green)) && r == prefix_spec(entry_type)
            + seq![' '] + l + seq![' '] + value
}

fn labelled_line(entry_type: EntryType, label: &str, value: &str) -> (r: String)
    requires
        !label@.contains('\x1b'),
    ensures
        labelled(r@, entry_type, label@, value@),
{
    let l = bold_in(label, Color::Green);
    let mut r = get_prefix(entry_type);
    r.append(" ");
    r.append(l.as_str());
    r.append(" ");
    r.append(value);
    proof {
        reveal_strlit(" ");
        assert(r@ =~= prefix_spec(entry_type) + seq![' '] + l@ + seq![' '] + value@);
    }
    r
}

/// The facts gathered about the host; `None` marks one that could not be read.
#[derive(Debug)]
pub struct Facts {
    pub username: Option<String>,
    pub hostname: Option<String>,
    pub distro: Option<String>,
    pub cpu: Option<String>,
    pub memory: Option<Memory>,
    pub temperature: Option<i64>,
    pub quote: String,
}

/// The snapshot of one run.
#[derive(Debug)]
pub struct Entry {
    pub cpu: String,
    pub distro: String,
    pub distro_id: DistroId,
    pub hostname: String,
    pub memory: Option<Memory>,
    pub package_count: Option<usize>,
    pub quote: String,
    pub temperature: Option<i64>,
    pub username: String,
}

/// A fact's text, or the placeholder.
pub open spec fn or_unknown(s: Option<String>) -> Seq<char> {
    match s {
        Some(t) => t@,
        None => UNKNOWN@,
    }
}

fn text_or_unknown(s: Option<String>) -> (r: String)
    ensures
        r@ == or_unknown(s),
{
    match s {
        Some(t) => t,
        None => String::from_str(UNKNOWN),
    }
}

/// A memory figure that can be shown: both scales positive.
pub open spec fn memory_ok(m: Option<Memory>) -> bool {
    m matches Some(x) ==> x.wf()
}

impl Entry {
    /// The snapshot's invariant: the distribution identifier is the one its
    /// name gives, and memory figures can be shown.
    pub open spec fn wf(&self) -> bool {
        &&& self.distro_id == classify_spec(self.distro@)
        &&& memory_ok(self.memory)
    }

    pub open spec fn memory_value(&self) -> Seq<char> {
        match self.memory {
            Some(m) => memory_text(m),
            None => UNKNOWN@,
        }
    }

    pub open spec fn temperature_value(&self) -> Seq<char> {
        match self.temperature {
            Some(m) => celsius_text(m as int),
            None => UNAVAILABLE@,
        }
    }

    pub open spec fn package_value(&self) -> Seq<char> {
        match self.package_count {
            Some(n) => decimal(n as nat),
            None => UNKNOWN@,
        }
    }

    pub open spec fn user_line(&self) -> Seq<char> {
        prefix_spec(EntryType::User) + seq![' '] + self.username@ + seq!['@'] + self.hostname@
    }

    /// Builds the snapshot from the gathered facts. The distribution is
    /// classified from its name, and its packages are counted by handing
    /// its query to `run_query`; a missing fact becomes a placeholder.
    pub fn new<F>(facts: Facts, run_query: F) -> (r: Entry)
        where
            F: FnOnce(PackageQuery) -> Result<String, ProcessError>,
        requires
            forall|q: PackageQuery| run_query.requires((q,)),
            memory_ok(facts.memory),
        ensures
            r.wf(),
            r.username@ == or_unknown(facts.username),
            r.hostname@ == or_unknown(facts.hostname),
            r.distro@ == or_unknown(facts.distro),
            r.cpu@ == or_unknown(facts.cpu),
            r.memory == facts.memory,
            r.temperature == facts.temperature,
            r.quote == facts.quote,
            match query_spec(r.distro_id) {
                None => r.package_count == Some(0usize),
                Some((p, a)) => exists|q: PackageQuery, o: Result<String, ProcessError>|
                    q.program@ == p && q.arg@ == a && #[trigger] run_query.ensures((q,), o)
                        && match o {
                        Ok(t) => r.package_count == Some(output_count(t@) as usize),
                        Err(_) => r.package_count is None,
                    },
            },
    {
        let distro = text_or_unknown(facts.distro);
        let distro_id = classify(distro.as_str());
        let package_count = match count_packages(distro_id, run_query) {
            Ok(n) => Some(n),
            Err(_) => None,
        };
        Entry {
            cpu: text_or_unknown(facts.cpu),
            distro,
            distro_id,
            hostname: text_or_unknown(facts.hostname),
            memory: facts.memory,
            package_count,
            quote: facts.quote,
            temperature: facts.temperature,
            username: text_or_unknown(facts.username),
        }
    }

    /// The user line, `<icon> user@host`, in bold italic yellow.
    pub fn get_string_user(&self) -> (r: String)
        ensures
            !self.user_line().contains('\x1b') ==> painted(
                r@,
                self.user_line(),
                bold_italic_yellow_codes(),
            ),
    {
        let mut line = get_prefix(EntryType::User);
        line.append(" ");
        line.append(self.username.as_str());
        line.append("@");
        line.append(self.hostname.as_str());
        proof {
            reveal_strlit(" ");
            reveal_strlit("@");
            assert(line@ =~= self.user_line());
        }
        bold_italic_yellow(line.as_str())
    }

    /// The distribution line.
    pub fn get_string_distro(&self) -> (r: String)
        ensures
            labelled(r@, EntryType::Distro, "DIST:"@, self.distro@),
    {
        proof {
            reveal_strlit("DIST:");
        }
        labelled_line(EntryType::Distro, "DIST:", self.distro.as_str())
    }

    /// The installed-package line.
    pub fn get_string_package_count(&self) -> (r: String)
        ensures
            labelled(r@, EntryType::PackageCount, "PKGS:"@, self.package_value()),
    {
        proof {
            reveal_strlit("PKGS:");
        }
        let value = match self.package_count {
            Some(n) => decimal_string(n as u64),
            None => String::from_str(UNKNOWN),
        };
        labelled_line(EntryType::PackageCount, "PKGS:", value.as_str())
    }

    /// The distribution's banner, in bold in its colour.
    pub fn get_string_banner(&self) -> (r: String)
        ensures
            !banner_art(self.distro_id).contains('\x1b') ==> painted(
                r@,
                banner_art(self.distro_id),
                bold_codes(banner_color(self.distro_id)),
            ),
    {
        read_banner(self.distro_id)
    }

    /// The CPU line.
    pub fn get_string_cpu(&self) -> (r: String)
        ensures
            labelled(r@, EntryType::CPU, "CPU :"@, self.cpu@),
    {
        proof {
            reveal_strlit("CPU :");
        }
        labelled_line(EntryType::CPU, "CPU :", self.cpu.as_str())
    }

    /// The temperature line.
    pub fn get_string_temperature(&self) -> (r: String)
        ensures
            labelled(r@, EntryType::Temperature, "TEMP:"@, self.temperature_value()),
    {
        proof {
            reveal_strlit("TEMP:");
        }
        let value = match self.temperature {
            Some(m) => celsius_string(m),
            None => String::from_str(UNAVAILABLE),
        };
        labelled_line(EntryType::Temperature, "TEMP:", value.as_str())
    }

    /// The memory line, `<used>G / <total>G`.
    pub fn get_string_memory(&self) -> (r: String)
        requires
            self.wf(),
        ensures
            labelled(r@, EntryType::Memory, "MEM :"@, self.memory_value()),
    {
        proof {
            reveal_strlit("MEM :");
        }
        let value = match self.memory {
            Some(m) => memory_string(m),
            None => String::from_str(UNKNOWN),
        };
        labelled_line(EntryType::Memory, "MEM :", value.as_str())
    }

    /// The quote, in italics.
    pub fn get_string_quote(&self) -> (r: String)
        ensures
            !self.quote@.contains('\x1b') ==> painted(r@, self.quote@, italic_codes()),
    {
        italic(self.quote.as_str())
    }

    /// The whole report, in its fixed order: banner, user, distribution,
    /// CPU, packages, memory, temperature and quote.
    pub fn report(&self) -> (r: Vec<String>)
        requires
            self.wf(),
        ensures
            r@.len() == 8,
            !banner_art(self.distro_id).contains('\x1b') ==> painted(
                r@[0]@,
                banner_art(self.distro_id),
                bold_codes(banner_color(self.distro_id)),
            ),
            !self.user_line().contains('\x1b') ==> painted(
                r@[1]@,
                self.user_line(),
                bold_italic_yellow_codes(),
            ),
            labelled(r@[2]@, EntryType::Distro, "DIST:"@, self.distro@),
            labelled(r@[3]@, EntryType::CPU, "CPU :"@, self.cpu@),
            labelled(r@[4]@, EntryType::PackageCount, "PKGS:"@, self.package_value()),
            labelled(r@[5]@, EntryType::Memory, "MEM :"@, self.memory_value()),
            labelled(r@[6]@, EntryType::Temperature, "TEMP:"@, self.temperature_value()),
            !self.quote@.contains('\x1b') ==> painted(r@[7]@, self.quote@, italic_codes()),
    {
        let mut r: Vec<String> = Vec::new();
        r.push(self.get_string_banner());
        r.push(self.get_string_user());
        r.push(self.get_string_distro());
        r.push(self.get_string_cpu());
        r.push(self.get_string_package_count());
        r.push(self.get_string_memory());
        r.push(self.get_string_temperature());
        r.push(self.get_string_quote());
        r
    }
}

} // verus!
