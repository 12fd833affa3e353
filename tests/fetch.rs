use qtfetch::banner::{read_banner, select_banner, ARCH_ART, VOID_ART};
use qtfetch::distro::{classify, find_pretty_name, DistroId, NotFound};
use qtfetch::entry::{get_prefix, Entry, EntryType, Facts};
use qtfetch::number::decimal_string;
use qtfetch::packages::{count_output_lines, count_packages, package_query, ProcessError};
use qtfetch::probe::{
    celsius_string, memory_string, meminfo_value, parse_cpu_model, parse_meminfo, parse_millis,
    Memory,
};
use qtfetch::quote::{get_quote, parse_quote};
use qtfetch::style::Color;
use qtfetch::text::{trimmed, trimmed_end};

/// `s` with its SGR escape sequences removed, whether or not colour is on.
fn plain(s: &str) -> String {
    let mut out = String::new();
    let mut chars = s.chars();
    while let Some(c) = chars.next() {
        if c == '\x1b' {
            for d in chars.by_ref() {
                if d == 'm' {
                    break;
                }
            }
        } else {
            out.push(c);
        }
    }
    out
}

fn quote_body(quote: &str) -> String {
    format!(
        "{{\n  \"success\": {{\n    \"total\": 1\n  }},\n  \"contents\": {{\n    \"quotes\": [\n      {{\n        \"quote\": \"{}\",\n        \"author\": \"Anon\"\n      }}\n    ]\n  }}\n}}\n",
        quote
    )
}

#[test]
fn classify_arch_in_any_case() {
    assert_eq!(classify("Arch Linux"), DistroId::Arch);
    assert_eq!(classify("arch linux"), DistroId::Arch);
    assert_eq!(classify("ARCH"), DistroId::Arch);
    assert_eq!(classify("ArchLabs"), DistroId::Arch);
}

#[test]
fn classify_artix_in_any_case() {
    assert_eq!(classify("Artix Linux"), DistroId::Artix);
    assert_eq!(classify("artix"), DistroId::Artix);
    assert_eq!(classify("ARTIX with Arch roots"), DistroId::Artix);
}

#[test]
fn classify_order_and_fallback() {
    assert_eq!(classify("Void Linux"), DistroId::Void);
    assert_eq!(classify("void arch"), DistroId::Void);
    assert_eq!(classify("Debian GNU/Linux 12 (bookworm)"), DistroId::Debian);
    assert_eq!(classify("Ubuntu 22.04"), DistroId::Ubuntu);
    assert_eq!(classify("Gentoo Linux"), DistroId::Gentoo);
    assert_eq!(classify("Fedora Linux 39"), DistroId::Unknown);
    assert_eq!(classify(""), DistroId::Unknown);
}

#[test]
fn pretty_name_of_void() {
    let text = "NAME=\"void\"\nID=\"void\"\nPRETTY_NAME=\"Void Linux\"\nHOME_URL=\"https://voidlinux.org/\"\n";
    assert_eq!(find_pretty_name(text), Ok("Void Linux".to_string()));
}

#[test]
fn pretty_name_missing() {
    let text = "NAME=\"void\"\nID=\"void\"\n";
    assert_eq!(find_pretty_name(text), Err(NotFound));
    assert_eq!(find_pretty_name(""), Err(NotFound));
}

#[test]
fn pretty_name_first_line_and_crlf() {
    let text = "PRETTY_NAME=\"Ubuntu 22.04.3 LTS\"\r\nPRETTY=other\r\n";
    assert_eq!(find_pretty_name(text), Ok("Ubuntu 22.04.3 LTS".to_string()));
    assert_eq!(find_pretty_name("X_PRETTY=a=b"), Ok("b".to_string()));
    assert_eq!(find_pretty_name("PRETTY"), Ok("PRETTY".to_string()));
}

#[test]
fn count_packages_void_stub() {
    let mut seen = None;
    let r = count_packages(DistroId::Void, |q| {
        seen = Some((q.program.clone(), q.arg.clone()));
        Ok("pkg-a-1.0\npkg-b-2.0\npkg-c-3.0\n".to_string())
    });
    assert_eq!(r, Ok(3));
    assert_eq!(seen, Some(("xbps-query".to_string(), "-l".to_string())));
}

#[test]
fn count_packages_without_tool() {
    let r = count_packages(DistroId::Gentoo, |_| -> Result<String, ProcessError> {
        panic!("no tool is run for Gentoo")
    });
    assert_eq!(r, Ok(0));
    assert_eq!(count_packages(DistroId::Unknown, |_| Ok("a\nb".to_string())), Ok(0));
}

#[test]
fn count_packages_reports_failure() {
    assert_eq!(
        count_packages(DistroId::Arch, |_| Err(ProcessError::Spawn)),
        Err(ProcessError::Spawn)
    );
    assert_eq!(
        count_packages(DistroId::Debian, |_| Err(ProcessError::Decode)),
        Err(ProcessError::Decode)
    );
}

#[test]
fn package_queries_per_distro() {
    let q = package_query(DistroId::Artix).unwrap();
    assert_eq!((q.program.as_str(), q.arg.as_str()), ("pacman", "-Q"));
    let q = package_query(DistroId::Ubuntu).unwrap();
    assert_eq!((q.program.as_str(), q.arg.as_str()), ("dpkg", "-l"));
    assert!(package_query(DistroId::Gentoo).is_none());
}

#[test]
fn output_lines_are_counted_after_trim() {
    assert_eq!(count_output_lines(""), 0);
    assert_eq!(count_output_lines("  \n\n "), 0);
    assert_eq!(count_output_lines("one"), 1);
    assert_eq!(count_output_lines("\n a \n\n b \n"), 3);
    assert_eq!(count_output_lines("a\r\nb\r\n"), 2);
}

#[test]
fn banner_is_deterministic() {
    for id in [
        DistroId::Void,
        DistroId::Arch,
        DistroId::Artix,
        DistroId::Debian,
        DistroId::Ubuntu,
        DistroId::Gentoo,
        DistroId::Unknown,
    ] {
        let a = select_banner(id);
        let b = select_banner(id);
        assert_eq!(a.art, b.art);
        assert_eq!(a.color, b.color);
    }
    assert_eq!(select_banner(DistroId::Void).color, Color::BrightGreen);
    assert_eq!(select_banner(DistroId::Artix).color, Color::BrightBlue);
    assert_eq!(select_banner(DistroId::Ubuntu).color, Color::BrightRed);
    assert_eq!(select_banner(DistroId::Gentoo).color, Color::Magenta);
    assert_eq!(select_banner(DistroId::Unknown).color, Color::BrightYellow);
    assert_eq!(select_banner(DistroId::Arch).art, ARCH_ART);
}

#[test]
fn banner_is_painted_bold_in_its_colour() {
    colored::control::set_override(true);
    let b = read_banner(DistroId::Void);
    assert_eq!(b, format!("\x1b[1;92m{}\x1b[0m", VOID_ART));
    assert_eq!(plain(&b), VOID_ART);
    let g = read_banner(DistroId::Gentoo);
    assert!(g.starts_with("\x1b[1;35m"));
}

#[test]
fn memory_rounds_up() {
    let m = Memory::from_kb(3_200_000, 16_000_000);
    assert!(memory_string(m).contains("4G / 16G"));
    assert_eq!(memory_string(m), "4G / 16G");
    assert_eq!(memory_string(Memory::from_kb(0, 1)), "0G / 1G");
    let scaled = Memory {
        used_kb: 250_000,
        total_kb: 8_000_000,
        used_scale: 100_000,
        total_scale: 1_000_000,
    };
    assert_eq!(memory_string(scaled), "3G / 8G");
}

#[test]
fn meminfo_fields() {
    let text = "MemTotal:       16303100 kB\nMemFree:         3200000 kB\nMemAvailable:   9000000 kB\n";
    assert_eq!(meminfo_value(text, "MemTotal:"), Some(16303100));
    assert_eq!(meminfo_value(text, "MemAvailable:"), Some(9000000));
    assert_eq!(meminfo_value(text, "SwapTotal:"), None);
    assert_eq!(parse_meminfo(text), Some(Memory::from_kb(3200000, 16303100)));
    assert_eq!(parse_meminfo("MemTotal: 1 kB\n"), None);
    assert_eq!(meminfo_value("MemTotal: 99999999999999999999 kB", "MemTotal:"), None);
}

#[test]
fn cpu_model_line() {
    let text = "processor\t: 0\nvendor_id\t: GenuineIntel\ncpu family\t: 6\nmodel\t\t: 158\nmodel name\t: Intel(R) Core(TM) i3-8100 CPU @ 3.60GHz\nstepping\t: 11\n";
    assert_eq!(parse_cpu_model(text), Some("Intel(R) Core(TM) i3-8100 CPU @ 3.60GHz".to_string()));
    assert_eq!(parse_cpu_model("model name\tno separator"), None);
    assert_eq!(parse_cpu_model("processor\t: 0\n"), None);
}

#[test]
fn temperature_reading_and_text() {
    assert_eq!(parse_millis("45300\n"), Some(45300));
    assert_eq!(parse_millis("-500"), Some(-500));
    assert_eq!(parse_millis("4a"), None);
    assert_eq!(parse_millis(""), None);
    assert_eq!(parse_millis("-"), None);
    assert_eq!(celsius_string(45300), "45.3°C");
    assert_eq!(celsius_string(45000), "45°C");
    assert_eq!(celsius_string(45025), "45.025°C");
    assert_eq!(celsius_string(-500), "-0.5°C");
    assert_eq!(celsius_string(0), "0°C");
    assert_eq!(celsius_string(i64::MIN), "-9223372036854775.808°C");
}

#[test]
fn decimal_digits() {
    assert_eq!(decimal_string(0), "0");
    assert_eq!(decimal_string(812), "812");
    assert_eq!(decimal_string(u64::MAX), "18446744073709551615");
}

#[test]
fn quote_from_cache_without_fetch() {
    let body = quote_body("Stay hungry.");
    let q = get_quote(Some(body), || -> Option<String> { panic!("no fetch when cached") });
    assert_eq!(q, "Stay hungry.");
}

#[test]
fn quote_fetched_or_empty() {
    assert_eq!(get_quote(None, || Some(quote_body("Carpe diem."))), "Carpe diem.");
    assert_eq!(get_quote(None, || None), "");
    assert_eq!(parse_quote("too\nshort\n"), "");
}

#[test]
fn prefixes_per_kind() {
    assert_eq!(get_prefix(EntryType::User), "👤");
    assert_eq!(get_prefix(EntryType::Distro), "🖥️ ");
    assert_eq!(get_prefix(EntryType::PackageCount), "🗃️ ");
}

fn stub_entry() -> Entry {
    Entry::new(
        Facts {
            username: Some("al".to_string()),
            hostname: Some("box".to_string()),
            distro: Some("Ubuntu 22.04".to_string()),
            cpu: Some("i5".to_string()),
            memory: Some(Memory::from_kb(3_200_000, 16_000_000)),
            temperature: Some(45_300),
            quote: String::new(),
        },
        |_| Ok((1..=812).map(|i| format!("ii pkg{}\n", i)).collect::<String>()),
    )
}

#[test]
fn end_to_end_report() {
    let e = stub_entry();
    assert_eq!(e.distro_id, DistroId::Ubuntu);
    assert_eq!(e.package_count, Some(812));
    let lines: Vec<String> = e.report().iter().map(|l| plain(l)).collect();
    assert_eq!(lines.len(), 8);
    let find = |label: &str| lines.iter().position(|l| l.contains(label)).unwrap();
    let (d, c, p, m) = (find("DIST:"), find("CPU :"), find("PKGS:"), find("MEM :"));
    assert!(d < c && c < p && p < m);
    assert!(lines[d].contains("Ubuntu 22.04"));
    assert!(lines[c].contains("i5"));
    assert!(lines[p].contains("812"));
    assert!(lines[m].contains("4G / 16G"));
    assert_eq!(lines[1], "👤 al@box");
    assert_eq!(lines[2], "🖥️  DIST: Ubuntu 22.04");
    assert_eq!(lines[6], "🌡️  TEMP: 45.3°C");
    assert_eq!(lines[7], "");
}

#[test]
fn labels_are_bold_green_when_coloured() {
    colored::control::set_override(true);
    let e = stub_entry();
    assert_eq!(e.get_string_cpu(), "💻 \x1b[1;32mCPU :\x1b[0m i5");
    assert_eq!(e.get_string_user(), "\x1b[1;3;33m👤 al@box\x1b[0m");
    let quoted = Entry { quote: "q".to_string(), ..stub_entry() };
    assert_eq!(quoted.get_string_quote(), "\x1b[3mq\x1b[0m");
}

#[test]
fn missing_facts_become_placeholders() {
    let e = Entry::new(
        Facts {
            username: None,
            hostname: None,
            distro: None,
            cpu: None,
            memory: None,
            temperature: None,
            quote: String::new(),
        },
        |_| Err(ProcessError::Spawn),
    );
    assert_eq!(e.distro_id, DistroId::Unknown);
    assert_eq!(e.package_count, Some(0));
    assert_eq!(plain(&e.get_string_memory()), "🧠 MEM : unknown");
    assert_eq!(plain(&e.get_string_temperature()), "🌡️  TEMP: unavailable");
    assert_eq!(plain(&e.get_string_distro()), "🖥️  DIST: unknown");
    let a = Entry::new(
        Facts {
            username: None,
            hostname: None,
            distro: Some("Arch Linux".to_string()),
            cpu: None,
            memory: None,
            temperature: None,
            quote: String::new(),
        },
        |_| Err(ProcessError::Spawn),
    );
    assert_eq!(a.package_count, None);
    assert_eq!(plain(&a.get_string_package_count()), "🗃️  PKGS: unknown");
}

#[test]
fn pretty_name_keeps_inner_quotes() {
    assert_eq!(find_pretty_name("PRETTY=a\"b"), Ok("a\"b".to_string()));
    assert_eq!(find_pretty_name("PRETTY_NAME=\"\"x y\"\"\n"), Ok("x y".to_string()));
    assert_eq!(find_pretty_name("PRETTY_NAME=\"\"\n"), Ok(String::new()));
}

#[test]
fn trimming_ends() {
    assert_eq!(trimmed(" \tbox \n"), "box");
    assert_eq!(trimmed_end(" box \n"), " box");
    assert_eq!(trimmed_end(" \n"), "");
}
