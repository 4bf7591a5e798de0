//! Byte counts, image references, text, points in time.

use dockersmith::clock::{format_relative, thirty_days_after, utc_date, Timestamp};
use dockersmith::refmap::RefMap;
use dockersmith::text::{
    contains_str, decimal_u64, join, lines_of, pad_right, rsplit_once,
    split_on, split_once, take_chars, trim_leading,
};
use dockersmith::util::{format_bytes, ImageRef};

#[test]
fn parses_bare_official_image() {
    let r = ImageRef::parse("redis");
    assert_eq!(r.registry, "index.docker.io");
    assert_eq!(r.repository, "library/redis");
    assert_eq!(r.tag, "latest");
}

#[test]
fn parses_user_image_with_tag() {
    let r = ImageRef::parse("grafana/grafana:10.2.0");
    assert_eq!(r.registry, "index.docker.io");
    assert_eq!(r.repository, "grafana/grafana");
    assert_eq!(r.tag, "10.2.0");
}

#[test]
fn parses_ghcr_with_registry() {
    let r = ImageRef::parse("ghcr.io/owner/app:1.2.3");
    assert_eq!(r.registry, "ghcr.io");
    assert_eq!(r.repository, "owner/app");
    assert_eq!(r.tag, "1.2.3");
}

#[test]
fn parses_registry_with_port() {
    let r = ImageRef::parse("localhost:5000/team/app:dev");
    assert_eq!(r.registry, "localhost:5000");
    assert_eq!(r.repository, "team/app");
    assert_eq!(r.tag, "dev");
}

#[test]
fn guesses_github_repo() {
    assert_eq!(
        ImageRef::parse("ghcr.io/owner/app:1").guess_github_repo(),
        Some("owner/app".to_string())
    );
    assert_eq!(
        ImageRef::parse("redis").guess_github_repo(),
        Some("redis/redis".to_string())
    );
}

#[test]
fn formats_bytes_readably() {
    assert_eq!(format_bytes(0), "0 B");
    assert!(format_bytes(1_500_000_000).contains("GB"));
}

#[test]
fn formats_sizes_in_decimal_units() {
    assert_eq!(format_bytes(1_500_000_000), "1.50 GB");
    assert_eq!(format_bytes(999), "999 B");
    assert_eq!(format_bytes(-1), "-");
}

#[test]
fn drops_the_digest_of_a_reference() {
    let plain = ImageRef::parse("redis:7");
    let pinned = ImageRef::parse("redis:7@sha256:abc");
    assert_eq!(plain.registry, pinned.registry);
    assert_eq!(plain.repository, pinned.repository);
    assert_eq!(plain.tag, pinned.tag);
}

#[test]
fn parses_a_port_without_a_tag() {
    let r = ImageRef::parse("localhost:5000/app");
    assert_eq!(r.registry, "localhost:5000");
    assert_eq!(r.repository, "app");
    assert_eq!(r.tag, "latest");
}

#[test]
fn unknown_registries_have_no_guess() {
    assert_eq!(ImageRef::parse("quay.io/app").guess_github_repo(), None);
}

#[test]
fn bare_names_are_official_with_or_without_a_tag() {
    for (reference, tag) in [("redis", "latest"), ("redis:7", "7"), ("redis:7.2-alpine", "7.2-alpine")] {
        let r = ImageRef::parse(reference);
        assert_eq!(r.registry, "index.docker.io");
        assert_eq!(r.repository, "library/redis");
        assert_eq!(r.tag, tag);
    }
}

#[test]
fn splits_texts() {
    assert_eq!(split_once("a=b=c", '='), Some(("a", "b=c")));
    assert_eq!(rsplit_once("a=b=c", '='), Some(("a=b", "c")));
    assert_eq!(split_once("abc", '='), None);
    assert_eq!(split_on("a\n\nb\n", '\n'), vec!["a", "", "b", ""]);
    assert_eq!(lines_of("a\r\nb\n"), vec!["a", "b"]);
    assert_eq!(lines_of("").len(), 0);
    assert_eq!(join(&vec!["a".to_string(), "b".to_string()], ", "), "a, b");
    assert_eq!(trim_leading("//x/", '/'), "x/");
    assert_eq!(take_chars("añb", 2), "añ");
    assert_eq!(pad_right("añ", 4), "añ  ");
    assert_eq!(pad_right("long", 2), "long");
    assert_eq!(decimal_u64(u64::MAX), "18446744073709551615");
    assert_eq!(decimal_u64(0), "0");
    assert!(contains_str("grafana", "fan"));
    assert!(!contains_str("grafana", "fun"));
}

#[test]
fn reads_dates_in_utc() {
    assert_eq!(utc_date(0), Some("1970-01-01".to_string()));
    assert_eq!(utc_date(1_700_000_000), Some("2023-11-14".to_string()));
    assert_eq!(utc_date(i64::MAX), None);
}

#[test]
fn says_how_long_ago() {
    let at = |secs: i64| Timestamp { secs, nanos: 0 };
    assert_eq!(format_relative(at(100), at(200)), "just now");
    assert_eq!(format_relative(at(159), at(100)), "just now");
    assert_eq!(format_relative(at(160), at(100)), "1m ago");
    assert_eq!(format_relative(at(7300), at(100)), "2h ago");
    assert_eq!(format_relative(at(100 + 3 * 86_400), at(100)), "3d ago");
}

#[test]
fn thirty_days_are_thirty_days() {
    let now = Timestamp { secs: 1_000, nanos: 7 };
    let then = thirty_days_after(now);
    assert_eq!(then, Timestamp { secs: 1_000 + 30 * 86_400, nanos: 7 });
    assert!(then.is_after(&now));
    assert!(!now.is_after(&then));
    assert!(Timestamp { secs: 1, nanos: 2 }.is_after(&Timestamp { secs: 1, nanos: 1 }));
}

#[test]
fn maps_remember_the_last_value() {
    let mut m: RefMap<String> = RefMap::new();
    m.insert("a".to_string(), "1".to_string());
    m.insert("b".to_string(), "2".to_string());
    m.insert("a".to_string(), "3".to_string());
    assert_eq!(m.len(), 2);
    assert_eq!(m.keys().len(), 2);
    assert_eq!(m.get("a"), Some(&"3".to_string()));
    m.remove("a");
    assert_eq!(m.get("a"), None);
    assert_eq!(m.get("b"), Some(&"2".to_string()));
    assert_eq!(m.keys(), vec!["b".to_string()]);
    m.remove("c");
    assert_eq!(m.len(), 1);
}
