//! Configuration, runtime state, themes.

use dockersmith::clock::Timestamp;
use dockersmith::config::{
    default_interval_minutes, default_theme, Config, HostConfig, ScheduleConfig, State,
};
use dockersmith::style::Color;
use dockersmith::theme::Theme;

#[test]
fn defaults_are_those_of_a_first_run() {
    let c = Config::default();
    assert_eq!(c.theme, "midnight");
    assert_eq!(c.theme, default_theme());
    assert!(c.hosts.is_empty());
    assert_eq!(c.notify.url, None);
    assert!(!c.schedule.enabled);
    assert_eq!(c.schedule.interval_minutes, 360);
    assert_eq!(default_interval_minutes(), 360);
    assert_eq!(c.github_token, None);
}

#[test]
fn finds_hosts_by_name() {
    let mut c = Config::default();
    c.hosts.push(HostConfig { name: "nas".to_string(), endpoint: "ssh://user@nas".to_string() });
    c.hosts.push(HostConfig { name: "nas".to_string(), endpoint: "tcp://other".to_string() });
    assert_eq!(c.find_host("nas"), Ok("ssh://user@nas".to_string()));
    assert_eq!(c.find_host("pi"), Err("no host named 'pi' in config".to_string()));
}

#[test]
fn schedules_count_in_seconds() {
    let every = |interval_minutes: u64| ScheduleConfig { enabled: true, interval_minutes };
    assert_eq!(every(360).period_secs(), Some(21_600));
    assert_eq!(every(0).period_secs(), Some(60));
    assert_eq!(every(u64::MAX).period_secs(), None);
}

#[test]
fn deferral_lasts_thirty_days() {
    let now = Timestamp { secs: 1_000_000, nanos: 5 };
    let end = Timestamp { secs: 1_000_000 + 30 * 86_400, nanos: 5 };
    let mut s = State::default();
    assert!(!s.is_deferred_at("redis:7", now));
    s.defer("redis:7".to_string(), now);
    assert!(s.is_deferred_at("redis:7", now));
    assert!(s.is_deferred_at("redis:7", Timestamp { secs: end.secs, nanos: 4 }));
    assert!(!s.is_deferred_at("redis:7", end));
    assert!(!s.is_deferred_at("redis:8", now));
}

#[test]
fn deferral_goes_by_the_clock() {
    let mut s = State::default();
    assert!(!s.is_deferred("redis"));
    s.deferred.insert("redis".to_string(), Timestamp { secs: 0, nanos: 0 });
    assert!(!s.is_deferred("redis"));
    s.deferred.insert("redis".to_string(), Timestamp { secs: 100_000_000_000, nanos: 0 });
    assert!(s.is_deferred("redis"));
}

#[test]
fn themes_cycle_through_all() {
    let all = Theme::all();
    assert_eq!(all, vec!["midnight", "solar", "gruvbox", "mono"]);
    for i in 0..all.len() {
        assert_eq!(Theme::next(all[i]), all[(i + 1) % all.len()]);
        assert_eq!(Theme::by_name(all[i]).name, all[i]);
    }
    assert_eq!(Theme::next("nonsense"), "solar");
    assert_eq!(Theme::by_name("nonsense").name, "midnight");
    assert_eq!(Theme::by_name("midnight").accent, Color::Rgb(122, 162, 247));
    assert_eq!(Theme::by_name("solar").err, Color::Rgb(220, 50, 47));
    assert_eq!(Theme::by_name("gruvbox").border, Color::Rgb(80, 73, 69));
    assert_eq!(Theme::by_name("mono").warn, Color::White);
}
