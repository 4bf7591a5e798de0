//! Images, containers, disk usage, update checks, applying updates.

use dockersmith::clock::Timestamp;
use dockersmith::docker::apply::{ApplyRun, ApplyWork};
use dockersmith::docker::engine::{
    container_name, error_message, lifecycle_message, log_lines, progress_line,
    prune_message, read_endpoint, split_ref_for_pull, Endpoint, Lifecycle,
    PruneKind,
};
use dockersmith::docker::model::{
    ApplyProgress, ApplyStage, ContainerInfo, DiskUsage, ImageInfo, StageState, UpdateInfo,
    UpdateStatus,
};
use dockersmith::docker::prune::{everything_unused, prune_filters, PruneRun, PruneStep, PruneWork};
use dockersmith::docker::update::{
    begin_detailed, check_local, check_update, finish_detailed, DetailStep, LocalImage,
};
use dockersmith::docker::usage::{
    compute_disk_usage, try_disk_usage, DfCache, DfContainer, DfImage, DfReport, DfVolume,
    VolumeUse,
};
use dockersmith::refmap::RefMap;
use dockersmith::registry::RemoteImageMeta;

fn image(tags: &[&str]) -> ImageInfo {
    ImageInfo {
        id: "sha256:0123456789abcdef".to_string(),
        repo_tags: tags.iter().map(|t| t.to_string()).collect(),
        size: 1_000,
        created: 1_700_000_000,
        version: None,
    }
}

#[test]
fn images_have_names() {
    let i = image(&["ghcr.io/owner/app:1.2"]);
    assert_eq!(i.short_id(), "0123456789ab");
    assert_eq!(i.display_name(), "ghcr.io/owner/app:1.2");
    assert_eq!(i.primary_reference(), Some("ghcr.io/owner/app:1.2".to_string()));
    assert_eq!(i.created_date(), "2023-11-14");
    assert_eq!(i.source_short(), "ghcr");
    let none = image(&["<none>:<none>"]);
    assert_eq!(none.primary_reference(), None);
    assert!(none.short_id().len() <= 12);
}

#[test]
fn running_is_a_state() {
    let c = |state: &str| ContainerInfo {
        id: "1".to_string(),
        name: "web".to_string(),
        image: "nginx".to_string(),
        state: state.to_string(),
        status: String::new(),
    };
    assert!(c("running").is_running());
    assert!(!c("exited").is_running());
    assert_eq!(c("exited").display_name(), "web");
}

#[test]
fn labels_of_updates() {
    let mut info = UpdateInfo::from_status(UpdateStatus::UpdateAvailable);
    assert_eq!(info.transition(), None);
    info.current_date = Some("2024-01-01".to_string());
    info.latest_version = Some("2.0".to_string());
    info.latest_date = Some("2024-02-02".to_string());
    assert_eq!(info.current_label(), Some("2024-01-01".to_string()));
    assert_eq!(info.latest_label(), Some("2.0".to_string()));
    assert_eq!(info.transition(), Some("2024-01-01 → 2.0".to_string()));
}

fn report() -> DfReport {
    DfReport {
        layers_size: Some(5_000),
        images: Some(vec![
            DfImage { containers: 1, size: 900, shared_size: 100 },
            DfImage { containers: 0, size: 700, shared_size: 200 },
            DfImage { containers: 0, size: 300, shared_size: -1 },
            DfImage { containers: 0, size: -1, shared_size: 0 },
            DfImage { containers: 0, size: 10, shared_size: 50 },
        ]),
        containers: Some(vec![
            DfContainer { size_rw: Some(40), running: true },
            DfContainer { size_rw: Some(60), running: false },
            DfContainer { size_rw: None, running: false },
        ]),
        volumes: Some(vec![
            DfVolume { usage: Some(VolumeUse { size: 100, ref_count: 0 }) },
            DfVolume { usage: Some(VolumeUse { size: 200, ref_count: 2 }) },
            DfVolume { usage: Some(VolumeUse { size: -1, ref_count: 0 }) },
            DfVolume { usage: None },
        ]),
        build_cache: Some(vec![
            DfCache { size: Some(7), in_use: Some(false), shared: None },
            DfCache { size: Some(8), in_use: Some(true), shared: None },
            DfCache { size: Some(9), in_use: None, shared: Some(true) },
        ]),
    }
}

#[test]
fn adds_up_disk_usage() {
    let u = compute_disk_usage(&report());
    assert_eq!(u.images_total, 5_000);
    assert_eq!((u.images_count, u.images_active, u.images_reclaimable), (5, 1, 800));
    assert_eq!(
        (u.containers_count, u.containers_active, u.containers_total, u.containers_reclaimable),
        (3, 1, 100, 60)
    );
    assert_eq!(
        (u.volumes_count, u.volumes_active, u.volumes_total, u.volumes_reclaimable),
        (4, 1, 300, 100)
    );
    assert_eq!(
        (u.build_cache_count, u.build_cache_total, u.build_cache_reclaimable),
        (3, 24, 7)
    );
    assert!(u.can_total());
    assert_eq!(u.total_reclaimable(), 967);
}

#[test]
fn sums_that_do_not_fit_are_none() {
    let mut r = report();
    r.containers = Some(vec![
        DfContainer { size_rw: Some(i64::MAX), running: true },
        DfContainer { size_rw: Some(1), running: true },
    ]);
    assert!(try_disk_usage(&r).is_none());
    assert!(try_disk_usage(&report()).is_some());
    let empty = DfReport {
        layers_size: None,
        images: None,
        containers: None,
        volumes: None,
        build_cache: None,
    };
    assert_eq!(try_disk_usage(&empty), Some(DiskUsage::default()));
}

#[test]
fn totals_may_not_fit() {
    let u = DiskUsage {
        images_reclaimable: i64::MAX,
        volumes_reclaimable: 1,
        ..DiskUsage::default()
    };
    assert!(!u.can_total());
}

fn local(digests: &[&str]) -> LocalImage {
    let mut labels: RefMap<String> = RefMap::new();
    labels.insert("version".to_string(), "1.0".to_string());
    LocalImage {
        id: Some("sha256:local".to_string()),
        repo_digests: Some(digests.iter().map(|d| d.to_string()).collect()),
        created: Some("2024-01-02T03:04:05Z".to_string()),
        labels: Some(labels),
    }
}

#[test]
fn digests_decide_about_updates() {
    assert_eq!(check_local("redis", Some(&local(&["redis@sha256:a"]))), None);
    assert_eq!(
        check_local("redis", None),
        Some("inspecting local image redis".to_string())
    );
    assert_eq!(
        check_local("redis", Some(&local(&[]))),
        Some("image redis has no registry digest (built locally?)".to_string())
    );
    let digests = vec!["redis@sha256:a".to_string(), "mirror/redis@sha256:b".to_string()];
    assert_eq!(check_update("redis", &digests, Some(Some("sha256:b".to_string()))), Ok(false));
    assert_eq!(check_update("redis", &digests, Some(Some("sha256:c".to_string()))), Ok(true));
    assert_eq!(
        check_update("redis", &digests, None),
        Err("querying registry for redis".to_string())
    );
    assert_eq!(
        check_update("redis", &digests, Some(None)),
        Err("registry returned no digest for redis".to_string())
    );
    assert_eq!(
        check_update("redis", &digests, Some(Some(String::new()))),
        Err("registry returned no digest for redis".to_string())
    );
}

#[test]
fn detailed_checks_remember_their_image() {
    let now = Timestamp { secs: 50, nanos: 0 };
    let facts = match begin_detailed("ghcr.io/o/a:1", Ok(local(&["x@sha256:a"])), now) {
        DetailStep::AskRegistry(facts) => facts,
        DetailStep::Done(_) => panic!("the registry was not asked"),
    };
    let meta = RemoteImageMeta {
        config_digest: "sha256:new".to_string(),
        version: Some("2.0".to_string()),
        created: Some("2024-02-02".to_string()),
    };
    let info = finish_detailed(facts, Ok(meta), now);
    assert_eq!(info.status, UpdateStatus::UpdateAvailable);
    assert_eq!(info.local_id, Some("sha256:local".to_string()));
    assert_eq!(info.current_version, Some("1.0".to_string()));
    assert_eq!(info.current_date, Some("2024-01-02".to_string()));
    assert_eq!(info.latest_version, Some("2.0".to_string()));
    assert_eq!(info.changelog_repo, Some("o/a".to_string()));
    assert_eq!(info.checked_at, Some(now));
}

#[test]
fn source_labels_beat_guesses() {
    let now = Timestamp { secs: 50, nanos: 0 };
    let mut image = local(&["x@sha256:a"]);
    if let Some(labels) = &mut image.labels {
        labels.insert(
            "org.opencontainers.image.source".to_string(),
            "https://github.com/owner/other".to_string(),
        );
    }
    match begin_detailed("ghcr.io/o/a:1", Ok(image), now) {
        DetailStep::AskRegistry(facts) => {
            assert_eq!(facts.changelog_repo, Some("owner/other".to_string()));
        }
        DetailStep::Done(_) => panic!("the registry was not asked"),
    }
}

#[test]
fn detailed_checks_end_early() {
    let now = Timestamp { secs: 50, nanos: 0 };
    match begin_detailed("redis", Err("gone".to_string()), now) {
        DetailStep::Done(info) => {
            assert_eq!(info.status, UpdateStatus::Error("gone".to_string()));
            assert_eq!(info.changelog_repo, Some("redis/redis".to_string()));
        }
        DetailStep::AskRegistry(_) => panic!("nothing to ask"),
    }
    match begin_detailed("redis", Ok(local(&[])), now) {
        DetailStep::Done(info) => assert_eq!(info.status, UpdateStatus::LocalOnly),
        DetailStep::AskRegistry(_) => panic!("nothing to ask"),
    }
}

#[test]
fn same_config_is_up_to_date() {
    let now = Timestamp { secs: 50, nanos: 0 };
    let ask = || match begin_detailed("redis", Ok(local(&["x@sha256:a"])), now) {
        DetailStep::AskRegistry(facts) => facts,
        DetailStep::Done(_) => panic!("the registry was not asked"),
    };
    let meta = RemoteImageMeta {
        config_digest: "sha256:local".to_string(),
        version: None,
        created: None,
    };
    assert_eq!(finish_detailed(ask(), Ok(meta), now).status, UpdateStatus::UpToDate);
    assert_eq!(
        finish_detailed(ask(), Err("down".to_string()), now).status,
        UpdateStatus::Error("down".to_string())
    );
}

#[test]
fn endpoints_have_schemes() {
    assert!(matches!(
        read_endpoint("unix:///var/run/docker.sock"),
        Endpoint::Socket(p) if p == "/var/run/docker.sock"
    ));
    assert!(matches!(read_endpoint("tcp://h:1"), Endpoint::Http(a) if a == "tcp://h:1"));
    assert!(matches!(read_endpoint("http://h"), Endpoint::Http(_)));
    assert!(matches!(read_endpoint("ssh://u@h"), Endpoint::Ssh(_)));
    assert!(matches!(read_endpoint("ftp://h"), Endpoint::Unsupported(_)));
}

#[test]
fn reads_what_the_daemon_says() {
    assert_eq!(container_name(&vec!["/web".to_string(), "/other".to_string()]), "web");
    assert_eq!(container_name(&Vec::new()), "");
    assert_eq!(log_lines("a\n\nb\n"), vec!["a", "b"]);
    assert_eq!(progress_line("Pulling", "10%"), "Pulling 10%");
    assert_eq!(progress_line("Done", ""), "Done");
}

#[test]
fn splits_references_for_pulling() {
    let split = |r: &str| split_ref_for_pull(r);
    assert_eq!(split("redis:7"), ("redis".to_string(), "7".to_string()));
    assert_eq!(split("redis"), ("redis".to_string(), "latest".to_string()));
    assert_eq!(
        split("localhost:5000/app"),
        ("localhost:5000/app".to_string(), "latest".to_string())
    );
    assert_eq!(
        split("localhost:5000/app:dev"),
        ("localhost:5000/app".to_string(), "dev".to_string())
    );
}

#[test]
fn messages_of_finished_work() {
    assert_eq!(error_message("boom"), "error: boom");
    assert_eq!(lifecycle_message(Lifecycle::Stop, "web", None), "stopped web");
    assert_eq!(lifecycle_message(Lifecycle::Start, "web", None), "started web");
    assert_eq!(lifecycle_message(Lifecycle::Restart, "web", None), "restarted web");
    assert_eq!(lifecycle_message(Lifecycle::Remove, "web", None), "removed web");
    assert_eq!(lifecycle_message(Lifecycle::Remove, "web", Some("no")), "error: no");
    assert_eq!(prune_message(PruneKind::Images, Ok(1_000)), "images pruned · 1 kB");
    assert_eq!(prune_message(PruneKind::BuildCache, Ok(0)), "build cache pruned · 0 B");
    assert_eq!(
        prune_message(PruneKind::Volumes, Err("busy".to_string())),
        "error: busy"
    );
}

#[test]
fn everything_is_pruned_past_failures() {
    let (mut run, first) = PruneRun::begin(everything_unused());
    assert_eq!(first, PruneWork::Run(PruneStep::Containers));
    assert_eq!(run.next(Some(100)), PruneWork::Run(PruneStep::Images(true)));
    assert_eq!(run.next(None), PruneWork::Run(PruneStep::Volumes));
    assert_eq!(run.next(Some(200)), PruneWork::Run(PruneStep::BuildCache));
    let over = PruneWork::Over(Some("pruned everything unused · 600 B".to_string()));
    assert_eq!(run.next(Some(300)), over);
    assert_eq!(run.next(Some(1)), over);
}

#[test]
fn freed_bytes_that_do_not_add_up() {
    let (mut run, _) = PruneRun::begin(everything_unused());
    assert_eq!(run.next(Some(i64::MAX)), PruneWork::Run(PruneStep::Images(true)));
    assert_eq!(run.next(Some(1)), PruneWork::Run(PruneStep::Volumes));
    assert_eq!(run.next(Some(-1)), PruneWork::Run(PruneStep::BuildCache));
    assert_eq!(run.next(None), PruneWork::Over(None));
}

#[test]
fn short_name_leaves_out_the_registry() {
    let named = |tag: &str| ImageInfo {
        id: "sha256:ab".to_string(),
        repo_tags: vec![tag.to_string()],
        size: 0,
        created: 0,
        version: None,
    };
    assert_eq!(named("localhost/app:1").source_short(), "localhost");
    assert_eq!(named("localhost/app:1").short_name(), "app:1");
    assert_eq!(named("ghcr.io/owner/app:7").short_name(), "owner/app:7");
    assert_eq!(named("nas:5000/app").short_name(), "app");
    assert_eq!(named("owner/app").short_name(), "owner/app");
    assert_eq!(named("redis:7").short_name(), "redis:7");
}

fn stage_of(work: ApplyWork) -> ApplyStage {
    match work {
        ApplyWork::Run(stage) => stage,
        ApplyWork::Over(_) => panic!("the run is over"),
    }
}

#[test]
fn updates_go_through_all_stages() {
    let (mut run, _, mut work) = ApplyRun::begin();
    for stage in ApplyStage::SEQUENCE {
        assert_eq!(stage_of(work), stage);
        work = run.next(None).1;
    }
    assert!(matches!(work, ApplyWork::Over(true)));
}

#[test]
fn failed_starts_roll_back() {
    let (mut run, _, mut work) = ApplyRun::begin();
    while stage_of(work) != ApplyStage::Start {
        work = run.next(None).1;
    }
    let (reports, work) = run.next(Some("exit 1".to_string()));
    assert_eq!(stage_of(work), ApplyStage::Rollback);
    assert!(matches!(
        &reports[0],
        ApplyProgress::Stage(ApplyStage::Start, StageState::Failed(m)) if m == "exit 1"
    ));
    let (reports, work) = run.next(None);
    assert!(matches!(work, ApplyWork::Over(false)));
    assert!(matches!(
        &reports[reports.len() - 1],
        ApplyProgress::Stage(ApplyStage::Done, StageState::Failed(m)) if m == "exit 1"
    ));
}

#[test]
fn failed_pulls_touch_nothing() {
    let (mut run, _, _) = ApplyRun::begin();
    let (_, work) = run.next(None);
    assert_eq!(stage_of(work), ApplyStage::Pull);
    let (_, work) = run.next(Some("offline".to_string()));
    assert!(matches!(work, ApplyWork::Over(false)));
}

#[test]
fn image_prunes_are_filtered() {
    assert_eq!(prune_filters(true), vec![]);
    assert_eq!(
        prune_filters(false),
        vec![("dangling".to_string(), vec!["true".to_string()])]
    );
}
