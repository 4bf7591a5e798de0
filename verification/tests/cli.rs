//! What the headless commands print; notifications; self-update.

use dockersmith::cli::{
    apply_line, check_heading, check_line, check_summary, find_container, host_line, hosts_line,
    local_line, space_report, Reach,
};
use dockersmith::docker::model::{
    ApplyProgress, ApplyStage, ContainerInfo, DiskUsage, StageState,
};
use dockersmith::notify::{accept_reply, prepare, Notification};
use dockersmith::registry::Release;
use dockersmith::selfupdate::{
    accept_asset, current_target, plan, plan_message, release_repo, UpdatePlan,
};

fn container(name: &str) -> ContainerInfo {
    ContainerInfo {
        id: format!("id-{name}"),
        name: name.to_string(),
        image: "nginx:1".to_string(),
        state: "running".to_string(),
        status: String::new(),
    }
}

#[test]
fn check_prints_a_line_for_each_container() {
    assert_eq!(check_heading(3), "Checking 3 container(s) for updates...\n");
    let web = container("web");
    assert_eq!(check_line(&web, &Ok(true)), "  UPDATE   web                      nginx:1");
    assert_eq!(check_line(&web, &Ok(false)), "  ok       web                      nginx:1");
    assert_eq!(
        check_line(&web, &Err("offline".to_string())),
        "  ?        web                      nginx:1  (offline)"
    );
    assert_eq!(
        check_summary(&vec![Ok(false), Err("x".to_string())]),
        "All containers are up to date."
    );
    assert_eq!(check_summary(&vec![Ok(true), Ok(false), Ok(true)]), "2 update(s) available.");
}

#[test]
fn space_prints_a_table() {
    let u = DiskUsage {
        images_total: 2_000,
        images_reclaimable: 1_000,
        volumes_reclaimable: 500,
        ..DiskUsage::default()
    };
    let lines = space_report(&u).unwrap();
    assert_eq!(lines[0], "TYPE            TOTAL       RECLAIMABLE");
    assert_eq!(lines[1], "Images          2 kB        1 kB");
    assert_eq!(lines[2], "Containers      0 B         0 B");
    assert_eq!(lines[5], "");
    assert_eq!(lines[6], "Total reclaimable: 1.50 kB");
    let too_much = DiskUsage {
        images_reclaimable: i64::MAX,
        volumes_reclaimable: 1,
        ..DiskUsage::default()
    };
    assert!(space_report(&too_much).is_none());
}

#[test]
fn apply_finds_containers_by_name() {
    let all = vec![container("web"), container("db")];
    assert_eq!(find_container(&all, "db").unwrap().id, "id-db");
    assert_eq!(
        find_container(&all, "cache").unwrap_err(),
        "no container named 'cache'".to_string()
    );
}

#[test]
fn apply_prints_progress() {
    assert_eq!(
        apply_line(&ApplyProgress::Stage(ApplyStage::Pull, StageState::Start)),
        "  ... Pull new image"
    );
    assert_eq!(
        apply_line(&ApplyProgress::Stage(ApplyStage::Pull, StageState::Done)),
        "  ok  Pull new image"
    );
    assert_eq!(
        apply_line(&ApplyProgress::Stage(
            ApplyStage::Pull,
            StageState::Failed("offline".to_string())
        )),
        "  !!  Pull new image: offline"
    );
    assert_eq!(apply_line(&ApplyProgress::Log("50%".to_string())), "      50%");
}

#[test]
fn doctor_says_how_far_it_got() {
    let answered = Reach::Answered("1.45".to_string());
    let mute = Reach::Mute("eof".to_string());
    let away = Reach::Unreachable("refused".to_string());
    assert_eq!(local_line(&answered), "  [ok] local daemon reachable (API 1.45)");
    assert_eq!(local_line(&mute), "  [!!] connected but version query failed: eof");
    assert_eq!(local_line(&away), "  [!!] cannot reach local daemon: refused");
    assert_eq!(hosts_line(2), "  config: 2 host(s) defined");
    assert_eq!(host_line("nas", &answered), "  [ok] host 'nas' reachable (API 1.45)");
    assert_eq!(host_line("nas", &mute), "  [!!] host 'nas' connect ok but version failed: eof");
    assert_eq!(host_line("nas", &away), "  [!!] host 'nas' unreachable: refused");
}

#[test]
fn ntfy_gets_its_own_form() {
    assert!(matches!(
        prepare("https://ntfy.sh/topic", "T", "B"),
        Notification::Ntfy { title, tags, body } if title == "T" && tags == "whale" && body == "B"
    ));
    assert!(matches!(
        prepare("https://example.com/hook", "T", "B"),
        Notification::Webhook { title, message } if title == "T" && message == "B"
    ));
    assert_eq!(accept_reply(true, "200 OK"), Ok(()));
    assert_eq!(
        accept_reply(false, "500 Internal Server Error"),
        Err("notification endpoint returned 500 Internal Server Error".to_string())
    );
}

fn release(tag: &str) -> Release {
    Release {
        name: None,
        tag_name: tag.to_string(),
        body: None,
        published_at: None,
        html_url: None,
    }
}

#[test]
fn targets_are_triples() {
    assert_eq!(current_target("x86_64", "linux"), "x86_64-unknown-linux-gnu");
    assert_eq!(current_target("aarch64", "linux"), "aarch64-unknown-linux-gnu");
    assert_eq!(current_target("x86_64", "macos"), "x86_64-apple-darwin");
    assert_eq!(current_target("aarch64", "macos"), "aarch64-apple-darwin");
    assert_eq!(current_target("arm", "windows"), "arm-windows");
}

#[test]
fn only_other_versions_are_downloaded() {
    let nothing = plan("1.0.0", &Vec::new(), "t");
    assert!(matches!(nothing, UpdatePlan::NothingPublished));
    assert_eq!(plan_message(&nothing, "1.0.0"), "No releases published yet.");
    let same = plan("1.0.0", &vec![release("v1.0.0")], "t");
    assert!(matches!(same, UpdatePlan::UpToDate));
    assert_eq!(plan_message(&same, "1.0.0"), "Already up to date (1.0.0).");
    let newer = plan("1.0.0", &vec![release("v1.1.0"), release("v1.0.0")], "x86_64-apple-darwin");
    assert_eq!(plan_message(&newer, "1.0.0"), "New version available: 1.1.0 (current 1.0.0)");
    match newer {
        UpdatePlan::Download { version, asset, url } => {
            assert_eq!(version, "1.1.0");
            assert_eq!(asset, "dockersmith-x86_64-apple-darwin-v1.1.0");
            assert_eq!(
                url,
                format!(
                    "https://github.com/{}/releases/download/v1.1.0/dockersmith-x86_64-apple-darwin-v1.1.0",
                    release_repo()
                )
            );
        }
        _ => panic!("nothing to download"),
    }
    assert_eq!(accept_asset(true, "arm-windows", "200 OK"), Ok(()));
    assert_eq!(
        accept_asset(false, "arm-windows", "404 Not Found"),
        Err("no prebuilt asset for arm-windows (404 Not Found)".to_string())
    );
}
