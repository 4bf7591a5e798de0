//! Registry decisions.

use dockersmith::json::Json;
use dockersmith::refmap::RefMap;
use dockersmith::registry::{
    accept_releases, extract_directive, limit_releases, manifest_accept, pick_platform_digest, read_config_blob,
    releases_url, repo_of_address, resolve_source, source_from_labels, version_from_labels, version_labels, version_of_image,
    FetchAction, Release, RemoteFetch, RemoteImageMeta, Reply,
};

fn text(s: &str) -> Json {
    Json::Text(s.to_string())
}

fn object(fields: Vec<(&str, Json)>) -> Json {
    Json::Object(fields.into_iter().map(|(k, v)| (k.to_string(), v)).collect())
}

fn ok(body: Json) -> Reply {
    Reply::Answer { code: 200, status: "200 OK".to_string(), challenge: None, body: Ok(body) }
}

fn refused(code: u16, status: &str, challenge: Option<&str>) -> Reply {
    Reply::Answer {
        code,
        status: status.to_string(),
        challenge: challenge.map(|c| c.to_string()),
        body: Err("no body".to_string()),
    }
}

fn url_of(action: &FetchAction) -> String {
    match action {
        FetchAction::Get { url, .. } => url.clone(),
        FetchAction::Finish(_) => panic!("the fetch is over"),
    }
}

fn error_of(action: FetchAction) -> String {
    match action {
        FetchAction::Finish(Err(e)) => e,
        _ => panic!("no error"),
    }
}

fn meta_of(action: FetchAction) -> RemoteImageMeta {
    match action {
        FetchAction::Finish(Ok(m)) => m,
        _ => panic!("no metadata"),
    }
}

#[test]
fn first_filled_version_label_wins() {
    let labels = vec![
        ("version".to_string(), text("3")),
        ("build_version".to_string(), text("2")),
        ("org.opencontainers.image.version".to_string(), text("")),
        ("app.version".to_string(), Json::Other),
    ];
    assert_eq!(version_from_labels(&labels), Some("2".to_string()));
    assert_eq!(version_from_labels(&Vec::new()), None);
    let mut local: RefMap<String> = RefMap::new();
    local.insert("app.version".to_string(), "9".to_string());
    assert_eq!(version_of_image(&local), Some("9".to_string()));
    assert_eq!(version_labels()[0], "org.opencontainers.image.version");
    assert_eq!(version_labels().len(), 5);
}

#[test]
fn pinned_sources_win() {
    assert_eq!(resolve_source("redis", Some("me/fork")), Some("me/fork".to_string()));
    assert_eq!(resolve_source("redis", None), Some("redis/redis".to_string()));
    assert_eq!(resolve_source("quay.io/b", None), None);
}

#[test]
fn source_labels_name_repositories() {
    let repo = |url: &str| repo_of_address(url);
    assert_eq!(repo("https://github.com/owner/app"), Some("owner/app".to_string()));
    assert_eq!(repo("https://github.com/owner/app.git"), Some("owner/app".to_string()));
    assert_eq!(repo("https://github.com/owner/app/tree/main"), Some("owner/app".to_string()));
    assert_eq!(repo("https://github.com/owner"), None);
    assert_eq!(repo("https://github.com/owner/.git"), None);
    assert_eq!(repo("https://gitlab.com/owner/app"), None);
    let mut labels: RefMap<String> = RefMap::new();
    assert_eq!(source_from_labels(&labels), None);
    labels.insert(
        "org.opencontainers.image.source".to_string(),
        "https://github.com/owner/app".to_string(),
    );
    assert_eq!(source_from_labels(&labels), Some("owner/app".to_string()));
}

#[test]
fn releases_are_limited() {
    assert_eq!(
        releases_url("a/b", 5),
        "https://api.github.com/repos/a/b/releases?per_page=5"
    );
    let release = |tag: &str| Release {
        name: None,
        tag_name: tag.to_string(),
        body: None,
        published_at: None,
        html_url: None,
    };
    let kept = limit_releases(vec![release("1"), release("2"), release("3")], 2);
    assert_eq!(kept.len(), 2);
    assert_eq!(kept[1].tag_name, "2");
    assert_eq!(limit_releases(vec![release("1")], 2).len(), 1);
}

#[test]
fn reads_directives() {
    let header = "Bearer realm=\"https://ghcr.io/token\",service=\"ghcr.io\",scope=\"x\"";
    assert_eq!(extract_directive(header, "realm"), Some("https://ghcr.io/token".to_string()));
    assert_eq!(extract_directive(header, "service"), Some("ghcr.io".to_string()));
    assert_eq!(extract_directive(header, "error"), None);
    assert_eq!(extract_directive("realm=\"open", "realm"), None);
}

fn entry(arch: &str, os: &str, digest: &str) -> Json {
    object(vec![
        ("platform", object(vec![("architecture", text(arch)), ("os", text(os))])),
        ("digest", text(digest)),
    ])
}

#[test]
fn picks_the_platform_of_the_host() {
    let index = object(vec![(
        "manifests",
        Json::List(vec![
            entry("s390x", "linux", "sha256:z"),
            entry("amd64", "windows", "sha256:w"),
            entry("amd64", "linux", "sha256:a"),
            entry("arm64", "linux", "sha256:b"),
        ]),
    )]);
    assert_eq!(pick_platform_digest(&index, "x86_64"), Some("sha256:a".to_string()));
    assert_eq!(pick_platform_digest(&index, "aarch64"), Some("sha256:b".to_string()));
    assert_eq!(pick_platform_digest(&index, "s390x"), Some("sha256:z".to_string()));
    assert_eq!(pick_platform_digest(&index, "riscv64"), Some("sha256:z".to_string()));
    assert_eq!(pick_platform_digest(&object(vec![]), "x86_64"), None);
    assert_eq!(
        pick_platform_digest(&object(vec![("manifests", Json::List(vec![]))]), "x86_64"),
        None
    );
}

#[test]
fn reads_config_blobs() {
    let blob = object(vec![
        (
            "container_config",
            object(vec![("Labels", object(vec![("version", text("1.0"))]))]),
        ),
        ("created", text("2024-05-06T07:08:09Z")),
    ]);
    assert_eq!(
        read_config_blob(&blob),
        (Some("1.0".to_string()), Some("2024-05-06".to_string()))
    );
    assert_eq!(read_config_blob(&object(vec![("created", text(""))])), (None, None));
}

#[test]
fn fetches_from_docker_hub() {
    let (mut fetch, first) = RemoteFetch::begin("redis:7", "x86_64");
    assert_eq!(
        url_of(&first),
        "https://auth.docker.io/token?service=registry.docker.io&scope=repository:library/redis:pull"
    );
    let manifest = fetch.next(ok(object(vec![("token", text("t0k"))])));
    match &manifest {
        FetchAction::Get { url, token, accept } => {
            assert_eq!(url, "https://registry-1.docker.io/v2/library/redis/manifests/7");
            assert_eq!(token, &Some("t0k".to_string()));
            assert_eq!(accept, &Some(manifest_accept().to_string()));
        }
        FetchAction::Finish(_) => panic!("the fetch is over"),
    }
    let index = object(vec![(
        "manifests",
        Json::List(vec![entry("amd64", "linux", "sha256:sub")]),
    )]);
    let sub = fetch.next(ok(index));
    assert_eq!(
        url_of(&sub),
        "https://registry-1.docker.io/v2/library/redis/manifests/sha256:sub"
    );
    let config = object(vec![("config", object(vec![("digest", text("sha256:cfg"))]))]);
    let blob = fetch.next(ok(config));
    match &blob {
        FetchAction::Get { url, token, accept } => {
            assert_eq!(url, "https://registry-1.docker.io/v2/library/redis/blobs/sha256:cfg");
            assert_eq!(token, &Some("t0k".to_string()));
            assert_eq!(accept, &None);
        }
        FetchAction::Finish(_) => panic!("the fetch is over"),
    }
    let labels = object(vec![("org.opencontainers.image.version", text("7.2"))]);
    let meta = meta_of(fetch.next(ok(object(vec![
        ("config", object(vec![("Labels", labels)])),
        ("created", text("2024-01-02T03:04:05Z")),
    ]))));
    assert_eq!(meta.config_digest, "sha256:cfg");
    assert_eq!(meta.version, Some("7.2".to_string()));
    assert_eq!(meta.created, Some("2024-01-02".to_string()));
}

#[test]
fn asks_for_a_token_of_the_repository() {
    let (mut fetch, first) = RemoteFetch::begin("lscr.io/linuxserver/sonarr", "x86_64");
    assert_eq!(url_of(&first), "https://lscr.io/v2/");
    let challenge =
        "Bearer realm=\"https://ghcr.io/token\",service=\"ghcr.io\",scope=\"repository:user/image:pull\"";
    let token = fetch.next(refused(401, "401 Unauthorized", Some(challenge)));
    assert_eq!(
        url_of(&token),
        "https://ghcr.io/token?service=ghcr.io&scope=repository:linuxserver/sonarr:pull"
    );
    let manifest = fetch.next(ok(object(vec![("access_token", text("abc"))])));
    match manifest {
        FetchAction::Get { url, token, .. } => {
            assert_eq!(url, "https://lscr.io/v2/linuxserver/sonarr/manifests/latest");
            assert_eq!(token, Some("abc".to_string()));
        }
        FetchAction::Finish(_) => panic!("the fetch is over"),
    }
}

#[test]
fn goes_on_without_a_token() {
    for reply in [
        Reply::Failed("timeout".to_string()),
        ok(Json::Other),
        refused(401, "401 Unauthorized", None),
        refused(401, "401 Unauthorized", Some("Basic realm=\"x")),
    ] {
        let (mut fetch, _) = RemoteFetch::begin("quay.io/a/b:1", "x86_64");
        match fetch.next(reply) {
            FetchAction::Get { url, token, .. } => {
                assert_eq!(url, "https://quay.io/v2/a/b/manifests/1");
                assert_eq!(token, None);
            }
            FetchAction::Finish(_) => panic!("the fetch is over"),
        }
    }
}

#[test]
fn says_what_went_wrong() {
    let at_manifest = || {
        let (mut fetch, _) = RemoteFetch::begin("quay.io/a/b:1", "x86_64");
        let _ = fetch.next(ok(Json::Other));
        fetch
    };
    assert_eq!(
        error_of(at_manifest().next(refused(404, "404 Not Found", None))),
        "fetching manifest: registry returned 404 Not Found for https://quay.io/v2/a/b/manifests/1"
    );
    assert_eq!(
        error_of(at_manifest().next(Reply::Failed("refused".to_string()))),
        "fetching manifest: registry request failed: refused"
    );
    assert_eq!(
        error_of(at_manifest().next(Reply::Answer {
            code: 200,
            status: "200 OK".to_string(),
            challenge: None,
            body: Err("bad".to_string()),
        })),
        "fetching manifest: parsing registry JSON: bad"
    );
    assert_eq!(
        error_of(at_manifest().next(ok(object(vec![("manifests", Json::List(vec![]))])))),
        "no matching platform in manifest index"
    );
    assert_eq!(
        error_of(at_manifest().next(ok(object(vec![])))),
        "manifest has no config digest"
    );
    let mut fetch = at_manifest();
    let index = object(vec![(
        "manifests",
        Json::List(vec![entry("amd64", "linux", "sha256:sub")]),
    )]);
    let _ = fetch.next(ok(index));
    assert_eq!(
        error_of(fetch.next(Reply::Failed("gone".to_string()))),
        "fetching platform manifest: registry request failed: gone"
    );
}

#[test]
fn a_lost_blob_leaves_the_digest() {
    let (mut fetch, _) = RemoteFetch::begin("quay.io/a/b:1", "x86_64");
    let _ = fetch.next(ok(Json::Other));
    let config = object(vec![("config", object(vec![("digest", text("sha256:cfg"))]))]);
    let _ = fetch.next(ok(config));
    let meta = meta_of(fetch.next(refused(500, "500 Internal Server Error", None)));
    assert_eq!(meta.config_digest, "sha256:cfg");
    assert_eq!(meta.version, None);
    assert_eq!(meta.created, None);
}

#[test]
fn refused_releases_are_an_error() {
    assert_eq!(accept_releases(true, "a/b", "200 OK"), Ok(()));
    assert_eq!(
        accept_releases(false, "a/b", "403 Forbidden"),
        Err("GitHub API returned 403 Forbidden for a/b".to_string())
    );
}
