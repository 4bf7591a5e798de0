//! Registry decisions: which requests to make for an image's metadata, and what the replies
//! mean; and where an image's changelog is published.
//!
//! The requests themselves are made elsewhere: [`RemoteFetch`] names the next one, and takes
//! the reply.

use vstd::prelude::*;
use crate::json;
use crate::json::{find_field, Json};
use crate::refmap::RefMap;
use crate::text;
use crate::text::{
    cat2, cat3, cat4, cat5, copy_option, find_char, find_str, head_until, split_once, str_eq,
    strip_prefix, take_chars,
};
use crate::util;
use crate::util::ImageRef;

verus! {

// ── Version labels ─────────────────────────────────────────────────────────

/// Labels checked, in priority order, for a human-readable image version.
pub open spec fn version_keys() -> Seq<Seq<char>> {
    seq![
        "org.opencontainers.image.version"@,
        "build_version"@,
        "version"@,
        "org.label-schema.version"@,
        "app.version"@,
    ]
}

/// Labels checked, in priority order, for a human-readable image version.
pub fn version_labels() -> (r: Vec<String>)
    ensures
        r.deep_view() == version_keys(),
{
    let r = vec![
        "org.opencontainers.image.version".to_string(),
        "build_version".to_string(),
        "version".to_string(),
        "org.label-schema.version".to_string(),
        "app.version".to_string(),
    ];
    assert(r.deep_view() =~= version_keys());
    r
}

/// The first text, over a list of candidates, that is there and not empty.
pub open spec fn first_filled(candidates: Seq<Option<Seq<char>>>) -> Option<Seq<char>>
    decreases candidates.len(),
{
    if candidates.len() == 0 {
        None
    } else if candidates[0] is Some && candidates[0]->0.len() > 0 {
        candidates[0]
    } else {
        first_filled(candidates.drop_first())
    }
}

/// The first text of a list that is there and not empty.
fn pick_filled(candidates: &Vec<Option<String>>) -> (r: Option<String>)
    ensures
        r.deep_view() == first_filled(candidates.deep_view()),
{
    let ghost all = candidates.deep_view();
    let mut i: usize = 0;
    assert(all.skip(0) =~= all);
    while i < candidates.len()
        invariant
            all == candidates.deep_view(),
            i <= candidates@.len(),
            first_filled(all.skip(i as int)) == first_filled(all),
        decreases candidates@.len() - i,
    {
        assert(all.skip(i as int)[0] == candidates@[i as int].deep_view());
        match &candidates[i] {
            Some(s) => {
                if !s.as_str().is_empty() {
                    return Some(s.clone());
                }
            },
            None => {},
        }
        assert(all.skip(i as int).drop_first() =~= all.skip(i + 1));
        i = i + 1;
    }
    None
}

/// What each version label holds, in a set of fields.
pub open spec fn field_candidates(fields: Seq<(String, Json)>) -> Seq<Option<Seq<char>>> {
    version_keys().map_values(|k: Seq<char>| json::text_in(json::field(fields, k)))
}

/// Pick the first non-empty version label from a label map.
pub fn version_from_labels(labels: &Vec<(String, Json)>) -> (r: Option<String>)
    ensures
        r.deep_view() == first_filled(field_candidates(labels@)),
{
    let keys = version_labels();
    let mut found: Vec<Option<String>> = Vec::new();
    let mut i: usize = 0;
    while i < keys.len()
        invariant
            keys.deep_view() == version_keys(),
            i <= keys@.len(),
            found@.len() == i,
            forall|j: int|
                0 <= j < i ==> #[trigger] found@[j].deep_view() == json::text_in(
                    json::field(labels@, version_keys()[j]),
                ),
        decreases keys@.len() - i,
    {
        assert(keys@[i as int]@ == version_keys()[i as int]);
        let value = match find_field(labels, keys[i].as_str()) {
            Some(v) => match v.as_str() {
                Some(s) => Some(s.clone()),
                None => None,
            },
            None => None,
        };
        found.push(value);
        i = i + 1;
    }
    assert(keys@.len() == version_keys().len());
    assert(found.deep_view() =~= field_candidates(labels@));
    pick_filled(&found)
}

/// What each version label holds, in a map of labels.
pub open spec fn label_candidates(labels: Map<Seq<char>, Seq<char>>) -> Seq<Option<Seq<char>>> {
    version_keys().map_values(
        |k: Seq<char>| if labels.contains_key(k) { Some(labels[k]) } else { None },
    )
}

/// The first non-empty version label of a local image.
pub fn version_of_image(labels: &RefMap<String>) -> (r: Option<String>)
    ensures
        r.deep_view() == first_filled(label_candidates(labels@)),
{
    let keys = version_labels();
    let mut found: Vec<Option<String>> = Vec::new();
    let mut i: usize = 0;
    while i < keys.len()
        invariant
            keys.deep_view() == version_keys(),
            i <= keys@.len(),
            found@.len() == i,
            forall|j: int|
                0 <= j < i ==> #[trigger] found@[j].deep_view() == (if labels@.contains_key(
                    version_keys()[j],
                ) {
                    Some(labels@[version_keys()[j]])
                } else {
                    None
                }),
        decreases keys@.len() - i,
    {
        assert(keys@[i as int]@ == version_keys()[i as int]);
        let value = match labels.get(keys[i].as_str()) {
            Some(s) => Some(s.clone()),
            None => None,
        };
        found.push(value);
        i = i + 1;
    }
    assert(keys@.len() == version_keys().len());
    assert(found.deep_view() =~= label_candidates(labels@));
    pick_filled(&found)
}

/// A version that is picked is never empty, and it is the value of one of the version labels
/// with every label of higher priority missing or empty.
pub proof fn law_version_is_first_filled(candidates: Seq<Option<Seq<char>>>)
    ensures
        match first_filled(candidates) {
            Some(v) => v.len() > 0 && exists|i: int|
                0 <= i < candidates.len() && candidates[i] == Some(v) && forall|j: int|
                    0 <= j < i ==> (#[trigger] candidates[j] is None || candidates[j]->0.len()
                        == 0),
            None => forall|j: int|
                0 <= j < candidates.len() ==> (#[trigger] candidates[j] is None
                    || candidates[j]->0.len() == 0),
        },
    decreases candidates.len(),
{
    if candidates.len() > 0 {
        let rest = candidates.drop_first();
        if candidates[0] is Some && candidates[0]->0.len() > 0 {
            assert(candidates[0] == Some(candidates[0]->0));
        } else {
            law_version_is_first_filled(rest);
            match first_filled(rest) {
                Some(v) => {
                    let i = choose|i: int|
                        0 <= i < rest.len() && rest[i] == Some(v) && forall|j: int|
                            0 <= j < i ==> (#[trigger] rest[j] is None || rest[j]->0.len() == 0);
                    assert(candidates[i + 1] == Some(v));
                    assert forall|j: int| 0 <= j < i + 1 implies (#[trigger] candidates[j] is None
                        || candidates[j]->0.len() == 0) by {
                        if j > 0 {
                            assert(candidates[j] == rest[j - 1]);
                        }
                    }
                },
                None => {
                    assert forall|j: int|
                        0 <= j < candidates.len() implies (#[trigger] candidates[j] is None
                        || candidates[j]->0.len() == 0) by {
                        if j > 0 {
                            assert(candidates[j] == rest[j - 1]);
                        }
                    }
                },
            }
        }
    }
}

// ── Changelog sources ──────────────────────────────────────────────────────

/// A single GitHub release entry.
#[derive(Debug, Clone)]
pub struct Release {
    pub name: Option<String>,
    pub tag_name: String,
    pub body: Option<String>,
    pub published_at: Option<String>,
    pub html_url: Option<String>,
}

/// Where the label that names an image's source says that it is kept.
pub open spec fn source_key() -> Seq<char> {
    "org.opencontainers.image.source"@
}

/// A repository's name without the `.git` that its address may end in.
pub open spec fn without_git(name: Seq<char>) -> Seq<char> {
    if name.len() >= 4 && name.skip(name.len() - 4) == ".git"@ {
        name.take(name.len() - 4)
    } else {
        name
    }
}

/// The `owner/repo` of a GitHub address.
pub open spec fn github_repo(url: Seq<char>) -> Option<Seq<char>> {
    let host = "https://github.com/"@;
    if text::starts(url, host) {
        let rest = url.skip(host.len() as int);
        let owner = text::before_first(rest, '/');
        let name = without_git(text::before_first(text::after_first(rest, '/'), '/'));
        if rest.contains('/') && owner.len() > 0 && name.len() > 0 {
            Some(owner + "/"@ + name)
        } else {
            None
        }
    } else {
        None
    }
}

/// A repository's name without the `.git` that its address may end in.
fn drop_git(name: &str) -> (r: String)
    ensures
        r@ == without_git(name@),
{
    let n = name.unicode_len();
    proof {
        reveal_strlit(".git");
    }
    if n >= 4 {
        let tail = name.substring_char(n - 4, n);
        assert(tail@ =~= name@.skip(n - 4));
        if str_eq(tail, ".git") {
            let head = name.substring_char(0, n - 4);
            assert(head@ =~= name@.take(n - 4));
            return head.to_string();
        }
    }
    name.to_string()
}

/// The `owner/repo` of a GitHub address.
pub fn repo_of_address(url: &str) -> (r: Option<String>)
    ensures
        r.deep_view() == github_repo(url@),
{
    let rest = match strip_prefix(url, "https://github.com/") {
        Some(rest) => rest,
        None => return None,
    };
    match split_once(rest, '/') {
        Some((owner, tail)) => {
            let name = drop_git(head_until(tail, '/'));
            if owner.is_empty() || name.as_str().is_empty() {
                None
            } else {
                Some(cat3(owner, "/", name.as_str()))
            }
        },
        None => None,
    }
}

/// The `owner/repo` that an image's source label names.
pub open spec fn labelled_source(labels: Map<Seq<char>, Seq<char>>) -> Option<Seq<char>> {
    if labels.contains_key(source_key()) {
        github_repo(labels[source_key()])
    } else {
        None
    }
}

/// The `owner/repo` that an image's source label names.
pub fn source_from_labels(labels: &RefMap<String>) -> (r: Option<String>)
    ensures
        r.deep_view() == labelled_source(labels@),
{
    match labels.get("org.opencontainers.image.source") {
        Some(url) => repo_of_address(url.as_str()),
        None => None,
    }
}

/// The changelog source of an image: the pinned one, else a guess from its name.
pub open spec fn source_of(image: Seq<char>, pinned: Option<Seq<char>>) -> Option<Seq<char>> {
    match pinned {
        Some(repo) => Some(repo),
        None => util::guessed_repo(util::parsed(image)),
    }
}

/// Resolve the GitHub `owner/repo` to use for an image's changelog.
///
/// Uses a pinned override if provided, otherwise guesses from the image name.
pub fn resolve_source(image: &str, pinned: Option<&str>) -> (r: Option<String>)
    ensures
        r.deep_view() == source_of(
            image@,
            (match pinned {
                Some(p) => Some(p@),
                None => None,
            }),
        ),
{
    match pinned {
        Some(repo) => Some(repo.to_string()),
        None => ImageRef::parse(image).guess_github_repo(),
    }
}

/// The address of a GitHub repository's latest releases.
pub open spec fn releases_address(repo: Seq<char>, limit: nat) -> Seq<char> {
    "https://api.github.com/repos/"@ + repo + "/releases?per_page="@ + text::decimal(limit)
}

/// The address of a GitHub repository's latest releases.
pub fn releases_url(repo: &str, limit: usize) -> (r: String)
    ensures
        r@ == releases_address(repo@, limit as nat),
{
    cat4(
        "https://api.github.com/repos/",
        repo,
        "/releases?per_page=",
        text::decimal_usize(limit).as_str(),
    )
}

/// What GitHub's answer to a request for releases amounts to: whether it stands for success, and
/// its status as text.
pub fn accept_releases(success: bool, repo: &str, status: &str) -> (r: Result<(), String>)
    ensures
        r is Ok <==> success,
        r matches Err(m) ==> m@ == "GitHub API returned "@ + status@ + " for "@ + repo@,
{
    if success {
        Ok(())
    } else {
        Err(cat4("GitHub API returned ", status, " for ", repo))
    }
}

/// At most the first `limit` releases of a reply.
pub fn limit_releases(releases: Vec<Release>, limit: usize) -> (r: Vec<Release>)
    ensures
        r@ == (if releases@.len() <= limit { releases@ } else { releases@.take(limit as int) }),
{
    let mut out = releases;
    if out.len() > limit {
        out.truncate(limit);
    }
    out
}

// ── Authentication challenges ──────────────────────────────────────────────

/// The value of a `key="value"` directive.
pub open spec fn directive(header: Seq<char>, key: Seq<char>) -> Option<Seq<char>> {
    let needle = key + "=\""@;
    let at = text::find_from(header, needle, 0);
    let rest = header.skip(at + needle.len());
    if at >= 0 && rest.contains('"') {
        Some(text::before_first(rest, '"'))
    } else {
        None
    }
}

/// Parse a `key="value"` directive out of a WWW-Authenticate header.
pub fn extract_directive(header: &str, key: &str) -> (r: Option<String>)
    ensures
        r.deep_view() == directive(header@, key@),
{
    let needle = cat2(key, "=\"");
    match find_str(header, needle.as_str()) {
        Some(at) => {
            let n = header.unicode_len();
            let rest = header.substring_char(at + needle.as_str().unicode_len(), n);
            match find_char(rest, '"') {
                Some(end) => Some(rest.substring_char(0, end).to_string()),
                None => None,
            }
        },
        None => None,
    }
}

/// A directive that stands in a header, with no earlier text like its name, is read back as it
/// was written.
pub proof fn law_directive_reads_back(
    before: Seq<char>,
    key: Seq<char>,
    value: Seq<char>,
    after: Seq<char>,
)
    requires
        !value.contains('"'),
        forall|i: int|
            0 <= i < before.len() ==> !#[trigger] text::occurs_at(
                before + key + "=\""@ + value + seq!['"'] + after,
                key + "=\""@,
                i,
            ),
    ensures
        directive(before + key + "=\""@ + value + seq!['"'] + after, key) == Some(value),
{
    let header = before + key + "=\""@ + value + seq!['"'] + after;
    let needle = key + "=\""@;
    let at = before.len() as int;
    assert(header.subrange(at, at + needle.len()) =~= needle);
    lemma_find_from(header, needle, 0, at);
    let rest = header.skip(at + needle.len());
    assert(rest =~= value + seq!['"'] + after);
    assert(rest[value.len() as int] == '"');
    assert forall|j: int| 0 <= j < value.len() implies rest[j] != '"' by {
        assert(value.contains(value[j]));
    }
    text::lemma_first_index_is(rest, '"', value.len() as int);
    assert(text::before_first(rest, '"') =~= value);
}

/// The first place is found from any earlier start.
proof fn lemma_find_from(s: Seq<char>, needle: Seq<char>, from: int, at: int)
    requires
        0 <= from <= at,
        text::occurs_at(s, needle, at),
        forall|i: int| from <= i < at ==> !text::occurs_at(s, needle, i),
    ensures
        text::find_from(s, needle, from) == at,
    decreases at - from,
{
    if from < at {
        lemma_find_from(s, needle, from + 1, at);
    }
}

// ── Manifest lists ─────────────────────────────────────────────────────────

/// The name that manifests give to a host architecture.
pub open spec fn manifest_arch(arch: Seq<char>) -> Seq<char> {
    if arch == "x86_64"@ {
        "amd64"@
    } else if arch == "aarch64"@ {
        "arm64"@
    } else {
        arch
    }
}

/// Whether a manifest entry is for Linux on `arch`.
pub open spec fn for_platform(entry: Json, arch: Seq<char>) -> bool {
    let platform = entry.lookup("platform"@);
    &&& json::text_in(json::get_in(platform, "architecture"@)) == Some(arch)
    &&& json::text_in(json::get_in(platform, "os"@)) == Some("linux"@)
}

/// The first entry for Linux on `arch`.
pub open spec fn platform_entry(entries: Seq<Json>, arch: Seq<char>) -> Option<Json>
    decreases entries.len(),
{
    if entries.len() == 0 {
        None
    } else if for_platform(entries[0], arch) {
        Some(entries[0])
    } else {
        platform_entry(entries.drop_first(), arch)
    }
}

/// The digest of the entry for this host, else of the first entry.
pub open spec fn platform_digest(index: Json, arch: Seq<char>) -> Option<Seq<char>> {
    match index.lookup("manifests"@) {
        Some(Json::List(entries)) => {
            let exact = platform_entry(entries@, manifest_arch(arch));
            if exact is Some {
                json::text_in(json::get_in(exact, "digest"@))
            } else if entries@.len() > 0 {
                json::text_in(entries@[0].lookup("digest"@))
            } else {
                None
            }
        },
        _ => None,
    }
}

/// Whether a manifest entry is for Linux on `arch`.
fn is_for_platform(entry: &Json, arch: &str) -> (r: bool)
    ensures
        r == for_platform(*entry, arch@),
{
    match entry.get("platform") {
        Some(platform) => match (platform.text_of("architecture"), platform.text_of("os")) {
            (Some(a), Some(o)) => str_eq(a.as_str(), arch) && str_eq(o.as_str(), "linux"),
            _ => false,
        },
        None => false,
    }
}

/// From a manifest index, pick the digest matching this host's OS/architecture.
///
/// Prefers an exact `linux/<arch>` match, else takes the first entry. `arch` is the host's
/// architecture as the compiler names it.
pub fn pick_platform_digest(index: &Json, arch: &str) -> (r: Option<String>)
    ensures
        r.deep_view() == platform_digest(*index, arch@),
{
    let host_arch = if str_eq(arch, "x86_64") {
        "amd64"
    } else if str_eq(arch, "aarch64") {
        "arm64"
    } else {
        arch
    };
    match index.get("manifests") {
        Some(Json::List(entries)) => {
            let mut i: usize = 0;
            assert(entries@.skip(0) =~= entries@);
            while i < entries.len()
                invariant
                    index.lookup("manifests"@) == Some(Json::List(*entries)),
                    host_arch@ == manifest_arch(arch@),
                    i <= entries@.len(),
                    platform_entry(entries@.skip(i as int), host_arch@) == platform_entry(
                        entries@,
                        host_arch@,
                    ),
                decreases entries@.len() - i,
            {
                assert(entries@.skip(i as int)[0] == entries@[i as int]);
                if is_for_platform(&entries[i], host_arch) {
                    return entries[i].text_of("digest");
                }
                assert(entries@.skip(i as int).drop_first() =~= entries@.skip(i + 1));
                i = i + 1;
            }
            if entries.len() > 0 {
                entries[0].text_of("digest")
            } else {
                None
            }
        },
        _ => None,
    }
}

// ── Remote metadata ────────────────────────────────────────────────────────

/// Remote image metadata read from the registry (no layers pulled).
#[derive(Debug, Clone)]
pub struct RemoteImageMeta {
    /// Digest of the image's config, which is the id of the image once pulled.
    pub config_digest: String,
    /// Version label of the latest image, if published.
    pub version: Option<String>,
    /// Creation date (YYYY-MM-DD) of the latest image, if available.
    pub created: Option<String>,
}

/// Remote image metadata as mathematical values.
pub struct MetaModel {
    pub config_digest: Seq<char>,
    pub version: Option<Seq<char>>,
    pub created: Option<Seq<char>>,
}

impl View for RemoteImageMeta {
    type V = MetaModel;

    open spec fn view(&self) -> MetaModel {
        MetaModel {
            config_digest: self.config_digest@,
            version: self.version.deep_view(),
            created: self.created.deep_view(),
        }
    }
}

/// Media types accepted when fetching a manifest.
pub open spec fn manifest_types() -> Seq<char> {
    "application/vnd.oci.image.manifest.v1+json, application/vnd.docker.distribution.manifest.v2+json, application/vnd.oci.image.index.v1+json, application/vnd.docker.distribution.manifest.list.v2+json"@
}

/// Media types accepted when fetching a manifest.
pub fn manifest_accept() -> (r: &'static str)
    ensures
        r@ == manifest_types(),
{
    "application/vnd.oci.image.manifest.v1+json, application/vnd.docker.distribution.manifest.v2+json, application/vnd.oci.image.index.v1+json, application/vnd.docker.distribution.manifest.list.v2+json"
}

/// The reply to a request.
#[derive(Debug)]
pub enum Reply {
    /// The request got no answer; the reason.
    Failed(String),
    /// The server answered.
    Answer {
        /// HTTP status code.
        code: u16,
        /// The status as it is displayed.
        status: String,
        /// The `www-authenticate` header, where it is there and readable.
        challenge: Option<String>,
        /// The body as JSON, or why it is none.
        body: Result<Json, String>,
    },
}

impl Reply {
    /// Whether the status code stands for success.
    pub open spec fn success(self) -> bool {
        self matches Reply::Answer { code, .. } && 200 <= code <= 299
    }

    /// The JSON body of a successful answer, or what went wrong with a request for `url`.
    pub open spec fn json(self, url: Seq<char>) -> Result<Json, Seq<char>> {
        match self {
            Reply::Failed(e) => Err("registry request failed: "@ + e@),
            Reply::Answer { code, status, challenge, body } => if !(200 <= code <= 299) {
                Err("registry returned "@ + status@ + " for "@ + url)
            } else {
                match body {
                    Ok(j) => Ok(j),
                    Err(e) => Err("parsing registry JSON: "@ + e@),
                }
            },
        }
    }

    /// The token of a token service's answer.
    pub open spec fn token(self) -> Option<Seq<char>> {
        match self {
            Reply::Answer { code, body: Ok(j), .. } => if 200 <= code <= 299 {
                let named = j.lookup("token"@);
                json::text_in(if named is Some { named } else { j.lookup("access_token"@) })
            } else {
                None
            },
            _ => None,
        }
    }

    /// The address of the token service that a challenge names, for pulling `repository`.
    pub open spec fn token_service(self, repository: Seq<char>) -> Option<Seq<char>> {
        match self {
            Reply::Answer { code, challenge: Some(header), .. } => match (
                code == 401,
                directive(header@, "realm"@),
            ) {
                (true, Some(realm)) => {
                    let service = match directive(header@, "service"@) {
                        Some(s) => s,
                        None => Seq::empty(),
                    };
                    Some(realm + "?service="@ + service + "&scope="@ + pull_scope(repository))
                },
                _ => None,
            },
            _ => None,
        }
    }
}

/// The right to pull `repository`.
pub open spec fn pull_scope(repository: Seq<char>) -> Seq<char> {
    "repository:"@ + repository + ":pull"@
}

/// Docker Hub's token service, for pulling `repository`.
pub open spec fn hub_token_service(repository: Seq<char>) -> Seq<char> {
    "https://auth.docker.io/token?service=registry.docker.io&scope=repository:"@ + repository
        + ":pull"@
}

/// The right to pull `repository`.
fn scope_text(repository: &str) -> (r: String)
    ensures
        r@ == pull_scope(repository@),
{
    cat3("repository:", repository, ":pull")
}

/// The token of a token service's answer.
pub fn token_from_reply(reply: &Reply) -> (r: Option<String>)
    ensures
        r.deep_view() == reply.token(),
{
    match reply {
        Reply::Answer { code, body: Ok(j), .. } => {
            if *code < 200 || *code > 299 {
                return None;
            }
            match j.get("token") {
                Some(v) => match v.as_str() {
                    Some(s) => Some(s.clone()),
                    None => None,
                },
                None => j.text_of("access_token"),
            }
        },
        _ => None,
    }
}

/// The address of the token service that a challenge names, for pulling `repository`.
///
/// The scope is always that of this repository: some registries send a placeholder scope in
/// the challenge. The realm and the service are the challenge's own.
pub fn token_url_from_challenge(reply: &Reply, repository: &str) -> (r: Option<String>)
    ensures
        r.deep_view() == reply.token_service(repository@),
{
    match reply {
        Reply::Answer { code, challenge: Some(header), .. } => {
            if *code != 401 {
                return None;
            }
            match extract_directive(header.as_str(), "realm") {
                Some(realm) => {
                    let service = match extract_directive(header.as_str(), "service") {
                        Some(s) => s,
                        None => String::new(),
                    };
                    Some(
                        cat5(
                            realm.as_str(),
                            "?service=",
                            service.as_str(),
                            "&scope=",
                            scope_text(repository).as_str(),
                        ),
                    )
                },
                None => None,
            }
        },
        _ => None,
    }
}

/// The labels of a config blob.
pub open spec fn blob_labels(blob: Json) -> Option<Json> {
    let own = json::get_in(blob.lookup("config"@), "Labels"@);
    if own is Some {
        own
    } else {
        json::get_in(blob.lookup("container_config"@), "Labels"@)
    }
}

/// The version label of a config blob.
pub open spec fn blob_version(blob: Json) -> Option<Seq<char>> {
    match blob_labels(blob) {
        Some(Json::Object(fields)) => first_filled(field_candidates(fields@)),
        _ => None,
    }
}

/// The first ten characters of a date-time, its date, where there are any.
pub open spec fn date_part(stamp: Option<Seq<char>>) -> Option<Seq<char>> {
    match stamp {
        Some(s) => if s.len() == 0 {
            None
        } else {
            Some(text::at_most(s, 10))
        },
        None => None,
    }
}

/// The first ten characters of a date-time, its date, where there are any.
pub fn date_of(stamp: Option<&String>) -> (r: Option<String>)
    ensures
        r.deep_view() == date_part(
            (match stamp {
                Some(s) => Some(s@),
                None => None,
            }),
        ),
{
    match stamp {
        Some(s) => {
            if s.as_str().is_empty() {
                None
            } else {
                Some(take_chars(s.as_str(), 10))
            }
        },
        None => None,
    }
}

/// The version and the creation date that a config blob names.
pub fn read_config_blob(blob: &Json) -> (r: (Option<String>, Option<String>))
    ensures
        r.0.deep_view() == blob_version(*blob),
        r.1.deep_view() == date_part(json::text_in(blob.lookup("created"@))),
{
    let own = match blob.get("config") {
        Some(c) => c.get("Labels"),
        None => None,
    };
    let labels = match own {
        Some(l) => Some(l),
        None => match blob.get("container_config") {
            Some(c) => c.get("Labels"),
            None => None,
        },
    };
    let version = match labels {
        Some(Json::Object(fields)) => version_from_labels(fields),
        _ => None,
    };
    let created = blob.text_of("created");
    (version, date_of(created.as_ref()))
}

// ── The fetch, one request at a time ───────────────────────────────────────

/// What the next reply will be the answer to.
#[derive(Debug, Clone, Copy, PartialEq, Eq, Structural)]
pub enum FetchPhase {
    /// The registry's entry point, to learn whether it asks for a token.
    Probe,
    /// The token service.
    Token,
    /// The manifest, or the index of manifests.
    Manifest,
    /// The manifest for this host, out of an index.
    PlatformManifest,
    /// The config blob.
    Blob,
    /// Nothing: the fetch is over.
    Over,
}

/// A fetch of the metadata of the registry image behind a reference.
///
/// Asks only for the manifest and the small config blob, never for a layer. Works with
/// registries that allow anonymous pulls, with or without a bearer token.
#[derive(Debug)]
pub struct RemoteFetch {
    /// Where the next reply belongs.
    pub phase: FetchPhase,
    /// Host of the registry's API.
    pub api_host: String,
    pub repository: String,
    pub tag: String,
    /// The host's architecture as the compiler names it.
    pub arch: String,
    /// The bearer token, where one was obtained.
    pub token: Option<String>,
    /// The address that was asked for last.
    pub url: String,
    /// Digest of the config, once it is known.
    pub config_digest: String,
}

/// A fetch as mathematical values.
pub struct FetchModel {
    pub phase: FetchPhase,
    pub api_host: Seq<char>,
    pub repository: Seq<char>,
    pub tag: Seq<char>,
    pub arch: Seq<char>,
    pub token: Option<Seq<char>>,
    pub url: Seq<char>,
    pub config_digest: Seq<char>,
}

impl View for RemoteFetch {
    type V = FetchModel;

    open spec fn view(&self) -> FetchModel {
        FetchModel {
            phase: self.phase,
            api_host: self.api_host@,
            repository: self.repository@,
            tag: self.tag@,
            arch: self.arch@,
            token: self.token.deep_view(),
            url: self.url@,
            config_digest: self.config_digest@,
        }
    }
}

/// What a fetch needs next.
#[derive(Debug)]
pub enum FetchAction {
    /// A GET request, with a bearer token and an `Accept` header where they are given.
    Get { url: String, token: Option<String>, accept: Option<String> },
    /// Nothing: this is what came out.
    Finish(Result<RemoteImageMeta, String>),
}

/// What a fetch needs next, as mathematical values.
pub enum ActionModel {
    Get { url: Seq<char>, token: Option<Seq<char>>, accept: Option<Seq<char>> },
    Finish(Result<MetaModel, Seq<char>>),
}

impl View for FetchAction {
    type V = ActionModel;

    open spec fn view(&self) -> ActionModel {
        match self {
            FetchAction::Get { url, token, accept } => ActionModel::Get {
                url: url@,
                token: token.deep_view(),
                accept: accept.deep_view(),
            },
            FetchAction::Finish(r) => ActionModel::Finish(
                match r {
                    Ok(meta) => Ok(meta@),
                    Err(e) => Err(e@),
                },
            ),
        }
    }
}

impl FetchModel {
    /// The address of a repository in a registry's API.
    pub open spec fn base(self) -> Seq<char> {
        "https://"@ + self.api_host + "/v2/"@ + self.repository
    }

    /// A fetch that has just been begun, and its first request.
    pub open spec fn begun(image: Seq<char>, arch: Seq<char>) -> (FetchModel, ActionModel) {
        let r = util::parsed(image);
        let is_hub = r.registry == util::hub() || r.registry == "docker.io"@;
        let api_host = if is_hub { "registry-1.docker.io"@ } else { r.registry };
        let url = if is_hub {
            hub_token_service(r.repository)
        } else {
            "https://"@ + api_host + "/v2/"@
        };
        (
            FetchModel {
                phase: if is_hub { FetchPhase::Token } else { FetchPhase::Probe },
                api_host,
                repository: r.repository,
                tag: r.tag,
                arch,
                token: None,
                url,
                config_digest: Seq::empty(),
            },
            ActionModel::Get { url, token: None, accept: None },
        )
    }

    /// Ends with an error.
    pub open spec fn fail(self, message: Seq<char>) -> (FetchModel, ActionModel) {
        (
            FetchModel { phase: FetchPhase::Over, ..self },
            ActionModel::Finish(Err(message)),
        )
    }

    /// Asks for a manifest by tag or digest.
    pub open spec fn ask_manifest(
        self,
        phase: FetchPhase,
        token: Option<Seq<char>>,
        name: Seq<char>,
    ) -> (FetchModel, ActionModel) {
        let url = self.base() + "/manifests/"@ + name;
        (
            FetchModel { phase, token, url, ..self },
            ActionModel::Get { url, token, accept: Some(manifest_types()) },
        )
    }

    /// Goes from a manifest to the config blob that it names.
    pub open spec fn ask_config(self, manifest: Json) -> (FetchModel, ActionModel) {
        match json::text_in(json::get_in(manifest.lookup("config"@), "digest"@)) {
            Some(digest) => {
                let url = self.base() + "/blobs/"@ + digest;
                (
                    FetchModel { phase: FetchPhase::Blob, url, config_digest: digest, ..self },
                    ActionModel::Get { url, token: self.token, accept: None },
                )
            },
            None => self.fail("manifest has no config digest"@),
        }
    }

    /// What follows a reply.
    pub open spec fn after(self, reply: Reply) -> (FetchModel, ActionModel) {
        match self.phase {
            FetchPhase::Probe => match reply.token_service(self.repository) {
                Some(url) => (
                    FetchModel { phase: FetchPhase::Token, url, ..self },
                    ActionModel::Get { url, token: None, accept: None },
                ),
                None => self.ask_manifest(FetchPhase::Manifest, None, self.tag),
            },
            FetchPhase::Token => self.ask_manifest(FetchPhase::Manifest, reply.token(), self.tag),
            FetchPhase::Manifest => match reply.json(self.url) {
                Err(e) => self.fail("fetching manifest: "@ + e),
                Ok(manifest) => if manifest.lookup("manifests"@) is Some {
                    match platform_digest(manifest, self.arch) {
                        Some(digest) => self.ask_manifest(
                            FetchPhase::PlatformManifest,
                            self.token,
                            digest,
                        ),
                        None => self.fail("no matching platform in manifest index"@),
                    }
                } else {
                    self.ask_config(manifest)
                },
            },
            FetchPhase::PlatformManifest => match reply.json(self.url) {
                Err(e) => self.fail("fetching platform manifest: "@ + e),
                Ok(manifest) => self.ask_config(manifest),
            },
            FetchPhase::Blob => {
                let (version, created) = match reply.json(self.url) {
                    Ok(blob) => (
                        blob_version(blob),
                        date_part(json::text_in(blob.lookup("created"@))),
                    ),
                    Err(e) => (None, None),
                };
                (
                    FetchModel { phase: FetchPhase::Over, ..self },
                    ActionModel::Finish(
                        Ok(MetaModel { config_digest: self.config_digest, version, created }),
                    ),
                )
            },
            FetchPhase::Over => self.fail("the fetch is over"@),
        }
    }
}

/// The JSON body of a successful answer, or what went wrong with a request for `url`.
fn json_from_reply(reply: Reply, url: &str) -> (r: Result<Json, String>)
    ensures
        match (r, reply.json(url@)) {
            (Ok(a), Ok(b)) => a == b,
            (Err(a), Err(b)) => a@ == b,
            _ => false,
        },
{
    match reply {
        Reply::Failed(e) => Err(cat2("registry request failed: ", e.as_str())),
        Reply::Answer { code, status, challenge, body } => {
            if code < 200 || code > 299 {
                return Err(cat4("registry returned ", status.as_str(), " for ", url));
            }
            match body {
                Ok(j) => Ok(j),
                Err(e) => Err(cat2("parsing registry JSON: ", e.as_str())),
            }
        },
    }
}

impl RemoteFetch {
    /// Begins the fetch of the metadata behind `image`, for a host of architecture `arch`.
    pub fn begin(image: &str, arch: &str) -> (r: (Self, FetchAction))
        ensures
            (r.0@, r.1@) == FetchModel::begun(image@, arch@),
    {
        let r = ImageRef::parse(image);
        let ghost model = r@;
        let is_hub = str_eq(r.registry.as_str(), "index.docker.io") || str_eq(
            r.registry.as_str(),
            "docker.io",
        );
        let (api_host, url) = if is_hub {
            (
                "registry-1.docker.io".to_string(),
                cat3(
                    "https://auth.docker.io/token?service=registry.docker.io&scope=repository:",
                    r.repository.as_str(),
                    ":pull",
                ),
            )
        } else {
            (r.registry.clone(), cat3("https://", r.registry.as_str(), "/v2/"))
        };
        let fetch = RemoteFetch {
            phase: if is_hub { FetchPhase::Token } else { FetchPhase::Probe },
            api_host,
            repository: r.repository,
            tag: r.tag,
            arch: arch.to_string(),
            token: None,
            url: url.clone(),
            config_digest: String::new(),
        };
        let action = FetchAction::Get { url, token: None, accept: None };
        (fetch, action)
    }

    /// The address of the repository in the registry's API.
    fn base_url(&self) -> (r: String)
        ensures
            r@ == self@.base(),
    {
        cat4("https://", self.api_host.as_str(), "/v2/", self.repository.as_str())
    }

    /// Ends with an error.
    fn fail(&mut self, message: String) -> (r: FetchAction)
        ensures
            (final(self)@, r@) == old(self)@.fail(message@),
    {
        self.phase = FetchPhase::Over;
        FetchAction::Finish(Err(message))
    }

    /// Asks for a manifest by tag or digest.
    fn ask_manifest(&mut self, phase: FetchPhase, token: Option<String>, name: &str) -> (r:
        FetchAction)
        ensures
            (final(self)@, r@) == old(self)@.ask_manifest(phase, token.deep_view(), name@),
    {
        let url = cat3(self.base_url().as_str(), "/manifests/", name);
        self.phase = phase;
        self.token = copy_option(&token);
        self.url = url.clone();
        FetchAction::Get { url, token, accept: Some(manifest_accept().to_string()) }
    }

    /// Goes from a manifest to the config blob that it names.
    fn ask_config(&mut self, manifest: &Json) -> (r: FetchAction)
        ensures
            (final(self)@, r@) == old(self)@.ask_config(*manifest),
    {
        let digest = match manifest.get("config") {
            Some(c) => c.text_of("digest"),
            None => None,
        };
        match digest {
            Some(digest) => {
                let url = cat3(self.base_url().as_str(), "/blobs/", digest.as_str());
                self.phase = FetchPhase::Blob;
                self.url = url.clone();
                self.config_digest = digest;
                FetchAction::Get { url, token: copy_option(&self.token), accept: None }
            },
            None => self.fail("manifest has no config digest".to_string()),
        }
    }

    /// Takes the reply to the last request, and says what is needed next.
    pub fn next(&mut self, reply: Reply) -> (r: FetchAction)
        ensures
            (final(self)@, r@) == old(self)@.after(reply),
    {
        match self.phase {
            FetchPhase::Probe => {
                match token_url_from_challenge(&reply, self.repository.as_str()) {
                    Some(url) => {
                        self.phase = FetchPhase::Token;
                        self.url = url.clone();
                        FetchAction::Get { url, token: None, accept: None }
                    },
                    None => {
                        let tag = self.tag.clone();
                        self.ask_manifest(FetchPhase::Manifest, None, tag.as_str())
                    },
                }
            },
            FetchPhase::Token => {
                let token = token_from_reply(&reply);
                let tag = self.tag.clone();
                self.ask_manifest(FetchPhase::Manifest, token, tag.as_str())
            },
            FetchPhase::Manifest => {
                match json_from_reply(reply, self.url.as_str()) {
                    Err(e) => self.fail(cat2("fetching manifest: ", e.as_str())),
                    Ok(manifest) => {
                        if manifest.get("manifests").is_some() {
                            match pick_platform_digest(&manifest, self.arch.as_str()) {
                                Some(digest) => {
                                    let token = copy_option(&self.token);
                                    self.ask_manifest(
                                        FetchPhase::PlatformManifest,
                                        token,
                                        digest.as_str(),
                                    )
                                },
                                None => self.fail(
                                    "no matching platform in manifest index".to_string(),
                                ),
                            }
                        } else {
                            self.ask_config(&manifest)
                        }
                    },
                }
            },
            FetchPhase::PlatformManifest => {
                match json_from_reply(reply, self.url.as_str()) {
                    Err(e) => self.fail(cat2("fetching platform manifest: ", e.as_str())),
                    Ok(manifest) => self.ask_config(&manifest),
                }
            },
            FetchPhase::Blob => {
                let (version, created) = match json_from_reply(reply, self.url.as_str()) {
                    Ok(blob) => read_config_blob(&blob),
                    Err(_) => (None, None),
                };
                self.phase = FetchPhase::Over;
                FetchAction::Finish(
                    Ok(
                        RemoteImageMeta {
                            config_digest: self.config_digest.clone(),
                            version,
                            created,
                        },
                    ),
                )
            },
            FetchPhase::Over => self.fail("the fetch is over".to_string()),
        }
    }
}

// ── Laws of the fetch ──────────────────────────────────────────────────────

/// How many requests a fetch can still make.
pub open spec fn requests_left(phase: FetchPhase) -> nat {
    match phase {
        FetchPhase::Probe => 4,
        FetchPhase::Token => 3,
        FetchPhase::Manifest => 2,
        FetchPhase::PlatformManifest => 1,
        FetchPhase::Blob => 0,
        FetchPhase::Over => 0,
    }
}

/// A fetch ends: each request brings it closer to its end, so that a whole fetch makes at most
/// five of them, and it is over exactly when it has a result.
pub proof fn law_fetch_ends(f: FetchModel, reply: Reply)
    ensures
        f.after(reply).1 is Get ==> requests_left(f.after(reply).0.phase) < requests_left(f.phase),
        f.after(reply).1 is Finish <==> f.after(reply).0.phase == FetchPhase::Over,
{
}

/// Only a manifest of the image, or the config blob that one of them names, is ever fetched
/// from the registry: no layer is.
pub proof fn law_no_layer_is_fetched(f: FetchModel, reply: Reply)
    requires
        f.phase == FetchPhase::Manifest || f.phase == FetchPhase::PlatformManifest || f.phase
            == FetchPhase::Token,
    ensures
        f.after(reply).1 matches ActionModel::Get { url, .. } ==> {
            ||| url == f.base() + "/manifests/"@ + f.tag
            ||| exists|digest: Seq<char>|
                url == f.base() + "/manifests/"@ + digest && reply.json(f.url) is Ok
                    && platform_digest(reply.json(f.url)->Ok_0, f.arch) == Some(digest)
            ||| exists|digest: Seq<char>|
                url == f.base() + "/blobs/"@ + digest && reply.json(f.url) is Ok && json::text_in(
                    json::get_in(reply.json(f.url)->Ok_0.lookup("config"@), "digest"@),
                ) == Some(digest)
        },
{
}

/// A token is always asked for with the right to pull this repository, whatever scope the
/// registry's challenge names.
pub proof fn law_token_scope_is_the_repository(reply: Reply, repository: Seq<char>)
    ensures
        reply.token_service(repository) matches Some(url) ==> exists|front: Seq<char>|
            url == front + "&scope="@ + pull_scope(repository),
{
    match reply.token_service(repository) {
        Some(url) => {
            match reply {
                Reply::Answer { code, challenge: Some(header), .. } => {
                    let realm = directive(header@, "realm"@)->0;
                    let service = match directive(header@, "service"@) {
                        Some(s) => s,
                        None => Seq::empty(),
                    };
                    let front = realm + "?service="@ + service;
                    assert(url == front + "&scope="@ + pull_scope(repository));
                },
                _ => {},
            }
        },
        None => {},
    }
}

// ── Laws of the replies ────────────────────────────────────────────────────

/// Whether a field is there, a text, and not empty.
pub open spec fn field_filled(fields: Seq<(String, Json)>, key: Seq<char>) -> bool {
    json::field(fields, key) matches Some(Json::Text(s)) && s@.len() > 0
}

/// The version that a registry publishes is the first of the version labels that is there and
/// not empty: the one of the Open Containers Initiative before every other, then the builder's,
/// the plain one, the one of Label Schema and the application's; without any of them none. The
/// labels are those of the config, or of the container's config where it has none.
pub proof fn law_published_version_is_the_first_label(blob: Json, fields: Vec<(String, Json)>)
    requires
        json::get_in(blob.lookup("config"@), "Labels"@) == Some(Json::Object(fields)) || (
        json::get_in(blob.lookup("config"@), "Labels"@) is None && json::get_in(
            blob.lookup("container_config"@),
            "Labels"@,
        ) == Some(Json::Object(fields))),
    ensures
        ({
            let f = fields@;
            let oci = field_filled(f, "org.opencontainers.image.version"@);
            let build = field_filled(f, "build_version"@);
            let plain = field_filled(f, "version"@);
            let schema = field_filled(f, "org.label-schema.version"@);
            let app = field_filled(f, "app.version"@);
            let text = |k: Seq<char>| Some(json::field(f, k)->0->Text_0@);
            let v = blob_version(blob);
            &&& oci ==> v == text("org.opencontainers.image.version"@)
            &&& !oci && build ==> v == text("build_version"@)
            &&& !oci && !build && plain ==> v == text("version"@)
            &&& !oci && !build && !plain && schema ==> v == text("org.label-schema.version"@)
            &&& !oci && !build && !plain && !schema && app ==> v == text("app.version"@)
            &&& !oci && !build && !plain && !schema && !app ==> v is None
        }),
{
    reveal_with_fuel(first_filled, 7);
    let c = field_candidates(fields@);
    assert(c.drop_first()[0] == c[1]);
    assert(c.drop_first().drop_first()[0] == c[2]);
    assert(c.drop_first().drop_first().drop_first()[0] == c[3]);
    assert(c.drop_first().drop_first().drop_first().drop_first()[0] == c[4]);
}

/// Without labels there is no version.
pub proof fn law_no_labels_no_version(blob: Json)
    requires
        json::get_in(blob.lookup("config"@), "Labels"@) is None,
        json::get_in(blob.lookup("container_config"@), "Labels"@) is None,
    ensures
        blob_version(blob) is None,
{
}

/// A date is the first ten characters of a date-time, and none where that is empty or missing.
pub proof fn law_date_is_ten_characters(stamp: Seq<char>)
    ensures
        date_part(None) is None,
        stamp.len() == 0 ==> date_part(Some(stamp)) is None,
        0 < stamp.len() <= 10 ==> date_part(Some(stamp)) == Some(stamp),
        stamp.len() >= 10 ==> date_part(Some(stamp)) == Some(stamp.take(10)),
{
    if stamp.len() == 10 {
        assert(stamp.take(10) =~= stamp);
    }
}

/// A directive whose name, with `="` behind it, stands nowhere in a header is not found there.
pub proof fn law_missing_directive_is_not_found(header: Seq<char>, key: Seq<char>)
    requires
        forall|i: int| !#[trigger] text::occurs_at(header, key + "=\""@, i),
    ensures
        directive(header, key) is None,
{
    lemma_find_nothing(header, key + "=\""@, 0);
}

/// What stands nowhere is found nowhere.
proof fn lemma_find_nothing(s: Seq<char>, needle: Seq<char>, from: int)
    requires
        forall|i: int| !#[trigger] text::occurs_at(s, needle, i),
    ensures
        text::find_from(s, needle, from) < 0,
    decreases s.len() + 1 - from,
{
    if 0 <= from && from + needle.len() <= s.len() {
        lemma_find_nothing(s, needle, from + 1);
    }
}

/// The repository of a GitHub address is its first two path segments, with `.git` left out at
/// the end of the second; whatever follows them has no part in it.
pub proof fn law_repository_is_two_segments(owner: Seq<char>, name: Seq<char>, rest: Seq<char>)
    requires
        !owner.contains('/'),
        !name.contains('/'),
        owner.len() > 0,
        name.len() > 0,
        forall|n: Seq<char>| name != #[trigger] (n + ".git"@),
    ensures
        github_repo("https://github.com/"@ + owner + seq!['/'] + name) == Some(
            owner + "/"@ + name,
        ),
        github_repo("https://github.com/"@ + owner + seq!['/'] + name + ".git"@) == Some(
            owner + "/"@ + name,
        ),
        github_repo("https://github.com/"@ + owner + seq!['/'] + name + seq!['/'] + rest) == Some(
            owner + "/"@ + name,
        ),
{
    let host = "https://github.com/"@;
    let git = ".git"@;
    reveal_strlit(".git");
    if name.len() >= 4 && name.skip(name.len() - 4) == git {
        assert(name =~= name.take(name.len() - 4) + git);
    }
    assert(without_git(name) == name);
    let a = host + owner + seq!['/'] + name;
    lemma_address(owner, name);
    lemma_no_slash(name);
    assert(a =~= host + (owner + seq!['/'] + name));
    let named = name + git;
    let b = host + owner + seq!['/'] + name + git;
    assert(b =~= host + (owner + seq!['/'] + named));
    assert forall|j: int| 0 <= j < named.len() implies named[j] != '/' by {
        if j < name.len() {
            assert(name.contains(name[j]));
        }
    }
    lemma_address(owner, named);
    lemma_no_slash(named);
    assert(named.skip(named.len() - 4) =~= git);
    assert(named.take(named.len() - 4) =~= name);
    let long = name + seq!['/'] + rest;
    let c = host + owner + seq!['/'] + name + seq!['/'] + rest;
    assert(c =~= host + (owner + seq!['/'] + long));
    lemma_address(owner, long);
    util::lemma_first_segment(name, rest);
}

/// A text without a slash is its first segment.
proof fn lemma_no_slash(s: Seq<char>)
    requires
        forall|j: int| 0 <= j < s.len() ==> s[j] != '/',
    ensures
        text::before_first(s, '/') == s,
{
    text::lemma_first_index_is(s, '/', s.len() as int);
    assert(s.take(s.len() as int) =~= s);
}

/// What stands behind the host of a GitHub address.
proof fn lemma_address(owner: Seq<char>, tail: Seq<char>)
    requires
        !owner.contains('/'),
    ensures
        ({
            let url = "https://github.com/"@ + (owner + seq!['/'] + tail);
            let rest = url.skip("https://github.com/"@.len() as int);
            &&& text::starts(url, "https://github.com/"@)
            &&& rest.contains('/')
            &&& text::before_first(rest, '/') == owner
            &&& text::after_first(rest, '/') == tail
        }),
{
    let host = "https://github.com/"@;
    let path = owner + seq!['/'] + tail;
    let url = host + path;
    assert(url.take(host.len() as int) =~= host);
    assert(url.skip(host.len() as int) =~= path);
    util::lemma_first_segment(owner, tail);
}

/// An address elsewhere than on GitHub, or without two path segments, names no repository.
pub proof fn law_other_addresses_name_no_repository(url: Seq<char>, path: Seq<char>)
    ensures
        (forall|p: Seq<char>| url != #[trigger] ("https://github.com/"@ + p)) ==> github_repo(url)
            is None,
        !path.contains('/') ==> github_repo("https://github.com/"@ + path) is None,
{
    let host = "https://github.com/"@;
    if text::starts(url, host) {
        assert(url =~= host + url.skip(host.len() as int));
    }
    assert((host + path).take(host.len() as int) =~= host);
    assert((host + path).skip(host.len() as int) =~= path);
}

/// The source label of an image decides where its changelog is, and the image's name only where
/// there is no such label.
pub proof fn law_label_decides_the_source(
    image: Seq<char>,
    repo: Seq<char>,
    labels: Map<Seq<char>, Seq<char>>,
)
    ensures
        source_of(image, Some(repo)) == Some(repo),
        source_of(image, None) == util::guessed_repo(util::parsed(image)),
        labels.contains_key("org.opencontainers.image.source"@) ==> labelled_source(labels)
            == github_repo(labels["org.opencontainers.image.source"@]),
        !labels.contains_key("org.opencontainers.image.source"@) ==> labelled_source(labels)
            is None,
{
}

/// A reply is read exactly when the server answered with a code of success and a body in JSON;
/// each failure says what it was.
pub proof fn law_only_success_is_read(
    reason: String,
    code: u16,
    status: String,
    challenge: Option<String>,
    body: Result<Json, String>,
    url: Seq<char>,
)
    ensures
        ({
            let answer = Reply::Answer { code, status, challenge, body };
            &&& answer.json(url) is Ok <==> 200 <= code < 300 && body is Ok
            &&& answer.json(url) matches Ok(j) ==> j == body->Ok_0
            &&& !(200 <= code < 300) ==> answer.json(url) == Err::<Json, Seq<char>>(
                "registry returned "@ + status@ + " for "@ + url,
            )
            &&& 200 <= code < 300 && body is Err ==> answer.json(url) == Err::<Json, Seq<char>>(
                "parsing registry JSON: "@ + body->Err_0@,
            )
            &&& Reply::Failed(reason).json(url) == Err::<Json, Seq<char>>(
                "registry request failed: "@ + reason@,
            )
        }),
{
}

/// The token is the text called `token` of a successful answer, or `access_token` where there is
/// none of that name.
pub proof fn law_token_is_read_from_success(
    reason: String,
    code: u16,
    status: String,
    challenge: Option<String>,
    body: Json,
    failed: String,
)
    ensures
        ({
            let answer = Reply::Answer { code, status, challenge, body: Ok(body) };
            &&& !(200 <= code < 300) ==> answer.token() is None
            &&& 200 <= code < 300 && body.lookup("token"@) is Some ==> answer.token()
                == json::text_in(body.lookup("token"@))
            &&& 200 <= code < 300 && body.lookup("token"@) is None ==> answer.token()
                == json::text_in(body.lookup("access_token"@))
            &&& Reply::Failed(reason).token() is None
            &&& (Reply::Answer { code, status, challenge, body: Err(failed) }).token() is None
        }),
{
}

/// A token is asked for exactly where the registry refuses the request and its challenge names a
/// realm: at that realm, for that service, and for the right to pull this repository.
pub proof fn law_challenge_names_the_token_service(
    code: u16,
    status: String,
    header: String,
    body: Result<Json, String>,
    repository: Seq<char>,
)
    ensures
        ({
            let answer = Reply::Answer { code, status, challenge: Some(header), body };
            let realm = directive(header@, "realm"@);
            let service = directive(header@, "service"@);
            &&& answer.token_service(repository) is Some <==> code == 401 && realm is Some
            &&& code == 401 && realm is Some && service is Some ==> answer.token_service(
                repository,
            ) == Some(
                realm->0 + "?service="@ + service->0 + "&scope="@ + ("repository:"@ + repository
                    + ":pull"@),
            )
            &&& code == 401 && realm is Some && service is None ==> answer.token_service(
                repository,
            ) == Some(
                realm->0 + "?service="@ + Seq::empty() + "&scope="@ + ("repository:"@ + repository
                    + ":pull"@),
            )
            &&& (Reply::Answer { code, status, challenge: None, body }).token_service(repository)
                is None
        }),
{
}

/// Whether a manifest is for Linux on an architecture, as its platform says.
pub open spec fn runs_on(entry: Json, arch: Seq<char>) -> bool {
    let platform = entry.lookup("platform"@);
    &&& (json::get_in(platform, "architecture"@) matches Some(Json::Text(a)) && a@ == arch)
    &&& (json::get_in(platform, "os"@) matches Some(Json::Text(o)) && o@ == "linux"@)
}

/// Out of an index the first manifest for Linux on the host's architecture is taken, wherever it
/// stands; where there is none, the first manifest of all. Compilers and manifests call the two
/// common architectures by different names, all others by the same.
pub proof fn law_manifest_of_the_host_is_taken(
    index: Json,
    entries: Vec<Json>,
    arch: Seq<char>,
    name: Seq<char>,
    i: int,
)
    requires
        index.lookup("manifests"@) == Some(Json::List(entries)),
        arch == "x86_64"@ ==> name == "amd64"@,
        arch == "aarch64"@ ==> name == "arm64"@,
        arch != "x86_64"@ && arch != "aarch64"@ ==> name == arch,
        0 <= i <= entries@.len(),
        forall|j: int| 0 <= j < i ==> !runs_on(#[trigger] entries@[j], name),
    ensures
        i < entries@.len() && runs_on(entries@[i], name) ==> platform_digest(index, arch)
            == json::text_in(entries@[i].lookup("digest"@)),
        i == entries@.len() && i > 0 ==> platform_digest(index, arch) == json::text_in(
            entries@[0].lookup("digest"@),
        ),
        entries@.len() == 0 ==> platform_digest(index, arch) is None,
{
    reveal_strlit("x86_64");
    reveal_strlit("aarch64");
    assert("x86_64"@.len() != "aarch64"@.len());
    assert(manifest_arch(arch) == name);
    assert forall|j: int| 0 <= j < i implies !for_platform(#[trigger] entries@[j], name) by {
        assert(!runs_on(entries@[j], name));
    }
    if i < entries@.len() {
        if runs_on(entries@[i], name) {
            lemma_first_for_platform(entries@, name, i);
        }
    } else {
        lemma_none_for_platform(entries@, name);
    }
}

/// The first entry for a platform is found.
proof fn lemma_first_for_platform(entries: Seq<Json>, arch: Seq<char>, i: int)
    requires
        0 <= i < entries.len(),
        for_platform(entries[i], arch),
        forall|j: int| 0 <= j < i ==> !for_platform(#[trigger] entries[j], arch),
    ensures
        platform_entry(entries, arch) == Some(entries[i]),
    decreases i,
{
    if i > 0 {
        assert(!for_platform(entries[0], arch));
        let rest = entries.drop_first();
        assert forall|j: int| 0 <= j < i - 1 implies !for_platform(#[trigger] rest[j], arch) by {
            assert(rest[j] == entries[j + 1]);
        }
        lemma_first_for_platform(rest, arch, i - 1);
    }
}

/// Where no entry is for a platform none is found.
proof fn lemma_none_for_platform(entries: Seq<Json>, arch: Seq<char>)
    requires
        forall|j: int| 0 <= j < entries.len() ==> !for_platform(#[trigger] entries[j], arch),
    ensures
        platform_entry(entries, arch) is None,
    decreases entries.len(),
{
    if entries.len() > 0 {
        let rest = entries.drop_first();
        assert forall|j: int| 0 <= j < rest.len() implies !for_platform(#[trigger] rest[j], arch) by {
            assert(rest[j] == entries[j + 1]);
        }
        lemma_none_for_platform(rest, arch);
    }
}

/// A fetch begins at Docker Hub's token service for images of Docker Hub, under either of its
/// names, and at the registry itself for every other; it asks for the repository and the tag of
/// the reference.
pub proof fn law_fetch_begins_at_the_registry(image: Seq<char>, arch: Seq<char>)
    ensures
        ({
            let r = util::parsed(image);
            let (f, action) = FetchModel::begun(image, arch);
            let hub = r.registry == "index.docker.io"@ || r.registry == "docker.io"@;
            &&& f.repository == r.repository && f.tag == r.tag && f.arch == arch && f.token is None
            &&& hub ==> f.api_host == "registry-1.docker.io"@ && f.phase == FetchPhase::Token
                && action == (ActionModel::Get {
                url: "https://auth.docker.io/token?service=registry.docker.io&scope=repository:"@
                    + r.repository + ":pull"@,
                token: None,
                accept: None,
            })
            &&& !hub ==> f.api_host == r.registry && f.phase == FetchPhase::Probe && action == (
            ActionModel::Get {
                url: "https://"@ + r.registry + "/v2/"@,
                token: None,
                accept: None,
            })
        }),
{
}

/// Once the question of a token is settled, the manifest of the tag is asked for, with the token
/// that the service gave and without one where it gave none.
pub proof fn law_manifest_is_asked_for_with_the_token(f: FetchModel, reply: Reply)
    ensures
        ({
            let url = "https://"@ + f.api_host + "/v2/"@ + f.repository + "/manifests/"@ + f.tag;
            let (g, action) = f.after(reply);
            let asked = action matches ActionModel::Get { url: u, token: t, accept: Some(_) } && u
                == url && t == g.token;
            let next = g.phase == FetchPhase::Manifest && g.url == url && asked;
            &&& f.phase == FetchPhase::Token ==> next && g.token == reply.token()
            &&& f.phase == FetchPhase::Probe && reply.token_service(f.repository) is None ==> next
                && g.token is None
            &&& f.phase == FetchPhase::Probe ==> (reply.token_service(f.repository) matches Some(
                service,
            ) ==> g.phase == FetchPhase::Token && action == (ActionModel::Get {
                url: service,
                token: None,
                accept: None,
            }))
        }),
{
}

/// From a manifest the fetch goes on to the config that it names, at once or, where the manifest
/// is an index, by way of the manifest for this host; the token stays the same, and what cannot
/// be read ends the fetch with its reason.
pub proof fn law_manifest_leads_to_the_config(f: FetchModel, reply: Reply)
    requires
        f.phase == FetchPhase::Manifest || f.phase == FetchPhase::PlatformManifest,
    ensures
        ({
            let base = "https://"@ + f.api_host + "/v2/"@ + f.repository;
            let (g, action) = f.after(reply);
            let read = reply.json(f.url);
            let index = f.phase == FetchPhase::Manifest && read is Ok && read->Ok_0.lookup(
                "manifests"@,
            ) is Some;
            let digest = json::text_in(json::get_in(read->Ok_0.lookup("config"@), "digest"@));
            &&& read is Err ==> (action matches ActionModel::Finish(Err(_)))
            &&& read is Ok && !index && digest is Some ==> {
                &&& g.phase == FetchPhase::Blob && g.config_digest == digest->0
                &&& action == (ActionModel::Get {
                    url: base + "/blobs/"@ + digest->0,
                    token: f.token,
                    accept: None,
                })
                &&& g.token == f.token
            }
            &&& read is Ok && !index && digest is None ==> action == ActionModel::Finish(
                Err("manifest has no config digest"@),
            )
            &&& index && platform_digest(read->Ok_0, f.arch) is Some ==> {
                &&& g.phase == FetchPhase::PlatformManifest && g.token == f.token
                &&& (action matches ActionModel::Get { url: u, token: t, accept: Some(_) } && u
                    == base + "/manifests/"@ + platform_digest(read->Ok_0, f.arch)->0 && t
                    == f.token)
            }
            &&& index && platform_digest(read->Ok_0, f.arch) is None ==> action
                == ActionModel::Finish(Err("no matching platform in manifest index"@))
        }),
{
}

/// What comes out of a fetch is the digest of the config that the manifest named, also where the
/// config itself cannot be read: then only its version and its date are not known.
pub proof fn law_fetch_yields_the_config_digest(f: FetchModel, reply: Reply)
    requires
        f.phase == FetchPhase::Blob,
    ensures
        f.after(reply).1 matches ActionModel::Finish(Ok(meta)) && meta.config_digest
            == f.config_digest && (reply.json(f.url) is Err ==> meta.version is None
            && meta.created is None) && (reply.json(f.url) matches Ok(blob) ==> meta.version
            == blob_version(blob) && meta.created == date_part(
            json::text_in(blob.lookup("created"@)),
        )),
{
}

} // verus!
