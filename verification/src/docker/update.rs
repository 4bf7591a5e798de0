//! Update checks: what the local image and the registry's reply amount to.

use vstd::prelude::*;
use crate::clock::Timestamp;
use crate::docker::model::{StatusModel, UpdateInfo, UpdateModel, UpdateStatus};
use crate::refmap::RefMap;
use crate::registry;
use crate::registry::{
    date_of, resolve_source, source_from_labels, version_of_image, MetaModel, RemoteImageMeta,
};
use crate::text;
use crate::text::{cat2, cat3, copy_option, rsplit_once, str_eq};

verus! {

/// A local image as inspecting it shows it.
#[derive(Debug)]
pub struct LocalImage {
    pub id: Option<String>,
    /// Digests under which registries know the image (`repo@sha256:...`).
    pub repo_digests: Option<Vec<String>>,
    /// Creation date-time.
    pub created: Option<String>,
    pub labels: Option<RefMap<String>>,
}

impl LocalImage {
    /// The digests under which registries know the image.
    pub open spec fn digests(self) -> Seq<Seq<char>> {
        match self.repo_digests {
            Some(v) => v.deep_view(),
            None => Seq::empty(),
        }
    }

    /// The version label of the image.
    pub open spec fn version(self) -> Option<Seq<char>> {
        match self.labels {
            Some(labels) => registry::first_filled(registry::label_candidates(labels@)),
            None => None,
        }
    }

    /// The `owner/repo` that the image's source label names.
    pub open spec fn source(self) -> Option<Seq<char>> {
        match self.labels {
            Some(labels) => registry::labelled_source(labels@),
            None => None,
        }
    }

    /// The creation date of the image.
    pub open spec fn date(self) -> Option<Seq<char>> {
        registry::date_part(self.created.deep_view())
    }

    /// Whether a registry knows the image.
    fn is_published(&self) -> (r: bool)
        ensures
            r == (self.digests().len() > 0),
    {
        match &self.repo_digests {
            Some(v) => v.len() > 0,
            None => false,
        }
    }
}

// ── The plain check ────────────────────────────────────────────────────────

/// Whether the digest of a `repo@digest` text is `digest`.
pub open spec fn carries(repo_digest: Seq<char>, digest: Seq<char>) -> bool {
    repo_digest.contains('@') && text::after_last(repo_digest, '@') == digest
}

/// Whether one of the local digests is the registry's.
pub open spec fn matches_registry(digests: Seq<Seq<char>>, remote: Seq<char>) -> bool {
    exists|i: int| 0 <= i < digests.len() && carries(#[trigger] digests[i], remote)
}

/// What inspecting the local image leads to: an error, or the question to the registry.
pub open spec fn local_verdict(image: Seq<char>, local: Option<LocalImage>) -> Option<Seq<char>> {
    match local {
        None => Some("inspecting local image "@ + image),
        Some(l) => if l.digests().len() == 0 {
            Some("image "@ + image + " has no registry digest (built locally?)"@)
        } else {
            None
        },
    }
}

/// What the registry's digest leads to: an error, or whether there is an update.
pub open spec fn remote_verdict(
    image: Seq<char>,
    digests: Seq<Seq<char>>,
    remote: Option<Option<Seq<char>>>,
) -> Result<bool, Seq<char>> {
    match remote {
        None => Err("querying registry for "@ + image),
        Some(digest) => if digest is Some && digest->0.len() > 0 {
            Ok(!matches_registry(digests, digest->0))
        } else {
            Err("registry returned no digest for "@ + image)
        },
    }
}

/// Takes what inspecting the local image gave (`None` where that failed). Returns the error
/// that ends the check, or `None` where the registry is to be asked.
pub fn check_local(image: &str, local: Option<&LocalImage>) -> (r: Option<String>)
    ensures
        r.deep_view() == local_verdict(
            image@,
            (match local {
                Some(l) => Some(*l),
                None => None,
            }),
        ),
{
    match local {
        None => Some(cat2("inspecting local image ", image)),
        Some(l) => {
            if l.is_published() {
                None
            } else {
                Some(cat3("image ", image, " has no registry digest (built locally?)"))
            }
        },
    }
}

/// Whether one of the local digests is `digest`.
fn any_carries(digests: &Vec<String>, digest: &str) -> (r: bool)
    ensures
        r == matches_registry(digests.deep_view(), digest@),
{
    let ghost all = digests.deep_view();
    let mut i: usize = 0;
    while i < digests.len()
        invariant
            all == digests.deep_view(),
            i <= digests@.len(),
            forall|j: int| 0 <= j < i ==> !carries(#[trigger] all[j], digest@),
        decreases digests@.len() - i,
    {
        assert(all[i as int] == digests@[i as int]@);
        match rsplit_once(digests[i].as_str(), '@') {
            Some((_, d)) => {
                if str_eq(d, digest) {
                    assert(carries(all[i as int], digest@));
                    return true;
                }
            },
            None => {},
        }
        i = i + 1;
    }
    false
}

/// Check whether a newer image than the local one exists in the registry.
///
/// Compares the local `RepoDigest`s for this reference against the registry's manifest
/// descriptor digest (`None` where the query failed). `Ok(true)` when they differ.
pub fn check_update(
    image: &str,
    digests: &Vec<String>,
    remote: Option<Option<String>>,
) -> (r: Result<bool, String>)
    ensures
        match (
            r,
            remote_verdict(
                image@,
                digests.deep_view(),
                (match remote {
                    Some(d) => Some(d.deep_view()),
                    None => None,
                }),
            ),
        ) {
            (Ok(a), Ok(b)) => a == b,
            (Err(a), Err(b)) => a@ == b,
            _ => false,
        },
{
    let remote = match remote {
        None => return Err(cat2("querying registry for ", image)),
        Some(d) => d,
    };
    let digest = match remote {
        Some(d) => d,
        None => return Err(cat2("registry returned no digest for ", image)),
    };
    if digest.as_str().is_empty() {
        return Err(cat2("registry returned no digest for ", image));
    }
    Ok(!any_carries(digests, digest.as_str()))
}

/// There is an update exactly when the registry's digest is none of the local ones.
pub proof fn law_update_iff_digests_differ(
    image: Seq<char>,
    digests: Seq<Seq<char>>,
    remote: Seq<char>,
)
    requires
        remote.len() > 0,
    ensures
        remote_verdict(image, digests, Some(Some(remote))) == Ok::<bool, Seq<char>>(
            forall|i: int| 0 <= i < digests.len() ==> !carries(#[trigger] digests[i], remote),
        ),
{
}

/// There is an update exactly when no local digest reads, up to its last `@`, as some
/// repository and, behind it, as the registry's digest; whatever the repositories are called.
pub proof fn law_digests_are_compared_as_texts(
    image: Seq<char>,
    digests: Seq<Seq<char>>,
    remote: Seq<char>,
)
    requires
        remote.len() > 0,
        !remote.contains('@'),
    ensures
        remote_verdict(image, digests, Some(Some(remote))) is Ok,
        remote_verdict(image, digests, Some(Some(remote)))->Ok_0 <==> forall|i: int, p: Seq<char>|
            0 <= i < digests.len() ==> #[trigger] digests[i] != #[trigger] (p + seq!['@'] + remote),
{
    let found = exists|i: int| 0 <= i < digests.len() && carries(#[trigger] digests[i], remote);
    if found {
        let i = choose|i: int| 0 <= i < digests.len() && carries(#[trigger] digests[i], remote);
        let s = digests[i];
        text::lemma_last_index(s, '@');
        let at = text::last_index(s, '@');
        let p = s.take(at);
        assert(s =~= p + seq!['@'] + remote);
    }
    assert forall|i: int, p: Seq<char>|
        0 <= i < digests.len() && digests[i] == #[trigger] (p + seq!['@'] + remote) implies carries(
        #[trigger] digests[i],
        remote,
    ) by {
        lemma_text_behind_the_last_at(p, remote);
    }
}

/// The text behind the last `@` of `p@d` is `d`, where `d` holds no `@`.
proof fn lemma_text_behind_the_last_at(p: Seq<char>, d: Seq<char>)
    requires
        !d.contains('@'),
    ensures
        (p + seq!['@'] + d).contains('@'),
        text::after_last(p + seq!['@'] + d, '@') == d,
{
    let s = p + seq!['@'] + d;
    let at = p.len() as int;
    assert(s[at] == '@');
    assert forall|j: int| at < j < s.len() implies s[j] != '@' by {
        assert(d.contains(d[j - at - 1]));
    }
    text::lemma_last_index_is(s, '@', at);
    assert(s.skip(at + 1) =~= d);
}

/// An image that is known under one digest has an update exactly when the registry's digest is
/// another one; neither the image's name nor the repository's has a part in it.
pub proof fn law_one_digest_decides(image: Seq<char>, p: Seq<char>, local: Seq<char>, remote: Seq<
    char,
>)
    requires
        !local.contains('@'),
        !remote.contains('@'),
        remote.len() > 0,
    ensures
        remote_verdict(image, seq![p + seq!['@'] + local], Some(Some(remote))) == Ok::<
            bool,
            Seq<char>,
        >(local != remote),
{
    let digests = seq![p + seq!['@'] + local];
    lemma_text_behind_the_last_at(p, local);
    if local == remote {
        assert(carries(digests[0], remote));
    }
}

/// A further local digest can only turn an update into none, and does so exactly when it ends in
/// the registry's digest behind an `@`.
pub proof fn law_more_digests_match_more(
    image: Seq<char>,
    digests: Seq<Seq<char>>,
    p: Seq<char>,
    local: Seq<char>,
    remote: Seq<char>,
)
    requires
        !local.contains('@'),
        remote.len() > 0,
    ensures
        remote_verdict(image, digests, Some(Some(remote))) matches Ok(update) && remote_verdict(
            image,
            digests.push(p + seq!['@'] + local),
            Some(Some(remote)),
        ) == Ok::<bool, Seq<char>>(update && local != remote),
{
    let more = digests.push(p + seq!['@'] + local);
    lemma_text_behind_the_last_at(p, local);
    assert(more[digests.len() as int] == p + seq!['@'] + local);
    if matches_registry(digests, remote) {
        let i = choose|i: int| 0 <= i < digests.len() && carries(#[trigger] digests[i], remote);
        assert(carries(more[i], remote));
    }
    if matches_registry(more, remote) && local != remote {
        let i = choose|i: int| 0 <= i < more.len() && carries(#[trigger] more[i], remote);
        assert(carries(digests[i], remote));
    }
    if local == remote {
        assert(carries(more[digests.len() as int], remote));
    }
}

/// Without local digests every digest of the registry is an update.
pub proof fn law_no_digest_matches_none(image: Seq<char>, remote: Seq<char>)
    requires
        remote.len() > 0,
    ensures
        remote_verdict(image, Seq::empty(), Some(Some(remote))) == Ok::<bool, Seq<char>>(true),
{
}

/// The plain check fails exactly where there is nothing to compare: no local image, no digest of
/// it, no answer of the registry, or an answer without a digest. Each message names the image.
pub proof fn law_check_fails_without_digests(
    image: Seq<char>,
    local: LocalImage,
    digests: Seq<Seq<char>>,
    remote: Option<Option<Seq<char>>>,
)
    ensures
        local_verdict(image, None) == Some("inspecting local image "@ + image),
        local_verdict(image, Some(local)) is None <==> (local.repo_digests matches Some(v)
            && v@.len() > 0),
        local_verdict(image, Some(local)) matches Some(e) ==> e == "image "@ + image
            + " has no registry digest (built locally?)"@,
        remote_verdict(image, digests, remote) is Ok <==> (remote matches Some(Some(d)) && d.len()
            > 0),
        remote is None ==> remote_verdict(image, digests, remote) == Err::<bool, Seq<char>>(
            "querying registry for "@ + image,
        ),
        remote matches Some(r) ==> (r is None || r->0.len() == 0) ==> remote_verdict(
            image,
            digests,
            remote,
        ) == Err::<bool, Seq<char>>("registry returned no digest for "@ + image),
{
}

// ── The detailed check ─────────────────────────────────────────────────────

/// What is known of an update check before the registry is asked.
#[derive(Debug)]
pub struct LocalFacts {
    pub local_id: Option<String>,
    pub current_version: Option<String>,
    pub current_date: Option<String>,
    pub changelog_repo: Option<String>,
}

/// The facts as mathematical values.
pub struct FactsModel {
    pub local_id: Option<Seq<char>>,
    pub current_version: Option<Seq<char>>,
    pub current_date: Option<Seq<char>>,
    pub changelog_repo: Option<Seq<char>>,
}

impl View for LocalFacts {
    type V = FactsModel;

    open spec fn view(&self) -> FactsModel {
        FactsModel {
            local_id: self.local_id.deep_view(),
            current_version: self.current_version.deep_view(),
            current_date: self.current_date.deep_view(),
            changelog_repo: self.changelog_repo.deep_view(),
        }
    }
}

/// What follows the inspection of the local image.
#[derive(Debug)]
pub enum DetailStep {
    /// The check is over.
    Done(UpdateInfo),
    /// The registry is to be asked.
    AskRegistry(LocalFacts),
}

/// What follows the inspection, as mathematical values.
pub enum StepModel {
    Done(UpdateModel),
    AskRegistry(FactsModel),
}

impl View for DetailStep {
    type V = StepModel;

    open spec fn view(&self) -> StepModel {
        match self {
            DetailStep::Done(info) => StepModel::Done(info@),
            DetailStep::AskRegistry(facts) => StepModel::AskRegistry(facts@),
        }
    }
}

impl FactsModel {
    /// The facts that an image's name and its local copy give.
    pub open spec fn of(image: Seq<char>, local: LocalImage) -> FactsModel {
        FactsModel {
            local_id: local.id.deep_view(),
            current_version: local.version(),
            current_date: local.date(),
            changelog_repo: registry::source_of(image, local.source()),
        }
    }

    /// The result of a check that ended with `status` at `now`.
    pub open spec fn concluded(
        self,
        status: StatusModel,
        latest_version: Option<Seq<char>>,
        latest_date: Option<Seq<char>>,
        now: Timestamp,
    ) -> UpdateModel {
        UpdateModel {
            status,
            current_version: self.current_version,
            latest_version,
            current_date: self.current_date,
            latest_date,
            changelog_repo: self.changelog_repo,
            local_id: self.local_id,
            checked_at: Some(now),
        }
    }

    /// Whether the local image is the one whose config has the digest `config`.
    pub open spec fn is_image(self, config: Seq<char>) -> bool {
        match self.local_id {
            Some(id) => id == config,
            None => config.len() == 0,
        }
    }

    /// The result of a check, from what the registry said.
    pub open spec fn outcome(self, remote: Result<MetaModel, Seq<char>>, now: Timestamp) ->
        UpdateModel {
        match remote {
            Ok(meta) => self.concluded(
                if self.is_image(meta.config_digest) {
                    StatusModel::UpToDate
                } else {
                    StatusModel::UpdateAvailable
                },
                meta.version,
                meta.created,
                now,
            ),
            Err(e) => self.concluded(StatusModel::Error(e), None, None, now),
        }
    }
}

/// What follows the inspection of the local image.
pub open spec fn inspected(image: Seq<char>, local: Result<LocalImage, String>, now: Timestamp) ->
    StepModel {
    match local {
        Err(e) => StepModel::Done(
            UpdateModel {
                changelog_repo: registry::source_of(image, None),
                ..UpdateModel::of_status(StatusModel::Error(e@))
            },
        ),
        Ok(l) => {
            let facts = FactsModel::of(image, l);
            if l.digests().len() == 0 {
                StepModel::Done(facts.concluded(StatusModel::LocalOnly, None, None, now))
            } else {
                StepModel::AskRegistry(facts)
            }
        },
    }
}

/// The first half of a rich update check: from the inspection of the local image to its
/// version label, its creation date and its changelog source: what its source label names, else a
/// guess.
///
/// Never fails: a failed inspection is captured in the status of the result.
pub fn begin_detailed(image: &str, local: Result<LocalImage, String>, now: Timestamp) -> (r:
    DetailStep)
    ensures
        r@ == inspected(image@, local, now),
{
    match local {
        Err(e) => {
            let mut info = UpdateInfo::from_status(UpdateStatus::Error(e));
            info.changelog_repo = resolve_source(image, None);
            DetailStep::Done(info)
        },
        Ok(l) => {
            let published = l.is_published();
            let current_version = match &l.labels {
                Some(labels) => version_of_image(labels),
                None => None,
            };
            let current_date = date_of(l.created.as_ref());
            let source = match &l.labels {
                Some(labels) => source_from_labels(labels),
                None => None,
            };
            let changelog_repo = match &source {
                Some(repo) => resolve_source(image, Some(repo.as_str())),
                None => resolve_source(image, None),
            };
            let facts = LocalFacts {
                local_id: copy_option(&l.id),
                current_version,
                current_date,
                changelog_repo,
            };
            if published {
                DetailStep::AskRegistry(facts)
            } else {
                DetailStep::Done(conclude(facts, UpdateStatus::LocalOnly, None, None, now))
            }
        },
    }
}

/// The result of a check that ended with `status` at `now`.
fn conclude(
    facts: LocalFacts,
    status: UpdateStatus,
    latest_version: Option<String>,
    latest_date: Option<String>,
    now: Timestamp,
) -> (r: UpdateInfo)
    ensures
        r@ == facts@.concluded(status@, latest_version.deep_view(), latest_date.deep_view(), now),
{
    UpdateInfo {
        status,
        current_version: facts.current_version,
        latest_version,
        current_date: facts.current_date,
        latest_date,
        changelog_repo: facts.changelog_repo,
        local_id: facts.local_id,
        checked_at: Some(now),
    }
}

/// The second half of a rich update check: compares the local image with the registry's
/// metadata, or with the reason why there is none.
pub fn finish_detailed(
    facts: LocalFacts,
    remote: Result<RemoteImageMeta, String>,
    now: Timestamp,
) -> (r: UpdateInfo)
    ensures
        r@ == facts@.outcome(
            (match remote {
                Ok(m) => Ok(m@),
                Err(e) => Err(e@),
            }),
            now,
        ),
{
    match remote {
        Ok(meta) => {
            let same = match &facts.local_id {
                Some(id) => str_eq(id.as_str(), meta.config_digest.as_str()),
                None => meta.config_digest.as_str().is_empty(),
            };
            let status = if same { UpdateStatus::UpToDate } else { UpdateStatus::UpdateAvailable };
            conclude(facts, status, meta.version, meta.created, now)
        },
        Err(e) => conclude(facts, UpdateStatus::Error(e), None, None, now),
    }
}

/// A detailed check of an image whose local copy is there remembers which local image it was
/// made against and when, whatever came of it; so a later change of that image can be noticed.
pub proof fn law_check_remembers_its_image(
    image: Seq<char>,
    local: LocalImage,
    remote: Result<MetaModel, Seq<char>>,
    now: Timestamp,
)
    ensures
        match inspected(image, Ok(local), now) {
            StepModel::Done(info) => info.local_id == local.id.deep_view() && info.checked_at
                == Some(now),
            StepModel::AskRegistry(facts) => facts.outcome(remote, now).local_id
                == local.id.deep_view() && facts.outcome(remote, now).checked_at == Some(now),
        },
{
}

/// The detailed check finds an image up to date exactly when its id is the digest of the config
/// that the registry names, and an update otherwise: whatever version or date the registry gives,
/// and whatever else is known of the image.
pub proof fn law_image_id_decides(
    facts: LocalFacts,
    meta: RemoteImageMeta,
    now: Timestamp,
    info: UpdateInfo,
)
    requires
        info@ == facts@.outcome(Ok(meta@), now),
    ensures
        facts.local_id matches Some(id) ==> {
            &&& info.status is UpToDate <==> id@ == meta.config_digest@
            &&& info.status is UpdateAvailable <==> id@ != meta.config_digest@
        },
        facts.local_id is None ==> {
            &&& info.status is UpToDate <==> meta.config_digest@.len() == 0
            &&& info.status is UpdateAvailable <==> meta.config_digest@.len() > 0
        },
{
}

/// Two answers of the registry that name the same config lead to the same status.
pub proof fn law_only_the_config_counts(
    facts: FactsModel,
    one: MetaModel,
    other: MetaModel,
    now: Timestamp,
    later: Timestamp,
)
    requires
        one.config_digest == other.config_digest,
    ensures
        facts.outcome(Ok(one), now).status == facts.outcome(Ok(other), later).status,
{
}

/// A detailed check hands on what the registry says of the latest image, and keeps what is known
/// of the local one.
pub proof fn law_both_images_are_described(
    facts: LocalFacts,
    meta: RemoteImageMeta,
    now: Timestamp,
    info: UpdateInfo,
)
    requires
        info@ == facts@.outcome(Ok(meta@), now),
    ensures
        info.latest_version.deep_view() == meta.version.deep_view(),
        info.latest_date.deep_view() == meta.created.deep_view(),
        info.current_version.deep_view() == facts.current_version.deep_view(),
        info.current_date.deep_view() == facts.current_date.deep_view(),
        info.changelog_repo.deep_view() == facts.changelog_repo.deep_view(),
        info.checked_at == Some(now),
{
}

/// A registry that cannot be read makes the check an error with its reason; what is known of the
/// local image stays, and nothing is said of the latest one.
pub proof fn law_registry_failure_is_shown(
    facts: LocalFacts,
    reason: Seq<char>,
    now: Timestamp,
    info: UpdateInfo,
)
    requires
        info@ == facts@.outcome(Err(reason), now),
    ensures
        info.status matches UpdateStatus::Error(e) && e@ == reason,
        info.latest_version is None,
        info.latest_date is None,
        info.current_version.deep_view() == facts.current_version.deep_view(),
        info.current_date.deep_view() == facts.current_date.deep_view(),
        info.changelog_repo.deep_view() == facts.changelog_repo.deep_view(),
{
}

/// The registry is asked exactly about the images that it knows by a digest; an image without one
/// is a local one, and an image that cannot be inspected an error with the reason. What is handed
/// on is the image's own id and the first ten characters of its date-time.
pub proof fn law_only_published_images_are_asked_about(
    image: Seq<char>,
    local: LocalImage,
    reason: String,
    now: Timestamp,
)
    ensures
        inspected(image, Ok(local), now) is AskRegistry <==> (local.repo_digests matches Some(v)
            && v@.len() > 0),
        inspected(image, Ok(local), now) matches StepModel::Done(info) ==> info.status is LocalOnly
            && info.latest_version is None && info.latest_date is None,
        inspected(image, Err(reason), now) matches StepModel::Done(info)
            && info.status == StatusModel::Error(reason@) && info.local_id is None
            && info.checked_at is None && info.current_version is None,
        inspected(image, Ok(local), now) matches StepModel::AskRegistry(facts) ==> {
            &&& facts.local_id == local.id.deep_view()
            &&& local.created is None ==> facts.current_date is None
            &&& local.created matches Some(c) ==> c@.len() == 0 ==> facts.current_date is None
            &&& local.created matches Some(c) ==> 0 < c@.len() <= 10 ==> facts.current_date == Some(
                c@,
            )
            &&& local.created matches Some(c) ==> c@.len() > 10 ==> facts.current_date == Some(
                c@.take(10),
            )
            &&& local.labels is None ==> facts.current_version is None
        },
{
}

/// Whether a label is there and not empty.
pub open spec fn label_filled(labels: Map<Seq<char>, Seq<char>>, key: Seq<char>) -> bool {
    labels.contains_key(key) && labels[key].len() > 0
}

/// The version of a local image is the first of its version labels that is there and not empty:
/// the one of the Open Containers Initiative before every other, then the builder's, the plain
/// one, the one of Label Schema and the application's. Without any of them it is not known.
pub proof fn law_local_version_is_the_first_label(local: LocalImage, labels: RefMap<String>)
    requires
        local.labels == Some(labels),
    ensures
        ({
            let m = labels@;
            let oci = label_filled(m, "org.opencontainers.image.version"@);
            let build = label_filled(m, "build_version"@);
            let plain = label_filled(m, "version"@);
            let schema = label_filled(m, "org.label-schema.version"@);
            let app = label_filled(m, "app.version"@);
            let v = local.version();
            &&& oci ==> v == Some(m["org.opencontainers.image.version"@])
            &&& !oci && build ==> v == Some(m["build_version"@])
            &&& !oci && !build && plain ==> v == Some(m["version"@])
            &&& !oci && !build && !plain && schema ==> v == Some(m["org.label-schema.version"@])
            &&& !oci && !build && !plain && !schema && app ==> v == Some(m["app.version"@])
            &&& !oci && !build && !plain && !schema && !app ==> v is None
        }),
{
    reveal_with_fuel(registry::first_filled, 7);
    let c = registry::label_candidates(labels@);
    assert(c.drop_first()[0] == c[1]);
    assert(c.drop_first().drop_first()[0] == c[2]);
    assert(c.drop_first().drop_first().drop_first()[0] == c[3]);
    assert(c.drop_first().drop_first().drop_first().drop_first()[0] == c[4]);
}

} // verus!
