//! Plain data models of images, containers, disk usage and update checks.

use vstd::prelude::*;
use crate::clock;
use crate::clock::{date_or_dash, utc_date, Timestamp};
use crate::text;
use crate::text::{
    cat3, copy_option, copy_texts, head_until, split_once, str_eq, strip_prefix,
    take_chars,
};
use crate::util;
use crate::util::ImageRef;

verus! {

// ── Images ─────────────────────────────────────────────────────────────────

/// A Docker image as shown in the images view.
#[derive(Debug)]
pub struct ImageInfo {
    /// Full image id (`sha256:...`).
    pub id: String,
    /// Repository tags, e.g. `["nginx:latest"]`. Empty for dangling images.
    pub repo_tags: Vec<String>,
    /// On-disk size in bytes.
    pub size: i64,
    /// Unix creation timestamp (seconds).
    pub created: i64,
    /// Version label of the image, if published.
    pub version: Option<String>,
}

/// An image as mathematical values.
pub struct ImageModel {
    pub id: Seq<char>,
    pub repo_tags: Seq<Seq<char>>,
    pub size: i64,
    pub created: i64,
    pub version: Option<Seq<char>>,
}

impl View for ImageInfo {
    type V = ImageModel;

    open spec fn view(&self) -> ImageModel {
        ImageModel {
            id: self.id@,
            repo_tags: self.repo_tags.deep_view(),
            size: self.size,
            created: self.created,
            version: self.version.deep_view(),
        }
    }
}

impl DeepView for ImageInfo {
    type V = ImageModel;

    open spec fn deep_view(&self) -> ImageModel {
        self@
    }
}

impl Clone for ImageInfo {
    fn clone(&self) -> (r: Self)
        ensures
            r@ == self@,
    {
        ImageInfo {
            id: self.id.clone(),
            repo_tags: copy_texts(&self.repo_tags),
            size: self.size,
            created: self.created,
            version: copy_option(&self.version),
        }
    }
}

/// The tag that stands for no tag at all.
pub open spec fn no_tag() -> Seq<char> {
    "<none>:<none>"@
}

/// The first tag that names an image.
pub open spec fn first_named(tags: Seq<Seq<char>>) -> Option<Seq<char>>
    decreases tags.len(),
{
    if tags.len() == 0 {
        None
    } else if tags[0] != no_tag() {
        Some(tags[0])
    } else {
        first_named(tags.drop_first())
    }
}

impl ImageModel {
    /// The first twelve characters of the id, `sha256:` left out.
    pub open spec fn short_id(self) -> Seq<char> {
        let bare = if text::starts(self.id, "sha256:"@) {
            self.id.skip("sha256:"@.len() as int)
        } else {
            self.id
        };
        text::at_most(bare, 12)
    }

    /// The first tag where it names the image, else a placeholder with the short id.
    pub open spec fn display_name(self) -> Seq<char> {
        if self.repo_tags.len() > 0 && self.repo_tags[0] != no_tag() {
            self.repo_tags[0]
        } else {
            "<none> ("@ + self.short_id() + ")"@
        }
    }

    /// The display name without its registry host.
    pub open spec fn short_name(self) -> Seq<char> {
        let full = self.display_name();
        if full.contains('/') && util::names_registry(text::before_first(full, '/')) {
            text::after_first(full, '/')
        } else {
            full
        }
    }

    /// The reference for registry lookups.
    pub open spec fn primary_reference(self) -> Option<Seq<char>> {
        first_named(self.repo_tags)
    }

    /// A short origin label.
    pub open spec fn source_short(self) -> Seq<char> {
        match self.primary_reference() {
            Some(reference) => short_registry(util::registry_of(reference)),
            None => "—"@,
        }
    }

    /// The creation date, or `—` where it is unknown.
    pub open spec fn created_date(self) -> Seq<char> {
        if self.created <= 0 {
            "—"@
        } else {
            clock::date_text(clock::utc_text(self.created, "%Y-%m-%d"@))
        }
    }
}

/// The short name of a registry; its host where it has none.
pub open spec fn short_registry(registry: Seq<char>) -> Seq<char> {
    if registry == util::hub() || registry == "docker.io"@ {
        "docker"@
    } else if registry == "ghcr.io"@ {
        "ghcr"@
    } else if registry == "lscr.io"@ {
        "lscr"@
    } else if registry == "quay.io"@ {
        "quay"@
    } else if registry == "registry.gitlab.com"@ {
        "gitlab"@
    } else {
        text::before_first(registry, ':')
    }
}

/// A short image id never has more than twelve characters.
pub proof fn law_short_id_is_short(image: ImageModel)
    ensures
        image.short_id().len() <= 12,
{
}

/// The host that the short name leaves out is the registry that the source label stands for:
/// put before the short name again, it gives the tag back. A tag without a registry is kept.
pub proof fn law_short_name_leaves_out_the_registry(image: ImageModel)
    requires
        image.repo_tags.len() > 0,
        image.repo_tags[0] != no_tag(),
        !image.repo_tags[0].contains('@'),
    ensures
        image.primary_reference() == Some(image.repo_tags[0]),
        util::has_registry(image.repo_tags[0]) ==> util::registry_of(image.repo_tags[0]) + seq![
            '/',
        ] + image.short_name() == image.repo_tags[0],
        !util::has_registry(image.repo_tags[0]) ==> image.short_name() == image.repo_tags[0],
{
    let tag = image.repo_tags[0];
    text::lemma_first_index(tag, '@');
    text::lemma_first_index(tag, '/');
    assert(util::without_digest(tag) =~= tag);
    if util::has_registry(tag) {
        assert(util::registry_of(tag) + seq!['/'] + image.short_name() =~= tag);
    }
}

/// The reference for registry lookups is one of the image's tags, and it names the image; an
/// image without such a reference has no tag that does.
pub proof fn law_primary_reference_is_a_tag(tags: Seq<Seq<char>>)
    ensures
        match first_named(tags) {
            Some(t) => t != no_tag() && tags.contains(t),
            None => forall|i: int| 0 <= i < tags.len() ==> tags[i] == no_tag(),
        },
    decreases tags.len(),
{
    if tags.len() > 0 {
        let rest = tags.drop_first();
        if tags[0] != no_tag() {
            assert(tags.contains(tags[0]));
        } else {
            law_primary_reference_is_a_tag(rest);
            match first_named(rest) {
                Some(t) => {
                    let k = choose|k: int| 0 <= k < rest.len() && rest[k] == t;
                    assert(tags[k + 1] == t);
                },
                None => {
                    assert forall|i: int| 0 <= i < tags.len() implies tags[i] == no_tag() by {
                        if i > 0 {
                            assert(tags[i] == rest[i - 1]);
                        }
                    }
                },
            }
        }
    }
}

/// The short id is the id without `sha256:`, cut to twelve characters; an id of another form is
/// cut as it is.
pub proof fn law_short_id_starts_the_id(image: ImageModel, hex: Seq<char>)
    ensures
        image.id == "sha256:"@ + hex && hex.len() >= 12 ==> image.short_id() == hex.take(12),
        image.id == "sha256:"@ + hex && hex.len() <= 12 ==> image.short_id() == hex,
        (forall|h: Seq<char>| image.id != #[trigger] ("sha256:"@ + h)) && image.id.len() >= 12
            ==> image.short_id() == image.id.take(12),
        (forall|h: Seq<char>| image.id != #[trigger] ("sha256:"@ + h)) && image.id.len() <= 12
            ==> image.short_id() == image.id,
{
    let prefix = "sha256:"@;
    if image.id == prefix + hex {
        assert(image.id.take(prefix.len() as int) =~= prefix);
        assert(image.id.skip(prefix.len() as int) =~= hex);
        if hex.len() == 12 {
            assert(hex.take(12) =~= hex);
        }
    }
    if text::starts(image.id, prefix) {
        assert(image.id =~= prefix + image.id.skip(prefix.len() as int));
    } else if image.id.len() == 12 {
        assert(image.id.take(12) =~= image.id);
    }
}

/// An image goes by its first tag; one without a tag, or whose first tag stands for none, by its
/// short id.
pub proof fn law_images_go_by_their_first_tag(image: ImageModel)
    ensures
        image.repo_tags.len() > 0 && image.repo_tags[0] != "<none>:<none>"@
            ==> image.display_name() == image.repo_tags[0],
        image.repo_tags.len() == 0 ==> image.display_name() == "<none> ("@ + image.short_id()
            + ")"@,
        image.repo_tags.len() > 0 && image.repo_tags[0] == "<none>:<none>"@
            ==> image.display_name() == "<none> ("@ + image.short_id() + ")"@,
{
}

/// The reference of an image is the first of its tags that names it: tags before it that stand
/// for none are passed over, and tags behind it have no part in it.
pub proof fn law_first_naming_tag_is_the_reference(
    image: ImageModel,
    before: Seq<Seq<char>>,
    tag: Seq<char>,
    behind: Seq<Seq<char>>,
)
    requires
        image.repo_tags == before + seq![tag] + behind,
        forall|i: int| 0 <= i < before.len() ==> #[trigger] before[i] == "<none>:<none>"@,
        tag != "<none>:<none>"@,
    ensures
        image.primary_reference() == Some(tag),
    decreases before.len(),
{
    let tags = image.repo_tags;
    if before.len() == 0 {
        assert(tags[0] == tag);
    } else {
        assert(tags[0] == before[0]);
        assert(tags.drop_first() =~= before.drop_first() + seq![tag] + behind);
        let rest = ImageModel { repo_tags: tags.drop_first(), ..image };
        law_first_naming_tag_is_the_reference(rest, before.drop_first(), tag, behind);
    }
}

/// The short name leaves out a host, which has a dot or a colon or is `localhost`, and nothing
/// else: an owner stays, and so does every further part of the path.
pub proof fn law_short_name_leaves_out_hosts_only(
    image: ImageModel,
    first: Seq<char>,
    rest: Seq<char>,
)
    requires
        image.repo_tags.len() > 0,
        image.repo_tags[0] == first + seq!['/'] + rest,
        !first.contains('/'),
    ensures
        first.contains('.') || first.contains(':') || first == "localhost"@ ==> image.short_name()
            == rest,
        !first.contains('.') && !first.contains(':') && first != "localhost"@
            ==> image.short_name() == first + seq!['/'] + rest,
{
    util::lemma_first_segment(first, rest);
    reveal_strlit("<none>:<none>");
    let full = image.repo_tags[0];
    if full == no_tag() {
        assert(full[first.len() as int] == '/');
    }
}

/// A name without a slash is shown whole.
pub proof fn law_bare_names_are_shown_whole(image: ImageModel)
    requires
        image.repo_tags.len() > 0,
        image.repo_tags[0] != "<none>:<none>"@,
        !image.repo_tags[0].contains('/'),
    ensures
        image.short_name() == image.repo_tags[0],
        image.source_short() == "docker"@,
{
    let name = image.repo_tags[0];
    let plain = text::before_first(name, '@');
    text::lemma_first_index(name, '@');
    assert forall|j: int| 0 <= j < plain.len() implies plain[j] != '/' by {
        assert(name.contains(name[j]));
    }
    assert(!plain.contains('/'));
}

/// Where an image comes from: the well-known registries go by short names, every other one by
/// its host, port left out; an image without a tag comes from nowhere.
pub proof fn law_source_is_the_registry(image: ImageModel, host: Seq<char>, rest: Seq<char>)
    requires
        image.repo_tags.len() > 0,
        image.repo_tags[0] == host + seq!['/'] + rest,
        host.contains('.') || host.contains(':') || host == "localhost"@,
        !host.contains('/'),
        !host.contains('@'),
    ensures
        host == "ghcr.io"@ ==> image.source_short() == "ghcr"@,
        host == "lscr.io"@ ==> image.source_short() == "lscr"@,
        host == "quay.io"@ ==> image.source_short() == "quay"@,
        host == "registry.gitlab.com"@ ==> image.source_short() == "gitlab"@,
        host == "docker.io"@ || host == "index.docker.io"@ ==> image.source_short() == "docker"@,
        !host.contains(':') && host != "ghcr.io"@ && host != "lscr.io"@ && host != "quay.io"@
            && host != "registry.gitlab.com"@ && host != "docker.io"@ && host
            != "index.docker.io"@ ==> image.source_short() == host,
        forall|name: Seq<char>, port: Seq<char>|
            !name.contains(':') && host == #[trigger] (name + seq![':'] + port)
                ==> image.source_short() == name,
{
    let full = image.repo_tags[0];
    reveal_strlit("<none>:<none>");
    if full == no_tag() {
        assert(full[host.len() as int] == '/');
    }
    assert(image.primary_reference() == Some(full));
    let plain = util::without_digest(full);
    text::lemma_first_index(full, '@');
    let at = text::first_index(full, '@');
    if at < host.len() {
        assert(host.contains(host[at]));
    }
    let tail = plain.skip(host.len() as int + 1);
    assert(plain =~= host + seq!['/'] + tail);
    util::lemma_first_segment(host, tail);
    assert(util::registry_of(full) == host);
    reveal_strlit("ghcr.io");
    reveal_strlit("lscr.io");
    reveal_strlit("quay.io");
    reveal_strlit("registry.gitlab.com");
    reveal_strlit("docker.io");
    reveal_strlit("index.docker.io");
    assert("ghcr.io"@[0] == 'g' && "lscr.io"@[0] == 'l' && "quay.io"@[0] == 'q');
    assert("registry.gitlab.com"@[0] == 'r' && "docker.io"@[0] == 'd');
    if !host.contains(':') {
        text::lemma_first_index(host, ':');
        assert(text::before_first(host, ':') =~= host);
    }
    assert forall|name: Seq<char>, port: Seq<char>|
        !name.contains(':') && host == #[trigger] (name + seq![':'] + port) implies
        image.source_short() == name by {
        assert(host[name.len() as int] == ':');
        assert forall|j: int| 0 <= j < name.len() implies host[j] != ':' by {
            assert(name.contains(name[j]));
        }
        text::lemma_first_index_is(host, ':', name.len() as int);
        assert(text::before_first(host, ':') =~= name);
        assert(host.contains(':'));
        assert(!"ghcr.io"@.contains(':'));
        assert(!"lscr.io"@.contains(':'));
        assert(!"quay.io"@.contains(':'));
        assert(!"registry.gitlab.com"@.contains(':'));
        assert(!"docker.io"@.contains(':'));
        assert(!"index.docker.io"@.contains(':'));
    }
}

/// An image without a tag that names it comes from nowhere, and a date that is not known is shown
/// as a dash.
pub proof fn law_unknown_is_a_dash(image: ImageModel)
    ensures
        (forall|i: int|
            0 <= i < image.repo_tags.len() ==> #[trigger] image.repo_tags[i]
                == "<none>:<none>"@) ==> image.source_short() == "—"@,
        image.created <= 0 ==> image.created_date() == "—"@,
{
    law_primary_reference_is_a_tag(image.repo_tags);
    if first_named(image.repo_tags) is Some {
        let t = first_named(image.repo_tags)->0;
        let i = choose|i: int| 0 <= i < image.repo_tags.len() && image.repo_tags[i] == t;
        assert(image.repo_tags[i] == t);
    }
}

impl ImageInfo {
    /// A display name: first repo tag, or short id for dangling images.
    pub fn display_name(&self) -> (r: String)
        ensures
            r@ == self@.display_name(),
    {
        if self.repo_tags.len() > 0 && !str_eq(self.repo_tags[0].as_str(), "<none>:<none>") {
            return self.repo_tags[0].clone();
        }
        let id = self.short_id();
        cat3("<none> (", id.as_str(), ")")
    }

    /// A shortened name with the registry host stripped (shown in SOURCE instead).
    pub fn short_name(&self) -> (r: String)
        ensures
            r@ == self@.short_name(),
    {
        let full = self.display_name();
        match split_once(full.as_str(), '/') {
            Some((first, rest)) => {
                if util::is_registry(first) {
                    return rest.to_string();
                }
            },
            None => {},
        }
        full
    }

    /// A short origin label (e.g. `docker`, `ghcr`, `lscr`, or a custom host).
    pub fn source_short(&self) -> (r: String)
        ensures
            r@ == self@.source_short(),
    {
        match self.primary_reference() {
            Some(reference) => {
                let parsed = ImageRef::parse(reference.as_str());
                assert(parsed@.registry == util::registry_of(reference@));
                let registry = parsed.registry.as_str();
                if str_eq(registry, "index.docker.io") || str_eq(registry, "docker.io") {
                    "docker".to_string()
                } else if str_eq(registry, "ghcr.io") {
                    "ghcr".to_string()
                } else if str_eq(registry, "lscr.io") {
                    "lscr".to_string()
                } else if str_eq(registry, "quay.io") {
                    "quay".to_string()
                } else if str_eq(registry, "registry.gitlab.com") {
                    "gitlab".to_string()
                } else {
                    head_until(registry, ':').to_string()
                }
            },
            None => "—".to_string(),
        }
    }

    /// Creation date as `YYYY-MM-DD`, or `—` if unknown.
    pub fn created_date(&self) -> (r: String)
        ensures
            r@ == self@.created_date(),
    {
        if self.created <= 0 {
            return "—".to_string();
        }
        date_or_dash(utc_date(self.created))
    }

    /// Short image id without the `sha256:` prefix.
    pub fn short_id(&self) -> (r: String)
        ensures
            r@ == self@.short_id(),
    {
        match strip_prefix(self.id.as_str(), "sha256:") {
            Some(bare) => take_chars(bare, 12),
            None => take_chars(self.id.as_str(), 12),
        }
    }

    /// The primary reference to use for registry lookups.
    pub fn primary_reference(&self) -> (r: Option<String>)
        ensures
            r.deep_view() == self@.primary_reference(),
    {
        let ghost tags = self.repo_tags.deep_view();
        let mut i: usize = 0;
        assert(tags.skip(0) =~= tags);
        while i < self.repo_tags.len()
            invariant
                tags == self.repo_tags.deep_view(),
                i <= self.repo_tags@.len(),
                first_named(tags.skip(i as int)) == first_named(tags),
            decreases self.repo_tags@.len() - i,
        {
            assert(tags.skip(i as int)[0] == self.repo_tags@[i as int]@);
            if !str_eq(self.repo_tags[i].as_str(), "<none>:<none>") {
                return Some(self.repo_tags[i].clone());
            }
            assert(tags.skip(i as int).drop_first() =~= tags.skip(i + 1));
            i = i + 1;
        }
        None
    }
}

// ── Containers ─────────────────────────────────────────────────────────────

/// A Docker container as shown in the containers view.
#[derive(Debug)]
pub struct ContainerInfo {
    pub id: String,
    /// Name without the leading `/`.
    pub name: String,
    /// The image reference the container was created from.
    pub image: String,
    /// e.g. `running`, `exited`.
    pub state: String,
    /// Human status line, e.g. `Up 3 hours`.
    pub status: String,
}

/// A container as mathematical values.
pub struct ContainerModel {
    pub id: Seq<char>,
    pub name: Seq<char>,
    pub image: Seq<char>,
    pub state: Seq<char>,
    pub status: Seq<char>,
}

impl View for ContainerInfo {
    type V = ContainerModel;

    open spec fn view(&self) -> ContainerModel {
        ContainerModel {
            id: self.id@,
            name: self.name@,
            image: self.image@,
            state: self.state@,
            status: self.status@,
        }
    }
}

impl DeepView for ContainerInfo {
    type V = ContainerModel;

    open spec fn deep_view(&self) -> ContainerModel {
        self@
    }
}

impl Clone for ContainerInfo {
    fn clone(&self) -> (r: Self)
        ensures
            r@ == self@,
    {
        ContainerInfo {
            id: self.id.clone(),
            name: self.name.clone(),
            image: self.image.clone(),
            state: self.state.clone(),
            status: self.status.clone(),
        }
    }
}

impl ContainerModel {
    /// Whether the container is running.
    pub open spec fn is_running(self) -> bool {
        self.state == "running"@
    }
}

impl ContainerInfo {
    /// Display name (already stripped of the leading `/`).
    pub fn display_name(&self) -> (r: String)
        ensures
            r@ == self@.name,
    {
        self.name.clone()
    }

    /// Whether the container is currently running.
    pub fn is_running(&self) -> (r: bool)
        ensures
            r == self@.is_running(),
    {
        str_eq(self.state.as_str(), "running")
    }
}

// ── Applying an update ─────────────────────────────────────────────────────

/// A step in the container-update (apply) process.
#[derive(Debug, Clone, Copy, PartialEq, Eq, Structural)]
pub enum ApplyStage {
    Inspect,
    Pull,
    Stop,
    Rename,
    Create,
    Start,
    Cleanup,
    Rollback,
    /// Terminal marker for the whole operation.
    Done,
}

impl ApplyStage {
    /// The ordered checklist of stages shown to the user.
    pub const SEQUENCE: [ApplyStage; 7] = [
        ApplyStage::Inspect,
        ApplyStage::Pull,
        ApplyStage::Stop,
        ApplyStage::Rename,
        ApplyStage::Create,
        ApplyStage::Start,
        ApplyStage::Cleanup,
    ];

    /// A human-readable label for the stage.
    pub open spec fn label_text(self) -> Seq<char> {
        match self {
            ApplyStage::Inspect => "Inspect container"@,
            ApplyStage::Pull => "Pull new image"@,
            ApplyStage::Stop => "Stop old container"@,
            ApplyStage::Rename => "Set old container aside"@,
            ApplyStage::Create => "Create new container"@,
            ApplyStage::Start => "Start new container"@,
            ApplyStage::Cleanup => "Remove old container"@,
            ApplyStage::Rollback => "Roll back"@,
            ApplyStage::Done => "Finished"@,
        }
    }

    /// A human-readable label for the stage.
    pub fn label(&self) -> (r: &'static str)
        ensures
            r@ == self.label_text(),
    {
        match self {
            ApplyStage::Inspect => "Inspect container",
            ApplyStage::Pull => "Pull new image",
            ApplyStage::Stop => "Stop old container",
            ApplyStage::Rename => "Set old container aside",
            ApplyStage::Create => "Create new container",
            ApplyStage::Start => "Start new container",
            ApplyStage::Cleanup => "Remove old container",
            ApplyStage::Rollback => "Roll back",
            ApplyStage::Done => "Finished",
        }
    }
}

/// The state a stage transitioned into.
#[derive(Debug, Clone)]
pub enum StageState {
    Start,
    Done,
    Failed(String),
}

/// A stage's state as mathematical values.
pub enum StageModel {
    Start,
    Done,
    Failed(Seq<char>),
}

impl View for StageState {
    type V = StageModel;

    open spec fn view(&self) -> StageModel {
        match self {
            StageState::Start => StageModel::Start,
            StageState::Done => StageModel::Done,
            StageState::Failed(m) => StageModel::Failed(m@),
        }
    }
}

/// A progress event emitted while applying a container update.
#[derive(Debug, Clone)]
pub enum ApplyProgress {
    /// A stage changed state.
    Stage(ApplyStage, StageState),
    /// A detail line (e.g. image pull progress).
    Log(String),
}

/// A progress event as mathematical values.
pub enum ProgressModel {
    Stage(ApplyStage, StageModel),
    Log(Seq<char>),
}

impl View for ApplyProgress {
    type V = ProgressModel;

    open spec fn view(&self) -> ProgressModel {
        match self {
            ApplyProgress::Stage(stage, state) => ProgressModel::Stage(*stage, state@),
            ApplyProgress::Log(line) => ProgressModel::Log(line@),
        }
    }
}

impl DeepView for ApplyProgress {
    type V = ProgressModel;

    open spec fn deep_view(&self) -> ProgressModel {
        self@
    }
}

// ── Disk usage ─────────────────────────────────────────────────────────────

/// Aggregated disk usage, mirroring `docker system df`.
#[derive(Debug, Clone, Copy, PartialEq, Eq, Structural)]
pub struct DiskUsage {
    pub images_total: i64,
    pub images_reclaimable: i64,
    pub images_count: usize,
    pub images_active: usize,
    pub containers_total: i64,
    pub containers_reclaimable: i64,
    pub containers_count: usize,
    pub containers_active: usize,
    pub volumes_total: i64,
    pub volumes_reclaimable: i64,
    pub volumes_count: usize,
    pub volumes_active: usize,
    pub build_cache_total: i64,
    pub build_cache_reclaimable: i64,
    pub build_cache_count: usize,
}

impl Default for DiskUsage {
    fn default() -> (r: Self)
        ensures
            r == DiskUsage::zero(),
    {
        DiskUsage {
            images_total: 0,
            images_reclaimable: 0,
            images_count: 0,
            images_active: 0,
            containers_total: 0,
            containers_reclaimable: 0,
            containers_count: 0,
            containers_active: 0,
            volumes_total: 0,
            volumes_reclaimable: 0,
            volumes_count: 0,
            volumes_active: 0,
            build_cache_total: 0,
            build_cache_reclaimable: 0,
            build_cache_count: 0,
        }
    }
}

impl DiskUsage {
    /// No usage at all.
    pub open spec fn zero() -> DiskUsage {
        DiskUsage {
            images_total: 0,
            images_reclaimable: 0,
            images_count: 0,
            images_active: 0,
            containers_total: 0,
            containers_reclaimable: 0,
            containers_count: 0,
            containers_active: 0,
            volumes_total: 0,
            volumes_reclaimable: 0,
            volumes_count: 0,
            volumes_active: 0,
            build_cache_total: 0,
            build_cache_reclaimable: 0,
            build_cache_count: 0,
        }
    }

    /// The reclaimable bytes of all categories.
    pub open spec fn reclaimable_sum(self) -> int {
        self.images_reclaimable + self.containers_reclaimable + self.volumes_reclaimable
            + self.build_cache_reclaimable
    }

    /// Whether the reclaimable bytes can be added up, left to right, in 64 bits.
    pub open spec fn sums_fit(self) -> bool {
        let two = self.images_reclaimable + self.containers_reclaimable;
        let three = two + self.volumes_reclaimable;
        &&& i64::MIN <= two <= i64::MAX
        &&& i64::MIN <= three <= i64::MAX
        &&& i64::MIN <= self.reclaimable_sum() <= i64::MAX
    }

    /// Whether the reclaimable bytes can be added up.
    pub fn can_total(&self) -> (r: bool)
        ensures
            r == self.sums_fit(),
    {
        match self.images_reclaimable.checked_add(self.containers_reclaimable) {
            Some(two) => match two.checked_add(self.volumes_reclaimable) {
                Some(three) => three.checked_add(self.build_cache_reclaimable).is_some(),
                None => false,
            },
            None => false,
        }
    }

    /// Total reclaimable across all categories.
    pub fn total_reclaimable(&self) -> (r: i64)
        requires
            self.sums_fit(),
        ensures
            r == self.reclaimable_sum(),
    {
        self.images_reclaimable + self.containers_reclaimable + self.volumes_reclaimable
            + self.build_cache_reclaimable
    }
}

// ── Update checks ──────────────────────────────────────────────────────────

/// The result of an update check for a single image/container.
#[derive(Debug, PartialEq, Eq)]
pub enum UpdateStatus {
    /// Currently being checked.
    Checking,
    /// Local image matches the registry.
    UpToDate,
    /// A newer image is available in the registry.
    UpdateAvailable,
    /// The image is built locally / has no registry digest to compare.
    LocalOnly,
    /// The check failed (network, auth, etc.).
    Error(String),
}

/// The result of an update check as mathematical values.
pub enum StatusModel {
    Checking,
    UpToDate,
    UpdateAvailable,
    LocalOnly,
    Error(Seq<char>),
}

impl View for UpdateStatus {
    type V = StatusModel;

    open spec fn view(&self) -> StatusModel {
        match self {
            UpdateStatus::Checking => StatusModel::Checking,
            UpdateStatus::UpToDate => StatusModel::UpToDate,
            UpdateStatus::UpdateAvailable => StatusModel::UpdateAvailable,
            UpdateStatus::LocalOnly => StatusModel::LocalOnly,
            UpdateStatus::Error(e) => StatusModel::Error(e@),
        }
    }
}

impl Clone for UpdateStatus {
    fn clone(&self) -> (r: Self)
        ensures
            r@ == self@,
    {
        match self {
            UpdateStatus::Checking => UpdateStatus::Checking,
            UpdateStatus::UpToDate => UpdateStatus::UpToDate,
            UpdateStatus::UpdateAvailable => UpdateStatus::UpdateAvailable,
            UpdateStatus::LocalOnly => UpdateStatus::LocalOnly,
            UpdateStatus::Error(e) => UpdateStatus::Error(e.clone()),
        }
    }
}

/// Detailed result of an update check, including version/date comparison.
#[derive(Debug)]
pub struct UpdateInfo {
    pub status: UpdateStatus,
    /// Version label of the running/local image (e.g. `16.2`), if published.
    pub current_version: Option<String>,
    /// Version label of the latest registry image, if published.
    pub latest_version: Option<String>,
    /// Creation date (YYYY-MM-DD) of the local image.
    pub current_date: Option<String>,
    /// Creation date (YYYY-MM-DD) of the latest registry image.
    pub latest_date: Option<String>,
    /// Best-guess GitHub `owner/repo` for the changelog, if determinable.
    pub changelog_repo: Option<String>,
    /// The local image id this result was computed against (for cache staleness).
    pub local_id: Option<String>,
    /// When this check completed.
    pub checked_at: Option<Timestamp>,
}

/// The detailed result of an update check as mathematical values.
pub struct UpdateModel {
    pub status: StatusModel,
    pub current_version: Option<Seq<char>>,
    pub latest_version: Option<Seq<char>>,
    pub current_date: Option<Seq<char>>,
    pub latest_date: Option<Seq<char>>,
    pub changelog_repo: Option<Seq<char>>,
    pub local_id: Option<Seq<char>>,
    pub checked_at: Option<Timestamp>,
}

impl View for UpdateInfo {
    type V = UpdateModel;

    open spec fn view(&self) -> UpdateModel {
        UpdateModel {
            status: self.status@,
            current_version: self.current_version.deep_view(),
            latest_version: self.latest_version.deep_view(),
            current_date: self.current_date.deep_view(),
            latest_date: self.latest_date.deep_view(),
            changelog_repo: self.changelog_repo.deep_view(),
            local_id: self.local_id.deep_view(),
            checked_at: self.checked_at,
        }
    }
}

impl Clone for UpdateInfo {
    fn clone(&self) -> (r: Self)
        ensures
            r@ == self@,
    {
        UpdateInfo {
            status: self.status.clone(),
            current_version: copy_option(&self.current_version),
            latest_version: copy_option(&self.latest_version),
            current_date: copy_option(&self.current_date),
            latest_date: copy_option(&self.latest_date),
            changelog_repo: copy_option(&self.changelog_repo),
            local_id: copy_option(&self.local_id),
            checked_at: self.checked_at,
        }
    }
}

/// `a` where it is there, else `b`.
pub open spec fn either(a: Option<Seq<char>>, b: Option<Seq<char>>) -> Option<Seq<char>> {
    if a is Some {
        a
    } else {
        b
    }
}

impl UpdateModel {
    /// A result that carries only a status.
    pub open spec fn of_status(status: StatusModel) -> UpdateModel {
        UpdateModel {
            status,
            current_version: None,
            latest_version: None,
            current_date: None,
            latest_date: None,
            changelog_repo: None,
            local_id: None,
            checked_at: None,
        }
    }

    /// The version of the local image, else its date.
    pub open spec fn current_label(self) -> Option<Seq<char>> {
        either(self.current_version, self.current_date)
    }

    /// The version of the latest image, else its date.
    pub open spec fn latest_label(self) -> Option<Seq<char>> {
        either(self.latest_version, self.latest_date)
    }

    /// `current → latest`, when both are known.
    pub open spec fn transition(self) -> Option<Seq<char>> {
        match (self.current_label(), self.latest_label()) {
            (Some(a), Some(b)) => Some(a + " → "@ + b),
            _ => None,
        }
    }
}

impl UpdateInfo {
    /// An info carrying only a status (used for placeholders and the scheduler).
    pub fn from_status(status: UpdateStatus) -> (r: Self)
        ensures
            r@ == UpdateModel::of_status(status@),
    {
        UpdateInfo {
            status,
            current_version: None,
            latest_version: None,
            current_date: None,
            latest_date: None,
            changelog_repo: None,
            local_id: None,
            checked_at: None,
        }
    }

    /// The best available "current" identifier: version, else date.
    pub fn current_label(&self) -> (r: Option<String>)
        ensures
            r.deep_view() == self@.current_label(),
    {
        match &self.current_version {
            Some(v) => Some(v.clone()),
            None => copy_option(&self.current_date),
        }
    }

    /// The best available "latest" identifier: version, else date.
    pub fn latest_label(&self) -> (r: Option<String>)
        ensures
            r.deep_view() == self@.latest_label(),
    {
        match &self.latest_version {
            Some(v) => Some(v.clone()),
            None => copy_option(&self.latest_date),
        }
    }

    /// A compact `current → latest` string for the table, when both are known.
    pub fn transition(&self) -> (r: Option<String>)
        ensures
            r.deep_view() == self@.transition(),
    {
        match (self.current_label(), self.latest_label()) {
            (Some(a), Some(b)) => Some(cat3(a.as_str(), " → ", b.as_str())),
            _ => None,
        }
    }
}

// ── Laws of the summaries ──────────────────────────────────────────────────

/// What can be reclaimed in all is what can be reclaimed of each category; a byte more in any of
/// them is a byte more in all, and no other figure has a part in it.
pub proof fn law_reclaimable_adds_the_categories(u: DiskUsage, n: i64)
    ensures
        u.reclaimable_sum() - u.images_reclaimable == u.containers_reclaimable
            + u.volumes_reclaimable + u.build_cache_reclaimable,
        (DiskUsage { images_reclaimable: n, ..u }).reclaimable_sum() - n == u.reclaimable_sum()
            - u.images_reclaimable,
        (DiskUsage { containers_reclaimable: n, ..u }).reclaimable_sum() - n
            == u.reclaimable_sum() - u.containers_reclaimable,
        (DiskUsage { volumes_reclaimable: n, ..u }).reclaimable_sum() - n == u.reclaimable_sum()
            - u.volumes_reclaimable,
        (DiskUsage { build_cache_reclaimable: n, ..u }).reclaimable_sum() - n
            == u.reclaimable_sum() - u.build_cache_reclaimable,
        DiskUsage::zero().reclaimable_sum() == 0,
{
}

/// Figures that are not negative can be added up exactly when what they come to fits.
pub proof fn law_totals_fit_when_the_sum_does(u: DiskUsage)
    requires
        u.images_reclaimable >= 0,
        u.containers_reclaimable >= 0,
        u.volumes_reclaimable >= 0,
        u.build_cache_reclaimable >= 0,
    ensures
        u.sums_fit() <==> u.images_reclaimable + u.containers_reclaimable + u.volumes_reclaimable
            + u.build_cache_reclaimable <= i64::MAX,
{
}

/// An image is labelled by its version where that is known, else by its date; the change from one
/// image to another is shown where both have a label, with the local one first.
pub proof fn law_versions_go_before_dates(u: UpdateModel)
    ensures
        u.current_version matches Some(v) ==> u.current_label() == Some(v),
        u.current_version is None ==> u.current_label() == u.current_date,
        u.latest_version matches Some(v) ==> u.latest_label() == Some(v),
        u.latest_version is None ==> u.latest_label() == u.latest_date,
        u.transition() is Some <==> (u.current_version is Some || u.current_date is Some) && (
        u.latest_version is Some || u.latest_date is Some),
        forall|a: Seq<char>, b: Seq<char>|
            (u.current_version == Some(a) || u.current_version is None && u.current_date == Some(a))
                && (u.latest_version == Some(b) || u.latest_version is None && u.latest_date
                == Some(b)) ==> u.transition() == Some(#[trigger] (a + " → "@ + b)),
{
}

/// A container runs exactly when its state says so.
pub proof fn law_only_running_containers_run(c: ContainerModel)
    ensures
        c.is_running() <==> c.state == "running"@,
{
}

} // verus!
