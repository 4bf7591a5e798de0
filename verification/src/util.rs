//! Small pure helpers: byte counts and image references.

use vstd::prelude::*;
use crate::text;
use crate::text::{cat2, cat3, has_char, head_until, rsplit_once, split_once, str_eq, strip_prefix};

verus! {

// ── Byte counts ────────────────────────────────────────────────────────────

/// A byte count in decimal units, such as `1.5 GB`.
pub uninterp spec fn human_size(bytes: u64) -> Seq<char>;

/// `humansize::format_size` with its `DECIMAL` options: the text depends on the byte count alone.
#[verifier::external_body]
fn format_size(bytes: u64) -> (r: String)
    ensures
        r@ == human_size(bytes),
{
    humansize::format_size(bytes, humansize::DECIMAL)
}

/// What stands for a byte count: its size in decimal units, or `-` where it is negative.
pub open spec fn bytes_text(bytes: i64) -> Seq<char> {
    if bytes < 0 {
        "-"@
    } else {
        human_size(bytes as u64)
    }
}

/// Format a byte count as a short human-readable string (e.g. `1.5 GB`).
pub fn format_bytes(bytes: i64) -> (r: String)
    ensures
        r@ == bytes_text(bytes),
{
    if bytes < 0 {
        return "-".to_string();
    }
    format_size(bytes as u64)
}

// ── Image references ───────────────────────────────────────────────────────

/// A parsed OCI image reference.
#[derive(Debug, Clone, PartialEq, Eq)]
pub struct ImageRef {
    pub registry: String,
    pub repository: String,
    pub tag: String,
}

/// The three parts of an image reference as character sequences.
pub struct RefModel {
    pub registry: Seq<char>,
    pub repository: Seq<char>,
    pub tag: Seq<char>,
}

impl View for ImageRef {
    type V = RefModel;

    open spec fn view(&self) -> RefModel {
        RefModel { registry: self.registry@, repository: self.repository@, tag: self.tag@ }
    }
}

/// The registry that a reference without a registry of its own belongs to.
pub open spec fn hub() -> Seq<char> {
    "index.docker.io"@
}

/// Whether a first path segment names a registry: a host with a dot or a port, or `localhost`.
pub open spec fn names_registry(segment: Seq<char>) -> bool {
    segment.contains('.') || segment.contains(':') || segment == "localhost"@
}

/// Whether a first path segment names a registry: a host with a dot or a port, or `localhost`.
pub fn is_registry(segment: &str) -> (r: bool)
    ensures
        r == names_registry(segment@),
{
    has_char(segment, '.') || has_char(segment, ':') || str_eq(segment, "localhost")
}

/// A reference without its digest.
pub open spec fn without_digest(reference: Seq<char>) -> Seq<char> {
    text::before_first(reference, '@')
}

/// Whether a reference starts with a registry. A bare name, which has no slash, never does: a
/// colon in it sets off its tag.
pub open spec fn has_registry(reference: Seq<char>) -> bool {
    let plain = without_digest(reference);
    plain.contains('/') && names_registry(text::before_first(plain, '/'))
}

/// The registry of a reference.
pub open spec fn registry_of(reference: Seq<char>) -> Seq<char> {
    if has_registry(reference) {
        text::before_first(without_digest(reference), '/')
    } else {
        hub()
    }
}

/// What stands in a reference behind its registry, digest dropped.
pub open spec fn path_of(reference: Seq<char>) -> Seq<char> {
    if has_registry(reference) {
        text::after_first(without_digest(reference), '/')
    } else {
        without_digest(reference)
    }
}

/// Whether a path ends in a tag: a colon with no slash behind it.
pub open spec fn has_tag(path: Seq<char>) -> bool {
    path.contains(':') && !text::after_last(path, ':').contains('/')
}

/// The path without its tag.
pub open spec fn untagged(path: Seq<char>) -> Seq<char> {
    if has_tag(path) {
        text::before_last(path, ':')
    } else {
        path
    }
}

/// The tag of a path, `latest` where it has none.
pub open spec fn tag_of(path: Seq<char>) -> Seq<char> {
    if has_tag(path) {
        text::after_last(path, ':')
    } else {
        "latest"@
    }
}

/// The repository as the registry knows it: Docker Hub's official images live under `library/`.
pub open spec fn normal_repository(registry: Seq<char>, name: Seq<char>) -> Seq<char> {
    if registry == hub() && !name.contains('/') {
        "library/"@ + name
    } else {
        name
    }
}

/// The three parts of a reference.
pub open spec fn parsed(reference: Seq<char>) -> RefModel {
    let registry = registry_of(reference);
    let path = path_of(reference);
    RefModel {
        registry,
        repository: normal_repository(registry, untagged(path)),
        tag: tag_of(path),
    }
}

/// The GitHub `owner/repo` that a reference suggests.
pub open spec fn guessed_repo(r: RefModel) -> Option<Seq<char>> {
    if r.registry == "ghcr.io"@ {
        Some(r.repository)
    } else if text::starts(r.repository, "library/"@) {
        let name = r.repository.skip("library/"@.len() as int);
        Some(name + "/"@ + name)
    } else if r.repository.contains('/') {
        Some(r.repository)
    } else {
        None
    }
}

impl ImageRef {
    /// Parse an image reference like `ghcr.io/owner/app:1.2` or `redis`.
    ///
    /// Applies Docker Hub normalization: bare names get the `library/` prefix
    /// and the `index.docker.io` registry; a missing tag defaults to `latest`.
    pub fn parse(reference: &str) -> (r: Self)
        ensures
            r@ == parsed(reference@),
    {
        let plain = head_until(reference, '@');
        let (registry, path) = match split_once(plain, '/') {
            Some((segment, rest)) => {
                if is_registry(segment) {
                    (segment.to_string(), rest.to_string())
                } else {
                    ("index.docker.io".to_string(), plain.to_string())
                }
            },
            None => ("index.docker.io".to_string(), plain.to_string()),
        };
        let (name, tag) = match rsplit_once(path.as_str(), ':') {
            Some((repo, tag)) => {
                if has_char(tag, '/') {
                    (path.clone(), "latest".to_string())
                } else {
                    (repo.to_string(), tag.to_string())
                }
            },
            None => (path.clone(), "latest".to_string()),
        };
        let repository = if str_eq(registry.as_str(), "index.docker.io") && !has_char(
            name.as_str(),
            '/',
        ) {
            cat2("library/", name.as_str())
        } else {
            name
        };
        ImageRef { registry, repository, tag }
    }

    /// Best-guess GitHub `owner/repo` for changelog lookup.
    ///
    /// - `ghcr.io/owner/repo` -> `owner/repo`
    /// - `library/redis` -> `redis/redis`
    /// - `owner/app` -> `owner/app`
    pub fn guess_github_repo(&self) -> (r: Option<String>)
        ensures
            r.deep_view() == guessed_repo(self@),
    {
        if str_eq(self.registry.as_str(), "ghcr.io") {
            return Some(self.repository.clone());
        }
        match strip_prefix(self.repository.as_str(), "library/") {
            Some(name) => return Some(cat3(name, "/", name)),
            None => {},
        }
        if has_char(self.repository.as_str(), '/') {
            return Some(self.repository.clone());
        }
        None
    }
}

// ── Laws of references ─────────────────────────────────────────────────────

/// A digest never changes what a reference names: `r@digest` parses as `r` does.
pub proof fn law_digest_dropped(r: Seq<char>, digest: Seq<char>)
    ensures
        parsed(r + seq!['@'] + digest) == parsed(r),
{
    let full = r + seq!['@'] + digest;
    let i = text::first_index(r, '@');
    text::lemma_first_index(r, '@');
    assert forall|j: int| 0 <= j < i implies full[j] != '@' by {
        assert(full[j] == r[j]);
    }
    assert(full[i] == '@');
    text::lemma_first_index_is(full, '@', i);
    assert(text::before_first(full, '@') =~= text::before_first(r, '@'));
}

/// Every reference gets a tag, `latest` where it names none, and every Docker Hub reference a
/// repository of at least two segments.
pub proof fn law_hub_repositories_are_qualified(r: Seq<char>)
    ensures
        registry_of(r) == hub() ==> parsed(r).repository.contains('/'),
        !has_tag(path_of(r)) ==> parsed(r).tag == "latest"@,
{
    reveal_strlit("library/");
    let name = untagged(path_of(r));
    if registry_of(r) == hub() && !name.contains('/') {
        let full = "library/"@ + name;
        assert(full[7] == '/');
    }
}

/// Bare names live on Docker Hub, under `library/`, with or without a tag.
pub proof fn law_bare_names_are_official(name: Seq<char>, tag: Seq<char>)
    requires
        !name.contains('/'),
        !name.contains(':'),
        !name.contains('@'),
        !tag.contains('/'),
        !tag.contains(':'),
        !tag.contains('@'),
    ensures
        parsed(name) == (RefModel {
            registry: hub(),
            repository: "library/"@ + name,
            tag: "latest"@,
        }),
        parsed(name + seq![':'] + tag) == (RefModel {
            registry: hub(),
            repository: "library/"@ + name,
            tag,
        }),
{
    text::lemma_first_index(name, '@');
    assert(text::before_first(name, '@') =~= name);
    let full = name + seq![':'] + tag;
    assert forall|j: int| 0 <= j < full.len() implies full[j] != '@' && full[j] != '/' by {
        if j < name.len() {
            assert(name.contains(name[j]));
        } else if j > name.len() {
            assert(full[j] == tag[j - name.len() - 1]);
            assert(tag.contains(tag[j - name.len() - 1]));
        }
    }
    text::lemma_first_index_is(full, '@', full.len() as int);
    assert(text::before_first(full, '@') =~= full);
    assert(full[name.len() as int] == ':');
    assert forall|j: int| name.len() < j < full.len() implies full[j] != ':' by {
        assert(full[j] == tag[j - name.len() - 1]);
        assert(tag.contains(tag[j - name.len() - 1]));
    }
    text::lemma_last_index_is(full, ':', name.len() as int);
    assert(text::after_last(full, ':') =~= tag);
    assert(text::before_last(full, ':') =~= name);
}

/// Every Docker Hub or GitHub registry reference has a changelog source to guess.
pub proof fn law_known_registries_have_a_guess(r: Seq<char>)
    requires
        registry_of(r) == hub() || registry_of(r) == "ghcr.io"@,
    ensures
        guessed_repo(parsed(r)) is Some,
{
    law_hub_repositories_are_qualified(r);
}

/// Writing out a registry, repository and tag and parsing the text gives the three back.
pub proof fn law_parse_reads_back(registry: Seq<char>, repository: Seq<char>, tag: Seq<char>)
    requires
        names_registry(registry),
        !registry.contains('/'),
        !registry.contains('@'),
        !repository.contains('@'),
        registry == hub() ==> repository.contains('/'),
        !tag.contains('@'),
        !tag.contains('/'),
        !tag.contains(':'),
    ensures
        parsed(registry + seq!['/'] + repository + seq![':'] + tag) == (RefModel {
            registry,
            repository,
            tag,
        }),
{
    let path = repository + seq![':'] + tag;
    let full = registry + seq!['/'] + repository + seq![':'] + tag;
    assert(full =~= registry + seq!['/'] + path);
    assert forall|j: int| 0 <= j < full.len() implies full[j] != '@' by {
        if j < registry.len() {
            assert(registry.contains(registry[j]));
        } else if registry.len() < j <= registry.len() + repository.len() {
            assert(full[j] == repository[j - registry.len() - 1]);
            assert(repository.contains(repository[j - registry.len() - 1]));
        } else if j > registry.len() + repository.len() + 1 {
            let k = j - registry.len() - repository.len() - 2;
            assert(full[j] == tag[k]);
            assert(tag.contains(tag[k]));
        }
    }
    text::lemma_first_index_is(full, '@', full.len() as int);
    assert(text::before_first(full, '@') =~= full);
    assert forall|j: int| 0 <= j < registry.len() implies full[j] != '/' by {
        assert(registry.contains(registry[j]));
    }
    text::lemma_first_index_is(full, '/', registry.len() as int);
    assert(text::before_first(full, '/') =~= registry);
    assert(full[registry.len() as int] == '/');
    assert(text::after_first(full, '/') =~= path);
    assert(path[repository.len() as int] == ':');
    assert forall|j: int| repository.len() < j < path.len() implies path[j] != ':' by {
        assert(path[j] == tag[j - repository.len() - 1]);
        assert(tag.contains(tag[j - repository.len() - 1]));
    }
    text::lemma_last_index_is(path, ':', repository.len() as int);
    assert(text::after_last(path, ':') =~= tag);
    assert(text::before_last(path, ':') =~= repository);
}

/// A first path segment with a dot or a colon, or `localhost`, is the registry of a reference;
/// what follows it is the repository as it stands, also where that is a single name.
pub proof fn law_hosts_are_registries(host: Seq<char>, repository: Seq<char>, tag: Seq<char>)
    requires
        host.contains('.') || host.contains(':') || host == "localhost"@,
        host != "index.docker.io"@ || repository.contains('/'),
        !host.contains('/'),
        !host.contains('@'),
        !repository.contains('@'),
        !repository.contains(':'),
        !tag.contains('@'),
        !tag.contains('/'),
        !tag.contains(':'),
    ensures
        parsed(host + seq!['/'] + repository + seq![':'] + tag) == (RefModel {
            registry: host,
            repository,
            tag,
        }),
        parsed(host + seq!['/'] + repository) == (RefModel {
            registry: host,
            repository,
            tag: "latest"@,
        }),
{
    law_parse_reads_back(host, repository, tag);
    let full = host + seq!['/'] + repository;
    lemma_no_digest(host, repository);
    lemma_first_segment(host, repository);
    assert(path_of(full) =~= repository);
    assert(untagged(repository) == repository);
}

/// A reference without an `@` is left as it is where digests are dropped.
proof fn lemma_no_digest(first: Seq<char>, rest: Seq<char>)
    requires
        !first.contains('@'),
        !rest.contains('@'),
    ensures
        without_digest(first + seq!['/'] + rest) == first + seq!['/'] + rest,
{
    let full = first + seq!['/'] + rest;
    assert forall|j: int| 0 <= j < full.len() implies full[j] != '@' by {
        if j < first.len() {
            assert(first.contains(first[j]));
        } else if j > first.len() {
            assert(full[j] == rest[j - first.len() - 1]);
            assert(rest.contains(rest[j - first.len() - 1]));
        }
    }
    text::lemma_first_index_is(full, '@', full.len() as int);
    assert(text::before_first(full, '@') =~= full);
}

/// The parts of a text before and behind its first slash.
pub proof fn lemma_first_segment(first: Seq<char>, rest: Seq<char>)
    requires
        !first.contains('/'),
    ensures
        (first + seq!['/'] + rest).contains('/'),
        text::before_first(first + seq!['/'] + rest, '/') == first,
        text::after_first(first + seq!['/'] + rest, '/') == rest,
{
    let full = first + seq!['/'] + rest;
    assert(full[first.len() as int] == '/');
    assert forall|j: int| 0 <= j < first.len() implies full[j] != '/' by {
        assert(first.contains(first[j]));
    }
    text::lemma_first_index_is(full, '/', first.len() as int);
    assert(text::before_first(full, '/') =~= first);
    assert(text::after_first(full, '/') =~= rest);
}

/// A first path segment without a dot or a colon, other than `localhost`, is an owner on Docker
/// Hub and stays a part of the repository.
pub proof fn law_owners_are_no_registries(owner: Seq<char>, name: Seq<char>, tag: Seq<char>)
    requires
        !owner.contains('.'),
        !owner.contains(':'),
        owner != "localhost"@,
        !owner.contains('/'),
        !owner.contains('@'),
        !name.contains('@'),
        !name.contains(':'),
        !tag.contains('@'),
        !tag.contains('/'),
        !tag.contains(':'),
    ensures
        parsed(owner + seq!['/'] + name) == (RefModel {
            registry: "index.docker.io"@,
            repository: owner + seq!['/'] + name,
            tag: "latest"@,
        }),
        parsed(owner + seq!['/'] + name + seq![':'] + tag) == (RefModel {
            registry: "index.docker.io"@,
            repository: owner + seq!['/'] + name,
            tag,
        }),
{
    let repository = owner + seq!['/'] + name;
    lemma_no_digest(owner, name);
    lemma_first_segment(owner, name);
    assert forall|j: int| 0 <= j < repository.len() implies repository[j] != ':' by {
        if j < owner.len() {
            assert(owner.contains(owner[j]));
        } else if j > owner.len() {
            assert(repository[j] == name[j - owner.len() - 1]);
            assert(name.contains(name[j - owner.len() - 1]));
        }
    }
    assert(!repository.contains(':'));
    let rest = name + seq![':'] + tag;
    let full = repository + seq![':'] + tag;
    assert(full =~= owner + seq!['/'] + rest);
    assert forall|j: int| 0 <= j < rest.len() implies rest[j] != '@' by {
        if j < name.len() {
            assert(name.contains(name[j]));
        } else if j > name.len() {
            assert(rest[j] == tag[j - name.len() - 1]);
            assert(tag.contains(tag[j - name.len() - 1]));
        }
    }
    assert(!rest.contains('@'));
    lemma_no_digest(owner, rest);
    lemma_first_segment(owner, rest);
    lemma_tag_reads_back(repository, tag);
}

/// A path and its tag, from a text in which a colon stands between them.
pub proof fn lemma_tag_reads_back(path: Seq<char>, tag: Seq<char>)
    requires
        !tag.contains('/'),
        !tag.contains(':'),
    ensures
        has_tag(path + seq![':'] + tag),
        untagged(path + seq![':'] + tag) == path,
        tag_of(path + seq![':'] + tag) == tag,
{
    let full = path + seq![':'] + tag;
    assert(full[path.len() as int] == ':');
    assert forall|j: int| path.len() < j < full.len() implies full[j] != ':' by {
        assert(full[j] == tag[j - path.len() - 1]);
        assert(tag.contains(tag[j - path.len() - 1]));
    }
    text::lemma_last_index_is(full, ':', path.len() as int);
    assert(text::after_last(full, ':') =~= tag);
    assert(text::before_last(full, ':') =~= path);
}

/// A colon before the last path segment sets off a port, never a tag.
pub proof fn lemma_port_is_no_tag(front: Seq<char>, name: Seq<char>)
    requires
        !name.contains(':'),
    ensures
        !has_tag(front + seq!['/'] + name),
{
    let full = front + seq!['/'] + name;
    text::lemma_last_index(full, ':');
    let at = text::last_index(full, ':');
    if full.contains(':') {
        if at > front.len() {
            assert(full[at] == name[at - front.len() - 1]);
            assert(name.contains(name[at - front.len() - 1]));
        }
        let rest = text::after_last(full, ':');
        assert(rest[front.len() - at - 1] == '/');
        assert(rest.contains('/'));
    }
}

/// The repository that a reference suggests on GitHub: on GHCR the repository itself, for an
/// official image the one of its own name under an owner of that name, elsewhere the repository
/// where it has an owner, and none where it has not.
pub proof fn law_guess_follows_the_registry(r: RefModel, name: Seq<char>)
    ensures
        r.registry == "ghcr.io"@ ==> guessed_repo(r) == Some(r.repository),
        r.registry != "ghcr.io"@ && r.repository == "library/"@ + name ==> guessed_repo(r) == Some(
            name + "/"@ + name,
        ),
        r.registry != "ghcr.io"@ && !r.repository.contains('/') ==> guessed_repo(r) is None,
        r.registry != "ghcr.io"@ && r.repository.contains('/') && (forall|n: Seq<char>|
            r.repository != #[trigger] ("library/"@ + n)) ==> guessed_repo(r) == Some(r.repository),
{
    let prefix = "library/"@;
    reveal_strlit("library/");
    if text::starts(r.repository, prefix) {
        let rest = r.repository.skip(prefix.len() as int);
        assert(r.repository =~= prefix + rest);
        assert(r.repository[7] == '/');
    }
    if r.repository == prefix + name {
        assert(r.repository.take(prefix.len() as int) =~= prefix);
        assert(r.repository.skip(prefix.len() as int) =~= name);
    }
}

/// A byte count that is not known is shown as a dash, every other one by its size.
pub proof fn law_negative_sizes_are_unknown(bytes: i64)
    ensures
        bytes < 0 ==> bytes_text(bytes) == "-"@,
        bytes >= 0 ==> bytes_text(bytes) == human_size(bytes as u64),
{
}

} // verus!
