//! Small decisions around the engine's API: endpoints, names, pull references, log text and
//! the messages that report what was done.

use vstd::prelude::*;
use crate::text;
use crate::text::{
    cat2, cat3, has_char, rsplit_once, split_on, starts_with, strip_prefix, trim, trim_leading,
};
use crate::util;
use crate::util::format_bytes;

verus! {

// ── Endpoints ──────────────────────────────────────────────────────────────

/// How to reach an engine.
#[derive(Debug)]
pub enum Endpoint {
    /// A socket at a path.
    Socket(String),
    /// An HTTP address.
    Http(String),
    /// A host over SSH.
    Ssh(String),
    /// Not an address that can be used; the reason.
    Unsupported(String),
}

/// How to reach an engine, as mathematical values.
pub enum EndpointModel {
    Socket(Seq<char>),
    Http(Seq<char>),
    Ssh(Seq<char>),
    Unsupported(Seq<char>),
}

impl View for Endpoint {
    type V = EndpointModel;

    open spec fn view(&self) -> EndpointModel {
        match self {
            Endpoint::Socket(p) => EndpointModel::Socket(p@),
            Endpoint::Http(a) => EndpointModel::Http(a@),
            Endpoint::Ssh(a) => EndpointModel::Ssh(a@),
            Endpoint::Unsupported(m) => EndpointModel::Unsupported(m@),
        }
    }
}

/// What an endpoint's scheme says.
pub open spec fn endpoint_of(address: Seq<char>) -> EndpointModel {
    if text::starts(address, "unix://"@) {
        EndpointModel::Socket(address.skip("unix://"@.len() as int))
    } else if text::starts(address, "tcp://"@) || text::starts(address, "http://"@) {
        EndpointModel::Http(address)
    } else if text::starts(address, "ssh://"@) {
        EndpointModel::Ssh(address)
    } else {
        EndpointModel::Unsupported("unsupported Docker endpoint: "@ + address)
    }
}

/// Reads an endpoint: `unix://`, `tcp://`, `http://`, or `ssh://`.
pub fn read_endpoint(address: &str) -> (r: Endpoint)
    ensures
        r@ == endpoint_of(address@),
{
    match strip_prefix(address, "unix://") {
        Some(path) => return Endpoint::Socket(path.to_string()),
        None => {},
    }
    if starts_with(address, "tcp://") || starts_with(address, "http://") {
        Endpoint::Http(address.to_string())
    } else if starts_with(address, "ssh://") {
        Endpoint::Ssh(address.to_string())
    } else {
        Endpoint::Unsupported(cat2("unsupported Docker endpoint: ", address))
    }
}

// ── Names, logs and pulls ──────────────────────────────────────────────────

/// The name of a container: its first name without leading slashes, or nothing.
pub open spec fn first_name(names: Seq<Seq<char>>) -> Seq<char> {
    if names.len() > 0 {
        text::without_leading(names[0], '/')
    } else {
        Seq::empty()
    }
}

/// The name of a container, from the names that the engine lists for it.
pub fn container_name(names: &Vec<String>) -> (r: String)
    ensures
        r@ == first_name(names.deep_view()),
{
    if names.len() > 0 {
        assert(names.deep_view()[0] == names@[0]@);
        trim_leading(names[0].as_str(), '/').to_string()
    } else {
        String::new()
    }
}

/// The texts of a list that are not empty, in order.
pub open spec fn filled(parts: Seq<Seq<char>>) -> Seq<Seq<char>>
    decreases parts.len(),
{
    if parts.len() == 0 {
        Seq::empty()
    } else if parts.last().len() == 0 {
        filled(parts.drop_last())
    } else {
        filled(parts.drop_last()).push(parts.last())
    }
}

/// The lines of a piece of log output, empty ones left out.
pub fn log_lines(output: &str) -> (r: Vec<String>)
    ensures
        r.deep_view() == filled(text::pieces(output@, '\n')),
{
    let parts = split_on(output, '\n');
    let ghost all = parts.deep_view();
    let mut out: Vec<String> = Vec::new();
    let mut i: usize = 0;
    assert(out.deep_view() =~= filled(all.take(0)));
    while i < parts.len()
        invariant
            all == parts.deep_view(),
            i <= parts@.len(),
            out.deep_view() == filled(all.take(i as int)),
        decreases parts@.len() - i,
    {
        assert(all.take(i + 1).drop_last() =~= all.take(i as int));
        assert(all.take(i + 1).last() == parts@[i as int]@);
        if !parts[i].as_str().is_empty() {
            let ghost before = out.deep_view();
            out.push(parts[i].clone());
            assert(out.deep_view() =~= before.push(parts@[i as int]@));
        }
        i = i + 1;
    }
    assert(all.take(all.len() as int) =~= all);
    out
}

/// An image reference as the pull API takes it: a colon splits the tag off only in the last
/// path segment.
pub open spec fn pull_parts(image: Seq<char>) -> (Seq<char>, Seq<char>) {
    (util::untagged(image), util::tag_of(image))
}

/// Split an image reference into `(from_image, tag)` for the pull API.
pub fn split_ref_for_pull(image: &str) -> (r: (String, String))
    ensures
        (r.0@, r.1@) == pull_parts(image@),
{
    match rsplit_once(image, ':') {
        Some((repo, tag)) => {
            if !has_char(tag, '/') {
                return (repo.to_string(), tag.to_string());
            }
        },
        None => {},
    }
    (image.to_string(), "latest".to_string())
}

/// A pull reference written out again, tag behind a colon, is the image with its tag.
pub proof fn law_pull_parts_read_back(image: Seq<char>)
    ensures
        util::has_tag(image) ==> pull_parts(image).0 + seq![':'] + pull_parts(image).1 == image,
        !util::has_tag(image) ==> pull_parts(image) == (image, "latest"@),
{
    text::lemma_last_index(image, ':');
    if util::has_tag(image) {
        assert(pull_parts(image).0 + seq![':'] + pull_parts(image).1 =~= image);
    }
}

/// The line that shows a step of a pull.
pub open spec fn pull_line(status: Seq<char>, progress: Seq<char>) -> Seq<char> {
    text::trimmed(status + " "@ + progress)
}

/// The line that shows a step of a pull.
pub fn progress_line(status: &str, progress: &str) -> (r: String)
    ensures
        r@ == pull_line(status@, progress@),
{
    let line = cat3(status, " ", progress);
    trim(line.as_str()).to_string()
}

// ── Reports ────────────────────────────────────────────────────────────────

/// A piece of work that the engine can be asked to do to a container.
#[derive(Debug, Clone, Copy, PartialEq, Eq, Structural)]
pub enum Lifecycle {
    Start,
    Stop,
    Restart,
    Remove,
}

/// Something that can be pruned.
#[derive(Debug, Clone, Copy, PartialEq, Eq, Structural)]
pub enum PruneKind {
    Images,
    Containers,
    Volumes,
    BuildCache,
}

impl Lifecycle {
    /// What has been done.
    pub open spec fn past(self) -> Seq<char> {
        match self {
            Lifecycle::Start => "started "@,
            Lifecycle::Stop => "stopped "@,
            Lifecycle::Restart => "restarted "@,
            Lifecycle::Remove => "removed "@,
        }
    }
}

/// The report of an error.
pub open spec fn error_report(e: Seq<char>) -> Seq<char> {
    "error: "@ + e
}

/// The report of an error.
pub fn error_message(e: &str) -> (r: String)
    ensures
        r@ == error_report(e@),
{
    cat2("error: ", e)
}

/// The report on work done to the container called `name`; `failure` where it went wrong.
pub fn lifecycle_message(what: Lifecycle, name: &str, failure: Option<&str>) -> (r: String)
    ensures
        r@ == (match failure {
            Some(e) => error_report(e@),
            None => what.past() + name@,
        }),
{
    match failure {
        Some(e) => error_message(e),
        None => {
            let verb = match what {
                Lifecycle::Start => "started ",
                Lifecycle::Stop => "stopped ",
                Lifecycle::Restart => "restarted ",
                Lifecycle::Remove => "removed ",
            };
            cat2(verb, name)
        },
    }
}

impl PruneKind {
    /// What has been pruned.
    pub open spec fn report(self) -> Seq<char> {
        match self {
            PruneKind::Images => "images pruned · "@,
            PruneKind::Containers => "containers pruned · "@,
            PruneKind::Volumes => "volumes pruned · "@,
            PruneKind::BuildCache => "build cache pruned · "@,
        }
    }
}

/// The report on a prune: what it freed, or what went wrong.
pub fn prune_message(what: PruneKind, result: Result<i64, String>) -> (r: String)
    ensures
        r@ == (match result {
            Ok(freed) => what.report() + util::bytes_text(freed),
            Err(e) => error_report(e@),
        }),
{
    match result {
        Ok(freed) => {
            let head = match what {
                PruneKind::Images => "images pruned · ",
                PruneKind::Containers => "containers pruned · ",
                PruneKind::Volumes => "volumes pruned · ",
                PruneKind::BuildCache => "build cache pruned · ",
            };
            cat2(head, format_bytes(freed).as_str())
        },
        Err(e) => error_message(e.as_str()),
    }
}

/// A reference is pulled by the tag behind its last colon, unless a slash stands behind that
/// colon: then the colon sets off a port, and the tag is the latest.
pub proof fn law_pull_tag_is_in_the_last_segment(
    front: Seq<char>,
    name: Seq<char>,
    tag: Seq<char>,
)
    requires
        !tag.contains('/'),
        !tag.contains(':'),
        !name.contains(':'),
    ensures
        pull_parts(front + seq![':'] + tag) == (front, tag),
        pull_parts(front + seq!['/'] + name) == (front + seq!['/'] + name, "latest"@),
        pull_parts(name) == (name, "latest"@),
{
    util::lemma_tag_reads_back(front, tag);
    util::lemma_port_is_no_tag(front, name);
}

/// Whether a text starts with a prefix, told by what follows.
proof fn lemma_starts(prefix: Seq<char>, rest: Seq<char>)
    ensures
        text::starts(prefix + rest, prefix),
        (prefix + rest).skip(prefix.len() as int) == rest,
{
    assert((prefix + rest).take(prefix.len() as int) =~= prefix);
    assert((prefix + rest).skip(prefix.len() as int) =~= rest);
}

/// The scheme of an address decides how the engine is reached: a socket by its path, the others
/// by the whole address; an address of another scheme is refused, and named.
pub proof fn law_scheme_decides(address: Seq<char>, rest: Seq<char>)
    ensures
        endpoint_of("unix://"@ + rest) == EndpointModel::Socket(rest),
        endpoint_of("tcp://"@ + rest) == EndpointModel::Http("tcp://"@ + rest),
        endpoint_of("http://"@ + rest) == EndpointModel::Http("http://"@ + rest),
        endpoint_of("ssh://"@ + rest) == EndpointModel::Ssh("ssh://"@ + rest),
        (forall|r: Seq<char>| address != #[trigger] ("unix://"@ + r)) && (forall|r: Seq<char>|
            address != #[trigger] ("tcp://"@ + r)) && (forall|r: Seq<char>|
            address != #[trigger] ("http://"@ + r)) && (forall|r: Seq<char>|
            address != #[trigger] ("ssh://"@ + r)) ==> endpoint_of(address)
            == EndpointModel::Unsupported("unsupported Docker endpoint: "@ + address),
{
    lemma_starts("unix://"@, rest);
    lemma_starts("tcp://"@, rest);
    lemma_starts("http://"@, rest);
    lemma_starts("ssh://"@, rest);
    reveal_strlit("unix://");
    reveal_strlit("tcp://");
    reveal_strlit("http://");
    reveal_strlit("ssh://");
    let (u, t, h, s) = ("unix://"@, "tcp://"@, "http://"@, "ssh://"@);
    assert((t + rest)[0] == 't' && (h + rest)[0] == 'h' && (s + rest)[0] == 's');
    assert(forall|a: Seq<char>, p: Seq<char>|
        p.len() > 0 && #[trigger] text::starts(a, p) ==> a[0] == p[0]) by {
        assert forall|a: Seq<char>, p: Seq<char>|
            p.len() > 0 && #[trigger] text::starts(a, p) implies a[0] == p[0] by {
            assert(a.take(p.len() as int)[0] == a[0]);
        }
    }
    assert(!text::starts(t + rest, u) && !text::starts(h + rest, u) && !text::starts(s + rest, u));
    assert(!text::starts(s + rest, t) && !text::starts(s + rest, h));
    if text::starts(address, u) {
        assert(address =~= u + address.skip(u.len() as int));
    }
    if text::starts(address, t) {
        assert(address =~= t + address.skip(t.len() as int));
    }
    if text::starts(address, h) {
        assert(address =~= h + address.skip(h.len() as int));
    }
    if text::starts(address, s) {
        assert(address =~= s + address.skip(s.len() as int));
    }
}

/// A container goes by its first name, slashes before it left out; one without a name has none.
pub proof fn law_names_lose_their_slashes(names: Seq<Seq<char>>, slashes: Seq<char>, name: Seq<
    char,
>)
    requires
        forall|i: int| 0 <= i < slashes.len() ==> slashes[i] == '/',
        name.len() > 0 ==> name[0] != '/',
        names.len() > 0 ==> names[0] == slashes + name,
    ensures
        names.len() > 0 ==> first_name(names) == name,
        names.len() == 0 ==> first_name(names).len() == 0,
{
    if names.len() > 0 {
        let s = slashes + name;
        text::lemma_without_leading(s, '/', slashes.len() as int);
        assert(s.skip(slashes.len() as int) =~= name);
    }
}

/// The texts that are not empty are all kept, in their order, and nothing else is: the texts of
/// two lists one behind the other are those of the first and then those of the second.
pub proof fn law_filled_keeps_what_is_there(a: Seq<Seq<char>>, b: Seq<Seq<char>>, t: Seq<char>)
    ensures
        filled(a + b) == filled(a) + filled(b),
        t.len() > 0 ==> filled(seq![t]) == seq![t],
        t.len() == 0 ==> filled(seq![t]).len() == 0,
        filled(Seq::empty()).len() == 0,
    decreases b.len(),
{
    assert(seq![t].drop_last() =~= Seq::<Seq<char>>::empty());
    assert(filled(seq![t].drop_last()) =~= Seq::<Seq<char>>::empty());
    if b.len() == 0 {
        assert(a + b =~= a);
    } else {
        law_filled_keeps_what_is_there(a, b.drop_last(), t);
        assert((a + b).drop_last() =~= a + b.drop_last());
        assert((a + b).last() == b.last());
    }
}

} // verus!
