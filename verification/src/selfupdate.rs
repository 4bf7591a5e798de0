//! Self-update: which release asset replaces the running binary.

use vstd::prelude::*;
use crate::registry::Release;
use crate::text;
use crate::text::{cat3, cat4, cat5, str_eq, trim_leading};

verus! {

/// The Rust target triple of a machine.
pub open spec fn target_of(arch: Seq<char>, os: Seq<char>) -> Seq<char> {
    if arch == "x86_64"@ && os == "linux"@ {
        "x86_64-unknown-linux-gnu"@
    } else if arch == "aarch64"@ && os == "linux"@ {
        "aarch64-unknown-linux-gnu"@
    } else if arch == "x86_64"@ && os == "macos"@ {
        "x86_64-apple-darwin"@
    } else if arch == "aarch64"@ && os == "macos"@ {
        "aarch64-apple-darwin"@
    } else {
        arch + "-"@ + os
    }
}

/// The Rust target triple of a machine.
pub fn current_target(arch: &str, os: &str) -> (r: String)
    ensures
        r@ == target_of(arch@, os@),
{
    let intel = str_eq(arch, "x86_64");
    let arm = str_eq(arch, "aarch64");
    let linux = str_eq(os, "linux");
    let mac = str_eq(os, "macos");
    if intel && linux {
        "x86_64-unknown-linux-gnu".to_string()
    } else if arm && linux {
        "aarch64-unknown-linux-gnu".to_string()
    } else if intel && mac {
        "x86_64-apple-darwin".to_string()
    } else if arm && mac {
        "aarch64-apple-darwin".to_string()
    } else {
        cat3(arch, "-", os)
    }
}

/// What is to be done about the latest release.
#[derive(Debug)]
pub enum UpdatePlan {
    /// No releases are published.
    NothingPublished,
    /// The running version is the latest.
    UpToDate,
    /// The asset to download, and the version it holds.
    Download { version: String, asset: String, url: String },
}

/// What is to be done, as mathematical values.
pub enum PlanModel {
    NothingPublished,
    UpToDate,
    Download { version: Seq<char>, asset: Seq<char>, url: Seq<char> },
}

impl View for UpdatePlan {
    type V = PlanModel;

    open spec fn view(&self) -> PlanModel {
        match self {
            UpdatePlan::NothingPublished => PlanModel::NothingPublished,
            UpdatePlan::UpToDate => PlanModel::UpToDate,
            UpdatePlan::Download { version, asset, url } => PlanModel::Download {
                version: version@,
                asset: asset@,
                url: url@,
            },
        }
    }
}

/// The GitHub repo DockerSmith releases are published to.
pub open spec fn release_repo_name() -> Seq<char> {
    "Kardzhilov/DockerSmith"@
}

/// The GitHub repo DockerSmith releases are published to.
pub fn release_repo() -> (r: &'static str)
    ensures
        r@ == release_repo_name(),
{
    "Kardzhilov/DockerSmith"
}

/// The version that a tag names: the tag without leading `v`s.
pub open spec fn version_of_tag(tag: Seq<char>) -> Seq<char> {
    text::without_leading(tag, 'v')
}

/// The asset of a release for a machine.
pub open spec fn asset_of(tag: Seq<char>, target: Seq<char>) -> Seq<char> {
    "dockersmith-"@ + target + "-"@ + tag
}

/// The address of an asset.
pub open spec fn asset_address(tag: Seq<char>, asset: Seq<char>) -> Seq<char> {
    "https://github.com/"@ + release_repo_name() + "/releases/download/"@ + (tag + "/"@ + asset)
}

/// What is to be done about the latest of some releases, on a machine that runs `current`.
pub open spec fn planned(
    current: Seq<char>,
    releases: Seq<Release>,
    target: Seq<char>,
) -> PlanModel {
    if releases.len() == 0 {
        PlanModel::NothingPublished
    } else {
        let tag = releases[0].tag_name@;
        if version_of_tag(tag) == current {
            PlanModel::UpToDate
        } else {
            PlanModel::Download {
                version: version_of_tag(tag),
                asset: asset_of(tag, target),
                url: asset_address(tag, asset_of(tag, target)),
            }
        }
    }
}

/// What is to be done about the latest of some releases, on a machine that runs `current`.
pub fn plan(current: &str, releases: &Vec<Release>, target: &str) -> (r: UpdatePlan)
    ensures
        r@ == planned(current@, releases@, target@),
{
    if releases.len() == 0 {
        return UpdatePlan::NothingPublished;
    }
    let tag = releases[0].tag_name.as_str();
    let version = trim_leading(tag, 'v');
    if str_eq(version, current) {
        return UpdatePlan::UpToDate;
    }
    let asset = cat4("dockersmith-", target, "-", tag);
    let place = cat3(tag, "/", asset.as_str());
    let url = cat4(
        "https://github.com/",
        release_repo(),
        "/releases/download/",
        place.as_str(),
    );
    UpdatePlan::Download { version: version.to_string(), asset, url }
}

/// What is said before a download, or in its place.
pub open spec fn plan_text(plan: PlanModel, current: Seq<char>) -> Seq<char> {
    match plan {
        PlanModel::NothingPublished => "No releases published yet."@,
        PlanModel::UpToDate => "Already up to date ("@ + current + ")."@,
        PlanModel::Download { version, asset, url } => "New version available: "@ + version
            + " (current "@ + current + ")"@,
    }
}

/// What is said before a download, or in its place.
pub fn plan_message(plan: &UpdatePlan, current: &str) -> (r: String)
    ensures
        r@ == plan_text(plan@, current@),
{
    match plan {
        UpdatePlan::NothingPublished => "No releases published yet.".to_string(),
        UpdatePlan::UpToDate => cat3("Already up to date (", current, ")."),
        UpdatePlan::Download { version, asset: _, url: _ } => cat5(
            "New version available: ",
            version.as_str(),
            " (current ",
            current,
            ")",
        ),
    }
}

/// What an answer for an asset amounts to: only one that stands for success lets the binary be
/// replaced.
pub fn accept_asset(success: bool, target: &str, status: &str) -> (r: Result<(), String>)
    ensures
        r is Ok <==> success,
        r matches Err(m) ==> m@ == "no prebuilt asset for "@ + target@ + " ("@ + status@ + ")"@,
{
    if success {
        Ok(())
    } else {
        Err(cat5("no prebuilt asset for ", target, " (", status, ")"))
    }
}

/// The running version is never downloaded again: a download means that the latest tag, without
/// its leading `v`s, names another version.
pub proof fn law_only_other_versions_are_downloaded(
    current: Seq<char>,
    releases: Seq<Release>,
    target: Seq<char>,
)
    ensures
        planned(current, releases, target) is Download ==> releases.len() > 0
            && version_of_tag(releases[0].tag_name@) != current,
        releases.len() > 0 && releases[0].tag_name@ == seq!['v'] + current && (current.len() == 0
            || current[0] != 'v') ==> planned(current, releases, target) is UpToDate,
{
    if releases.len() > 0 && releases[0].tag_name@ == seq!['v'] + current && (current.len() == 0
        || current[0] != 'v') {
        let tag = releases[0].tag_name@;
        assert(tag.skip(1) =~= current);
        text::lemma_without_leading(tag, 'v', 1);
    }
}

/// Only the first of the releases, the latest, is looked at. It is downloaded exactly where its
/// tag, `v`s before it left out, is not the version that runs; then the asset is the one of this
/// machine and this tag, from the release of this tag. Nothing published means nothing to do.
pub proof fn law_latest_release_decides(
    current: Seq<char>,
    latest: Release,
    older: Seq<Release>,
    target: Seq<char>,
    version: Seq<char>,
    vs: Seq<char>,
)
    requires
        latest.tag_name@ == vs + version,
        forall|i: int| 0 <= i < vs.len() ==> vs[i] == 'v',
        version.len() > 0 ==> version[0] != 'v',
    ensures
        planned(current, Seq::empty(), target) is NothingPublished,
        ({
            let tag = latest.tag_name@;
            let asset = "dockersmith-"@ + target + "-"@ + tag;
            let p = planned(current, seq![latest] + older, target);
            &&& version == current ==> p is UpToDate
            &&& version != current ==> p == (PlanModel::Download {
                version,
                asset,
                url: "https://github.com/"@ + "Kardzhilov/DockerSmith"@ + "/releases/download/"@ + (
                tag + "/"@ + asset),
            })
        }),
{
    let tag = vs + version;
    text::lemma_without_leading(tag, 'v', vs.len() as int);
    assert(tag.skip(vs.len() as int) =~= version);
    assert((seq![latest] + older)[0] == latest);
}

/// What is said of a plan names the versions that it is about.
pub proof fn law_plan_names_the_versions(
    current: Seq<char>,
    version: Seq<char>,
    asset: Seq<char>,
    url: Seq<char>,
)
    ensures
        plan_text(PlanModel::NothingPublished, current) == "No releases published yet."@,
        plan_text(PlanModel::UpToDate, current) == "Already up to date ("@ + current + ")."@,
        plan_text(PlanModel::Download { version, asset, url }, current)
            == "New version available: "@ + version + " (current "@ + current + ")"@,
{
}

/// Different machines have different targets, as far as releases are built for them: the target
/// starts with the architecture, and on Linux and macOS goes on with what the compiler calls
/// them.
pub proof fn law_target_starts_with_the_architecture(arch: Seq<char>, os: Seq<char>)
    ensures
        (arch == "x86_64"@ || arch == "aarch64"@) && os == "linux"@ ==> target_of(arch, os) == arch
            + "-unknown-linux-gnu"@,
        (arch == "x86_64"@ || arch == "aarch64"@) && os == "macos"@ ==> target_of(arch, os) == arch
            + "-apple-darwin"@,
        os != "linux"@ && os != "macos"@ ==> target_of(arch, os) == arch + "-"@ + os,
        arch != "x86_64"@ && arch != "aarch64"@ ==> target_of(arch, os) == arch + "-"@ + os,
{
    reveal_strlit("x86_64");
    reveal_strlit("aarch64");
    reveal_strlit("linux");
    reveal_strlit("macos");
    reveal_strlit("-unknown-linux-gnu");
    reveal_strlit("-apple-darwin");
    reveal_strlit("x86_64-unknown-linux-gnu");
    reveal_strlit("aarch64-unknown-linux-gnu");
    reveal_strlit("x86_64-apple-darwin");
    reveal_strlit("aarch64-apple-darwin");
    assert("linux"@[0] == 'l' && "macos"@[0] == 'm');
    assert("x86_64"@[0] == 'x' && "aarch64"@[0] == 'a');
    assert("x86_64"@ + "-unknown-linux-gnu"@ =~= "x86_64-unknown-linux-gnu"@);
    assert("aarch64"@ + "-unknown-linux-gnu"@ =~= "aarch64-unknown-linux-gnu"@);
    assert("x86_64"@ + "-apple-darwin"@ =~= "x86_64-apple-darwin"@);
    assert("aarch64"@ + "-apple-darwin"@ =~= "aarch64-apple-darwin"@);
}

} // verus!
