//! Command-line interface: the commands, and what the headless ones print.

use vstd::prelude::*;
use crate::docker::model::{
    ApplyProgress, ApplyStage, ContainerInfo, ContainerModel, DiskUsage, ProgressModel, StageModel,
    StageState,
};
use crate::text;
use crate::text::{cat2, cat3, cat4, cat5, decimal_usize, pad_right, str_eq};
use crate::util;
use crate::util::format_bytes;

verus! {

/// DockerSmith — manage Docker images, containers, updates, and disk usage from your terminal.
#[derive(Debug)]
pub struct Cli {
    pub command: Option<Command>,
}

/// A command; without one the full-screen UI runs.
#[derive(Debug)]
pub enum Command {
    /// Check running containers for available image updates (headless), then exit.
    Check {
        /// Named host from your config to check (defaults to the local socket).
        host: Option<String>,
    },
    /// Print reclaimable disk usage (like `docker system df`) and exit.
    Space {
        /// Named host from your config to query (defaults to the local socket).
        host: Option<String>,
    },
    /// Update a container (headless): pull its image and recreate it.
    Apply {
        /// Name of the container.
        container: String,
        /// Named host from your config (defaults to the local socket).
        host: Option<String>,
    },
    /// Verify Docker connectivity and environment, then exit.
    Doctor,
    /// Check for a newer DockerSmith release and update the binary in place.
    SelfUpdate,
}

// ── check ──────────────────────────────────────────────────────────────────

/// What comes before the checks.
pub fn check_heading(count: usize) -> (r: String)
    ensures
        r@ == "Checking "@ + text::decimal(count as nat) + " container(s) for updates...\n"@,
{
    let n = decimal_usize(count);
    cat3("Checking ", n.as_str(), " container(s) for updates...\n")
}

/// What is said of a container that has been checked: whether there is an update, or why that
/// is unknown.
pub open spec fn check_text(c: ContainerModel, result: Result<bool, String>) -> Seq<char> {
    let name = text::padded(c.name, 24);
    match result {
        Ok(true) => "  UPDATE   "@ + name + " "@ + c.image,
        Ok(false) => "  ok       "@ + name + " "@ + c.image,
        Err(e) => "  ?        "@ + name + " "@ + c.image + ("  ("@ + e@ + ")"@),
    }
}

/// What is said of a container that has been checked.
pub fn check_line(c: &ContainerInfo, result: &Result<bool, String>) -> (r: String)
    ensures
        r@ == check_text(c@, *result),
{
    let shown = c.display_name();
    let name = pad_right(shown.as_str(), 24);
    match result {
        Ok(true) => cat4("  UPDATE   ", name.as_str(), " ", c.image.as_str()),
        Ok(false) => cat4("  ok       ", name.as_str(), " ", c.image.as_str()),
        Err(e) => {
            let why = cat3("  (", e.as_str(), ")");
            cat5("  ?        ", name.as_str(), " ", c.image.as_str(), why.as_str())
        },
    }
}

/// How many checks found an update.
pub open spec fn found(results: Seq<Result<bool, String>>) -> nat
    decreases results.len(),
{
    if results.len() == 0 {
        0
    } else if results.last() == Ok::<bool, String>(true) {
        found(results.drop_last()) + 1
    } else {
        found(results.drop_last())
    }
}

/// What comes after the checks.
pub open spec fn summary_text(updates: nat) -> Seq<char> {
    if updates == 0 {
        "All containers are up to date."@
    } else {
        text::decimal(updates) + " update(s) available."@
    }
}

/// What comes after the checks.
pub fn check_summary(results: &Vec<Result<bool, String>>) -> (r: String)
    ensures
        r@ == summary_text(found(results@)),
{
    let mut updates: usize = 0;
    let mut i: usize = 0;
    assert(results@.take(0) =~= Seq::empty());
    while i < results.len()
        invariant
            i <= results@.len(),
            updates <= i,
            updates == found(results@.take(i as int)),
        decreases results@.len() - i,
    {
        assert(results@.take(i + 1).drop_last() =~= results@.take(i as int));
        assert(results@.take(i + 1).last() == results@[i as int]);
        if let Ok(true) = results[i] {
            updates = updates + 1;
        }
        i = i + 1;
    }
    assert(results@.take(results@.len() as int) =~= results@);
    if updates == 0 {
        "All containers are up to date.".to_string()
    } else {
        let n = decimal_usize(updates);
        cat2(n.as_str(), " update(s) available.")
    }
}

// ── space ──────────────────────────────────────────────────────────────────

/// A line of the disk usage; `label` comes with its padding.
pub open spec fn space_text(label: Seq<char>, total: i64, reclaimable: i64) -> Seq<char> {
    label + text::padded(util::bytes_text(total), 11) + " "@ + util::bytes_text(reclaimable)
}

fn space_line(label: &str, total: i64, reclaimable: i64) -> (r: String)
    ensures
        r@ == space_text(label@, total, reclaimable),
{
    let all = format_bytes(total);
    let padded = pad_right(all.as_str(), 11);
    let free = format_bytes(reclaimable);
    cat4(label, padded.as_str(), " ", free.as_str())
}

/// The disk usage, line by line.
pub open spec fn space_texts(u: DiskUsage) -> Seq<Seq<char>> {
    seq![
        "TYPE            TOTAL       RECLAIMABLE"@,
        space_text("Images          "@, u.images_total, u.images_reclaimable),
        space_text("Containers      "@, u.containers_total, u.containers_reclaimable),
        space_text("Volumes         "@, u.volumes_total, u.volumes_reclaimable),
        space_text("Build Cache     "@, u.build_cache_total, u.build_cache_reclaimable),
        ""@,
        "Total reclaimable: "@ + util::bytes_text(u.reclaimable_sum() as i64),
    ]
}

/// The disk usage, line by line, or `None` where what can be reclaimed does not add up in 64
/// bits.
pub fn space_report(u: &DiskUsage) -> (r: Option<Vec<String>>)
    ensures
        r is Some <==> u.sums_fit(),
        r matches Some(lines) ==> lines.deep_view() == space_texts(*u),
{
    if !u.can_total() {
        return None;
    }
    let total = format_bytes(u.total_reclaimable());
    let lines = vec![
        "TYPE            TOTAL       RECLAIMABLE".to_string(),
        space_line("Images          ", u.images_total, u.images_reclaimable),
        space_line("Containers      ", u.containers_total, u.containers_reclaimable),
        space_line("Volumes         ", u.volumes_total, u.volumes_reclaimable),
        space_line("Build Cache     ", u.build_cache_total, u.build_cache_reclaimable),
        "".to_string(),
        cat2("Total reclaimable: ", total.as_str()),
    ];
    assert(lines.deep_view() =~= space_texts(*u));
    Some(lines)
}

// ── apply ──────────────────────────────────────────────────────────────────

/// The place of the first container called `name`, or how many there are.
pub open spec fn place_of(containers: Seq<ContainerModel>, name: Seq<char>) -> int
    decreases containers.len(),
{
    if containers.len() == 0 || containers[0].name == name {
        0
    } else {
        1 + place_of(containers.drop_first(), name)
    }
}

/// The container called `name`, or that there is none.
pub fn find_container<'a>(containers: &'a Vec<ContainerInfo>, name: &str) -> (r: Result<
    &'a ContainerInfo,
    String,
>)
    ensures
        ({
            let all = containers.deep_view();
            let at = place_of(all, name@);
            &&& at < all.len() ==> r is Ok && r->Ok_0@ == all[at]
            &&& at >= all.len() ==> r is Err && r->Err_0@ == "no container named '"@ + name@
                + "'"@
        }),
{
    let ghost all = containers.deep_view();
    let mut i: usize = 0;
    assert(all.skip(0) =~= all);
    while i < containers.len()
        invariant
            all == containers.deep_view(),
            i <= containers@.len(),
            place_of(all, name@) == i + place_of(all.skip(i as int), name@),
        decreases containers@.len() - i,
    {
        assert(all.skip(i as int)[0] == containers@[i as int]@);
        if str_eq(containers[i].name.as_str(), name) {
            return Ok(&containers[i]);
        }
        assert(all.skip(i as int).drop_first() =~= all.skip(i + 1));
        i = i + 1;
    }
    Err(cat3("no container named '", name, "'"))
}

/// A progress event of an update as a line of text.
pub open spec fn progress_text(p: ProgressModel) -> Seq<char> {
    match p {
        ProgressModel::Log(line) => "      "@ + line,
        ProgressModel::Stage(stage, StageModel::Start) => "  ... "@ + stage.label_text(),
        ProgressModel::Stage(stage, StageModel::Done) => "  ok  "@ + stage.label_text(),
        ProgressModel::Stage(stage, StageModel::Failed(e)) => "  !!  "@ + stage.label_text()
            + ": "@ + e,
    }
}

/// A progress event of an update as a line of text.
pub fn apply_line(p: &ApplyProgress) -> (r: String)
    ensures
        r@ == progress_text(p@),
{
    match p {
        ApplyProgress::Log(line) => cat2("      ", line.as_str()),
        ApplyProgress::Stage(stage, state) => match state {
            StageState::Start => cat2("  ... ", stage.label()),
            StageState::Done => cat2("  ok  ", stage.label()),
            StageState::Failed(e) => cat4("  !!  ", stage.label(), ": ", e.as_str()),
        },
    }
}

// ── doctor ─────────────────────────────────────────────────────────────────

/// How far a daemon could be reached.
#[derive(Debug)]
pub enum Reach {
    /// It answered with its API version.
    Answered(String),
    /// It was reached, but asking for its version failed.
    Mute(String),
    /// It was not reached.
    Unreachable(String),
}

/// What is said of the local daemon.
pub open spec fn local_text(reach: Reach) -> Seq<char> {
    match reach {
        Reach::Answered(v) => "  [ok] local daemon reachable (API "@ + v@ + ")"@,
        Reach::Mute(e) => "  [!!] connected but version query failed: "@ + e@,
        Reach::Unreachable(e) => "  [!!] cannot reach local daemon: "@ + e@,
    }
}

/// What is said of the local daemon.
pub fn local_line(reach: &Reach) -> (r: String)
    ensures
        r@ == local_text(*reach),
{
    match reach {
        Reach::Answered(v) => cat3("  [ok] local daemon reachable (API ", v.as_str(), ")"),
        Reach::Mute(e) => cat2("  [!!] connected but version query failed: ", e.as_str()),
        Reach::Unreachable(e) => cat2("  [!!] cannot reach local daemon: ", e.as_str()),
    }
}

/// How many hosts are configured.
pub fn hosts_line(count: usize) -> (r: String)
    ensures
        r@ == "  config: "@ + text::decimal(count as nat) + " host(s) defined"@,
{
    let n = decimal_usize(count);
    cat3("  config: ", n.as_str(), " host(s) defined")
}

/// What is said of a configured host.
pub open spec fn host_text(name: Seq<char>, reach: Reach) -> Seq<char> {
    match reach {
        Reach::Answered(v) => "  [ok] host '"@ + name + "' reachable (API "@ + v@ + ")"@,
        Reach::Mute(e) => "  [!!] host '"@ + name + "' connect ok but version failed: "@ + e@,
        Reach::Unreachable(e) => "  [!!] host '"@ + name + "' unreachable: "@ + e@,
    }
}

/// What is said of a configured host.
pub fn host_line(name: &str, reach: &Reach) -> (r: String)
    ensures
        r@ == host_text(name@, *reach),
{
    match reach {
        Reach::Answered(v) => cat5("  [ok] host '", name, "' reachable (API ", v.as_str(), ")"),
        Reach::Mute(e) => cat4(
            "  [!!] host '",
            name,
            "' connect ok but version failed: ",
            e.as_str(),
        ),
        Reach::Unreachable(e) => cat4("  [!!] host '", name, "' unreachable: ", e.as_str()),
    }
}

// ── Laws ───────────────────────────────────────────────────────────────────

/// The updates of two rounds of checks are those of the one and those of the other; a check
/// counts exactly where it found an update, and neither where there is none nor where that is
/// unknown.
pub proof fn law_only_updates_are_counted(
    a: Seq<Result<bool, String>>,
    b: Seq<Result<bool, String>>,
    reason: String,
)
    ensures
        found(a + b) == found(a) + found(b),
        found(Seq::empty()) == 0,
        found(seq![Ok::<bool, String>(true)]) == 1,
        found(seq![Ok::<bool, String>(false)]) == 0,
        found(seq![Err::<bool, String>(reason)]) == 0,
    decreases b.len(),
{
    let none = Seq::<Result<bool, String>>::empty();
    assert(seq![Ok::<bool, String>(true)].drop_last() =~= none);
    assert(seq![Ok::<bool, String>(false)].drop_last() =~= none);
    assert(seq![Err::<bool, String>(reason)].drop_last() =~= none);
    assert(found(none) == 0);
    if b.len() == 0 {
        assert(a + b =~= a);
    } else {
        law_only_updates_are_counted(a, b.drop_last(), reason);
        assert((a + b).drop_last() =~= a + b.drop_last());
        assert((a + b).last() == b.last());
    }
}

/// The summary names the number of updates, and says that all is up to date exactly where there
/// are none.
pub proof fn law_summary_names_the_number(updates: nat)
    ensures
        updates == 0 ==> summary_text(updates) == "All containers are up to date."@,
        updates > 0 ==> summary_text(updates) == text::decimal(updates) + " update(s) available."@,
{
}

/// A container's line tells an update from none and both from an unknown result, and gives the
/// container's name and image, and the reason where the result is unknown.
pub proof fn law_check_line_tells_the_result(c: ContainerModel, reason: String)
    requires
        c.name.len() <= 24,
    ensures
        ({
            let spaces = Seq::new((24 - c.name.len()) as nat, |i: int| ' ');
            let shown = c.name + spaces + " "@ + c.image;
            &&& check_text(c, Ok(true)) == "  UPDATE   "@ + shown
            &&& check_text(c, Ok(false)) == "  ok       "@ + shown
            &&& check_text(c, Err(reason)) == "  ?        "@ + shown + ("  ("@ + reason@ + ")"@)
        }),
{
    let spaces = Seq::new((24 - c.name.len()) as nat, |i: int| ' ');
    let shown = c.name + spaces + " "@ + c.image;
    assert(text::padded(c.name, 24) =~= c.name + spaces);
    assert(check_text(c, Ok(true)) =~= "  UPDATE   "@ + shown);
    assert(check_text(c, Ok(false)) =~= "  ok       "@ + shown);
    assert(check_text(c, Err(reason)) =~= "  ?        "@ + shown + ("  ("@ + reason@ + ")"@));
}

/// The container of a name is the first of that name, wherever it stands; without one there is
/// none.
pub proof fn law_first_container_of_the_name_is_found(
    before: Seq<ContainerModel>,
    c: ContainerModel,
    behind: Seq<ContainerModel>,
    name: Seq<char>,
)
    requires
        forall|i: int| 0 <= i < before.len() ==> (#[trigger] before[i]).name != name,
    ensures
        c.name == name ==> place_of(before + seq![c] + behind, name) == before.len(),
        place_of(before, name) == before.len(),
    decreases before.len(),
{
    let all = before + seq![c] + behind;
    if before.len() == 0 {
        assert(all[0] == c);
    } else {
        assert(all[0] == before[0]);
        assert(all.drop_first() =~= before.drop_first() + seq![c] + behind);
        law_first_container_of_the_name_is_found(before.drop_first(), c, behind, name);
    }
}

/// The disk usage has a line for each category with what it takes and what of it can be
/// reclaimed, and ends with what can be reclaimed in all.
pub proof fn law_each_category_has_its_line(u: DiskUsage)
    requires
        u.sums_fit(),
    ensures
        ({
            let t = space_texts(u);
            let all = u.images_reclaimable + u.containers_reclaimable + u.volumes_reclaimable
                + u.build_cache_reclaimable;
            &&& t.len() == 7
            &&& t[1] == "Images          "@ + text::padded(util::bytes_text(u.images_total), 11)
                + " "@ + util::bytes_text(u.images_reclaimable)
            &&& t[2] == "Containers      "@ + text::padded(
                util::bytes_text(u.containers_total),
                11,
            ) + " "@ + util::bytes_text(u.containers_reclaimable)
            &&& t[3] == "Volumes         "@ + text::padded(util::bytes_text(u.volumes_total), 11)
                + " "@ + util::bytes_text(u.volumes_reclaimable)
            &&& t[4] == "Build Cache     "@ + text::padded(
                util::bytes_text(u.build_cache_total),
                11,
            ) + " "@ + util::bytes_text(u.build_cache_reclaimable)
            &&& t[6] == "Total reclaimable: "@ + util::bytes_text(all as i64)
        }),
{
}

/// The lines of an update tell how each stage stands, and give the reason of a failure.
pub proof fn law_progress_tells_the_state(stage: ApplyStage, line: Seq<char>, reason: Seq<char>)
    ensures
        progress_text(ProgressModel::Log(line)) == "      "@ + line,
        progress_text(ProgressModel::Stage(stage, StageModel::Start)) == "  ... "@
            + stage.label_text(),
        progress_text(ProgressModel::Stage(stage, StageModel::Done)) == "  ok  "@
            + stage.label_text(),
        progress_text(ProgressModel::Stage(stage, StageModel::Failed(reason))) == "  !!  "@
            + stage.label_text() + ": "@ + reason,
{
}

/// Only a daemon that answered is reported as reachable, with its version; otherwise the report
/// says what failed and why. A configured host is named.
pub proof fn law_only_answers_count_as_reachable(name: Seq<char>, text: String)
    ensures
        local_text(Reach::Answered(text)) == "  [ok] local daemon reachable (API "@ + text@ + ")"@,
        local_text(Reach::Mute(text)) == "  [!!] connected but version query failed: "@ + text@,
        local_text(Reach::Unreachable(text)) == "  [!!] cannot reach local daemon: "@ + text@,
        host_text(name, Reach::Answered(text)) == "  [ok] host '"@ + name + "' reachable (API "@
            + text@ + ")"@,
        host_text(name, Reach::Mute(text)) == "  [!!] host '"@ + name
            + "' connect ok but version failed: "@ + text@,
        host_text(name, Reach::Unreachable(text)) == "  [!!] host '"@ + name + "' unreachable: "@
            + text@,
{
}

} // verus!
