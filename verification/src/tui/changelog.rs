//! Release notes as they are shown.

use vstd::prelude::*;
use crate::md;
use crate::md::render;
use crate::registry::Release;
use crate::style;
use crate::style::{append_lines, push_line, SpanModel, Style, StyledLine};
use crate::text;
use crate::text::{cat2, cat5, take_chars};
use crate::theme::{Theme, ThemeModel};

verus! {

/// What a changelog that cannot be fetched says.
pub fn changelog_error(e: &str) -> (r: String)
    ensures
        r@ == "changelog error: "@ + e@,
{
    cat2("changelog error: ", e)
}

/// The heading of a release: its name, or its tag where it has none, and the day it was
/// published.
pub open spec fn release_title(r: Release) -> Seq<char> {
    let title = match r.name {
        Some(name) => name@,
        None => r.tag_name@,
    };
    let published = match r.published_at {
        Some(at) => at@,
        None => ""@,
    };
    "── "@ + title + "  ("@ + text::at_most(published, 10) + ")"@
}

/// A release as it is shown: its heading, its address, its notes, and a blank line.
pub open spec fn release_lines(r: Release, theme: ThemeModel) -> Seq<Seq<SpanModel>> {
    let heading = seq![style::line1(release_title(r), style::strong(theme.accent))];
    let address = match r.html_url {
        Some(url) => seq![style::line1(url@, style::colored(theme.dim))],
        None => Seq::empty(),
    };
    let notes = match r.body {
        Some(body) => md::rendered(md::markdown_events(body@), theme),
        None => Seq::empty(),
    };
    (heading + address + notes).push(Seq::empty())
}

/// The releases one after the other.
pub open spec fn all_releases(releases: Seq<Release>, theme: ThemeModel) -> Seq<Seq<SpanModel>>
    decreases releases.len(),
{
    if releases.len() == 0 {
        Seq::empty()
    } else {
        all_releases(releases.drop_last(), theme) + release_lines(releases.last(), theme)
    }
}

/// Releases as they are shown.
pub open spec fn changelog(releases: Seq<Release>, theme: ThemeModel) -> Seq<Seq<SpanModel>> {
    if releases.len() == 0 {
        seq![style::line1("No releases found."@, style::colored(theme.dim))]
    } else {
        all_releases(releases, theme)
    }
}

/// The heading of a release.
pub fn release_heading(r: &Release) -> (t: String)
    ensures
        t@ == release_title(*r),
{
    let title = match &r.name {
        Some(name) => name.clone(),
        None => r.tag_name.clone(),
    };
    let date = match &r.published_at {
        Some(at) => take_chars(at.as_str(), 10),
        None => take_chars("", 10),
    };
    cat5("── ", title.as_str(), "  (", date.as_str(), ")")
}

/// Adds a release as it is shown.
fn push_release(lines: &mut Vec<StyledLine>, r: &Release, theme: &Theme)
    ensures
        final(lines).deep_view() == old(lines).deep_view() + release_lines(*r, theme@),
{
    let ghost before = lines.deep_view();
    push_line(lines, StyledLine::one(release_heading(r), Style::bold_of(theme.accent)));
    if let Some(url) = &r.html_url {
        push_line(lines, StyledLine::one(url.clone(), Style::of(theme.dim)));
    }
    if let Some(body) = &r.body {
        let notes = render(body.as_str(), theme);
        append_lines(lines, notes);
    }
    push_line(lines, StyledLine::empty());
    assert(lines.deep_view() =~= before + release_lines(*r, theme@));
}

/// Render release notes into styled, markdown-formatted lines.
pub fn changelog_lines(releases: &Vec<Release>, theme: &Theme) -> (r: Vec<StyledLine>)
    ensures
        r.deep_view() == changelog(releases@, theme@),
{
    let mut lines: Vec<StyledLine> = Vec::new();
    assert(lines.deep_view() =~= Seq::<Seq<SpanModel>>::empty());
    if releases.len() == 0 {
        push_line(&mut lines, StyledLine::one_str("No releases found.", Style::of(theme.dim)));
        assert(lines.deep_view() =~= changelog(releases@, theme@));
        return lines;
    }
    let mut i: usize = 0;
    assert(releases@.take(0) =~= Seq::<Release>::empty());
    while i < releases.len()
        invariant
            i <= releases@.len(),
            lines.deep_view() == all_releases(releases@.take(i as int), theme@),
        decreases releases@.len() - i,
    {
        push_release(&mut lines, &releases[i], theme);
        assert(releases@.take(i + 1).drop_last() =~= releases@.take(i as int));
        assert(releases@.take(i + 1).last() == releases@[i as int]);
        i = i + 1;
    }
    assert(releases@.take(releases@.len() as int) =~= releases@);
    lines
}

// ── Laws ───────────────────────────────────────────────────────────────────

/// Every release is shown, in the order of the list: the changelog of two lists one behind the
/// other is the changelog of the first followed by that of the second.
pub proof fn law_changelogs_follow_one_another(a: Seq<Release>, b: Seq<Release>, theme: ThemeModel)
    requires
        a.len() > 0,
        b.len() > 0,
    ensures
        changelog(a + b, theme) == changelog(a, theme) + changelog(b, theme),
{
    lemma_all_releases_of_two(a, b, theme);
}

/// The releases of two lists one behind the other.
proof fn lemma_all_releases_of_two(a: Seq<Release>, b: Seq<Release>, theme: ThemeModel)
    ensures
        all_releases(a + b, theme) == all_releases(a, theme) + all_releases(b, theme),
    decreases b.len(),
{
    if b.len() == 0 {
        assert(a + b =~= a);
    } else {
        lemma_all_releases_of_two(a, b.drop_last(), theme);
        assert((a + b).drop_last() =~= a + b.drop_last());
        assert((a + b).last() == b.last());
    }
}

/// A list without releases shows one line that says so.
pub proof fn law_no_releases_are_said(theme: ThemeModel)
    ensures
        changelog(Seq::empty(), theme).len() == 1,
        changelog(Seq::empty(), theme)[0].len() == 1,
        changelog(Seq::empty(), theme)[0][0].content == "No releases found."@,
{
}

/// A release is shown under its heading: its name, or its tag where it has none, and the first
/// ten characters of its date-time, in bold; then its address where it has one; then its notes
/// as they are rendered; then a blank line.
pub proof fn law_release_is_shown_whole(r: Release, theme: ThemeModel)
    ensures
        ({
            let lines = changelog(seq![r], theme);
            let title = if r.name is Some { r.name->0@ } else { r.tag_name@ };
            let heading = lines[0][0];
            let above: int = if r.html_url is Some { 2 } else { 1 };
            &&& lines[0].len() == 1
            &&& heading.style.bold && heading.style.fg == Some(theme.accent)
            &&& r.published_at is None ==> heading.content == "── "@ + title + "  ("@ + ")"@
            &&& r.published_at matches Some(at) ==> at@.len() <= 10 ==> heading.content == "── "@
                + title + "  ("@ + at@ + ")"@
            &&& r.published_at matches Some(at) ==> at@.len() >= 10 ==> heading.content == "── "@
                + title + "  ("@ + at@.take(10) + ")"@
            &&& r.html_url matches Some(url) ==> lines[1].len() == 1 && lines[1][0].content == url@
            &&& r.body matches Some(body) ==> lines.subrange(above, lines.len() - 1)
                == md::rendered(md::markdown_events(body@), theme)
            &&& r.body is None ==> lines.len() == above + 1
            &&& lines.last().len() == 0
        }),
{
    reveal_strlit("");
    let s = seq![r];
    assert(s.drop_last() =~= Seq::<Release>::empty());
    assert(all_releases(s.drop_last(), theme) =~= Seq::<Seq<SpanModel>>::empty());
    assert(s.last() == r);
    let lines = changelog(s, theme);
    assert(lines =~= release_lines(r, theme));
    let above: int = if r.html_url is Some { 2 } else { 1 };
    assert(lines[0] == style::line1(release_title(r), style::strong(theme.accent)));
    match r.body {
        Some(body) => {
            assert(lines.subrange(above, lines.len() - 1) =~= md::rendered(
                md::markdown_events(body@),
                theme,
            ));
        },
        None => {},
    }
    match r.published_at {
        Some(at) => {
            if at@.len() >= 10 {
                assert(at@.take(10) =~= text::at_most(at@, 10));
            }
        },
        None => {
            let title = if r.name is Some { r.name->0@ } else { r.tag_name@ };
            assert("── "@ + title + "  ("@ + ""@ + ")"@ =~= "── "@ + title + "  ("@ + ")"@);
        },
    }
}

/// Wherever a release stands in the list, all that it shows alone is shown, in one piece, behind
/// what the releases before it show and before what those behind it show.
pub proof fn law_each_release_is_shown(releases: Seq<Release>, i: int, theme: ThemeModel)
    requires
        0 <= i < releases.len(),
    ensures
        ({
            let before = if i == 0 { Seq::empty() } else { changelog(releases.take(i), theme) };
            let behind = if i + 1 == releases.len() {
                Seq::empty()
            } else {
                changelog(releases.skip(i + 1), theme)
            };
            changelog(releases, theme) == before + changelog(seq![releases[i]], theme) + behind
        }),
        exists|k: int|
            0 <= k < changelog(releases, theme).len() && #[trigger] changelog(releases, theme)[k]
                == changelog(seq![releases[i]], theme)[0],
{
    let one = seq![releases[i]];
    let before = if i == 0 { Seq::empty() } else { changelog(releases.take(i), theme) };
    let behind = if i + 1 == releases.len() {
        Seq::empty()
    } else {
        changelog(releases.skip(i + 1), theme)
    };
    if i > 0 {
        law_changelogs_follow_one_another(releases.take(i), one, theme);
    }
    assert(releases.take(i) + one =~= releases.take(i + 1));
    if i == 0 {
        assert(releases.take(i + 1) =~= one);
    }
    assert(changelog(releases.take(i + 1), theme) =~= before + changelog(one, theme));
    if i + 1 < releases.len() {
        law_changelogs_follow_one_another(releases.take(i + 1), releases.skip(i + 1), theme);
        assert(releases.take(i + 1) + releases.skip(i + 1) =~= releases);
    } else {
        assert(releases.take(i + 1) =~= releases);
    }
    let all = changelog(releases, theme);
    assert(all =~= before + changelog(one, theme) + behind);
    law_release_is_shown_whole(releases[i], theme);
    assert(one.drop_last() =~= Seq::<Release>::empty());
    assert(changelog(one, theme) =~= release_lines(one[0], theme));
    assert(all[before.len() as int] == changelog(one, theme)[0]);
}

} // verus!
