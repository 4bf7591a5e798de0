//! Markdown rendering.

use dockersmith::md::{read_events, render, render_events, EventKind, MdEvent, TagKind};
use dockersmith::registry::Release;
use dockersmith::style::{Style, StyledLine};
use dockersmith::theme::Theme;
use dockersmith::tui::changelog::{changelog_lines, release_heading};

fn flat(line: &StyledLine) -> String {
    line.spans.iter().map(|s| s.content.as_str()).collect()
}

fn texts(lines: &[StyledLine]) -> Vec<String> {
    lines.iter().map(flat).collect()
}

fn event(kind: EventKind, tag: TagKind, text: &str, number: Option<u64>) -> MdEvent {
    MdEvent { kind, tag, text: text.to_string(), number }
}

fn start(tag: TagKind) -> MdEvent {
    event(EventKind::Start, tag, "", None)
}

fn end(tag: TagKind) -> MdEvent {
    event(EventKind::End, tag, "", None)
}

fn text(t: &str) -> MdEvent {
    event(EventKind::Text, TagKind::Other, t, None)
}

#[test]
fn reads_documents() {
    let events = read_events("# Hi\n\n3. a [x](http://u) `c`");
    let kinds: Vec<(EventKind, TagKind)> = events.iter().map(|e| (e.kind, e.tag)).collect();
    assert_eq!(
        kinds,
        vec![
            (EventKind::Start, TagKind::Heading),
            (EventKind::Text, TagKind::Other),
            (EventKind::End, TagKind::Heading),
            (EventKind::Start, TagKind::List),
            (EventKind::Start, TagKind::Item),
            (EventKind::Text, TagKind::Other),
            (EventKind::Start, TagKind::Link),
            (EventKind::Text, TagKind::Other),
            (EventKind::End, TagKind::Link),
            (EventKind::Text, TagKind::Other),
            (EventKind::Code, TagKind::Other),
            (EventKind::End, TagKind::Item),
            (EventKind::End, TagKind::List),
        ]
    );
    assert_eq!(events[1].text, "Hi");
    assert_eq!(events[3].number, Some(3));
    assert_eq!(events[6].text, "http://u");
    assert_eq!(events[10].text, "c");
}

#[test]
fn renders_headings_and_paragraphs() {
    let theme = Theme::by_name("midnight");
    let lines = render("# Title\n\nSome *it* and **bold**\ntext.\n\n---\n", &theme);
    assert_eq!(
        texts(&lines),
        vec!["", "Title", "Some it and bold text.", "", "────────────────────"]
    );
    assert_eq!(lines[1].spans[0].style, Style::bold_of(theme.accent));
    assert!(lines[2].spans[1].style.italic);
    assert!(lines[2].spans[3].style.bold);
    assert_eq!(lines[2].spans[4].style, Style::plain());
    assert_eq!(lines[4].spans[0].style, Style::of(theme.border));
}

#[test]
fn renders_lists() {
    let theme = Theme::by_name("midnight");
    let lines = render("- a\n- b\n  1. c\n  2. d\n", &theme);
    assert_eq!(texts(&lines), vec!["• a", "• b", "  1. c", "  2. d", ""]);
    assert_eq!(lines[0].spans[0].style, Style::of(theme.accent));
}

#[test]
fn renders_code_quotes_and_links() {
    let theme = Theme::by_name("solar");
    let lines = render("> said\n\n```\nlet x;\n```\n\nsee [docs](https://d)", &theme);
    assert_eq!(
        texts(&lines),
        vec!["▏ ", "said", "", "  let x;", "", "see docs (https://d)", ""]
    );
    assert!(lines[1].spans[0].style.italic);
    assert_eq!(lines[3].spans[0].style, Style::of(theme.secondary));
    assert_eq!(lines[5].spans[2].style, Style::of(theme.dim));
}

#[test]
fn blank_lines_never_stack() {
    let theme = Theme::by_name("mono");
    let events = vec![
        start(TagKind::Paragraph),
        text("a"),
        end(TagKind::Paragraph),
        end(TagKind::Paragraph),
        end(TagKind::CodeBlock),
        start(TagKind::Heading),
        text("b"),
        end(TagKind::Heading),
    ];
    let lines = render_events(&events, &theme);
    assert_eq!(texts(&lines), vec!["a", "", "b"]);
}

#[test]
fn counters_go_on() {
    let theme = Theme::by_name("mono");
    let events = vec![
        event(EventKind::Start, TagKind::List, "", Some(9)),
        start(TagKind::Item),
        text("x"),
        end(TagKind::Item),
        start(TagKind::Item),
        event(EventKind::Code, TagKind::Other, "y", None),
        event(EventKind::HardBreak, TagKind::Other, "", None),
        text("z"),
        end(TagKind::Item),
        end(TagKind::List),
        end(TagKind::List),
        event(EventKind::Other, TagKind::Other, "", None),
    ];
    assert_eq!(texts(&render_events(&events, &theme)), vec!["9. x", "10. y", "z", ""]);
}

#[test]
fn an_end_without_a_link_adds_nothing() {
    let theme = Theme::by_name("mono");
    let events = vec![text("a"), end(TagKind::Link)];
    assert_eq!(texts(&render_events(&events, &theme)), vec!["a"]);
}

#[test]
fn releases_have_headings() {
    let mut r = Release {
        name: None,
        tag_name: "v1".to_string(),
        body: None,
        published_at: Some("2024-03-04T05:06:07Z".to_string()),
        html_url: None,
    };
    assert_eq!(release_heading(&r), "── v1  (2024-03-04)");
    r.name = Some("One".to_string());
    r.published_at = None;
    assert_eq!(release_heading(&r), "── One  ()");
}

#[test]
fn changelogs_show_releases() {
    let theme = Theme::by_name("gruvbox");
    let none = changelog_lines(&Vec::new(), &theme);
    assert_eq!(texts(&none), vec!["No releases found."]);
    let r = Release {
        name: Some("One".to_string()),
        tag_name: "v1".to_string(),
        body: Some("notes".to_string()),
        published_at: Some("2024-03-04T05:06:07Z".to_string()),
        html_url: Some("https://h".to_string()),
    };
    let lines = changelog_lines(&vec![r], &theme);
    assert_eq!(texts(&lines), vec!["── One  (2024-03-04)", "https://h", "notes", "", ""]);
    assert_eq!(lines[0].spans[0].style, Style::bold_of(theme.accent));
    assert_eq!(lines[1].spans[0].style, Style::of(theme.dim));
}

#[test]
fn final_newline_begins_no_line_of_code() {
    let theme = Theme::by_name("mono");
    let code = |content: &str| {
        render_events(&vec![start(TagKind::CodeBlock), text(content)], &theme)
    };
    assert_eq!(texts(&code("a\n")), vec!["  a"]);
    assert_eq!(texts(&code("a\n\n")), vec!["  a", "  "]);
    assert_eq!(texts(&code("a\nb")), vec!["  a", "  b"]);
    assert_eq!(texts(&code("\n")), vec!["  "]);
}
