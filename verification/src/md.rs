//! Minimal Markdown renderer for the changelog preview.
//!
//! Handles the constructs that appear in GitHub release notes: headings, lists,
//! code blocks, inline code, bold/italic, links, block quotes, and rules.

use pulldown_cmark::{Event, Tag, TagEnd};
use vstd::prelude::*;
use crate::style;
use crate::style::{push_line, push_span, Span, SpanModel, Style, StyledLine};
use crate::text;
use crate::text::{cat2, cat3, decimal_u64, repeat_char, split_on};
use crate::theme::{Theme, ThemeModel};

verus! {

/// What an event of a Markdown document is.
#[derive(Debug, Clone, Copy, PartialEq, Eq, Structural)]
pub enum EventKind {
    Start,
    End,
    Text,
    Code,
    SoftBreak,
    HardBreak,
    Rule,
    Other,
}

/// The element that a start or an end belongs to.
#[derive(Debug, Clone, Copy, PartialEq, Eq, Structural)]
pub enum TagKind {
    Paragraph,
    Heading,
    BlockQuote,
    CodeBlock,
    List,
    Item,
    Emphasis,
    Strong,
    Link,
    Other,
}

/// An event of a Markdown document.
#[derive(Debug)]
pub struct MdEvent {
    pub kind: EventKind,
    /// The element, for a start or an end; otherwise `Other`.
    pub tag: TagKind,
    /// The text of a text or of inline code, the address of the start of a link; otherwise empty.
    pub text: String,
    /// The number of the first item, for the start of an ordered list.
    pub number: Option<u64>,
}

/// An event as mathematical values.
pub struct MdEventModel {
    pub kind: EventKind,
    pub tag: TagKind,
    pub text: Seq<char>,
    pub number: Option<u64>,
}

impl View for MdEvent {
    type V = MdEventModel;

    open spec fn view(&self) -> MdEventModel {
        MdEventModel { kind: self.kind, tag: self.tag, text: self.text@, number: self.number }
    }
}

impl DeepView for MdEvent {
    type V = MdEventModel;

    open spec fn deep_view(&self) -> MdEventModel {
        self@
    }
}

// ── Parsing ────────────────────────────────────────────────────────────────

/// `pulldown_cmark::Event`, an event of a parsed document.
#[verifier::external_type_specification]
#[verifier::external_body]
pub struct ExEvent<'a>(pulldown_cmark::Event<'a>);

/// The events that `pulldown_cmark::Parser::new` yields for a document.
pub uninterp spec fn markdown_events(markdown: Seq<char>) -> Seq<MdEventModel>;

/// What a list of `pulldown_cmark::Event`s holds.
pub uninterp spec fn event_list(events: Vec<Event<'static>>) -> Seq<MdEventModel>;

/// Parses a document with `pulldown_cmark::Parser::new`, which goes by CommonMark without
/// extensions. Trusted: the events are a function of the document alone.
#[verifier::external_body]
fn parse_events(markdown: &str) -> (r: Vec<Event<'static>>)
    ensures
        event_list(r) == markdown_events(markdown@),
        r@.len() == event_list(r).len(),
{
    pulldown_cmark::Parser::new(markdown).map(Event::into_static).collect()
}

/// Which variant of `pulldown_cmark::Event` stands at `i`. Trusted: it is the kind of the event
/// that the list holds there.
#[verifier::external_body]
fn kind_at(events: &Vec<Event<'static>>, i: usize) -> (r: EventKind)
    requires
        i < events@.len(),
    ensures
        r == event_list(*events)[i as int].kind,
{
    match &events[i] {
        Event::Start(_) => EventKind::Start,
        Event::End(_) => EventKind::End,
        Event::Text(_) => EventKind::Text,
        Event::Code(_) => EventKind::Code,
        Event::SoftBreak => EventKind::SoftBreak,
        Event::HardBreak => EventKind::HardBreak,
        Event::Rule => EventKind::Rule,
        _ => EventKind::Other,
    }
}

/// Which element a `pulldown_cmark::Event::Start` or `End` at `i` belongs to, by
/// `pulldown_cmark::Tag::to_end`. Trusted: it is the element of the event that the list holds
/// there.
#[verifier::external_body]
fn tag_at(events: &Vec<Event<'static>>, i: usize) -> (r: TagKind)
    requires
        i < events@.len(),
    ensures
        r == event_list(*events)[i as int].tag,
{
    let end = match &events[i] { Event::Start(t) => t.to_end(), Event::End(t) => *t, _ => return TagKind::Other };
    match end {
        TagEnd::Paragraph => TagKind::Paragraph,
        TagEnd::Heading(_) => TagKind::Heading,
        TagEnd::BlockQuote(_) => TagKind::BlockQuote,
        TagEnd::CodeBlock => TagKind::CodeBlock,
        TagEnd::List(_) => TagKind::List,
        TagEnd::Item => TagKind::Item,
        TagEnd::Emphasis => TagKind::Emphasis,
        TagEnd::Strong => TagKind::Strong,
        TagEnd::Link => TagKind::Link,
        _ => TagKind::Other,
    }
}

/// The text that a `pulldown_cmark::Event` at `i` carries: that of a `Text` or a `Code`, the
/// `dest_url` of the start of a `Link`. Trusted: it is the text of the event that the list holds
/// there.
#[verifier::external_body]
fn text_at(events: &Vec<Event<'static>>, i: usize) -> (r: String)
    requires
        i < events@.len(),
    ensures
        r@ == event_list(*events)[i as int].text,
{
    match &events[i] {
        Event::Text(t) => t.to_string(),
        Event::Code(t) => t.to_string(),
        Event::Start(Tag::Link { dest_url, .. }) => dest_url.to_string(),
        _ => String::new(),
    }
}

/// The number that a `pulldown_cmark::Event` at `i` carries: that of the start of a `List`.
/// Trusted: it is the number of the event that the list holds there.
#[verifier::external_body]
fn number_at(events: &Vec<Event<'static>>, i: usize) -> (r: Option<u64>)
    requires
        i < events@.len(),
    ensures
        r == event_list(*events)[i as int].number,
{
    match &events[i] {
        Event::Start(Tag::List(first)) => *first,
        _ => None,
    }
}

/// The events of a document.
pub fn read_events(markdown: &str) -> (r: Vec<MdEvent>)
    ensures
        r.deep_view() == markdown_events(markdown@),
{
    let events = parse_events(markdown);
    let mut r: Vec<MdEvent> = Vec::new();
    let mut i: usize = 0;
    while i < events.len()
        invariant
            event_list(events) == markdown_events(markdown@),
            events@.len() == event_list(events).len(),
            i <= events@.len(),
            r@.len() == i,
            forall|j: int| 0 <= j < i ==> (#[trigger] r@[j])@ == event_list(events)[j],
        decreases events@.len() - i,
    {
        r.push(
            MdEvent {
                kind: kind_at(&events, i),
                tag: tag_at(&events, i),
                text: text_at(&events, i),
                number: number_at(&events, i),
            },
        );
        i = i + 1;
    }
    assert(r.deep_view() =~= markdown_events(markdown@));
    r
}

// ── Rendering ──────────────────────────────────────────────────────────────

/// Renders the events of a document, one after the other.
pub struct Renderer {
    theme: Theme,
    lines: Vec<StyledLine>,
    current: Vec<Span>,
    bold: bool,
    italic: bool,
    heading: bool,
    quote: bool,
    in_code_block: bool,
    /// Stack of list markers: `Some(counter)` for ordered, `None` for bullets.
    lists: Vec<Option<u64>>,
    link: Option<String>,
}

/// The renderer as mathematical values.
pub struct RenderModel {
    pub theme: ThemeModel,
    /// The finished lines.
    pub lines: Seq<Seq<SpanModel>>,
    /// The line in the making.
    pub current: Seq<SpanModel>,
    pub bold: bool,
    pub italic: bool,
    pub heading: bool,
    pub quote: bool,
    pub in_code_block: bool,
    /// The counters of the open lists, outermost first; `None` for a list of bullets.
    pub lists: Seq<Option<u64>>,
    /// The address of the open link.
    pub link: Option<Seq<char>>,
}

impl View for Renderer {
    type V = RenderModel;

    closed spec fn view(&self) -> RenderModel {
        RenderModel {
            theme: self.theme@,
            lines: self.lines.deep_view(),
            current: self.current.deep_view(),
            bold: self.bold,
            italic: self.italic,
            heading: self.heading,
            quote: self.quote,
            in_code_block: self.in_code_block,
            lists: self.lists@,
            link: self.link.deep_view(),
        }
    }
}

/// The counter behind `n`; it starts again behind the largest.
pub open spec fn next_number(n: u64) -> u64 {
    if n == u64::MAX {
        0
    } else {
        (n + 1) as u64
    }
}

/// The lines of a text of a code block. A final newline ends the last one and begins no other.
pub open spec fn code_pieces(content: Seq<char>) -> Seq<Seq<char>> {
    let pieces = text::pieces(content, '\n');
    if pieces.len() > 1 && pieces.last().len() == 0 {
        pieces.drop_last()
    } else {
        pieces
    }
}

/// The lines of a code block, indented.
pub open spec fn code_lines(theme: ThemeModel, content: Seq<char>) -> Seq<Seq<SpanModel>> {
    code_pieces(content).map_values(
        |l: Seq<char>| style::line1("  "@ + l, style::colored(theme.secondary)),
    )
}

impl RenderModel {
    /// Nothing rendered yet.
    pub open spec fn fresh(theme: ThemeModel) -> RenderModel {
        RenderModel {
            theme,
            lines: Seq::empty(),
            current: Seq::empty(),
            bold: false,
            italic: false,
            heading: false,
            quote: false,
            in_code_block: false,
            lists: Seq::empty(),
            link: None,
        }
    }

    /// The line in the making is finished, if it has any text.
    pub open spec fn flushed(self) -> RenderModel {
        if self.current.len() == 0 {
            self
        } else {
            RenderModel { lines: self.lines.push(self.current), current: Seq::empty(), ..self }
        }
    }

    /// A blank line follows, unless the last line is blank already.
    pub open spec fn spaced(self) -> RenderModel {
        if self.lines.len() > 0 && self.lines.last().len() == 0 {
            self
        } else {
            RenderModel { lines: self.lines.push(Seq::empty()), ..self }
        }
    }

    /// The line in the making goes on with `content`.
    pub open spec fn with(self, content: Seq<char>, look: Style) -> RenderModel {
        RenderModel { current: self.current.push(style::piece(content, look)), ..self }
    }

    /// How text looks.
    pub open spec fn look(self) -> Style {
        let base = if self.heading {
            style::strong(self.theme.accent)
        } else if self.quote {
            Style { italic: true, ..style::colored(self.theme.dim) }
        } else {
            style::colored(self.theme.fg)
        };
        Style { bold: base.bold || self.bold, italic: base.italic || self.italic, ..base }
    }

    /// What stands before an item: two spaces for each outer list, then the number or a bullet.
    pub open spec fn marker(self) -> Seq<char> {
        let outer: nat = if self.lists.len() == 0 { 0 } else { (self.lists.len() - 1) as nat };
        text::run_of(' ', 2 * outer) + if self.lists.len() > 0 && self.lists.last() is Some {
            text::decimal(self.lists.last()->Some_0 as nat) + ". "@
        } else {
            "• "@
        }
    }

    /// The innermost list has counted one item more.
    pub open spec fn counted(self) -> RenderModel {
        if self.lists.len() > 0 && self.lists.last() is Some {
            RenderModel {
                lists: self.lists.update(
                    self.lists.len() - 1,
                    Some(next_number(self.lists.last()->Some_0)),
                ),
                ..self
            }
        } else {
            self
        }
    }

    /// After the start of an element.
    pub open spec fn started(self, e: MdEventModel) -> RenderModel {
        match e.tag {
            TagKind::Heading => RenderModel { heading: true, ..self.flushed().spaced() },
            TagKind::Paragraph => self.flushed(),
            TagKind::BlockQuote => RenderModel { quote: true, ..self.flushed() }.with(
                "▏ "@,
                style::colored(self.theme.border),
            ),
            TagKind::List => RenderModel { lists: self.lists.push(e.number), ..self },
            TagKind::Item => self.flushed().counted().with(
                self.marker(),
                style::colored(self.theme.accent),
            ),
            TagKind::CodeBlock => RenderModel { in_code_block: true, ..self.flushed() },
            TagKind::Strong => RenderModel { bold: true, ..self },
            TagKind::Emphasis => RenderModel { italic: true, ..self },
            TagKind::Link => RenderModel { link: Some(e.text), ..self },
            TagKind::Other => self,
        }
    }

    /// After the end of an element.
    pub open spec fn ended(self, tag: TagKind) -> RenderModel {
        match tag {
            TagKind::Heading => RenderModel { heading: false, ..self.flushed() },
            TagKind::Paragraph => self.flushed().spaced(),
            TagKind::BlockQuote => RenderModel { quote: false, ..self.flushed() },
            TagKind::List => {
                let rest = if self.lists.len() == 0 {
                    self
                } else {
                    RenderModel { lists: self.lists.drop_last(), ..self }
                };
                if rest.lists.len() == 0 {
                    rest.spaced()
                } else {
                    rest
                }
            },
            TagKind::Item => self.flushed(),
            TagKind::CodeBlock => RenderModel { in_code_block: false, ..self }.spaced(),
            TagKind::Strong => RenderModel { bold: false, ..self },
            TagKind::Emphasis => RenderModel { italic: false, ..self },
            TagKind::Link => match self.link {
                Some(url) => RenderModel { link: None, ..self }.with(
                    " ("@ + url + ")"@,
                    style::colored(self.theme.dim),
                ),
                None => self,
            },
            TagKind::Other => self,
        }
    }

    /// After an event.
    pub open spec fn after(self, e: MdEventModel) -> RenderModel {
        match e.kind {
            EventKind::Start => self.started(e),
            EventKind::End => self.ended(e.tag),
            EventKind::Text => if self.in_code_block {
                RenderModel { lines: self.lines + code_lines(self.theme, e.text), ..self }
            } else {
                self.with(e.text, self.look())
            },
            EventKind::Code => self.with(e.text, style::colored(self.theme.secondary)),
            EventKind::SoftBreak => self.with(" "@, style::unstyled()),
            EventKind::HardBreak => self.flushed(),
            EventKind::Rule => RenderModel {
                lines: self.flushed().lines.push(
                    style::line1("────────────────────"@, style::colored(self.theme.border)),
                ),
                ..self.flushed()
            },
            EventKind::Other => self,
        }
    }

    /// After some events.
    pub open spec fn after_all(self, events: Seq<MdEventModel>) -> RenderModel
        decreases events.len(),
    {
        if events.len() == 0 {
            self
        } else {
            self.after_all(events.drop_last()).after(events.last())
        }
    }
}

/// The lines of a document of these events.
pub open spec fn rendered(events: Seq<MdEventModel>, theme: ThemeModel) -> Seq<Seq<SpanModel>> {
    RenderModel::fresh(theme).after_all(events).flushed().lines
}

impl Renderer {
    /// Nothing rendered yet.
    pub fn new(theme: &Theme) -> (r: Renderer)
        ensures
            r@ == RenderModel::fresh(theme@),
    {
        let r = Renderer {
            theme: *theme,
            lines: Vec::new(),
            current: Vec::new(),
            bold: false,
            italic: false,
            heading: false,
            quote: false,
            in_code_block: false,
            lists: Vec::new(),
            link: None,
        };
        assert(r@.lines =~= Seq::<Seq<SpanModel>>::empty());
        assert(r@.current =~= Seq::<SpanModel>::empty());
        assert(r@.lists =~= Seq::<Option<u64>>::empty());
        r
    }

    fn flush(&mut self)
        ensures
            final(self)@ == old(self)@.flushed(),
    {
        if self.current.len() > 0 {
            let mut spans: Vec<Span> = Vec::new();
            std::mem::swap(&mut spans, &mut self.current);
            assert(self@.current =~= Seq::<SpanModel>::empty());
            push_line(&mut self.lines, StyledLine { spans });
        }
    }

    fn blank(&mut self)
        ensures
            final(self)@ == old(self)@.spaced(),
    {
        let n = self.lines.len();
        if n > 0 && self.lines[n - 1].spans.len() == 0 {
            assert(self@.lines.last() == self.lines@[n - 1]@);
            return;
        }
        if n > 0 {
            assert(self@.lines.last() == self.lines@[n - 1]@);
        }
        push_line(&mut self.lines, StyledLine::empty());
    }

    fn text_style(&self) -> (r: Style)
        ensures
            r == self@.look(),
    {
        let mut s = if self.heading {
            Style::bold_of(self.theme.accent)
        } else if self.quote {
            Style { fg: Some(self.theme.dim), bold: false, italic: true, reversed: false }
        } else {
            Style::of(self.theme.fg)
        };
        if self.bold {
            s.bold = true;
        }
        if self.italic {
            s.italic = true;
        }
        s
    }

    fn write(&mut self, content: String, look: Style)
        ensures
            final(self)@ == old(self)@.with(content@, look),
    {
        push_span(&mut self.current, Span { content, style: look });
    }

    fn write_code(&mut self, content: &str)
        ensures
            final(self)@ == (RenderModel {
                lines: old(self)@.lines + code_lines(old(self)@.theme, content@),
                ..old(self)@
            }),
    {
        let mut parts = split_on(content, '\n');
        let ghost pieces = parts.deep_view();
        let n = parts.len();
        if n > 1 && parts[n - 1].as_str().is_empty() {
            assert(pieces.last() == parts@[n - 1]@);
            let _ = parts.pop();
            assert(parts.deep_view() =~= pieces.drop_last());
        } else if n > 1 {
            assert(pieces.last() == parts@[n - 1]@);
        }
        let ghost before = *self;
        let ghost all = code_lines(self@.theme, content@);
        let mut i: usize = 0;
        assert(self@.lines =~= before@.lines + all.take(0));
        while i < parts.len()
            invariant
                parts.deep_view() == code_pieces(content@),
                all == code_lines(before@.theme, content@),
                i <= parts@.len(),
                parts@.len() == all.len(),
                self@ == (RenderModel { lines: before@.lines + all.take(i as int), ..before@ }),
            decreases parts@.len() - i,
        {
            assert(parts@[i as int]@ == code_pieces(content@)[i as int]);
            let line = StyledLine::one(
                cat2("  ", parts[i].as_str()),
                Style::of(self.theme.secondary),
            );
            assert(all[i as int] == line@);
            push_line(&mut self.lines, line);
            assert(self@.lines =~= before@.lines + all.take(i + 1));
            i = i + 1;
        }
        assert(all.take(parts@.len() as int) =~= all);
    }

    /// Renders an event.
    pub fn handle(&mut self, event: &MdEvent)
        ensures
            final(self)@ == old(self)@.after(event@),
    {
        match event.kind {
            EventKind::Start => self.start(event),
            EventKind::End => self.end(event.tag),
            EventKind::Text => {
                if self.in_code_block {
                    self.write_code(event.text.as_str());
                } else {
                    let look = self.text_style();
                    self.write(event.text.clone(), look);
                }
            },
            EventKind::Code => {
                let look = Style::of(self.theme.secondary);
                self.write(event.text.clone(), look);
            },
            EventKind::SoftBreak => self.write(" ".to_string(), Style::plain()),
            EventKind::HardBreak => self.flush(),
            EventKind::Rule => {
                self.flush();
                let look = Style::of(self.theme.border);
                push_line(&mut self.lines, StyledLine::one_str("────────────────────", look));
            },
            EventKind::Other => {},
        }
    }

    /// Counts an item of the innermost list: what stands before it.
    fn count_item(&mut self) -> (r: String)
        ensures
            r@ == old(self)@.marker(),
            final(self)@ == old(self)@.counted(),
    {
        let depth = self.lists.len();
        if depth == 0 {
            let indent = repeat_char(' ', 0);
            return cat2(indent.as_str(), "• ");
        }
        let indent = indent_of(depth - 1);
        match self.lists[depth - 1] {
            Some(n) => {
                let next: u64 = if n == u64::MAX { 0 } else { n + 1 };
                self.lists.set(depth - 1, Some(next));
                let digits = decimal_u64(n);
                let r = cat3(indent.as_str(), digits.as_str(), ". ");
                assert(r@ =~= old(self)@.marker());
                r
            },
            None => cat2(indent.as_str(), "• "),
        }
    }

    fn start(&mut self, event: &MdEvent)
        requires
            event.kind == EventKind::Start,
        ensures
            final(self)@ == old(self)@.started(event@),
    {
        match event.tag {
            TagKind::Heading => {
                self.flush();
                self.blank();
                self.heading = true;
            },
            TagKind::Paragraph => self.flush(),
            TagKind::BlockQuote => {
                self.flush();
                self.quote = true;
                let look = Style::of(self.theme.border);
                self.write("▏ ".to_string(), look);
            },
            TagKind::List => self.lists.push(event.number),
            TagKind::Item => {
                self.flush();
                let marker = self.count_item();
                let look = Style::of(self.theme.accent);
                self.write(marker, look);
            },
            TagKind::CodeBlock => {
                self.flush();
                self.in_code_block = true;
            },
            TagKind::Strong => self.bold = true,
            TagKind::Emphasis => self.italic = true,
            TagKind::Link => self.link = Some(event.text.clone()),
            TagKind::Other => {},
        }
    }

    fn end(&mut self, tag: TagKind)
        ensures
            final(self)@ == old(self)@.ended(tag),
    {
        match tag {
            TagKind::Heading => {
                self.flush();
                self.heading = false;
            },
            TagKind::Paragraph => {
                self.flush();
                self.blank();
            },
            TagKind::BlockQuote => {
                self.flush();
                self.quote = false;
            },
            TagKind::List => {
                let _ = self.lists.pop();
                assert(old(self)@.lists.len() > 0 ==> self@.lists == old(
                    self,
                )@.lists.drop_last());
                if self.lists.len() == 0 {
                    self.blank();
                }
            },
            TagKind::Item => self.flush(),
            TagKind::CodeBlock => {
                self.in_code_block = false;
                self.blank();
            },
            TagKind::Strong => self.bold = false,
            TagKind::Emphasis => self.italic = false,
            TagKind::Link => {
                let open = self.link.take();
                if let Some(url) = open {
                    let look = Style::of(self.theme.dim);
                    self.write(cat3(" (", url.as_str(), ")"), look);
                }
            },
            TagKind::Other => {},
        }
    }

    /// The lines, with the one in the making.
    pub fn finish(self) -> (r: Vec<StyledLine>)
        ensures
            r.deep_view() == self@.flushed().lines,
    {
        let mut this = self;
        this.flush();
        this.lines
    }
}

/// Two spaces for each outer list.
fn indent_of(outer: usize) -> (r: String)
    ensures
        r@ == text::run_of(' ', 2 * outer as nat),
{
    let once = repeat_char(' ', outer);
    let twice = cat2(once.as_str(), once.as_str());
    assert(twice@ =~= text::run_of(' ', 2 * outer as nat));
    twice
}

/// The lines of a document of these events.
pub fn render_events(events: &Vec<MdEvent>, theme: &Theme) -> (r: Vec<StyledLine>)
    ensures
        r.deep_view() == rendered(events.deep_view(), theme@),
{
    let mut renderer = Renderer::new(theme);
    let ghost all = events.deep_view();
    let mut i: usize = 0;
    assert(all.take(0) =~= Seq::<MdEventModel>::empty());
    while i < events.len()
        invariant
            all == events.deep_view(),
            i <= events@.len(),
            renderer@ == RenderModel::fresh(theme@).after_all(all.take(i as int)),
        decreases events@.len() - i,
    {
        renderer.handle(&events[i]);
        assert(all.take(i + 1).drop_last() =~= all.take(i as int));
        assert(all.take(i + 1).last() == events@[i as int]@);
        i = i + 1;
    }
    assert(all.take(events@.len() as int) =~= all);
    renderer.finish()
}

/// Render a Markdown string into styled lines for display.
pub fn render(markdown: &str, theme: &Theme) -> (r: Vec<StyledLine>)
    ensures
        r.deep_view() == rendered(markdown_events(markdown@), theme@),
{
    let events = read_events(markdown);
    render_events(&events, theme)
}

// ── Laws ───────────────────────────────────────────────────────────────────

/// No blank line is followed by another.
pub open spec fn single_spaced(lines: Seq<Seq<SpanModel>>) -> bool {
    forall|i: int, j: int|
        0 <= i < lines.len() && j == i + 1 && j < lines.len() ==> #[trigger] lines[i].len() > 0
            || #[trigger] lines[j].len() > 0
}

proof fn lemma_after_all_single_spaced(events: Seq<MdEventModel>, theme: ThemeModel)
    ensures
        single_spaced(RenderModel::fresh(theme).after_all(events).lines),
    decreases events.len(),
{
    if events.len() > 0 {
        lemma_after_all_single_spaced(events.drop_last(), theme);
        let before = RenderModel::fresh(theme).after_all(events.drop_last());
        let e = events.last();
        assert(single_spaced(before.flushed().lines));
        assert(single_spaced(before.spaced().lines));
        assert(single_spaced(before.flushed().spaced().lines));
    }
}

/// Blank lines never stack, whatever the document.
pub proof fn law_blank_lines_never_stack(events: Seq<MdEventModel>, theme: ThemeModel)
    ensures
        single_spaced(rendered(events, theme)),
{
    lemma_after_all_single_spaced(events, theme);
}

// ── Laws of the lists ──────────────────────────────────────────────────────

/// By how much an event changes the number of open lists.
pub open spec fn list_step(e: MdEventModel) -> int {
    if e.tag == TagKind::List && e.kind == EventKind::Start {
        1
    } else if e.tag == TagKind::List && e.kind == EventKind::End {
        -1
    } else {
        0
    }
}

/// How many more lists are open behind some events than before them.
pub open spec fn list_depth(events: Seq<MdEventModel>) -> int
    decreases events.len(),
{
    if events.len() == 0 {
        0
    } else {
        list_depth(events.drop_last()) + list_step(events.last())
    }
}

/// Whether an event begins an item.
pub open spec fn begins_item(e: MdEventModel) -> bool {
    e.kind == EventKind::Start && e.tag == TagKind::Item
}

/// Whether every list that some events open is closed by them, and they close no other.
pub open spec fn lists_balanced(events: Seq<MdEventModel>) -> bool {
    &&& list_depth(events) == 0
    &&& forall|k: int| 0 <= k <= events.len() ==> list_depth(#[trigger] events.take(k)) >= 0
}

/// Whether some events can stand within an item: their lists are balanced, and every item of
/// theirs belongs to one of these lists.
pub open spec fn within_item(events: Seq<MdEventModel>) -> bool {
    &&& lists_balanced(events)
    &&& forall|k: int|
        0 <= k < events.len() && begins_item(#[trigger] events[k]) ==> list_depth(events.take(k))
            > 0
}

/// The start or the end of an element without more to it.
pub open spec fn edge(kind: EventKind, tag: TagKind) -> MdEventModel {
    MdEventModel { kind, tag, text: Seq::empty(), number: None }
}

/// The start of a list, with the number of its first item where it is ordered.
pub open spec fn list_start(first: Option<u64>) -> MdEventModel {
    MdEventModel {
        kind: EventKind::Start,
        tag: TagKind::List,
        text: Seq::empty(),
        number: first,
    }
}

/// An item that holds `content`.
pub open spec fn item_of(content: Seq<MdEventModel>) -> Seq<MdEventModel> {
    seq![edge(EventKind::Start, TagKind::Item)] + content + seq![
        edge(EventKind::End, TagKind::Item),
    ]
}

/// Items one behind the other.
pub open spec fn items_of(contents: Seq<Seq<MdEventModel>>) -> Seq<MdEventModel>
    decreases contents.len(),
{
    if contents.len() == 0 {
        Seq::empty()
    } else {
        items_of(contents.drop_last()) + item_of(contents.last())
    }
}

/// Events one behind the other are rendered one behind the other.
pub proof fn law_events_follow_one_another(
    s: RenderModel,
    a: Seq<MdEventModel>,
    b: Seq<MdEventModel>,
)
    ensures
        s.after_all(a + b) == s.after_all(a).after_all(b),
    decreases b.len(),
{
    if b.len() == 0 {
        assert(a + b =~= a);
    } else {
        law_events_follow_one_another(s, a, b.drop_last());
        assert((a + b).drop_last() =~= a + b.drop_last());
        assert((a + b).last() == b.last());
    }
}

/// A single event.
proof fn lemma_after_one(s: RenderModel, e: MdEventModel)
    ensures
        s.after_all(seq![e]) == s.after(e),
{
    assert(seq![e].drop_last() =~= Seq::<MdEventModel>::empty());
    assert(s.after_all(seq![e].drop_last()) == s);
}

/// Within an item, the lists that stood open before it stay below those of its own.
proof fn lemma_outer_lists_stay(s: RenderModel, events: Seq<MdEventModel>)
    requires
        forall|k: int| 0 <= k <= events.len() ==> list_depth(#[trigger] events.take(k)) >= 0,
        forall|k: int|
            0 <= k < events.len() && begins_item(#[trigger] events[k]) ==> list_depth(
                events.take(k),
            ) > 0,
    ensures
        s.after_all(events).lists.len() == s.lists.len() + list_depth(events),
        s.after_all(events).lists.take(s.lists.len() as int) == s.lists,
    decreases events.len(),
{
    if events.len() == 0 {
        assert(s.lists.take(s.lists.len() as int) =~= s.lists);
    } else {
        let before = events.drop_last();
        let e = events.last();
        assert forall|k: int| 0 <= k <= before.len() implies list_depth(#[trigger] before.take(k))
            >= 0 by {
            assert(before.take(k) =~= events.take(k));
        }
        assert forall|k: int|
            0 <= k < before.len() && begins_item(#[trigger] before[k]) implies list_depth(
            before.take(k),
        ) > 0 by {
            assert(before.take(k) =~= events.take(k));
            assert(before[k] == events[k]);
        }
        lemma_outer_lists_stay(s, before);
        let t = s.after_all(before);
        assert(events.take(events.len() as int) =~= events);
        assert(events.take(events.len() - 1) =~= before);
        assert(e == events[events.len() - 1]);
        assert(list_depth(events) >= 0);
        assert(list_depth(before) >= 0);
        assert(begins_item(e) ==> list_depth(before) > 0);
        assert(t.after(e).lists.take(s.lists.len() as int) =~= s.lists);
    }
}

/// What an item holds leaves the open lists and their counters as they were before it.
pub proof fn law_nested_lists_leave_the_outer_ones(s: RenderModel, events: Seq<MdEventModel>)
    requires
        within_item(events),
    ensures
        s.after_all(events).lists == s.lists,
{
    lemma_outer_lists_stay(s, events);
    let t = s.after_all(events);
    assert(t.lists.take(s.lists.len() as int) =~= t.lists);
}

/// The end of a list leads back to the list it stands in: a whole list, whatever its items
/// hold, leaves the open lists and their counters as they were before it.
pub proof fn law_end_of_list_leads_back(
    s: RenderModel,
    first: Option<u64>,
    body: Seq<MdEventModel>,
)
    requires
        lists_balanced(body),
    ensures
        s.after_all(
            seq![list_start(first)] + body + seq![edge(EventKind::End, TagKind::List)],
        ).lists == s.lists,
{
    let start = seq![list_start(first)];
    let end = edge(EventKind::End, TagKind::List);
    let events = start + body + seq![end];
    lemma_list_is_within_item(first, body);
    law_nested_lists_leave_the_outer_ones(s, events);
}

/// A whole list can stand within an item.
proof fn lemma_list_is_within_item(first: Option<u64>, body: Seq<MdEventModel>)
    requires
        lists_balanced(body),
    ensures
        within_item(seq![list_start(first)] + body + seq![edge(EventKind::End, TagKind::List)]),
{
    let start = seq![list_start(first)];
    let end = edge(EventKind::End, TagKind::List);
    let events = start + body + seq![end];
    assert forall|k: int| 0 <= k <= body.len() implies list_depth(#[trigger] (start + body).take(
        k + 1,
    )) == 1 + list_depth(body.take(k)) by {
        lemma_depth_behind_start(first, body, k);
    }
    assert((start + body).take(body.len() as int + 1) =~= start + body);
    assert(body.take(body.len() as int) =~= body);
    assert(list_depth((start + body).take(body.len() as int + 1)) == 1);
    assert(events.drop_last() =~= start + body);
    assert(events.last() == end);
    assert(list_depth(events) == 0);
    assert forall|k: int| 0 <= k <= events.len() implies list_depth(#[trigger] events.take(k))
        >= 0 by {
        if k == 0 {
            assert(events.take(0) =~= Seq::<MdEventModel>::empty());
        } else if k <= body.len() + 1 {
            assert(events.take(k) =~= (start + body).take((k - 1) + 1));
            assert(list_depth(body.take(k - 1)) >= 0);
        } else {
            assert(events.take(k) =~= events);
        }
    }
    assert forall|k: int|
        0 <= k < events.len() && begins_item(#[trigger] events[k]) implies list_depth(
        events.take(k),
    ) > 0 by {
        assert(0 < k <= body.len());
        assert(events.take(k) =~= (start + body).take((k - 1) + 1));
        assert(list_depth(body.take(k - 1)) >= 0);
    }
}

/// Behind the start of a list one list more is open.
proof fn lemma_depth_behind_start(first: Option<u64>, body: Seq<MdEventModel>, k: int)
    requires
        0 <= k <= body.len(),
    ensures
        list_depth((seq![list_start(first)] + body).take(k + 1)) == 1 + list_depth(body.take(k)),
    decreases k,
{
    let all = seq![list_start(first)] + body;
    let s = all.take(k + 1);
    if k == 0 {
        assert(s.drop_last() =~= Seq::<MdEventModel>::empty());
        assert(body.take(0) =~= Seq::<MdEventModel>::empty());
        assert(s.last() == list_start(first));
        assert(list_depth(s.drop_last()) == 0);
    } else {
        lemma_depth_behind_start(first, body, k - 1);
        assert(s.drop_last() =~= all.take(k));
        assert(s.last() == body[k - 1]);
        assert(body.take(k).drop_last() =~= body.take(k - 1));
        assert(body.take(k).last() == body[k - 1]);
    }
}

/// The end of a list within another takes away its own counter and shows nothing; only the end of
/// the outermost list leaves a blank line, and none where the last line is blank already.
pub proof fn law_only_outermost_list_is_spaced(s: RenderModel, e: MdEventModel)
    requires
        e.kind == EventKind::End,
        e.tag == TagKind::List,
        s.lists.len() > 0,
    ensures
        s.after(e).lists == s.lists.take(s.lists.len() - 1),
        s.after(e).current == s.current,
        s.lists.len() > 1 ==> s.after(e).lines == s.lines,
        s.lists.len() == 1 ==> s.after(e).lines.len() > 0 && s.after(e).lines.last().len() == 0,
        s.lists.len() == 1 && s.lines.len() > 0 && s.lines.last().len() == 0 ==> s.after(e).lines
            == s.lines,
        s.lists.len() == 1 && (s.lines.len() == 0 || s.lines.last().len() > 0) ==> s.after(
            e,
        ).lines == s.lines.push(Seq::empty()),
{
    assert(s.lists.drop_last() =~= s.lists.take(s.lists.len() - 1));
}

/// An item of an ordered list, whatever it holds, moves the counter of that list on by one and
/// leaves those of the outer lists.
pub proof fn law_item_counts_once(s: RenderModel, content: Seq<MdEventModel>)
    requires
        within_item(content),
        s.lists.len() > 0,
        s.lists.last() matches Some(n) && n < u64::MAX,
    ensures
        s.after_all(item_of(content)).lists == s.lists.update(
            s.lists.len() - 1,
            Some((s.lists.last()->Some_0 + 1) as u64),
        ),
{
    lemma_item(s, content);
}

/// What the lists are behind an item.
proof fn lemma_item(s: RenderModel, content: Seq<MdEventModel>)
    requires
        within_item(content),
    ensures
        s.after_all(item_of(content)).lists == s.after(
            edge(EventKind::Start, TagKind::Item),
        ).lists,
{
    let start = edge(EventKind::Start, TagKind::Item);
    let end = edge(EventKind::End, TagKind::Item);
    law_events_follow_one_another(s, seq![start] + content, seq![end]);
    law_events_follow_one_another(s, seq![start], content);
    lemma_after_one(s, start);
    let t = s.after(start);
    law_nested_lists_leave_the_outer_ones(t, content);
    lemma_after_one(t.after_all(content), end);
}

/// An item of a list of bullets leaves every counter as it is.
pub proof fn law_bullets_do_not_count(s: RenderModel, content: Seq<MdEventModel>)
    requires
        within_item(content),
        s.lists.len() > 0 ==> s.lists.last() is None,
    ensures
        s.after_all(item_of(content)).lists == s.lists,
{
    lemma_item(s, content);
}

/// The lists behind some items of a list that starts at `n`.
proof fn lemma_items_counted(s: RenderModel, n: u64, contents: Seq<Seq<MdEventModel>>)
    requires
        n + contents.len() <= u64::MAX,
        forall|i: int| 0 <= i < contents.len() ==> within_item(#[trigger] contents[i]),
    ensures
        s.after(list_start(Some(n))).after_all(items_of(contents)).lists == s.lists.push(
            Some((n + contents.len()) as u64),
        ),
    decreases contents.len(),
{
    let t = s.after(list_start(Some(n)));
    if contents.len() > 0 {
        let before = contents.drop_last();
        assert forall|i: int| 0 <= i < before.len() implies within_item(#[trigger] before[i]) by {
            assert(before[i] == contents[i]);
        }
        lemma_items_counted(s, n, before);
        law_events_follow_one_another(t, items_of(before), item_of(contents.last()));
        let u = t.after_all(items_of(before));
        assert(within_item(contents[contents.len() - 1]));
        law_item_counts_once(u, contents.last());
        assert(u.lists.update(u.lists.len() - 1, Some((n + contents.len()) as u64)) =~= s.lists.push(
            Some((n + contents.len()) as u64),
        ));
    }
}

/// The items of an ordered list are numbered one after the other from its first number on,
/// whatever the items before hold; each number stands on a line of its own, indented by two
/// spaces for each outer list.
pub proof fn law_items_are_numbered(s: RenderModel, n: u64, contents: Seq<Seq<MdEventModel>>)
    requires
        n + contents.len() <= u64::MAX,
        forall|i: int| 0 <= i < contents.len() ==> within_item(#[trigger] contents[i]),
    ensures
        ({
            let t = s.after(list_start(Some(n))).after_all(items_of(contents)).after(
                edge(EventKind::Start, TagKind::Item),
            );
            &&& t.current.len() == 1
            &&& t.current[0].content == Seq::new(2 * s.lists.len(), |i: int| ' ') + text::decimal(
                (n + contents.len()) as nat,
            ) + ". "@
            &&& t.current[0].style.fg == Some(s.theme.accent)
        }),
{
    lemma_items_counted(s, n, contents);
    lemma_theme_stays(s, seq![list_start(Some(n))] + items_of(contents));
    law_events_follow_one_another(s, seq![list_start(Some(n))], items_of(contents));
    lemma_after_one(s, list_start(Some(n)));
    let u = s.after(list_start(Some(n))).after_all(items_of(contents));
    let t = u.after(edge(EventKind::Start, TagKind::Item));
    assert(t.current =~= seq![style::piece(u.marker(), style::colored(u.theme.accent))]);
    assert(u.marker() =~= Seq::new(2 * s.lists.len(), |i: int| ' ') + text::decimal(
        (n + contents.len()) as nat,
    ) + ". "@);
}

/// The theme stays.
proof fn lemma_theme_stays(s: RenderModel, events: Seq<MdEventModel>)
    ensures
        s.after_all(events).theme == s.theme,
    decreases events.len(),
{
    if events.len() > 0 {
        lemma_theme_stays(s, events.drop_last());
    }
}

/// An item of a list without numbers is marked by a bullet, on a line of its own, indented by two
/// spaces for each outer list; what the line before held is finished.
pub proof fn law_items_are_bulleted(s: RenderModel)
    requires
        s.lists.len() > 0,
        s.lists.last() is None,
    ensures
        ({
            let t = s.after(edge(EventKind::Start, TagKind::Item));
            &&& t.current.len() == 1
            &&& t.current[0].content == Seq::new((2 * (s.lists.len() - 1)) as nat, |i: int| ' ')
                + "• "@
            &&& s.current.len() > 0 ==> t.lines == s.lines.push(s.current)
            &&& s.current.len() == 0 ==> t.lines == s.lines
        }),
{
    let t = s.after(edge(EventKind::Start, TagKind::Item));
    assert(t.current =~= seq![style::piece(s.marker(), style::colored(s.theme.accent))]);
    assert(s.marker() =~= Seq::new((2 * (s.lists.len() - 1)) as nat, |i: int| ' ') + "• "@);
}

// ── Laws of the text ───────────────────────────────────────────────────────

/// A text outside a code block is shown once, as it is, behind all that was shown before: in
/// bold within a heading or strong text, in italics within emphasis and within a quote that is no
/// heading, and in the color of a heading, a quote or plain text.
pub proof fn law_text_is_shown(s: RenderModel, e: MdEventModel)
    requires
        e.kind == EventKind::Text,
        !s.in_code_block,
    ensures
        s.after(e).lines == s.lines,
        s.after(e).current.len() == s.current.len() + 1,
        s.after(e).current.take(s.current.len() as int) == s.current,
        s.after(e).current.last().content == e.text,
        s.after(e).current.last().style.bold <==> s.heading || s.bold,
        s.after(e).current.last().style.italic <==> s.italic || s.quote && !s.heading,
        s.after(e).current.last().style.fg == Some(
            if s.heading {
                s.theme.accent
            } else if s.quote {
                s.theme.dim
            } else {
                s.theme.fg
            },
        ),
        !s.after(e).current.last().style.reversed,
        s.after(e).lists == s.lists && s.after(e).link == s.link,
{
    assert(s.after(e).current.take(s.current.len() as int) =~= s.current);
}

/// Inline code is shown once, as it is, behind all that was shown before, in a color of its own.
pub proof fn law_code_is_shown(s: RenderModel, e: MdEventModel)
    requires
        e.kind == EventKind::Code,
    ensures
        s.after(e).lines == s.lines,
        s.after(e).current == s.current.push(
            (SpanModel {
                content: e.text,
                style: Style {
                    fg: Some(s.theme.secondary),
                    bold: false,
                    italic: false,
                    reversed: false,
                },
            }),
        ),
        s.after(e).lists == s.lists && s.after(e).link == s.link,
{
}

/// Strong text and emphasis last from their start to their end; neither shows anything itself,
/// and neither has a part in the other.
pub proof fn law_emphasis_lasts_to_its_end(s: RenderModel, e: MdEventModel)
    requires
        e.tag == TagKind::Strong || e.tag == TagKind::Emphasis,
        e.kind == EventKind::Start || e.kind == EventKind::End,
    ensures
        s.after(e).lines == s.lines && s.after(e).current == s.current,
        e.tag == TagKind::Strong ==> s.after(e).bold == (e.kind == EventKind::Start)
            && s.after(e).italic == s.italic,
        e.tag == TagKind::Emphasis ==> s.after(e).italic == (e.kind == EventKind::Start)
            && s.after(e).bold == s.bold,
        s.after(e).heading == s.heading && s.after(e).quote == s.quote,
        s.after(e).lists == s.lists && s.after(e).link == s.link,
        s.after(e).in_code_block == s.in_code_block,
{
}

/// A heading stands behind a blank line and on a line of its own, and lasts from its start to
/// its end.
pub proof fn law_heading_lasts_to_its_end(s: RenderModel, e: MdEventModel)
    requires
        e.tag == TagKind::Heading,
        e.kind == EventKind::Start || e.kind == EventKind::End,
    ensures
        s.after(e).heading == (e.kind == EventKind::Start),
        s.after(e).current.len() == 0,
        e.kind == EventKind::Start ==> s.after(e).lines.len() > 0 && s.after(e).lines.last().len()
            == 0,
        e.kind == EventKind::End && s.current.len() > 0 ==> s.after(e).lines == s.lines.push(
            s.current,
        ),
        e.kind == EventKind::End && s.current.len() == 0 ==> s.after(e).lines == s.lines,
        s.after(e).bold == s.bold && s.after(e).italic == s.italic && s.after(e).quote == s.quote,
        s.after(e).lists == s.lists && s.after(e).link == s.link,
{
}

/// A quote begins with a bar on a line of its own, and lasts from its start to its end.
pub proof fn law_quote_lasts_to_its_end(s: RenderModel, e: MdEventModel)
    requires
        e.tag == TagKind::BlockQuote,
        e.kind == EventKind::Start || e.kind == EventKind::End,
    ensures
        s.after(e).quote == (e.kind == EventKind::Start),
        s.after(e).lines == (if s.current.len() > 0 { s.lines.push(s.current) } else { s.lines }),
        e.kind == EventKind::Start ==> s.after(e).current.len() == 1 && s.after(
            e,
        ).current[0].content == "▏ "@,
        e.kind == EventKind::End ==> s.after(e).current.len() == 0,
        s.after(e).lists == s.lists && s.after(e).heading == s.heading,
{
}

/// A paragraph begins on a line of its own and ends in a blank line.
pub proof fn law_paragraph_is_set_apart(s: RenderModel, e: MdEventModel)
    requires
        e.tag == TagKind::Paragraph,
        e.kind == EventKind::Start || e.kind == EventKind::End,
    ensures
        s.after(e).current.len() == 0,
        e.kind == EventKind::End ==> s.after(e).lines.len() > 0 && s.after(e).lines.last().len()
            == 0,
        e.kind == EventKind::End && s.current.len() > 0 ==> s.after(e).lines == s.lines.push(
            s.current,
        ).push(Seq::empty()),
        e.kind == EventKind::Start ==> s.after(e).lines == (if s.current.len() > 0 {
            s.lines.push(s.current)
        } else {
            s.lines
        }),
        s.after(e).lists == s.lists,
{
}

/// A link shows its address in brackets behind its text, whatever the text is made of, so long
/// as it holds no other link.
pub proof fn law_link_shows_its_address(s: RenderModel, start: MdEventModel, end: MdEventModel, t:
    RenderModel)
    requires
        start.kind == EventKind::Start && start.tag == TagKind::Link,
        end.kind == EventKind::End && end.tag == TagKind::Link,
        t.link == s.after(start).link,
    ensures
        s.after(start).lines == s.lines && s.after(start).current == s.current,
        t.after(end).lines == t.lines,
        t.after(end).current.len() == t.current.len() + 1,
        t.after(end).current.take(t.current.len() as int) == t.current,
        t.after(end).current.last().content == " ("@ + start.text + ")"@,
        t.after(end).link is None,
{
    assert(t.after(end).current.take(t.current.len() as int) =~= t.current);
}

/// A soft break is a space, a hard break ends the line, and a rule is a line of its own.
pub proof fn law_breaks(s: RenderModel, e: MdEventModel)
    ensures
        e.kind == EventKind::SoftBreak ==> s.after(e).lines == s.lines && s.after(e).current.len()
            == s.current.len() + 1 && s.after(e).current.last().content == " "@,
        e.kind == EventKind::HardBreak || e.kind == EventKind::Rule ==> s.after(e).current.len()
            == 0,
        e.kind == EventKind::HardBreak ==> s.after(e).lines == (if s.current.len() > 0 {
            s.lines.push(s.current)
        } else {
            s.lines
        }),
        e.kind == EventKind::Rule && s.current.len() == 0 ==> s.after(e).lines.len()
            == s.lines.len() + 1 && s.after(e).lines.last().len() == 1 && s.after(
            e,
        ).lines.last()[0].content == "────────────────────"@ && s.after(e).lines.take(
            s.lines.len() as int,
        ) == s.lines,
        e.kind == EventKind::Other ==> s.after(e) == s,
{
    if e.kind == EventKind::Rule && s.current.len() == 0 {
        assert(s.after(e).lines.take(s.lines.len() as int) =~= s.lines);
    }
}

/// A code block lasts from its start to its end and leaves a blank line; within it every line of
/// a text is shown on a line of its own, indented by two spaces.
pub proof fn law_code_block_is_indented(s: RenderModel, e: MdEventModel, l: Seq<char>)
    requires
        !l.contains('\n'),
    ensures
        e.tag == TagKind::CodeBlock && e.kind == EventKind::Start ==> s.after(e).in_code_block
            && s.after(e).current.len() == 0,
        e.tag == TagKind::CodeBlock && e.kind == EventKind::End ==> !s.after(e).in_code_block
            && s.after(e).lines.last().len() == 0 && s.after(e).current == s.current,
        e.kind == EventKind::Text && s.in_code_block && (e.text == l || e.text == l.push('\n'))
            ==> {
            &&& s.after(e).lines.len() == s.lines.len() + 1
            &&& s.after(e).lines.take(s.lines.len() as int) == s.lines
            &&& s.after(e).lines.last().len() == 1
            &&& s.after(e).lines.last()[0].content == "  "@ + l
            &&& s.after(e).current == s.current
        },
{
    lemma_pieces_of_line(l);
    if e.kind == EventKind::Text && s.in_code_block && (e.text == l || e.text == l.push('\n')) {
        assert(code_pieces(e.text) =~= seq![l]);
        let more = code_lines(s.theme, e.text);
        assert(more.len() == 1);
        assert(more[0] == style::line1("  "@ + l, style::colored(s.theme.secondary)));
        assert(s.after(e).lines.take(s.lines.len() as int) =~= s.lines);
        assert(s.after(e).lines.last() == more[0]);
    }
}

/// The pieces of a single line, with its end or without.
proof fn lemma_pieces_of_line(l: Seq<char>)
    requires
        !l.contains('\n'),
    ensures
        text::pieces(l, '\n') == seq![l],
        text::pieces(l.push('\n'), '\n') == seq![l, Seq::<char>::empty()],
{
    let s = l.push('\n');
    assert(s[l.len() as int] == '\n');
    assert forall|j: int| 0 <= j < l.len() implies s[j] != '\n' by {
        assert(l.contains(l[j]));
    }
    text::lemma_first_index_is(s, '\n', l.len() as int);
    assert(s.contains('\n'));
    assert(text::before_first(s, '\n') =~= l);
    assert(text::after_first(s, '\n') =~= Seq::<char>::empty());
    assert(text::pieces(Seq::<char>::empty(), '\n') =~= seq![Seq::<char>::empty()]);
    assert(text::pieces(s, '\n') =~= seq![l, Seq::<char>::empty()]);
}

/// Within a code block the first line of a text is shown before the rest of it.
pub proof fn law_code_lines_follow_one_another(
    s: RenderModel,
    l: Seq<char>,
    rest: Seq<char>,
)
    requires
        s.in_code_block,
        !l.contains('\n'),
        rest.len() > 0,
    ensures
        ({
            let of = |t: Seq<char>|
                MdEventModel { kind: EventKind::Text, tag: TagKind::Other, text: t, number: None };
            s.after(of(l + seq!['\n'] + rest)) == s.after(of(l)).after(of(rest))
        }),
{
    let whole = l + seq!['\n'] + rest;
    lemma_pieces_of_line(l);
    assert(whole[l.len() as int] == '\n');
    assert forall|j: int| 0 <= j < l.len() implies whole[j] != '\n' by {
        assert(l.contains(l[j]));
    }
    text::lemma_first_index_is(whole, '\n', l.len() as int);
    assert(whole.contains('\n'));
    assert(text::before_first(whole, '\n') =~= l);
    assert(text::after_first(whole, '\n') =~= rest);
    let tail = text::pieces(rest, '\n');
    assert(text::pieces(whole, '\n') == seq![l] + tail);
    lemma_some_piece(rest);
    assert(code_pieces(l) =~= seq![l]);
    assert(code_pieces(whole) =~= seq![l] + code_pieces(rest));
    assert(code_lines(s.theme, whole) =~= code_lines(s.theme, l) + code_lines(s.theme, rest));
    assert(s.lines + code_lines(s.theme, whole) =~= s.lines + code_lines(s.theme, l) + code_lines(
        s.theme,
        rest,
    ));
}

/// A text has a piece, and a text with one piece only is that piece.
proof fn lemma_some_piece(t: Seq<char>)
    ensures
        text::pieces(t, '\n').len() >= 1,
        text::pieces(t, '\n').len() == 1 ==> text::pieces(t, '\n')[0] == t,
    decreases t.len(),
{
    text::lemma_first_index(t, '\n');
    if t.contains('\n') {
        lemma_some_piece(text::after_first(t, '\n'));
    }
}

/// A finished line stays as it is, whatever follows.
pub proof fn law_finished_lines_stay(s: RenderModel, events: Seq<MdEventModel>)
    ensures
        s.lines.len() <= s.after_all(events).lines.len(),
        s.after_all(events).lines.take(s.lines.len() as int) == s.lines,
    decreases events.len(),
{
    if events.len() == 0 {
        assert(s.lines.take(s.lines.len() as int) =~= s.lines);
    } else {
        law_finished_lines_stay(s, events.drop_last());
        let t = s.after_all(events.drop_last());
        let u = t.after(events.last());
        assert(u.lines.len() >= t.lines.len());
        assert(u.lines.take(t.lines.len() as int) =~= t.lines);
        assert(u.lines.take(s.lines.len() as int) =~= u.lines.take(t.lines.len() as int).take(
            s.lines.len() as int,
        ));
    }
}

/// A document shows all of its finished lines, and the one that was in the making at its end,
/// where that has any text; a document without events shows nothing.
pub proof fn law_last_line_is_shown(events: Seq<MdEventModel>, theme: ThemeModel)
    ensures
        ({
            let t = RenderModel::fresh(theme).after_all(events);
            &&& t.current.len() > 0 ==> rendered(events, theme) == t.lines.push(t.current)
            &&& t.current.len() == 0 ==> rendered(events, theme) == t.lines
        }),
        rendered(Seq::empty(), theme).len() == 0,
{
    assert(RenderModel::fresh(theme).after_all(Seq::empty()) == RenderModel::fresh(theme));
}

/// A document begins without text, lists or links, in plain text.
pub proof fn law_document_begins_plain(theme: ThemeModel)
    ensures
        ({
            let s = RenderModel::fresh(theme);
            &&& s.theme == theme
            &&& s.lines.len() == 0 && s.current.len() == 0 && s.lists.len() == 0 && s.link is None
            &&& !s.bold && !s.italic && !s.heading && !s.quote && !s.in_code_block
        }),
{
}

} // verus!
