//! Styled text: what is drawn, free of any terminal library.

use vstd::prelude::*;
use crate::text;
use crate::text::lines_of;

verus! {

/// A color.
#[derive(Debug, Clone, Copy, PartialEq, Eq, Structural)]
pub enum Color {
    Rgb(u8, u8, u8),
    White,
    Gray,
    DarkGray,
}

/// How a piece of text looks.
#[derive(Debug, Clone, Copy, PartialEq, Eq, Structural)]
pub struct Style {
    pub fg: Option<Color>,
    pub bold: bool,
    pub italic: bool,
    pub reversed: bool,
}

/// Text as the terminal shows it by default.
pub open spec fn unstyled() -> Style {
    Style { fg: None, bold: false, italic: false, reversed: false }
}

/// Text in a color.
pub open spec fn colored(c: Color) -> Style {
    Style { fg: Some(c), ..unstyled() }
}

/// Bold text in a color.
pub open spec fn strong(c: Color) -> Style {
    Style { bold: true, ..colored(c) }
}

/// Bold, reversed text in a color: what is selected.
pub open spec fn marked(c: Color) -> Style {
    Style { reversed: true, ..strong(c) }
}

impl Style {
    /// Text as the terminal shows it by default.
    pub fn plain() -> (r: Style)
        ensures
            r == unstyled(),
    {
        Style { fg: None, bold: false, italic: false, reversed: false }
    }

    /// Text in a color.
    pub fn of(c: Color) -> (r: Style)
        ensures
            r == colored(c),
    {
        Style { fg: Some(c), bold: false, italic: false, reversed: false }
    }

    /// Bold text in a color.
    pub fn bold_of(c: Color) -> (r: Style)
        ensures
            r == strong(c),
    {
        Style { fg: Some(c), bold: true, italic: false, reversed: false }
    }

    /// Bold, reversed text in a color: what is selected.
    pub fn marked_of(c: Color) -> (r: Style)
        ensures
            r == marked(c),
    {
        Style { fg: Some(c), bold: true, italic: false, reversed: true }
    }
}

/// A piece of text in one style.
#[derive(Debug)]
pub struct Span {
    pub content: String,
    pub style: Style,
}

/// A piece of text as mathematical values.
pub struct SpanModel {
    pub content: Seq<char>,
    pub style: Style,
}

impl View for Span {
    type V = SpanModel;

    open spec fn view(&self) -> SpanModel {
        SpanModel { content: self.content@, style: self.style }
    }
}

impl DeepView for Span {
    type V = SpanModel;

    open spec fn deep_view(&self) -> SpanModel {
        self@
    }
}

/// A line of styled text.
#[derive(Debug)]
pub struct StyledLine {
    pub spans: Vec<Span>,
}

impl View for StyledLine {
    type V = Seq<SpanModel>;

    open spec fn view(&self) -> Seq<SpanModel> {
        self.spans.deep_view()
    }
}

impl DeepView for StyledLine {
    type V = Seq<SpanModel>;

    open spec fn deep_view(&self) -> Seq<SpanModel> {
        self@
    }
}

/// A piece of text in one style.
pub open spec fn piece(content: Seq<char>, style: Style) -> SpanModel {
    SpanModel { content, style }
}

/// A line of one piece.
pub open spec fn line1(content: Seq<char>, style: Style) -> Seq<SpanModel> {
    seq![piece(content, style)]
}

/// An unstyled text as a line: one piece for each line of the text.
pub open spec fn raw(content: Seq<char>) -> Seq<SpanModel> {
    text::text_lines(content).map_values(|l: Seq<char>| piece(l, unstyled()))
}

/// A piece of text in one style.
pub fn span(content: String, style: Style) -> (r: Span)
    ensures
        r@ == piece(content@, style),
{
    Span { content, style }
}

/// A piece of text in one style.
pub fn span_str(content: &str, style: Style) -> (r: Span)
    ensures
        r@ == piece(content@, style),
{
    Span { content: content.to_string(), style }
}

impl StyledLine {
    /// A line without any text.
    pub fn empty() -> (r: StyledLine)
        ensures
            r@ == Seq::<SpanModel>::empty(),
    {
        let r = StyledLine { spans: Vec::new() };
        assert(r@ =~= Seq::<SpanModel>::empty());
        r
    }

    /// A line of one piece.
    pub fn one(content: String, style: Style) -> (r: StyledLine)
        ensures
            r@ == line1(content@, style),
    {
        let r = StyledLine { spans: vec![Span { content, style }] };
        assert(r@ =~= line1(content@, style));
        r
    }

    /// A line of one piece.
    pub fn one_str(content: &str, style: Style) -> (r: StyledLine)
        ensures
            r@ == line1(content@, style),
    {
        StyledLine::one(content.to_string(), style)
    }

    /// A line of two pieces.
    pub fn two(a: Span, b: Span) -> (r: StyledLine)
        ensures
            r@ == seq![a@, b@],
    {
        let r = StyledLine { spans: vec![a, b] };
        assert(r@ =~= seq![a@, b@]);
        r
    }

    /// A line of three pieces.
    pub fn three(a: Span, b: Span, c: Span) -> (r: StyledLine)
        ensures
            r@ == seq![a@, b@, c@],
    {
        let r = StyledLine { spans: vec![a, b, c] };
        assert(r@ =~= seq![a@, b@, c@]);
        r
    }

    /// An unstyled text as a line: one piece for each line of the text.
    pub fn plain(content: &str) -> (r: StyledLine)
        ensures
            r@ == raw(content@),
    {
        let parts = lines_of(content);
        let mut spans: Vec<Span> = Vec::new();
        let mut i: usize = 0;
        while i < parts.len()
            invariant
                parts.deep_view() == text::text_lines(content@),
                i <= parts@.len(),
                spans@.len() == i,
                forall|j: int|
                    0 <= j < i ==> (#[trigger] spans@[j])@ == piece(
                        text::text_lines(content@)[j],
                        unstyled(),
                    ),
            decreases parts@.len() - i,
        {
            assert(parts@[i as int]@ == text::text_lines(content@)[i as int]);
            spans.push(Span { content: parts[i].clone(), style: Style::plain() });
            i = i + 1;
        }
        let r = StyledLine { spans };
        assert(parts@.len() == parts.deep_view().len());
        assert(r@ =~= raw(content@));
        r
    }
}

/// Puts a line at the end.
pub fn push_line(lines: &mut Vec<StyledLine>, line: StyledLine)
    ensures
        final(lines).deep_view() == old(lines).deep_view().push(line@),
{
    let ghost before = lines.deep_view();
    lines.push(line);
    assert(lines.deep_view() =~= before.push(line@));
}

/// Puts a piece at the end.
pub fn push_span(spans: &mut Vec<Span>, s: Span)
    ensures
        final(spans).deep_view() == old(spans).deep_view().push(s@),
{
    let ghost before = spans.deep_view();
    spans.push(s);
    assert(spans.deep_view() =~= before.push(s@));
}

/// Puts lines at the end.
pub fn append_lines(lines: &mut Vec<StyledLine>, more: Vec<StyledLine>)
    ensures
        final(lines).deep_view() == old(lines).deep_view() + more.deep_view(),
{
    let ghost before = lines.deep_view();
    let ghost added = more.deep_view();
    let mut more = more;
    lines.append(&mut more);
    assert(lines.deep_view() =~= before + added);
}

/// Styles differ by what their names say: colored text is neither bold, italic nor reversed,
/// strong text is bold besides, and selected text is bold and reversed.
pub proof fn law_styles(c: Color)
    ensures
        unstyled().fg is None && !unstyled().bold && !unstyled().italic && !unstyled().reversed,
        colored(c).fg == Some(c) && !colored(c).bold && !colored(c).italic && !colored(c).reversed,
        strong(c).fg == Some(c) && strong(c).bold && !strong(c).italic && !strong(c).reversed,
        marked(c).fg == Some(c) && marked(c).bold && !marked(c).italic && marked(c).reversed,
{
}

/// A line of one piece holds that piece, and an unstyled text as a line loses nothing but its
/// line ends.
pub proof fn law_lines_hold_their_text(content: Seq<char>, style: Style)
    ensures
        line1(content, style).len() == 1,
        line1(content, style)[0].content == content,
        line1(content, style)[0].style == style,
        raw(content).len() == text::text_lines(content).len(),
        forall|i: int|
            0 <= i < raw(content).len() ==> (#[trigger] raw(content)[i]).content
                == text::text_lines(content)[i] && raw(content)[i].style == unstyled(),
{
}

} // verus!
