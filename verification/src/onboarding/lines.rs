//! Styled lines of text, ready to be drawn.

use vstd::prelude::*;

verus! {

/// The colours the sign-in screens use.
#[derive(Clone, Copy, Debug, PartialEq, Eq, Structural)]
pub enum TextColor {
    Cyan,
    Green,
    Red,
}

/// How a piece of text looks.
#[derive(Clone, Copy, Debug, PartialEq, Eq)]
pub struct TextStyle {
    pub fg: Option<TextColor>,
    pub dim: bool,
    pub bold: bool,
    pub underlined: bool,
}

impl TextStyle {
    /// Text without any style.
    pub open spec fn plain() -> Self {
        TextStyle { fg: None, dim: false, bold: false, underlined: false }
    }

    /// The style in the colour `color`.
    pub open spec fn colored(self, color: TextColor) -> Self {
        TextStyle { fg: Some(color), ..self }
    }

    /// The style, dimmed.
    pub open spec fn dimmed(self) -> Self {
        TextStyle { dim: true, ..self }
    }

    /// The style, in bold.
    pub open spec fn in_bold(self) -> Self {
        TextStyle { bold: true, ..self }
    }

    /// The style, underlined.
    pub open spec fn with_underline(self) -> Self {
        TextStyle { underlined: true, ..self }
    }

    /// Text without any style.
    pub fn unstyled() -> (style: Self)
        ensures
            style == Self::plain(),
    {
        TextStyle { fg: None, dim: false, bold: false, underlined: false }
    }

    /// This style in a colour.
    pub fn fg(self, color: TextColor) -> (style: Self)
        ensures
            style == self.colored(color),
    {
        TextStyle { fg: Some(color), ..self }
    }

    /// This style, dimmed.
    pub fn dim(self) -> (style: Self)
        ensures
            style == self.dimmed(),
    {
        TextStyle { dim: true, ..self }
    }

    /// This style, in bold.
    pub fn bold(self) -> (style: Self)
        ensures
            style == self.in_bold(),
    {
        TextStyle { bold: true, ..self }
    }

    /// This style, underlined.
    pub fn underlined(self) -> (style: Self)
        ensures
            style == self.with_underline(),
    {
        TextStyle { underlined: true, ..self }
    }
}

/// A piece of a line.
#[derive(Debug, PartialEq, Eq)]
pub struct TextSpan {
    pub text: String,
    pub style: TextStyle,
}

/// A line: raw text, or pieces with a style each. The line's own style lies beneath.
#[derive(Debug, PartialEq, Eq)]
pub enum TextLine {
    Raw { text: String, style: TextStyle },
    Spans { spans: Vec<TextSpan>, style: TextStyle },
}

/// The content of a [`TextSpan`].
pub struct TextSpanView {
    pub text: Seq<char>,
    pub style: TextStyle,
}

/// The content of a [`TextLine`].
pub enum TextLineView {
    Raw { text: Seq<char>, style: TextStyle },
    Spans { spans: Seq<TextSpanView>, style: TextStyle },
}

impl View for TextSpan {
    type V = TextSpanView;

    open spec fn view(&self) -> TextSpanView {
        TextSpanView { text: self.text@, style: self.style }
    }
}

/// The contents of the pieces of a line.
pub open spec fn spans_view(spans: Seq<TextSpan>) -> Seq<TextSpanView> {
    Seq::new(spans.len(), |i: int| spans[i]@)
}

impl View for TextLine {
    type V = TextLineView;

    open spec fn view(&self) -> TextLineView {
        match self {
            TextLine::Raw { text, style } => TextLineView::Raw { text: text@, style: *style },
            TextLine::Spans { spans, style } => TextLineView::Spans {
                spans: spans_view(spans@),
                style: *style,
            },
        }
    }
}

/// The contents of a list of lines.
pub open spec fn lines_view(lines: Seq<TextLine>) -> Seq<TextLineView> {
    Seq::new(lines.len(), |i: int| lines[i]@)
}

/// A line of unstyled text.
pub open spec fn raw_line(text: Seq<char>) -> TextLineView {
    TextLineView::Raw { text, style: TextStyle::plain() }
}

/// A line of text in one style.
pub open spec fn styled_line(text: Seq<char>, style: TextStyle) -> TextLineView {
    TextLineView::Spans { spans: seq![TextSpanView { text, style }], style: TextStyle::plain() }
}

/// A line of two pieces.
pub open spec fn line_of_two(
    first: (Seq<char>, TextStyle),
    second: (Seq<char>, TextStyle),
) -> TextLineView {
    TextLineView::Spans {
        spans: seq![
            TextSpanView { text: first.0, style: first.1 },
            TextSpanView { text: second.0, style: second.1 },
        ],
        style: TextStyle::plain(),
    }
}

/// The same line with `style` beneath.
pub open spec fn on_style(line: TextLineView, style: TextStyle) -> TextLineView {
    match line {
        TextLineView::Raw { text, .. } => TextLineView::Raw { text, style },
        TextLineView::Spans { spans, .. } => TextLineView::Spans { spans, style },
    }
}

/// A line of unstyled text.
pub fn raw(text: &str) -> (line: TextLine)
    ensures
        line@ == raw_line(text@),
{
    TextLine::Raw { text: text.to_string(), style: TextStyle::unstyled() }
}

/// A line of text in one style.
pub fn styled(text: &str, style: TextStyle) -> (line: TextLine)
    ensures
        line@ == styled_line(text@, style),
{
    let spans = vec![TextSpan { text: text.to_string(), style }];
    assert(spans_view(spans@) =~= seq![TextSpanView { text: text@, style }]);
    TextLine::Spans { spans, style: TextStyle::unstyled() }
}

/// A line of two pieces.
pub fn two_spans(
    first: &str,
    first_style: TextStyle,
    second: &str,
    second_style: TextStyle,
) -> (line: TextLine)
    ensures
        line@ == line_of_two((first@, first_style), (second@, second_style)),
{
    let spans = vec![
        TextSpan { text: first.to_string(), style: first_style },
        TextSpan { text: second.to_string(), style: second_style },
    ];
    assert(spans_view(spans@) =~= seq![
        TextSpanView { text: first@, style: first_style },
        TextSpanView { text: second@, style: second_style },
    ]);
    TextLine::Spans { spans, style: TextStyle::unstyled() }
}

/// The same line with `style` beneath.
pub fn over(line: TextLine, style: TextStyle) -> (styled: TextLine)
    ensures
        styled@ == on_style(line@, style),
{
    match line {
        TextLine::Raw { text, .. } => TextLine::Raw { text, style },
        TextLine::Spans { spans, .. } => TextLine::Spans { spans, style },
    }
}

/// A style starts out with nothing, and each change sets what it is about and keeps the rest.
pub proof fn law_styles_are_built_up(style: TextStyle, color: TextColor)
    ensures
        TextStyle::plain().fg is None,
        !TextStyle::plain().dim && !TextStyle::plain().bold && !TextStyle::plain().underlined,
        style.colored(color).fg == Some(color),
        (TextStyle { fg: style.fg, ..style.colored(color) }) == style,
        style.dimmed().dim,
        (TextStyle { dim: style.dim, ..style.dimmed() }) == style,
        style.in_bold().bold,
        (TextStyle { bold: style.bold, ..style.in_bold() }) == style,
        style.with_underline().underlined,
        (TextStyle { underlined: style.underlined, ..style.with_underline() }) == style,
{
}

/// Each kind of line holds its texts with their styles, in order, with no style beneath.
pub proof fn law_content_of_lines(
    text: Seq<char>,
    style: TextStyle,
    next: Seq<char>,
    next_style: TextStyle,
)
    ensures
        ({
            let none = TextStyle { fg: None, dim: false, bold: false, underlined: false };
            &&& raw_line(text) == (TextLineView::Raw { text, style: none })
            &&& styled_line(text, style) matches TextLineView::Spans { spans, style: beneath }
                && beneath == none && spans.len() == 1 && spans[0] == (TextSpanView { text, style })
            &&& line_of_two((text, style), (next, next_style)) matches TextLineView::Spans {
                spans,
                style: beneath,
            } && beneath == none && spans.len() == 2 && spans[0] == (TextSpanView { text, style })
                && spans[1] == (TextSpanView { text: next, style: next_style })
        }),
{
}

/// A style beneath a line changes nothing above it.
pub proof fn law_style_beneath_a_line(line: TextLineView, beneath: TextStyle)
    ensures
        match (line, on_style(line, beneath)) {
            (TextLineView::Raw { text, .. }, TextLineView::Raw { text: after, style }) => after
                == text && style == beneath,
            (TextLineView::Spans { spans, .. }, TextLineView::Spans { spans: after, style }) => after
                == spans && style == beneath,
            _ => false,
        },
{
}

/// What a line shows are its texts with their styles, and a list of lines keeps its order.
pub proof fn law_shown_lines(line: TextLine, lines: Seq<TextLine>, spans: Seq<TextSpan>)
    ensures
        match line {
            TextLine::Raw { text, style } => line@ == (TextLineView::Raw { text: text@, style }),
            TextLine::Spans { spans, style } => line@ == (TextLineView::Spans {
                spans: spans_view(spans@),
                style,
            }),
        },
        lines_view(lines).len() == lines.len(),
        forall|i: int| 0 <= i < lines.len() ==> lines_view(lines)[i] == (#[trigger] lines[i])@,
        spans_view(spans).len() == spans.len(),
        forall|i: int|
            0 <= i < spans.len() ==> spans_view(spans)[i] == (TextSpanView {
                text: (#[trigger] spans[i]).text@,
                style: spans[i].style,
            }),
{
}

} // verus!
