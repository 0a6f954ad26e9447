//! The terminal toolkit's text containers and paragraph layout, as the rest
//! of the library sees them.
//!
//! A line of styled text, a block of such lines and a grid of drawn cells are
//! values of the toolkit. Their contents are spoken of through names,
//! and every operation on them is a thin call into the toolkit whose contract
//! is taken on trust from the toolkit's source.

use crate::style::{Foreground, StyledRun, TextStyle};
use tui::buffer::Buffer;
use tui::layout::Rect;
use tui::style::{Color, Modifier, Style};
use tui::text::{Span, Spans, Text};
use tui::widgets::{Paragraph, Widget, Wrap};
use vstd::prelude::*;

verus! {

/// `tui::text::Spans`: one line of text made of runs that each have a style.
#[verifier::external_type_specification]
#[verifier::external_body]
pub struct ExSpans<'a>(Spans<'a>);

/// `tui::text::Text`: a block of text, one `Spans` per line.
#[verifier::external_type_specification]
#[verifier::external_body]
pub struct ExText<'a>(Text<'a>);

/// `tui::buffer::Buffer`: a rectangular grid of drawn cells.
#[verifier::external_type_specification]
#[verifier::external_body]
pub struct ExBuffer(Buffer);

/// The runs that a line holds, first to last: the content of each span and
/// the style it carries.
pub uninterp spec fn spans_runs(line: Spans<'static>) -> Seq<StyledRun>;

/// The lines that a block of text holds, top to bottom, each as its runs.
pub uninterp spec fn text_lines(text: Text<'static>) -> Seq<Seq<StyledRun>>;

/// The cells of a grid, row after row: the symbol in each cell and the style
/// it is drawn in.
pub uninterp spec fn buffer_cells(buffer: Buffer) -> Seq<StyledRun>;

/// The cells that the toolkit's paragraph layout gives for `lines`, wrapped
/// at word boundaries to `width` columns without trimming, with the first
/// `scroll` wrapped rows skipped and the rest clipped to `height` rows.
pub uninterp spec fn paragraph_cells(
    lines: Seq<Seq<StyledRun>>,
    scroll: u16,
    width: u16,
    height: u16,
) -> Seq<StyledRun>;

/// The widths, in columns, that the toolkit measures of the symbols of a
/// text, first to last. A symbol is what the toolkit puts in one cell: a
/// grapheme cluster other than a line feed.
pub uninterp spec fn grapheme_widths(text: Seq<char>) -> Seq<nat>;

/// A symbol of this width can be placed on rows of `width` columns: it takes
/// at least one column, and a row that has overrun by it twice still has a
/// width that fits a `u16`.
pub open spec fn placeable(symbol_width: nat, width: u16) -> bool {
    1 <= symbol_width && width + 2 * symbol_width <= u16::MAX + 1
}

/// Every symbol of the text can be placed on rows of `width` columns.
pub open spec fn placeable_text(text: Seq<char>, width: u16) -> bool {
    forall|k: int|
        0 <= k < grapheme_widths(text).len() ==> placeable(
            #[trigger] grapheme_widths(text)[k],
            width,
        )
}

/// Every run of the line holds text that can be placed.
pub open spec fn placeable_line(runs: Seq<StyledRun>, width: u16) -> bool {
    forall|j: int| 0 <= j < runs.len() ==> placeable_text(#[trigger] runs[j].text, width)
}

/// Every line holds text that can be placed.
pub open spec fn placeable_lines(lines: Seq<Seq<StyledRun>>, width: u16) -> bool {
    forall|i: int| 0 <= i < lines.len() ==> placeable_line(#[trigger] lines[i], width)
}

/// `Span::styled_graphemes` on a span of the text, and `Span::width` of each
/// symbol it yields: the widths of the text's symbols as the paragraph layout
/// will see them.
#[verifier::external_body]
pub(crate) fn measure(text: &String) -> (widths: Vec<usize>)
    ensures
        widths@.len() == grapheme_widths(text@).len(),
        forall|i: int|
            0 <= i < widths@.len() ==> widths@[i] == #[trigger] grapheme_widths(text@)[i],
{
    let span = Span::raw(text.as_str());
    span.styled_graphemes(Style::default()).map(|g| Span::raw(g.symbol).width()).collect()
}

/// `Spans::default`: a line without runs.
#[verifier::external_body]
pub(crate) fn empty_line() -> (line: Spans<'static>)
    ensures
        spans_runs(line) == Seq::<StyledRun>::empty(),
{
    Spans::default()
}

/// `Span::styled`, pushed onto the vector inside `Spans`: the line gains one
/// run at its end, with the given content and with the toolkit's style that
/// `style` stands for. The colour is set with `Style::fg` unless it is the
/// default one, and bold and reverse video are added with
/// `Style::add_modifier`.
#[verifier::external_body]
pub(crate) fn push_run(line: &mut Spans<'static>, content: String, style: TextStyle)
    ensures
        spans_runs(*final(line)) == spans_runs(*old(line)).push(
            StyledRun { text: content@, style },
        ),
{
    let base = match style.foreground {
        Foreground::Default => Style::default(),
        Foreground::LightBlue => Style::default().fg(Color::LightBlue),
        Foreground::Red => Style::default().fg(Color::Red),
        Foreground::Yellow => Style::default().fg(Color::Yellow),
        Foreground::Green => Style::default().fg(Color::Green),
    };
    let mut modifier = Modifier::empty();
    modifier.set(Modifier::BOLD, style.bold);
    modifier.set(Modifier::REVERSED, style.reversed);
    line.0.push(Span::styled(content, base.add_modifier(modifier)));
}

/// `Text::default`: a block of text without lines.
#[verifier::external_body]
pub(crate) fn empty_text() -> (text: Text<'static>)
    ensures
        text_lines(text) == Seq::<Seq<StyledRun>>::empty(),
{
    Text::default()
}

/// `Text::extend` with `Text::from(line)`: the block gains `line` as its last line.
#[verifier::external_body]
pub(crate) fn push_line(text: &mut Text<'static>, line: Spans<'static>)
    ensures
        text_lines(*final(text)) == text_lines(*old(text)).push(spans_runs(line)),
{
    text.extend(Text::from(line));
}

/// `Paragraph::render` with `Wrap { trim: false }` and a vertical scroll of
/// `scroll`, into a fresh `Buffer::empty` over `Rect::new(0, 0, width, height)`.
///
/// What is drawn depends on the text, the scroll and the two sizes alone, and
/// a grid of at most `u16::MAX` cells has exactly the size asked for.
///
/// The toolkit computes in `u16` and asserts its cell positions, so the
/// input must keep three things true.
/// - It adds the scroll to the height: the sum must fit.
/// - It draws a symbol at the column that the widths before it in its row
///   add up to. When no symbol has zero width, a symbol that would start at
///   or past the row's end makes the row overrun and is taken off it, so
///   every symbol that stays starts inside the row.
/// - It tests for an overrun only after it has added a symbol's width to the
///   row's. Before that the row is at most `width` wide, or it is the rest
///   of an overrun row carried over, which is less than `width` plus one
///   symbol. With one more symbol the sum stays below `width` plus twice the
///   widest symbol, and `placeable` keeps that within `u16`. For symbols one
///   column wide this is `width < u16::MAX`.
#[verifier::external_body]
pub(crate) fn draw_paragraph(text: Text<'static>, scroll: u16, width: u16, height: u16) -> (buffer:
    Buffer)
    requires
        placeable_lines(text_lines(text), width),
        scroll + height <= u16::MAX,
        width < u16::MAX,
    ensures
        buffer_cells(buffer) == paragraph_cells(text_lines(text), scroll, width, height),
        width * height <= u16::MAX ==> buffer_cells(buffer).len() == width * height,
{
    let area = Rect::new(0, 0, width, height);
    let mut buffer = Buffer::empty(area);
    Paragraph::new(text).wrap(Wrap { trim: false }).scroll((scroll, 0)).render(area, &mut buffer);
    buffer
}

} // verus!
