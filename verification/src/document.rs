//! Document lines and the styled runs they are drawn as.

use crate::style::{Foreground, StyledRun, TextStyle};
use crate::surface::{
    buffer_cells, draw_paragraph, empty_line, empty_text, grapheme_widths, measure,
    paragraph_cells, placeable, placeable_line, placeable_lines, placeable_text, push_line,
    push_run, spans_runs, text_lines,
};
use tui::buffer::Buffer;
use tui::text::{Spans, Text};
use vstd::hash_map::StringHashMap;
use vstd::pervasive::unreached;
use vstd::prelude::*;
use vstd::string::*;

verus! {

/// What a line of a document is.
pub enum LineType {
    Text,
    Link,
    Heading,
    UnorderedListItem,
    Blockquote,
    PreformattedText,
    Custom(String),
}

/// Why a line cannot be drawn.
#[derive(Clone, Copy, Debug, PartialEq, Eq, Structural)]
pub enum RenderError {
    /// A heading carries no `heading-level` attribute.
    MissingHeadingLevel,
    /// The line is of a kind that has no style yet.
    Unsupported,
    /// The viewport is `u16::MAX` columns wide, or its height and the scroll
    /// offset together exceed `u16::MAX`.
    ViewportOutOfRange,
    /// The text holds a symbol that the layout cannot place on a row of the
    /// viewport: one of no width, or one too wide.
    UnplaceableSymbol,
}

/// One line of a document: its kind, free-form attributes and literal text.
pub struct DocumentLine {
    pub line_type: LineType,
    pub attributes: StringHashMap<String>,
    pub text: String,
}

/// The colour of a heading of the given level: red, yellow and green for
/// levels 1 to 3, the default colour for any other level.
pub open spec fn heading_foreground(level: Seq<char>) -> Foreground {
    if level == "1"@ {
        Foreground::Red
    } else if level == "2"@ {
        Foreground::Yellow
    } else if level == "3"@ {
        Foreground::Green
    } else {
        Foreground::Default
    }
}

/// The bullet that is drawn before the text of a list item.
pub open spec fn bullet() -> Seq<char> {
    "  * "@
}

fn heading_colour(level: &String) -> (colour: Foreground)
    ensures
        colour == heading_foreground(level@),
{
    proof {
        reveal_strlit("1");
        reveal_strlit("2");
        reveal_strlit("3");
    }
    let level = level.as_str();
    if level.unicode_len() != 1 {
        return Foreground::Default;
    }
    let digit = level.get_char(0);
    if digit == '1' {
        assert(level@ =~= "1"@);
        Foreground::Red
    } else if digit == '2' {
        assert(level@ =~= "2"@);
        Foreground::Yellow
    } else if digit == '3' {
        assert(level@ =~= "3"@);
        Foreground::Green
    } else {
        Foreground::Default
    }
}

impl DocumentLine {
    /// The line has a style: it is of a styled kind and, if a heading, names its level.
    pub open spec fn renderable(&self) -> bool {
        match self.line_type {
            LineType::Text | LineType::Link | LineType::UnorderedListItem => true,
            LineType::Heading => self.attributes@.contains_key("heading-level"@),
            _ => false,
        }
    }

    /// Why a line that is not renderable is not.
    pub open spec fn render_error(&self) -> RenderError {
        if self.line_type is Heading {
            RenderError::MissingHeadingLevel
        } else {
            RenderError::Unsupported
        }
    }

    /// The style of the line's text before any highlight.
    pub open spec fn base_style(&self) -> TextStyle {
        match self.line_type {
            LineType::Link => TextStyle {
                foreground: Foreground::LightBlue,
                bold: false,
                reversed: false,
            },
            LineType::Heading => TextStyle {
                foreground: heading_foreground(self.attributes@["heading-level"@]@),
                bold: true,
                reversed: false,
            },
            _ => TextStyle::plain(),
        }
    }

    /// The runs the line is drawn as: its text in its base style, reversed
    /// when highlighted, and before the text of a list item a bullet that no
    /// highlight touches.
    pub open spec fn runs(&self, highlight: bool) -> Seq<StyledRun> {
        let body = StyledRun { text: self.text@, style: self.base_style().highlighted(highlight) };
        if self.line_type is UnorderedListItem {
            seq![StyledRun { text: bullet(), style: TextStyle::plain() }, body]
        } else {
            seq![body]
        }
    }

    /// Every symbol the line is drawn with can be placed on rows of `width` columns.
    pub open spec fn placeable(&self, width: u16) -> bool {
        placeable_line(self.runs(false), width)
    }

    /// Makes a line of the given kind without attributes or text.
    pub fn new(line_type: LineType) -> (line: DocumentLine)
        ensures
            line.line_type == line_type,
            line.attributes@ == Map::<Seq<char>, String>::empty(),
            line.text@ == Seq::<char>::empty(),
    {
        DocumentLine { line_type, attributes: StringHashMap::new(), text: String::new() }
    }

    fn style(&self) -> (style: Result<TextStyle, RenderError>)
        ensures
            match style {
                Ok(style) => self.renderable() && style == self.base_style(),
                Err(error) => !self.renderable() && error == self.render_error(),
            },
    {
        match &self.line_type {
            LineType::Text => Ok(TextStyle::plain()),
            LineType::UnorderedListItem => Ok(TextStyle::plain()),
            LineType::Link => Ok(TextStyle::coloured(Foreground::LightBlue)),
            LineType::Heading => match self.attributes.get("heading-level") {
                Some(level) => Ok(TextStyle::coloured(heading_colour(level)).emboldened()),
                None => Err(RenderError::MissingHeadingLevel),
            },
            _ => Err(RenderError::Unsupported),
        }
    }

    fn spans(&self, style: TextStyle, highlight: bool) -> (spans: Spans<'static>)
        requires
            style == self.base_style(),
        ensures
            spans_runs(spans) == self.runs(highlight),
    {
        let mut spans = empty_line();
        if let LineType::UnorderedListItem = &self.line_type {
            push_run(&mut spans, "  * ".to_owned(), TextStyle::plain());
        }
        push_run(&mut spans, self.text.clone(), style.highlighted(highlight));
        spans
    }

    /// Draws the line as styled runs, highlighted in reverse video or not.
    ///
    /// The line must have a style: a heading without a level, a blockquote,
    /// preformatted text and a custom line have none.
    pub fn generate_spans(&self, highlight: bool) -> (spans: Spans<'static>)
        requires
            self.renderable(),
        ensures
            spans_runs(spans) == self.runs(highlight),
    {
        match self.style() {
            Ok(style) => self.spans(style, highlight),
            Err(_) => unreached(),
        }
    }

    /// Draws the line as styled runs if it has a style, and says why it has
    /// none otherwise.
    pub fn try_generate_spans(&self, highlight: bool) -> (drawn: Result<Spans<'static>, RenderError>)
        ensures
            match drawn {
                Ok(spans) => self.renderable() && spans_runs(spans) == self.runs(highlight),
                Err(error) => !self.renderable() && error == self.render_error(),
            },
            self.line_type is Heading && !self.attributes@.contains_key("heading-level"@) ==> drawn
                is Err && drawn->Err_0 == RenderError::MissingHeadingLevel,
    {
        match self.style() {
            Ok(style) => Ok(self.spans(style, highlight)),
            Err(error) => Err(error),
        }
    }
}

fn text_fits(text: &String, width: u16) -> (ok: bool)
    ensures
        ok == placeable_text(text@, width),
{
    let widths = measure(text);
    let mut i: usize = 0;
    while i < widths.len()
        invariant
            i <= widths@.len(),
            widths@.len() == grapheme_widths(text@).len(),
            forall|k: int|
                0 <= k < widths@.len() ==> widths@[k] == #[trigger] grapheme_widths(text@)[k],
            forall|k: int| 0 <= k < i ==> placeable(#[trigger] grapheme_widths(text@)[k], width),
        decreases widths@.len() - i,
    {
        let symbol_width = widths[i];
        if symbol_width < 1 || symbol_width > 32768 || width as usize + 2 * symbol_width > 65536 {
            assert(!placeable(grapheme_widths(text@)[i as int], width));
            return false;
        }
        i += 1;
    }
    true
}

fn line_fits(line: &DocumentLine, width: u16) -> (ok: bool)
    ensures
        ok == line.placeable(width),
{
    if let LineType::UnorderedListItem = &line.line_type {
        if !text_fits(&"  * ".to_owned(), width) {
            assert(!placeable_text(line.runs(false)[0].text, width));
            return false;
        }
    }
    let ok = text_fits(&line.text, width);
    assert(line.runs(false).last().text == line.text@);
    ok
}

/// The error of the first line that has no style.
pub open spec fn first_style_error(lines: Seq<DocumentLine>) -> Option<RenderError>
    decreases lines.len(),
{
    if lines.len() == 0 {
        None
    } else if !lines[0].renderable() {
        Some(lines[0].render_error())
    } else {
        first_style_error(lines.drop_first())
    }
}

/// The viewport is one that the layout can work on: less than `u16::MAX`
/// columns wide, and with a last row whose number, counted from the top of
/// the page, fits a `u16`.
pub open spec fn viewport_in_range(scroll: u16, width: u16, height: u16) -> bool {
    scroll + height <= u16::MAX && width < u16::MAX
}

/// A document: its lines in display order and the number of wrapped rows
/// that are scrolled out of view above the viewport.
pub struct Page {
    pub lines: Vec<DocumentLine>,
    pub scroll: u16,
}

/// The scroll offset after a change by `amount`: the sum where that is not
/// negative, and the offset as it was where it is.
pub open spec fn scroll_after(scroll: int, amount: int) -> int {
    if scroll + amount >= 0 {
        scroll + amount
    } else {
        scroll
    }
}

impl Page {
    /// The page's text: each line's runs without highlight, in order.
    pub open spec fn text(&self) -> Seq<Seq<StyledRun>> {
        Seq::new(self.lines@.len(), |i: int| self.lines@[i].runs(false))
    }

    /// Every line has a style.
    pub open spec fn supported(&self) -> bool {
        forall|i: int| 0 <= i < self.lines@.len() ==> (#[trigger] self.lines@[i]).renderable()
    }

    /// Every symbol of every line can be placed on rows of `width` columns.
    pub open spec fn placeable(&self, width: u16) -> bool {
        forall|i: int| 0 <= i < self.lines@.len() ==> (#[trigger] self.lines@[i]).placeable(width)
    }

    /// The page can be drawn on a viewport of the given size.
    pub open spec fn can_render(&self, width: u16, height: u16) -> bool {
        &&& self.supported()
        &&& viewport_in_range(self.scroll, width, height)
        &&& self.placeable(width)
    }

    /// What keeps the page off a viewport of the given size, if anything: the
    /// error of the first line without a style; failing that, a viewport out
    /// of range; failing that, a symbol that cannot be placed.
    pub open spec fn fault(&self, width: u16, height: u16) -> Option<RenderError> {
        if !self.supported() {
            first_style_error(self.lines@)
        } else if !viewport_in_range(self.scroll, width, height) {
            Some(RenderError::ViewportOutOfRange)
        } else if !self.placeable(width) {
            Some(RenderError::UnplaceableSymbol)
        } else {
            None
        }
    }

    /// Makes a page without lines, scrolled to its top.
    pub fn new() -> (page: Page)
        ensures
            page.lines@.len() == 0,
            page.scroll == 0,
    {
        Page { lines: Vec::new(), scroll: 0 }
    }

    /// The page as one block of styled text: every line's runs without
    /// highlight, in document order, whatever the text of the lines is.
    ///
    /// Every line must have a style.
    pub fn styled_text(&self) -> (text: Text<'static>)
        requires
            self.supported(),
        ensures
            text_lines(text) == self.text(),
    {
        let mut text = empty_text();
        let mut i: usize = 0;
        while i < self.lines.len()
            invariant
                i <= self.lines@.len(),
                self.supported(),
                text_lines(text) == self.text().take(i as int),
            decreases self.lines@.len() - i,
        {
            let spans = self.lines[i].generate_spans(false);
            assert(self.text().take(i + 1) =~= self.text().take(i as int).push(
                self.lines@[i as int].runs(false),
            ));
            push_line(&mut text, spans);
            i += 1;
        }
        assert(self.text().take(i as int) =~= self.text());
        text
    }

    /// Draws the page on a fresh surface of `width` by `height` cells: the
    /// styled text of the page, wrapped at word boundaries to the width, from
    /// the row at the scroll offset on.
    ///
    /// Every line must have a style and symbols that can be placed, and the
    /// viewport must be in range.
    pub fn render(&self, width: u16, height: u16) -> (buffer: Buffer)
        requires
            self.can_render(width, height),
        ensures
            buffer_cells(buffer) == paragraph_cells(self.text(), self.scroll, width, height),
            width * height <= u16::MAX ==> buffer_cells(buffer).len() == width * height,
    {
        let text = self.styled_text();
        assert(placeable_lines(self.text(), width)) by {
            assert forall|i: int| 0 <= i < self.text().len() implies placeable_line(
                #[trigger] self.text()[i],
                width,
            ) by {
                assert(self.lines@[i].placeable(width));
            }
        }
        draw_paragraph(text, self.scroll, width, height)
    }

    /// Draws the page as `render` does if it can be drawn, and says why it
    /// cannot otherwise.
    pub fn try_render(&self, width: u16, height: u16) -> (drawn: Result<Buffer, RenderError>)
        ensures
            match drawn {
                Ok(buffer) => {
                    &&& self.can_render(width, height)
                    &&& buffer_cells(buffer) == paragraph_cells(
                        self.text(),
                        self.scroll,
                        width,
                        height,
                    )
                    &&& width * height <= u16::MAX ==> buffer_cells(buffer).len() == width * height
                },
                Err(error) => !self.can_render(width, height) && self.fault(width, height) == Some(
                    error,
                ),
            },
    {
        assert(self.lines@.skip(0) =~= self.lines@);
        let mut i: usize = 0;
        while i < self.lines.len()
            invariant
                i <= self.lines@.len(),
                first_style_error(self.lines@) == first_style_error(self.lines@.skip(i as int)),
                forall|j: int| 0 <= j < i ==> (#[trigger] self.lines@[j]).renderable(),
            decreases self.lines@.len() - i,
        {
            let line = &self.lines[i];
            proof {
                assert(self.lines@[i as int] == *line);
                assert(self.lines@.skip(i as int)[0] == *line);
                assert(self.lines@.skip(i as int).drop_first() =~= self.lines@.skip(i + 1));
            }
            if let Err(error) = line.style() {
                return Err(error);
            }
            i += 1;
        }
        if height > u16::MAX - self.scroll || width == u16::MAX {
            return Err(RenderError::ViewportOutOfRange);
        }
        let mut i: usize = 0;
        while i < self.lines.len()
            invariant
                i <= self.lines@.len(),
                self.supported(),
                viewport_in_range(self.scroll, width, height),
                forall|j: int| 0 <= j < i ==> (#[trigger] self.lines@[j]).placeable(width),
            decreases self.lines@.len() - i,
        {
            if !line_fits(&self.lines[i], width) {
                assert(!self.lines@[i as int].placeable(width));
                return Err(RenderError::UnplaceableSymbol);
            }
            i += 1;
        }
        Ok(self.render(width, height))
    }

    /// Moves the scroll offset by `amount` rows, and leaves it where it is if
    /// that would take it above the top of the page.
    ///
    /// The new offset must fit in a `u16`.
    pub fn change_scroll(&mut self, amount: i32)
        requires
            old(self).scroll + amount <= u16::MAX,
        ensures
            final(self).scroll == scroll_after(old(self).scroll as int, amount as int),
            final(self).lines == old(self).lines,
    {
        let target: i64 = self.scroll as i64 + amount as i64;
        if target >= 0 {
            self.scroll = target as u16;
        }
    }

    /// Sets the scroll offset.
    pub fn set_scroll(&mut self, scroll: u16)
        ensures
            final(self).scroll == scroll,
            final(self).lines == old(self).lines,
    {
        self.scroll = scroll;
    }

    /// The scroll offset.
    pub fn get_scroll(&self) -> (scroll: u16)
        ensures
            scroll == self.scroll,
    {
        self.scroll
    }
}

/// Every line has a style exactly when there is no first line without one.
pub proof fn lemma_first_style_error_none(lines: Seq<DocumentLine>)
    ensures
        first_style_error(lines) is None <==> forall|i: int|
            0 <= i < lines.len() ==> (#[trigger] lines[i]).renderable(),
    decreases lines.len(),
{
    if lines.len() > 0 {
        let rest = lines.drop_first();
        lemma_first_style_error_none(rest);
        if first_style_error(lines) is None {
            assert forall|i: int| 0 <= i < lines.len() implies (#[trigger] lines[i]).renderable() by {
                if i > 0 {
                    assert(lines[i] == rest[i - 1]);
                }
            }
        } else if lines[0].renderable() {
            let i = choose|i: int| 0 <= i < rest.len() && !(#[trigger] rest[i]).renderable();
            assert(rest[i] == lines[i + 1]);
        }
    }
}

/// A page has no fault on a viewport exactly when it can be drawn on it.
pub proof fn lemma_page_fault_none(page: Page, width: u16, height: u16)
    ensures
        page.fault(width, height) is None <==> page.can_render(width, height),
{
    lemma_first_style_error_none(page.lines@);
}

/// Whatever the page holds, no run of its text is reversed: each line goes
/// to the layout in its base style, without highlight.
pub proof fn lemma_text_never_reversed(page: Page)
    ensures
        page.text().len() == page.lines@.len(),
        forall|i: int|
            0 <= i < page.lines@.len() ==> #[trigger] page.text()[i] == page.lines@[i].runs(false),
        forall|i: int, j: int|
            0 <= i < page.text().len() && 0 <= j < page.text()[i].len() ==> {
                &&& !(#[trigger] page.text()[i][j]).style.reversed
                &&& page.text()[i][j].style.bold == (page.lines@[i].line_type is Heading)
            },
{
}

/// A page that holds a heading without a level is never drawn, on any
/// viewport: the fault it has is that of a line without a style.
pub proof fn lemma_page_with_heading_without_level(page: Page, i: int, width: u16, height: u16)
    requires
        0 <= i < page.lines@.len(),
        page.lines@[i].line_type is Heading,
        !page.lines@[i].attributes@.contains_key("heading-level"@),
    ensures
        !page.supported(),
        !page.can_render(width, height),
        page.fault(width, height) == first_style_error(page.lines@),
        page.fault(width, height) is Some,
{
    lemma_first_style_error_none(page.lines@);
}

/// A heading of level 2 is drawn as one bold yellow run whether it is
/// highlighted or not, and the run is reversed exactly when it is.
pub proof fn lemma_heading_level_two(line: DocumentLine, highlight: bool)
    requires
        line.line_type is Heading,
        line.attributes@.contains_key("heading-level"@),
        line.attributes@["heading-level"@]@ == "2"@,
    ensures
        line.renderable(),
        line.runs(highlight) == seq![
            StyledRun {
                text: line.text@,
                style: TextStyle { foreground: Foreground::Yellow, bold: true, reversed: highlight },
            },
        ],
{
    reveal_strlit("1");
    reveal_strlit("2");
    assert("1"@[0] != "2"@[0]);
}

/// Every heading that names its level is drawn as one bold run of its text,
/// coloured by the level and reversed exactly when highlighted.
pub proof fn lemma_heading_runs(line: DocumentLine, highlight: bool)
    requires
        line.line_type is Heading,
        line.attributes@.contains_key("heading-level"@),
    ensures
        line.renderable(),
        line.runs(highlight) == seq![
            StyledRun {
                text: line.text@,
                style: TextStyle {
                    foreground: heading_foreground(line.attributes@["heading-level"@]@),
                    bold: true,
                    reversed: highlight,
                },
            },
        ],
{
}

/// A list item is drawn as two runs: the bullet, never reversed, and then
/// the item's text, reversed exactly when the item is highlighted.
pub proof fn lemma_list_item_runs(line: DocumentLine, highlight: bool)
    requires
        line.line_type is UnorderedListItem,
    ensures
        line.renderable(),
        line.runs(highlight) == seq![
            StyledRun {
                text: "  * "@,
                style: TextStyle { foreground: Foreground::Default, bold: false, reversed: false },
            },
            StyledRun {
                text: line.text@,
                style: TextStyle {
                    foreground: Foreground::Default,
                    bold: false,
                    reversed: highlight,
                },
            },
        ],
{
}

/// A heading that names no level has no style: it is not renderable, and the
/// reason given is the missing level.
pub proof fn lemma_heading_without_level(line: DocumentLine)
    requires
        line.line_type is Heading,
        !line.attributes@.contains_key("heading-level"@),
    ensures
        !line.renderable(),
        line.render_error() == RenderError::MissingHeadingLevel,
{
}

/// A highlight changes nothing of a line but the reversal of its text: the
/// number of runs, their text, colour and weight stay as they are.
pub proof fn lemma_highlight_only_reverses(line: DocumentLine)
    ensures
        line.runs(true).len() == line.runs(false).len(),
        forall|i: int|
            0 <= i < line.runs(false).len() ==> {
                &&& (#[trigger] line.runs(true)[i]).text == line.runs(false)[i].text
                &&& line.runs(true)[i].style.foreground == line.runs(false)[i].style.foreground
                &&& line.runs(true)[i].style.bold == line.runs(false)[i].style.bold
            },
{
}

/// A scroll offset never goes below zero: a change that would take it there
/// leaves it as it was, and every other change adds to it.
pub proof fn lemma_scroll_after(scroll: int, amount: int)
    requires
        scroll >= 0,
    ensures
        scroll_after(scroll, amount) >= 0,
        scroll + amount >= 0 ==> scroll_after(scroll, amount) == scroll + amount,
        scroll + amount < 0 ==> scroll_after(scroll, amount) == scroll,
        amount >= 0 ==> scroll_after(scroll, amount) == scroll + amount,
{
}

} // verus!
