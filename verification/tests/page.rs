use docview::document::{DocumentLine, LineType, Page, RenderError};
use tui::buffer::Buffer;
use tui::style::{Color, Modifier};

fn line(kind: LineType, text: &str) -> DocumentLine {
    let mut line = DocumentLine::new(kind);
    line.text = String::from(text);
    line
}

fn heading(level: &str, text: &str) -> DocumentLine {
    let mut line = line(LineType::Heading, text);
    line.attributes.insert(String::from("heading-level"), String::from(level));
    line
}

fn title_and_body() -> Page {
    let mut page = Page::new();
    page.lines.push(heading("1", "Title"));
    page.lines.push(line(LineType::Text, "Body"));
    page
}

fn row(buffer: &Buffer, y: u16) -> String {
    let mut text = String::new();
    for x in 0..buffer.area.width {
        text.push_str(&buffer.get(x, y).symbol);
    }
    text
}

#[test]
fn a_new_page_is_empty_and_at_its_top() {
    let page = Page::new();
    assert!(page.lines.is_empty());
    assert_eq!(page.get_scroll(), 0);
}

#[test]
fn change_scroll_at_the_top_ignores_a_move_up() {
    let mut page = Page::new();
    page.change_scroll(-5);
    assert_eq!(page.get_scroll(), 0);
}

#[test]
fn change_scroll_ignores_a_move_past_the_top() {
    let mut page = Page::new();
    page.set_scroll(3);
    page.change_scroll(-5);
    assert_eq!(page.get_scroll(), 3);
}

#[test]
fn change_scroll_moves_up() {
    let mut page = Page::new();
    page.set_scroll(3);
    page.change_scroll(-2);
    assert_eq!(page.get_scroll(), 1);
    page.change_scroll(-1);
    assert_eq!(page.get_scroll(), 0);
}

#[test]
fn change_scroll_moves_down() {
    let mut page = Page::new();
    page.set_scroll(3);
    page.change_scroll(4);
    assert_eq!(page.get_scroll(), 7);
    page.change_scroll(0);
    assert_eq!(page.get_scroll(), 7);
}

#[test]
fn change_scroll_reaches_both_ends_of_the_range() {
    let mut page = Page::new();
    page.change_scroll(65535);
    assert_eq!(page.get_scroll(), 65535);
    page.change_scroll(-65535);
    assert_eq!(page.get_scroll(), 0);
    page.change_scroll(i32::MIN);
    assert_eq!(page.get_scroll(), 0);
}

#[test]
fn change_scroll_keeps_the_lines() {
    let mut page = title_and_body();
    page.change_scroll(1);
    assert_eq!(page.lines.len(), 2);
    assert_eq!(page.lines[1].text, "Body");
}

#[test]
fn set_scroll_sets_any_offset() {
    let mut page = Page::new();
    page.set_scroll(40000);
    assert_eq!(page.get_scroll(), 40000);
    page.set_scroll(0);
    assert_eq!(page.get_scroll(), 0);
}

#[test]
fn render_shows_each_line_on_its_row() {
    let page = title_and_body();
    let buffer = page.render(10, 2);
    assert_eq!(buffer.area.width, 10);
    assert_eq!(buffer.area.height, 2);
    assert_eq!(buffer.content.len(), 20);
    assert_eq!(row(&buffer, 0), "Title     ");
    assert_eq!(row(&buffer, 1), "Body      ");
    for x in 0..5 {
        let cell = buffer.get(x, 0);
        assert_eq!(cell.fg, Color::Red);
        assert_eq!(cell.modifier, Modifier::BOLD);
    }
    for x in 0..10 {
        let cell = buffer.get(x, 1);
        assert_eq!(cell.fg, Color::Reset);
        assert_eq!(cell.modifier, Modifier::empty());
    }
}

#[test]
fn render_skips_the_rows_scrolled_away() {
    let mut page = title_and_body();
    page.set_scroll(1);
    let buffer = page.render(10, 2);
    assert_eq!(row(&buffer, 0), "Body      ");
    assert_eq!(row(&buffer, 1), "          ");
    assert_eq!(buffer.get(0, 0).fg, Color::Reset);
    assert_eq!(buffer.get(0, 0).modifier, Modifier::empty());
}

#[test]
fn render_past_the_end_is_blank() {
    let mut page = title_and_body();
    page.set_scroll(50);
    let buffer = page.render(10, 3);
    for y in 0..3 {
        assert_eq!(row(&buffer, y), "          ");
    }
}

#[test]
fn render_clips_to_the_height() {
    let page = title_and_body();
    let buffer = page.render(10, 1);
    assert_eq!(buffer.content.len(), 10);
    assert_eq!(row(&buffer, 0), "Title     ");
}

#[test]
fn render_wraps_at_word_boundaries() {
    let mut page = Page::new();
    page.lines.push(line(LineType::Text, "one two three four"));
    let buffer = page.render(9, 4);
    assert_eq!(row(&buffer, 0), "one two  ");
    assert_eq!(row(&buffer, 1), "three    ");
    assert_eq!(row(&buffer, 2), "four     ");
    assert_eq!(row(&buffer, 3), "         ");
}

#[test]
fn render_keeps_the_indentation_of_a_list_item() {
    let mut page = Page::new();
    page.lines.push(line(LineType::UnorderedListItem, "List item 1"));
    let buffer = page.render(20, 1);
    assert_eq!(row(&buffer, 0), "  * List item 1     ");
}

#[test]
fn render_does_not_highlight() {
    let mut page = Page::new();
    page.lines.push(line(LineType::Link, "there"));
    let buffer = page.render(5, 1);
    for x in 0..5 {
        assert_eq!(buffer.get(x, 0).fg, Color::LightBlue);
        assert!(!buffer.get(x, 0).modifier.contains(Modifier::REVERSED));
    }
}

#[test]
fn render_scrolls_through_wrapped_rows() {
    let mut page = Page::new();
    page.lines.push(line(LineType::Text, "one two three four"));
    page.lines.push(heading("3", "End"));
    page.set_scroll(2);
    let buffer = page.render(9, 2);
    assert_eq!(row(&buffer, 0), "four     ");
    assert_eq!(row(&buffer, 1), "End      ");
    assert_eq!(buffer.get(0, 1).fg, Color::Green);
}

#[test]
fn render_of_an_empty_page_is_blank() {
    let buffer = Page::new().render(4, 2);
    assert_eq!(row(&buffer, 0), "    ");
    assert_eq!(row(&buffer, 1), "    ");
}

#[test]
fn render_on_no_cells_draws_nothing() {
    let page = title_and_body();
    assert!(page.render(0, 5).content.is_empty());
    assert!(page.render(5, 0).content.is_empty());
}

#[test]
fn try_render_draws_what_render_draws() {
    let mut page = title_and_body();
    page.set_scroll(1);
    assert_eq!(page.try_render(10, 2), Ok(page.render(10, 2)));
}

#[test]
fn try_render_reports_a_heading_without_a_level() {
    let mut page = title_and_body();
    page.lines.push(line(LineType::Heading, "No level"));
    assert_eq!(page.try_render(10, 2), Err(RenderError::MissingHeadingLevel));
}

#[test]
fn try_render_reports_a_kind_without_a_style() {
    let mut page = title_and_body();
    page.lines.push(line(LineType::Blockquote, "quoted"));
    assert_eq!(page.try_render(10, 2), Err(RenderError::Unsupported));
}

#[test]
fn render_draws_text_beyond_ascii() {
    let mut page = Page::new();
    page.lines.push(line(LineType::Text, "caf\u{e9} au lait"));
    page.lines.push(line(LineType::Text, "\u{6f22}\u{5b57}"));
    let buffer = page.try_render(7, 3).unwrap();
    assert_eq!(row(&buffer, 0), "caf\u{e9} au");
    assert_eq!(row(&buffer, 1), "lait   ");
    assert_eq!(buffer.get(0, 2).symbol, "\u{6f22}");
    assert_eq!(buffer.get(2, 2).symbol, "\u{5b57}");
}

#[test]
fn render_draws_control_characters_that_have_a_width() {
    for text in ["tab\there", "del\u{7f}"] {
        let mut page = Page::new();
        page.lines.push(line(LineType::Text, text));
        assert!(page.try_render(10, 2).is_ok());
    }
}

#[test]
fn render_leaves_line_feeds_out() {
    let mut page = Page::new();
    page.lines.push(line(LineType::Text, "line\nbreak"));
    let buffer = page.try_render(10, 2).unwrap();
    assert_eq!(row(&buffer, 0), "linebreak ");
}

#[test]
fn try_render_reports_a_symbol_without_width() {
    for text in ["zero\u{200b}width", "\u{200b}", "carriage\r\nreturn"] {
        let mut page = title_and_body();
        page.lines.push(line(LineType::Text, text));
        assert_eq!(page.try_render(10, 2), Err(RenderError::UnplaceableSymbol));
    }
}

#[test]
fn try_render_reports_a_symbol_too_wide_for_the_range() {
    let mut page = Page::new();
    page.lines.push(line(LineType::Text, "\u{6f22}"));
    assert!(page.try_render(65532, 1).is_ok());
    assert_eq!(page.try_render(65533, 1), Err(RenderError::UnplaceableSymbol));
    let mut page = Page::new();
    page.lines.push(line(LineType::Text, "a"));
    assert!(page.try_render(65534, 1).is_ok());
}

#[test]
fn render_breaks_a_row_at_the_widest_viewport() {
    let mut page = Page::new();
    page.lines.push(line(LineType::Text, &"a".repeat(65536)));
    let buffer = page.try_render(65534, 1).unwrap();
    assert_eq!(buffer.content.len(), 65534);
    assert_eq!(buffer.get(65533, 0).symbol, "a");
    page.set_scroll(1);
    let buffer = page.try_render(65534, 1).unwrap();
    assert_eq!(buffer.get(0, 0).symbol, "a");
    assert_eq!(buffer.get(1, 0).symbol, "a");
    assert_eq!(buffer.get(2, 0).symbol, " ");
}

#[test]
fn render_carries_wide_symbols_over_at_a_wide_viewport() {
    let mut page = Page::new();
    page.lines.push(line(LineType::Text, &("a ".to_string() + &"\u{6f22}".repeat(40000))));
    let buffer = page.try_render(32766, 2).unwrap();
    assert_eq!(buffer.content.len(), 65532);
    assert_eq!(buffer.get(0, 0).symbol, "a");
    assert_eq!(buffer.get(1, 0).symbol, " ");
    assert_eq!(buffer.get(0, 1).symbol, "\u{6f22}");
    assert_eq!(buffer.get(32764, 1).symbol, "\u{6f22}");
}

#[test]
fn render_keeps_an_overrun_row_within_range() {
    let wide = "\u{915}\u{94d}\u{937}\u{94d}\u{92e}\u{94d}\u{92f}";
    let mut page = Page::new();
    page.lines.push(line(LineType::Text, &("a ".to_string() + &"b".repeat(65526) + wide + wide)));
    page.set_scroll(1);
    let buffer = page.try_render(65528, 1).unwrap();
    assert_eq!(buffer.get(0, 0).symbol, "b");
    assert_eq!(buffer.get(65525, 0).symbol, "b");
    assert_eq!(buffer.get(65526, 0).symbol, wide);
    assert_eq!(page.try_render(65529, 1), Err(RenderError::UnplaceableSymbol));
}

#[test]
fn try_render_reports_a_viewport_of_the_greatest_width() {
    let page = title_and_body();
    assert_eq!(page.try_render(65535, 1), Err(RenderError::ViewportOutOfRange));
    assert_eq!(Page::new().try_render(65535, 1), Err(RenderError::ViewportOutOfRange));
    assert!(page.try_render(65534, 1).is_ok());
}

#[test]
fn try_render_accepts_every_visible_ascii_character() {
    let mut page = Page::new();
    page.lines.push(line(LineType::Text, " !\"#$%&'()*+,-./0123456789:;<=>?@AZ[\\]^_`az{|}~"));
    assert!(page.try_render(80, 1).is_ok());
}

#[test]
fn try_render_reports_a_line_without_a_style_first() {
    let mut page = Page::new();
    page.lines.push(line(LineType::Text, "zero\u{200b}width"));
    page.lines.push(line(LineType::Heading, "No level"));
    page.lines.push(line(LineType::Blockquote, "quoted"));
    assert_eq!(page.try_render(10, 2), Err(RenderError::MissingHeadingLevel));
    page.set_scroll(65535);
    assert_eq!(page.try_render(65535, 1), Err(RenderError::MissingHeadingLevel));
    let mut page = Page::new();
    page.lines.push(line(LineType::Custom(String::from("x")), "text"));
    page.lines.push(line(LineType::Heading, "No level"));
    assert_eq!(page.try_render(10, 2), Err(RenderError::Unsupported));
}

#[test]
fn try_render_reports_a_viewport_out_of_range() {
    let mut page = title_and_body();
    page.set_scroll(65535);
    assert_eq!(page.try_render(10, 1), Err(RenderError::ViewportOutOfRange));
    assert!(page.try_render(10, 0).is_ok());
    page.lines.push(line(LineType::Text, "zero\u{200b}width"));
    assert_eq!(page.try_render(10, 1), Err(RenderError::ViewportOutOfRange));
    assert_eq!(page.try_render(10, 0), Err(RenderError::UnplaceableSymbol));
}

#[test]
fn styled_text_holds_every_line_in_order() {
    let mut page = title_and_body();
    page.lines.push(line(LineType::UnorderedListItem, "zero\u{200b}width"));
    page.set_scroll(3);
    let text = page.styled_text();
    assert_eq!(text.lines.len(), 3);
    for (i, spans) in text.lines.iter().enumerate() {
        assert_eq!(*spans, page.lines[i].generate_spans(false));
    }
    assert_eq!(text.lines[2].0[0].content, "  * ");
    assert_eq!(text.lines[2].0[1].content, "zero\u{200b}width");
}

#[test]
fn styled_text_of_an_empty_page_has_no_lines() {
    assert!(Page::new().styled_text().lines.is_empty());
}

#[test]
fn no_cell_of_a_page_is_reversed() {
    let mut page = title_and_body();
    page.lines.push(line(LineType::Link, "there"));
    page.lines.push(line(LineType::UnorderedListItem, "item"));
    for spans in page.styled_text().lines {
        for span in spans.0 {
            assert!(!span.style.add_modifier.contains(Modifier::REVERSED));
        }
    }
    let buffer = page.render(10, 4);
    for cell in buffer.content.iter() {
        assert!(!cell.modifier.contains(Modifier::REVERSED));
    }
}
