use std::rc::Rc;
use write_items::PrintWriteItemsOptions;
use write_items::StringContainer;
use write_items::WriteItem;
use write_items::Writer;
use write_items::WriterOptions;

fn frag(text: &str) -> Rc<StringContainer> {
    let count = text.chars().count() as u32;
    Rc::new(StringContainer::new(String::from(text), count))
}

fn spaces_options(indent_width: u8, newline_kind: &'static str) -> PrintWriteItemsOptions {
    PrintWriteItemsOptions { indent_width, use_tabs: false, newline_kind }
}

fn render(writer: Writer, options: PrintWriteItemsOptions) -> String {
    let items = writer.get_items().expect("log should be solely owned");
    write_items::print_write_items(items, options).expect("fragments should be solely owned")
}

#[test]
fn end_to_end_two_space_indent() {
    let mut writer = Writer::new(WriterOptions { indent_width: 2 });
    writer.start_indent();
    writer.write(frag("a"));
    writer.new_line();
    writer.write(frag("b"));
    writer.new_line();
    writer.finish_indent();
    writer.new_line();
    writer.write(frag("c"));
    let text = render(writer, spaces_options(2, "\n"));
    assert_eq!(text, "  a\n  b\n\nc");
}

#[test]
fn reported_column_tracks_emission() {
    let mut writer = Writer::new(WriterOptions { indent_width: 2 });
    assert_eq!(writer.get_line_column(), 0);
    writer.start_indent();
    // Prospective column: pending indentation is reported before it is
    // materialized.
    assert_eq!(writer.get_line_column(), 2);
    writer.write(frag("ab"));
    assert_eq!(writer.get_line_column(), 4);
    writer.space();
    assert_eq!(writer.get_line_column(), 5);
    writer.tab();
    assert_eq!(writer.get_line_column(), 7);
    writer.single_indent();
    assert_eq!(writer.get_line_column(), 9);
    writer.new_line();
    assert_eq!(writer.get_line_column(), 2);
}

#[test]
fn snapshot_restore_round_trip() {
    let mut writer = Writer::new(WriterOptions { indent_width: 4 });
    writer.start_indent();
    writer.write(frag("kept"));
    let snapshot = writer.get_state();
    let column = writer.get_line_column();
    let line = writer.get_line_number();

    // A speculative branch that turns out too wide.
    writer.space();
    writer.write(frag("discarded branch"));
    writer.new_line();
    writer.start_indent();
    assert_ne!(writer.get_line_number(), line);

    writer.set_state(snapshot);
    assert_eq!(writer.get_line_column(), column);
    assert_eq!(writer.get_line_number(), line);
    assert_eq!(writer.get_indentation_level(), 1);
    assert_eq!(writer.get_line_start_indent_level(), 1);

    // Further emission is unaffected by the discarded branch.
    writer.new_line();
    writer.write(frag("next"));
    let text = render(writer, spaces_options(4, "\n"));
    assert_eq!(text, "    kept\n    next");
}

#[test]
fn lazy_indentation_materializes_once() {
    let mut writer = Writer::new(WriterOptions { indent_width: 2 });
    writer.start_indent();
    writer.write(frag("a"));
    let items = writer.get_items_cloned();
    assert_eq!(items.len(), 2);
    assert!(matches!(items[0], WriteItem::Indent(1)));
    assert!(matches!(items[1], WriteItem::Text(_)));

    writer.write(frag("b"));
    let items = writer.get_items_cloned();
    assert_eq!(items.len(), 3);
    assert!(matches!(items[0], WriteItem::Indent(1)));
    assert!(matches!(items[1], WriteItem::Text(_)));
    assert!(matches!(items[2], WriteItem::Text(_)));
}

#[test]
fn blank_line_carries_no_indent_item() {
    let mut writer = Writer::new(WriterOptions { indent_width: 2 });
    writer.start_indent();
    writer.write(frag("a"));
    writer.new_line();
    writer.new_line();
    let items = writer.get_items_cloned();
    assert_eq!(items.len(), 4);
    assert!(matches!(items[0], WriteItem::Indent(1)));
    assert!(matches!(items[1], WriteItem::Text(_)));
    assert!(matches!(items[2], WriteItem::NewLine));
    assert!(matches!(items[3], WriteItem::NewLine));
}

#[test]
fn trailing_space_is_trimmed_before_newline() {
    let mut writer = Writer::new(WriterOptions { indent_width: 2 });
    writer.write(frag("a"));
    writer.space_if_not_trailing();
    writer.new_line();
    writer.write(frag("b"));
    let text = render(writer, spaces_options(2, "\n"));
    assert_eq!(text, "a\nb");
}

#[test]
fn space_without_newline_is_kept() {
    let mut writer = Writer::new(WriterOptions { indent_width: 2 });
    writer.write(frag("a"));
    writer.space_if_not_trailing();
    writer.write(frag("b"));
    let text = render(writer, spaces_options(2, "\n"));
    assert_eq!(text, "a b");
}

#[test]
fn space_if_not_trailing_skipped_when_newline_pending() {
    let mut writer = Writer::new(WriterOptions { indent_width: 2 });
    writer.write(frag("a"));
    writer.mark_expect_new_line();
    writer.space_if_not_trailing();
    writer.write(frag("b"));
    let text = render(writer, spaces_options(2, "\n"));
    assert_eq!(text, "a\nb");
}

#[test]
fn suppression_skips_indentation() {
    let mut writer = Writer::new(WriterOptions { indent_width: 2 });
    writer.start_indent();
    writer.start_ignoring_indent();
    writer.write(frag("raw"));
    let items = writer.get_items_cloned();
    assert_eq!(items.len(), 1);
    assert!(matches!(items[0], WriteItem::Text(_)));
    assert_eq!(writer.get_ignore_indent_count(), 1);
    writer.finish_ignoring_indent();
    assert_eq!(writer.get_ignore_indent_count(), 0);
}

#[test]
fn nested_suppression_resumes_only_at_zero() {
    let mut writer = Writer::new(WriterOptions { indent_width: 2 });
    writer.start_indent();
    writer.start_ignoring_indent();
    writer.start_ignoring_indent();
    writer.finish_ignoring_indent();
    writer.write(frag("a"));
    writer.new_line();
    writer.finish_ignoring_indent();
    writer.write(frag("b"));
    let text = render(writer, spaces_options(2, "\n"));
    assert_eq!(text, "a\n  b");
}

#[test]
fn tabs_render_one_tab_per_level_regardless_of_width() {
    let mut writer = Writer::new(WriterOptions { indent_width: 2 });
    writer.start_indent();
    writer.start_indent();
    writer.write(frag("x"));
    let items = writer.get_items().unwrap();
    let options = PrintWriteItemsOptions { indent_width: 7, use_tabs: true, newline_kind: "\n" };
    let text = write_items::print_write_items(items, options).unwrap();
    assert_eq!(text, "\t\tx");
}

#[test]
fn tab_and_space_items_are_literal_characters() {
    let mut writer = Writer::new(WriterOptions { indent_width: 3 });
    writer.write(frag("a"));
    writer.tab();
    writer.space();
    writer.write(frag("b"));
    let text = render(writer, spaces_options(3, "\n"));
    assert_eq!(text, "a\t b");
}

#[test]
fn single_indent_renders_one_level() {
    let mut writer = Writer::new(WriterOptions { indent_width: 4 });
    writer.write(frag("a"));
    writer.single_indent();
    writer.write(frag("b"));
    let text = render(writer, spaces_options(4, "\n"));
    assert_eq!(text, "a    b");
}

#[test]
fn crlf_newlines_render() {
    let mut writer = Writer::new(WriterOptions { indent_width: 2 });
    writer.write(frag("a"));
    writer.new_line();
    writer.write(frag("b"));
    let text = render(writer, spaces_options(2, "\r\n"));
    assert_eq!(text, "a\r\nb");
}

#[test]
fn mark_expect_new_line_defers_the_break() {
    let mut writer = Writer::new(WriterOptions { indent_width: 2 });
    writer.write(frag("a"));
    writer.mark_expect_new_line();
    // No break yet: nothing has been emitted since the mark.
    assert_eq!(writer.get_line_number(), 0);
    writer.write(frag("b"));
    assert_eq!(writer.get_line_number(), 1);
    let text = render(writer, spaces_options(2, "\n"));
    assert_eq!(text, "a\nb");
}

#[test]
fn line_state_queries() {
    let mut writer = Writer::new(WriterOptions { indent_width: 3 });
    assert_eq!(writer.get_line_number(), 0);
    assert_eq!(writer.get_line_start_indent_level(), 0);
    assert_eq!(writer.get_line_start_column_number(), 0);
    writer.start_indent();
    writer.start_indent();
    // A depth change at column 0 is visible to the current line.
    assert_eq!(writer.get_line_start_indent_level(), 2);
    assert_eq!(writer.get_line_start_column_number(), 6);
    writer.write(frag("x"));
    writer.start_indent();
    // After content, a depth change no longer affects this line's record.
    assert_eq!(writer.get_line_start_indent_level(), 2);
    writer.new_line();
    assert_eq!(writer.get_line_number(), 1);
    assert_eq!(writer.get_line_start_indent_level(), 3);
    assert_eq!(writer.get_line_start_column_number(), 9);
}

#[test]
fn fresh_writer_renders_empty() {
    let writer = Writer::new(WriterOptions { indent_width: 2 });
    let items = writer.get_items().unwrap();
    assert_eq!(items.len(), 0);
    let text = write_items::print_write_items(items, spaces_options(2, "\n")).unwrap();
    assert_eq!(text, "");
}

#[test]
fn sequence_without_fragments_always_prints() {
    let mut writer = Writer::new(WriterOptions { indent_width: 2 });
    writer.start_indent();
    writer.tab();
    writer.space();
    writer.new_line();
    let items = writer.get_items().unwrap();
    // No Text item, so no fragment ownership can be contested.
    let text = write_items::print_write_items(items, spaces_options(2, "\n")).unwrap();
    assert_eq!(text, "  \t \n");
}

#[test]
fn aliased_fragment_refuses_to_print() {
    let shared = frag("still shared");
    let mut writer = Writer::new(WriterOptions { indent_width: 2 });
    writer.write(shared.clone());
    let items = writer.get_items().unwrap();
    // `shared` still aliases the fragment, so consuming it must fail.
    let result = write_items::print_write_items(items, spaces_options(2, "\n"));
    assert!(result.is_none());
    assert_eq!(shared.text, "still shared");
}

#[test]
fn live_snapshot_refuses_finalization() {
    let mut writer = Writer::new(WriterOptions { indent_width: 2 });
    writer.write(frag("a"));
    let snapshot = writer.get_state();
    let result = writer.get_items();
    assert!(result.is_none());
    drop(snapshot);
}

#[test]
fn dropped_snapshot_allows_finalization() {
    let mut writer = Writer::new(WriterOptions { indent_width: 2 });
    writer.write(frag("a"));
    let snapshot = writer.get_state();
    drop(snapshot);
    let items = writer.get_items().unwrap();
    assert_eq!(items.len(), 1);
}

#[test]
fn snapshots_share_the_log_without_copying_state() {
    let mut writer = Writer::new(WriterOptions { indent_width: 2 });
    writer.write(frag("a"));
    let snapshot = writer.get_state();
    writer.write(frag("bbb"));
    writer.set_state(snapshot.clone());
    writer.write(frag("c"));
    drop(snapshot);
    let text = render(writer, spaces_options(2, "\n"));
    assert_eq!(text, "ac");
}

#[test]
fn debugging_render_uses_four_spaces_and_keeps_the_writer() {
    let mut writer = Writer::new(WriterOptions { indent_width: 2 });
    writer.start_indent();
    writer.write(frag("a"));
    writer.new_line();
    writer.write(frag("b"));
    let text = writer.to_string_for_debugging();
    assert_eq!(text, "    a\n    b");
    // The writer is still usable afterwards.
    writer.write(frag("!"));
    assert_eq!(writer.to_string_for_debugging(), "    a\n    b!");
}

#[test]
fn empty_fragment_advances_nothing() {
    let mut writer = Writer::new(WriterOptions { indent_width: 2 });
    writer.write(frag(""));
    assert_eq!(writer.get_line_column(), 0);
    let text = render(writer, spaces_options(2, "\n"));
    assert_eq!(text, "");
}

#[test]
fn multibyte_fragment_counts_characters() {
    let mut writer = Writer::new(WriterOptions { indent_width: 2 });
    writer.write(frag("héllo"));
    assert_eq!(writer.get_line_column(), 5);
    let text = render(writer, spaces_options(2, "\n"));
    assert_eq!(text, "héllo");
}
