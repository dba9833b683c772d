use json_lines_viewer::model::{FindIndicator, FindTask, Message, Model, Screen, Size};
use json_lines_viewer::props::Props;
use json_lines_viewer::raw_json_lines::{RawJsonLines, SourceName};
use ratatui::widgets::{Paragraph, Wrap};

fn wrapped_rows(text: &str, width: u16) -> usize {
    Paragraph::new(text.to_string()).wrap(Wrap::default()).line_count(width)
}

fn store(lines: &[&str]) -> RawJsonLines {
    let mut s = RawJsonLines::default();
    for (i, l) in lines.iter().enumerate() {
        s.push(SourceName::JsonFile("app.json".to_string()), i + 1, l.to_string());
    }
    s
}

fn size(height: u16) -> Size {
    Size { width: 80, height }
}

fn run<'a>(m: Model<'a>, msgs: &[Message]) -> Model<'a> {
    let mut m = m;
    for msg in msgs {
        let mut next = Some(*msg);
        while let Some(x) = next {
            let (nm, follow) = m.updated(x);
            m = nm;
            next = follow;
        }
    }
    m
}

fn selected(m: &Model) -> Option<usize> {
    m.view_state.main_window_list_state.selected
}

#[test]
fn scroll_down_clamps_at_last_line() {
    let lines = store(&["{\"a\":1}", "{\"a\":2}", "{\"a\":3}"]);
    let m = Model::new(Props::default(), size(10), &lines);
    let m = run(m, &[Message::ScrollDown; 7]);
    assert_eq!(selected(&m), Some(2));
}

#[test]
fn scroll_down_on_empty_store_selects_nothing() {
    let lines = store(&[]);
    let m = Model::new(Props::default(), size(10), &lines);
    assert_eq!(selected(&m), None);
    let m = run(m, &[Message::ScrollDown, Message::ScrollDown, Message::Last, Message::First]);
    assert_eq!(selected(&m), None);
}

#[test]
fn first_and_last_leave_empty_store_alone() {
    let lines = store(&[]);
    let mut m = Model::new(Props::default(), size(10), &lines);
    m.view_state.main_window_list_state.selected = Some(0);
    let m = run(m, &[Message::Last]);
    assert_eq!(selected(&m), Some(0));
    let m = run(m, &[Message::First]);
    assert_eq!(selected(&m), Some(0));
}

#[test]
fn scroll_up_clamps_at_first_line() {
    let lines = store(&["{\"a\":1}", "{\"a\":2}"]);
    let m = Model::new(Props::default(), size(10), &lines);
    let m = run(m, &[Message::ScrollDown, Message::ScrollUp, Message::ScrollUp]);
    assert_eq!(selected(&m), Some(0));
}

#[test]
fn first_and_last_select_the_ends() {
    let lines = store(&["{\"a\":1}", "{\"a\":2}", "{\"a\":3}", "{\"a\":4}"]);
    let m = Model::new(Props::default(), size(10), &lines);
    let m = run(m, &[Message::Last]);
    assert_eq!(selected(&m), Some(3));
    let m = run(m, &[Message::First]);
    assert_eq!(selected(&m), Some(0));
}

#[test]
fn page_moves_by_height_less_borders() {
    let texts: Vec<String> = (0..20).map(|i| format!("{{\"n\":{i}}}")).collect();
    let refs: Vec<&str> = texts.iter().map(|s| s.as_str()).collect();
    let lines = store(&refs);
    let m = Model::new(Props::default(), size(7), &lines);
    assert_eq!(m.page_len(), 5);
    let m = run(m, &[Message::PageDown]);
    assert_eq!(selected(&m), Some(5));
    let m = run(m, &[Message::PageDown, Message::PageDown, Message::PageDown, Message::PageDown]);
    assert_eq!(selected(&m), Some(19));
    let m = run(m, &[Message::PageUp]);
    assert_eq!(selected(&m), Some(14));
    let m = run(m, &[Message::Resized(size(1)), Message::PageUp]);
    assert_eq!(m.page_len(), 0);
    assert_eq!(selected(&m), Some(14));
}

#[test]
fn scroll_left_then_right_restores_offset() {
    let lines = store(&["{\"a\":1,\"b\":2,\"c\":3}"]);
    let mut m = Model::new(Props::default(), size(10), &lines);
    let mut it = m.into_iter();
    assert!(it.next(&mut m).is_some());
    assert_eq!(m.num_fields_high_water_mark, 3);
    let m = run(m, &[Message::ScrollRight, Message::ScrollRight, Message::ScrollRight]);
    assert_eq!(m.line_rendering_field_offset, 2);
    let m = run(m, &[Message::ScrollLeft, Message::ScrollRight]);
    assert_eq!(m.line_rendering_field_offset, 2);
    let m = run(m, &[Message::ScrollLeft, Message::ScrollLeft, Message::ScrollLeft]);
    assert_eq!(m.line_rendering_field_offset, 0);
}

#[test]
fn scroll_right_needs_rendered_fields() {
    let lines = store(&["{\"a\":1,\"b\":2}"]);
    let m = Model::new(Props::default(), size(10), &lines);
    let m = run(m, &[Message::ScrollRight]);
    assert_eq!(m.line_rendering_field_offset, 0);
}

#[test]
fn open_find_then_exit_restores_state() {
    let lines = store(&["{\"a\":1}", "{\"a\":2}", "{\"a\":3}"]);
    let m = Model::new(Props::default(), size(10), &lines);
    let m = run(m, &[Message::ScrollDown]);
    let m = run(m, &[Message::OpenFindTask]);
    assert!(m.has_find_task());
    let m = run(m, &[Message::Exit]);
    assert!(!m.has_find_task());
    assert_eq!(m.active_screen, Screen::Main);
    assert_eq!(selected(&m), Some(1));
}

#[test]
fn exit_in_find_mode_keeps_screen_and_clears_find() {
    let lines = store(&["{\"a\":1}"]);
    let m = Model::new(Props::default(), size(10), &lines);
    let m = run(m, &[Message::Enter, Message::OpenFindTask]);
    assert_eq!(m.active_screen, Screen::ObjectDetails);
    assert!(m.has_find_task());
    let m = run(m, &[Message::Exit]);
    assert_eq!(m.active_screen, Screen::ObjectDetails);
    assert!(!m.has_find_task());
    let m = run(m, &[Message::Exit]);
    assert_eq!(m.active_screen, Screen::Main);
    let m = run(m, &[Message::Exit]);
    assert_eq!(m.active_screen, Screen::Done);
}

#[test]
fn switching_screen_clears_find_task() {
    let lines = store(&["{\"a\":1}"]);
    let mut m = Model::new(Props::default(), size(10), &lines);
    m.active_screen = Screen::ObjectDetails;
    m.find_task = Some(FindTask::default());
    let m = run(m, &[Message::CharacterInput('a'), Message::Exit]);
    assert!(!m.has_find_task());
    let m = run(m, &[Message::Exit]);
    assert_eq!(m.active_screen, Screen::Main);
    assert!(!m.has_find_task());
}

#[test]
fn find_forward_skips_current_then_reports_miss() {
    let lines = store(&["{\"a\":1}", "{\"a\":2}", "{\"a\":3}"]);
    let mut m = Model::new(Props::default(), size(10), &lines);
    m.find_task = Some(FindTask { search_string: "2".to_string(), found: None });
    assert_eq!(selected(&m), Some(0));
    let m = run(m, &[Message::ScrollDown]);
    assert_eq!(selected(&m), Some(1));
    assert_eq!(m.find_task.as_ref().unwrap().found, Some(true));
    assert_eq!(m.render_find_task_line_right(), "found");
    let m = run(m, &[Message::ScrollDown]);
    assert_eq!(selected(&m), Some(1));
    assert_eq!(m.find_task.as_ref().unwrap().found, Some(false));
    assert_eq!(m.render_find_task_line_right(), "NOT found");
}

#[test]
fn typing_searches_from_current_line() {
    let lines = store(&["{\"a\":1}", "{\"b\":2}", "{\"b\":3}"]);
    let m = Model::new(Props::default(), size(10), &lines);
    let m = run(m, &[Message::OpenFindTask, Message::CharacterInput('b')]);
    assert_eq!(selected(&m), Some(1));
    assert_eq!(m.find_task.as_ref().unwrap().search_string, "b");
    let m = run(m, &[Message::Enter]);
    assert_eq!(selected(&m), Some(2));
    let m = run(m, &[Message::ScrollUp]);
    assert_eq!(selected(&m), Some(1));
    let m = run(m, &[Message::ScrollUp]);
    assert_eq!(selected(&m), Some(1));
    assert_eq!(m.find_task.as_ref().unwrap().found, Some(false));
}

#[test]
fn slash_in_find_mode_is_searched_for() {
    let lines = store(&["{\"p\":\"x\"}", "{\"p\":\"a/b\"}"]);
    let m = Model::new(Props::default(), size(10), &lines);
    let m = run(m, &[Message::OpenFindTask, Message::OpenFindTask]);
    assert_eq!(m.find_task.as_ref().unwrap().search_string, "/");
    assert_eq!(selected(&m), Some(1));
    let (m, next) = m.updated(Message::OpenFindTask);
    assert_eq!(next, Some(Message::CharacterInput('/')));
    let (_m, next) = m.updated(Message::Enter);
    assert_eq!(next, Some(Message::ScrollDown));
}

#[test]
fn backspace_to_empty_query_leaves_search_pending() {
    let lines = store(&["{\"a\":1}", "{\"q\":2}"]);
    let m = Model::new(Props::default(), size(10), &lines);
    let m = run(m, &[Message::OpenFindTask, Message::CharacterInput('q'), Message::Backspace]);
    assert_eq!(m.find_task.as_ref().unwrap().search_string, "");
    assert_eq!(m.find_task.as_ref().unwrap().found, None);
    assert_eq!(m.render_find_task_line_right(), "");
    let m = run(m, &[Message::ScrollUp, Message::Backspace]);
    assert_eq!(selected(&m), Some(1));
    assert_eq!(m.find_task.as_ref().unwrap().found, None);
}

#[test]
fn find_on_field_list_selects_field() {
    let lines = store(&["{\"a\":1,\"b\":\"xyz\",\"c\":3}"]);
    let m = Model::new(Props::default(), size(10), &lines);
    let m = run(m, &[Message::Enter, Message::OpenFindTask, Message::CharacterInput('y')]);
    assert_eq!(m.view_state.object_detail_list_state.selected, Some(1));
    assert_eq!(m.view_state.selected_object_detail_field_name.as_deref(), Some("b"));
    let m = run(m, &[Message::ScrollUp]);
    assert_eq!(m.view_state.object_detail_list_state.selected, Some(1));
    assert_eq!(m.render_find_task_line_right(), "NOT found");
}

#[test]
fn value_screen_ignores_search() {
    let lines = store(&["{\"a\":\"one\"}"]);
    let m = Model::new(Props::default(), size(10), &lines);
    let mut m = run(m, &[Message::Enter, Message::Enter]);
    assert_eq!(m.active_screen, Screen::ValueDetails);
    let m2 = run(m.clone(), &[Message::OpenFindTask]);
    assert!(!m2.has_find_task());
    m.find_task = Some(FindTask::default());
    let m = run(m, &[Message::CharacterInput('o')]);
    assert_eq!(m.find_task.as_ref().unwrap().found, None);
}

#[test]
fn field_list_moves_are_clamped() {
    let lines = store(&["{\"a\":1,\"b\":2,\"c\":3}"]);
    let m = Model::new(Props::default(), size(10), &lines);
    let m = run(m, &[Message::Enter]);
    assert_eq!(m.active_screen, Screen::ObjectDetails);
    assert_eq!(m.view_state.object_detail_list_state.selected, Some(0));
    assert_eq!(m.view_state.selected_object_detail_field_name.as_deref(), Some("a"));
    let m = run(m, &[Message::Last]);
    assert_eq!(m.view_state.object_detail_list_state.selected, Some(2));
    let m = run(m, &[Message::ScrollDown]);
    assert_eq!(m.view_state.object_detail_list_state.selected, Some(2));
    assert_eq!(m.view_state.selected_object_detail_field_name.as_deref(), Some("c"));
    let m = run(m, &[Message::PageUp]);
    assert_eq!(m.view_state.object_detail_list_state.selected, Some(0));
    let m = run(m, &[Message::ScrollRight, Message::ScrollLeft]);
    assert_eq!(m.view_state.object_detail_list_state.selected, Some(0));
}

#[test]
fn value_screen_scroll_is_clamped_to_text() {
    let lines = store(&["{\"msg\":\"hello\\nworld\"}"]);
    let m = Model::new(Props::default(), size(10), &lines);
    let mut m = run(m, &[Message::Enter, Message::Enter, Message::PageDown]);
    assert_eq!(m.active_screen, Screen::ValueDetails);
    assert_eq!(m.view_state.value_screen_vertical_scroll_offset, 8);
    let text = m.value_details_text().unwrap();
    assert_eq!(text, "hello\nworld");
    let rows = wrapped_rows(&text, 78);
    assert_eq!(rows, 2);
    m.correct_value_scroll(rows, m.page_len());
    assert_eq!(m.view_state.value_screen_vertical_scroll_offset, 0);
}

#[test]
fn value_screen_scroll_counts_wrapped_rows() {
    let line = format!("{{\"msg\":\"{}\"}}", "word ".repeat(40));
    let lines = store(&[line.as_str()]);
    let m = Model::new(Props::default(), size(6), &lines);
    let m = run(m, &[Message::Enter, Message::Enter, Message::PageDown, Message::PageDown, Message::PageDown]);
    assert_eq!(m.view_state.value_screen_vertical_scroll_offset, 12);
    let mut m = run(m, &[Message::PageDown, Message::PageDown]);
    assert_eq!(m.view_state.value_screen_vertical_scroll_offset, 20);
    let rows = wrapped_rows(&m.value_details_text().unwrap(), 10);
    assert_eq!(rows, 20);
    m.correct_value_scroll(rows, m.page_len());
    assert_eq!(m.view_state.value_screen_vertical_scroll_offset, 16);
}

#[test]
fn value_screen_scroll_keeps_last_page() {
    let text: Vec<String> = (0..12).map(|i| format!("l{i}")).collect();
    let line = format!("{{\"msg\":\"{}\"}}", text.join("\\n"));
    let lines = store(&[line.as_str()]);
    let m = Model::new(Props::default(), size(6), &lines);
    let mut m = run(m, &[Message::Enter, Message::Enter, Message::PageDown, Message::PageDown, Message::PageDown]);
    assert_eq!(m.view_state.value_screen_vertical_scroll_offset, 12);
    let rows = wrapped_rows(&m.value_details_text().unwrap(), 78);
    assert_eq!(rows, 12);
    m.correct_value_scroll(rows, m.page_len());
    assert_eq!(m.view_state.value_screen_vertical_scroll_offset, 8);
    let m = run(m, &[Message::ScrollUp, Message::PageUp, Message::PageUp]);
    assert_eq!(m.view_state.value_screen_vertical_scroll_offset, 0);
    let m = run(m, &[Message::Exit]);
    assert_eq!(m.active_screen, Screen::ObjectDetails);
}

#[test]
fn value_text_of_non_string_is_json() {
    let lines = store(&["{\"n\":{\"x\":[1,2]}}"]);
    let m = Model::new(Props::default(), size(10), &lines);
    let m = run(m, &[Message::Enter, Message::Enter]);
    assert_eq!(m.value_details_text().as_deref(), Some("{\"x\":[1,2]}"));
}

#[test]
fn save_request_and_failed_outcome() {
    let lines = store(&["{\"a\":1}", "{\"a\":2}"]);
    let m = Model::new(Props::default(), size(10), &lines);
    let m = run(m, &[Message::ScrollDown, Message::Enter]);
    let m = run(m, &[Message::SaveSettings]);
    assert!(m.settings_save_requested);
    let mut m = m;
    m.settings_saved(false);
    assert!(!m.settings_save_requested);
    assert_eq!(m.render_status_line_right(), "Error: failed to save settings");
    assert_eq!(m.active_screen, Screen::ObjectDetails);
    assert_eq!(selected(&m), Some(1));
    assert_eq!(m.view_state.object_detail_list_state.selected, Some(0));
    let m = run(m, &[Message::ScrollDown]);
    assert_eq!(m.render_status_line_right(), "");
}

#[test]
fn successful_save_is_reported() {
    let lines = store(&["{\"a\":1}"]);
    let mut m = Model::new(Props::default(), size(10), &lines);
    m.settings_saved(true);
    assert_eq!(m.render_status_line_right(), "Ok: settings saved");
}

#[test]
fn resize_changes_only_size() {
    let lines = store(&["{\"a\":1}"]);
    let m = Model::new(Props::default(), size(10), &lines);
    let (m, next) = m.updated(Message::Resized(Size { width: 3, height: 40 }));
    assert_eq!(next, None);
    assert_eq!(m.terminal_size, Size { width: 3, height: 40 });
    assert_eq!(m.page_len(), 38);
}

#[test]
fn done_ignores_messages() {
    let lines = store(&["{\"a\":1}", "{\"a\":2}"]);
    let m = Model::new(Props::default(), size(10), &lines);
    let m = run(m, &[Message::Exit, Message::ScrollDown, Message::Enter]);
    assert_eq!(m.active_screen, Screen::Done);
    assert_eq!(selected(&m), Some(0));
}

#[test]
fn status_line_names_source_and_line() {
    let mut lines = RawJsonLines::default();
    lines.push(SourceName::JsonFile("a.json".to_string()), 1, "{}".to_string());
    lines.push(
        SourceName::JsonInZip { zip_file: "logs.zip".to_string(), json_file: "x/b.json".to_string() },
        127,
        "{}".to_string(),
    );
    let m = Model::new(Props::default(), size(10), &lines);
    assert_eq!(m.render_status_line_left(), "a.json:1");
    let m = run(m, &[Message::Last]);
    assert_eq!(m.render_status_line_left(), "logs.zip/x/b.json:127");
}

#[test]
fn find_line_left_shows_query_and_state() {
    let lines = store(&["{\"a\":1}"]);
    let m = Model::new(Props::default(), size(10), &lines);
    assert!(m.render_find_task_line_left().is_none());
    let m = run(m, &[Message::OpenFindTask]);
    let (ind, q) = m.render_find_task_line_left().unwrap();
    assert_eq!(ind, FindIndicator::Pending);
    assert_eq!(q, "");
    let m = run(m, &[Message::CharacterInput('z')]);
    let (ind, q) = m.render_find_task_line_left().unwrap();
    assert_eq!(ind, FindIndicator::Missed);
    assert_eq!(q, "z");
    let m = run(m, &[Message::Backspace, Message::CharacterInput('a')]);
    assert_eq!(m.render_find_task_line_left().unwrap().0, FindIndicator::Hit);
}

#[test]
fn empty_query_on_value_screen_keeps_match_state() {
    let lines = store(&["{\"a\":\"one\"}"]);
    let mut m = Model::new(Props::default(), size(10), &lines);
    m.active_screen = Screen::ValueDetails;
    m.find_task = Some(FindTask { search_string: String::new(), found: Some(true) });
    let m = run(m, &[Message::ScrollDown, Message::ScrollUp]);
    assert_eq!(m.find_task.as_ref().unwrap().found, Some(true));
}
