use json_lines_viewer::json::JsonField;
use json_lines_viewer::model::{LineItem, Model, Size};
use json_lines_viewer::props::{init_props, Props};
use json_lines_viewer::raw_json_lines::{details_fields_as_list, RawJsonLine, RawJsonLines, SourceName};

fn names(v: &[&str]) -> Vec<String> {
    v.iter().map(|s| s.to_string()).collect()
}

fn store(lines: &[&str]) -> RawJsonLines {
    let mut s = RawJsonLines::default();
    for (i, l) in lines.iter().enumerate() {
        s.push(SourceName::JsonFile("f.json".to_string()), i + 1, l.to_string());
    }
    s
}

fn field(key: &str, text: &str) -> JsonField {
    JsonField { key: key.to_string(), text: text.to_string(), detail: text.to_string() }
}

fn pairs(item: LineItem) -> Vec<(String, String)> {
    match item {
        LineItem::Fields(p) => p,
        LineItem::Text(t) => panic!("expected fields, got {t}"),
    }
}

#[test]
fn line_view_puts_ordered_fields_first_and_drops_suppressed() {
    let props = Props { fields_order: names(&["level", "missing", "msg"]), fields_suppressed: names(&["pid"]) };
    let lines = store(&["{\"time\":\"t1\",\"pid\":7,\"msg\":\"hi\",\"level\":\"INFO\"}"]);
    let mut m = Model::new(props, Size { width: 80, height: 10 }, &lines);
    let mut it = m.into_iter();
    let p = pairs(it.next(&mut m).unwrap());
    assert_eq!(
        p,
        vec![
            ("level".to_string(), "\"INFO\"".to_string()),
            ("msg".to_string(), "\"hi\"".to_string()),
            ("time".to_string(), "\"t1\"".to_string()),
        ]
    );
    assert_eq!(m.num_fields_high_water_mark, 3);
    assert!(it.next(&mut m).is_none());
}

#[test]
fn line_view_hides_leading_fields_and_tracks_high_water_mark() {
    let lines = store(&[]);
    let mut m = Model::new(Props::default(), Size { width: 80, height: 10 }, &lines);
    m.line_rendering_field_offset = 1;
    let p = m.render_json_line(&vec![field("a", "1"), field("b", "2"), field("c", "3")]);
    assert_eq!(p, vec![("b".to_string(), "2".to_string()), ("c".to_string(), "3".to_string())]);
    assert_eq!(m.num_fields_high_water_mark, 3);
    m.line_rendering_field_offset = 5;
    let p = m.render_json_line(&vec![field("a", "1")]);
    assert!(p.is_empty());
    assert_eq!(m.num_fields_high_water_mark, 3);
}

#[test]
fn non_object_and_malformed_lines_render_as_text() {
    let lines = store(&["[1, 2]", "not json"]);
    let mut m = Model::new(Props::default(), Size { width: 80, height: 10 }, &lines);
    let mut it = m.into_iter();
    assert_eq!(it.size_hint(&m), (0, Some(2)));
    match it.next(&mut m).unwrap() {
        LineItem::Text(t) => assert_eq!(t, "[1,2]"),
        LineItem::Fields(_) => panic!("expected text"),
    }
    match it.next(&mut m).unwrap() {
        LineItem::Text(t) => assert_eq!(t, "not json"),
        LineItem::Fields(_) => panic!("expected text"),
    }
    assert_eq!(it.size_hint(&m), (0, Some(0)));
    assert_eq!(m.num_fields_high_water_mark, 0);
}

#[test]
fn advance_by_reports_missing_steps() {
    let lines = store(&["{}", "{}", "{}"]);
    let m = Model::new(Props::default(), Size { width: 80, height: 10 }, &lines);
    let mut it = m.into_iter();
    assert_eq!(it.advance_by(&m, 2), Ok(()));
    assert_eq!(it.index, 2);
    assert_eq!(it.advance_by(&m, 4), Err(3));
    assert_eq!(it.index, 3);
}

#[test]
fn field_list_keeps_all_fields_with_ordered_first() {
    let line = RawJsonLine { source_id: 0, line_nr: 1, content: "{\"b\":1,\"a\":\"x\",\"c\":null}".to_string() };
    let (items, keys) = line.produce_rendered_fields_as_list(&names(&["c", "zz"]));
    assert_eq!(keys, names(&["c", "b", "a"]));
    assert_eq!(items, names(&["c : null", "b : 1", "a : \"x\""]));
}

#[test]
fn field_list_of_non_object_is_empty() {
    let line = RawJsonLine { source_id: 0, line_nr: 1, content: "42".to_string() };
    let (items, keys) = line.produce_rendered_fields_as_list(&vec![]);
    assert!(items.is_empty());
    assert!(keys.is_empty());
}

#[test]
fn field_list_from_decoded_fields() {
    let (items, keys) = details_fields_as_list(&vec![field("x", "1"), field("y", "2")], &names(&["y", "y"]));
    assert_eq!(keys, names(&["y", "y", "x"]));
    assert_eq!(items, names(&["y : 2", "y : 2", "x : 1"]));
    assert_eq!(RawJsonLine::render_attribute(&field("k", "\"v\"")), "k : \"v\"");
}

#[test]
fn command_line_lists_replace_loaded_ones() {
    let loaded = Props { fields_order: names(&["a"]), fields_suppressed: names(&["b"]) };
    let p = init_props(loaded.clone(), Some(names(&["x", "y"])), None);
    assert_eq!(p.fields_order, names(&["x", "y"]));
    assert_eq!(p.fields_suppressed, names(&["b"]));
    let p = init_props(loaded, None, Some(vec![]));
    assert_eq!(p.fields_order, names(&["a"]));
    assert!(p.fields_suppressed.is_empty());
}
