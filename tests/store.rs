use std::io::{BufRead, Cursor, Read, Write};

use json_lines_viewer::event::{handle_key, handle_resize, KeyCode, Modifiers};
use json_lines_viewer::model::{FindTask, Message, Size};
use json_lines_viewer::raw_json_lines::{input_kind, is_json_zip_entry, InputKind, RawJsonLines, SourceName};
use json_lines_viewer::text::{decimal_text, is_json_file_name, is_zip_file_name};

#[test]
fn sources_are_numbered_once() {
    let mut s = RawJsonLines::default();
    assert!(s.is_empty());
    s.push(SourceName::JsonFile("a.json".to_string()), 1, "x".to_string());
    s.push(SourceName::JsonFile("b.json".to_string()), 1, "y".to_string());
    s.push(SourceName::JsonFile("a.json".to_string()), 2, "z".to_string());
    assert!(!s.is_empty());
    assert_eq!(s.lines.len(), 3);
    assert_eq!(s.lines[0].source_id, s.lines[2].source_id);
    assert_ne!(s.lines[0].source_id, s.lines[1].source_id);
    assert_eq!(s.lines[2].line_nr, 2);
    assert_eq!(s.lines[2].content, "z");
    assert_eq!(s.source_name(s.lines[1].source_id).unwrap().to_text(), "b.json");
    assert!(s.source_name(2).is_none());
}

#[test]
fn json_file_lines_are_numbered_and_tagged() {
    let mut s = RawJsonLines::default();
    s.push_json_file(&"a.json".to_string(), vec!["x".to_string(), "y".to_string()]);
    s.push_json_file(&"b.json".to_string(), vec!["z".to_string()]);
    s.push_json_file(&"a.json".to_string(), vec![]);
    assert_eq!(s.lines.len(), 3);
    let nrs: Vec<usize> = s.lines.iter().map(|l| l.line_nr).collect();
    assert_eq!(nrs, vec![1, 2, 1]);
    let names: Vec<String> = s.lines.iter().map(|l| s.source_name(l.source_id).unwrap().to_text()).collect();
    assert_eq!(names, vec!["a.json", "a.json", "b.json"]);
    assert_eq!(s.lines[1].content, "y");
    let copy = SourceName::JsonFile("q".to_string()).duplicate();
    assert!(copy == SourceName::JsonFile("q".to_string()));
}

#[test]
fn source_name_text() {
    let n = SourceName::JsonInZip { zip_file: "z.zip".to_string(), json_file: "in.json".to_string() };
    assert_eq!(n.to_text(), "z.zip/in.json");
    assert!(n == SourceName::JsonInZip { zip_file: "z.zip".to_string(), json_file: "in.json".to_string() });
    assert!(n != SourceName::JsonFile("z.zip/in.json".to_string()));
}

#[test]
fn file_kinds_by_extension() {
    assert_eq!(input_kind("app.JSON"), InputKind::JsonLines);
    assert_eq!(input_kind("logs.Zip"), InputKind::ZipArchive);
    assert_eq!(input_kind("notes.txt"), InputKind::Unknown);
    assert_eq!(input_kind("json"), InputKind::Unknown);
    assert_eq!(input_kind(".json"), InputKind::Unknown);
    assert_eq!(input_kind(".zip"), InputKind::Unknown);
    assert_eq!(input_kind("a.json"), InputKind::JsonLines);
    assert_eq!(input_kind("b.zip"), InputKind::ZipArchive);
    assert!(is_json_zip_entry(true, ".json"));
    assert!(is_json_file_name("dir/x.json"));
    assert!(!is_json_file_name("x.jsonl"));
    assert!(is_zip_file_name("a.zip"));
    assert!(!is_zip_file_name("zip"));
    assert!(is_json_zip_entry(true, "sub/e.Json"));
    assert!(!is_json_zip_entry(false, "sub/"));
    assert!(!is_json_zip_entry(true, "readme.md"));
}

#[test]
fn decimal_numbers() {
    assert_eq!(decimal_text(0), "0");
    assert_eq!(decimal_text(7), "7");
    assert_eq!(decimal_text(1203), "1203");
    assert_eq!(decimal_text(usize::MAX), usize::MAX.to_string());
}

#[test]
fn find_task_edits_query() {
    let mut t = FindTask { search_string: "ab".to_string(), found: Some(true) };
    t.add_search_char('é');
    assert_eq!(t.search_string, "abé");
    assert_eq!(t.found, None);
    t.found = Some(false);
    t.remove_search_char();
    assert_eq!(t.search_string, "ab");
    assert_eq!(t.found, None);
    t.remove_search_char();
    t.remove_search_char();
    t.remove_search_char();
    assert_eq!(t.search_string, "");
}

#[test]
fn keys_map_to_messages() {
    assert_eq!(handle_key(Modifiers::Plain, KeyCode::Home), Some(Message::First));
    assert_eq!(handle_key(Modifiers::Plain, KeyCode::End), Some(Message::Last));
    assert_eq!(handle_key(Modifiers::Plain, KeyCode::Down), Some(Message::ScrollDown));
    assert_eq!(handle_key(Modifiers::Plain, KeyCode::Esc), Some(Message::Exit));
    assert_eq!(handle_key(Modifiers::Plain, KeyCode::Char('/')), Some(Message::OpenFindTask));
    assert_eq!(handle_key(Modifiers::Plain, KeyCode::Char('x')), Some(Message::CharacterInput('x')));
    assert_eq!(handle_key(Modifiers::Shift, KeyCode::Char('X')), Some(Message::CharacterInput('X')));
    assert_eq!(handle_key(Modifiers::Shift, KeyCode::Up), None);
    assert_eq!(handle_key(Modifiers::Control, KeyCode::Char('s')), Some(Message::SaveSettings));
    assert_eq!(handle_key(Modifiers::Control, KeyCode::Char('f')), Some(Message::OpenFindTask));
    assert_eq!(handle_key(Modifiers::Control, KeyCode::Char('x')), None);
    assert_eq!(handle_key(Modifiers::Other, KeyCode::Enter), None);
    assert_eq!(handle_key(Modifiers::Plain, KeyCode::Other), None);
    assert_eq!(handle_resize(100, 30), Some(Message::Resized(Size { width: 100, height: 30 })));
}

#[test]
fn zip_ingests_only_json_entries() {
    let mut buf = Cursor::new(Vec::new());
    {
        let mut w = zip::ZipWriter::new(&mut buf);
        let opts = zip::write::SimpleFileOptions::default().compression_method(zip::CompressionMethod::Stored);
        w.start_file("one.json", opts).unwrap();
        w.write_all(b"{\"a\":1}\n{\"a\":2}\n").unwrap();
        w.start_file("notes.txt", opts).unwrap();
        w.write_all(b"{\"skip\":true}\n").unwrap();
        w.start_file("two.JSON", opts).unwrap();
        w.write_all(b"{\"b\":3}\n").unwrap();
        w.finish().unwrap();
    }
    buf.set_position(0);
    let mut archive = zip::ZipArchive::new(buf).unwrap();
    let mut store = RawJsonLines::default();
    let zip_name = "logs.zip".to_string();
    let mut taken = Vec::new();
    for i in 0..archive.len() {
        let mut f = archive.by_index(i).unwrap();
        let name = f.name().to_string();
        let is_file = f.is_file();
        let mut text = String::new();
        f.read_to_string(&mut text).unwrap();
        let lines: Vec<String> = Cursor::new(text).lines().map(|l| l.unwrap()).collect();
        taken.push(store.push_zip_entry(&zip_name, &name, is_file, lines));
    }
    assert_eq!(taken, vec![true, false, true]);
    assert_eq!(store.lines.len(), 3);
    let texts: Vec<String> =
        store.lines.iter().map(|l| store.source_name(l.source_id).unwrap().to_text()).collect();
    assert_eq!(texts, vec!["logs.zip/one.json", "logs.zip/one.json", "logs.zip/two.JSON"]);
    assert_eq!(store.lines.iter().map(|l| l.line_nr).collect::<Vec<_>>(), vec![1, 2, 1]);
    assert_ne!(store.lines[0].source_id, store.lines[2].source_id);
    assert_eq!(store.lines[2].content, "{\"b\":3}");
    assert!(store.lines.iter().all(|l| !l.content.contains("skip")));
}
