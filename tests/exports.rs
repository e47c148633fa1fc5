use ibooks_highlights::export::{
    export_files, json_export, sanitize_title, text_export, HighlightExporter,
    HighlightWriter,
};
use ibooks_highlights::models::{Book, Highlight};

fn book(title: &str, content_type: Option<&str>) -> Book {
    Book {
        id: "b1".to_string(),
        title: title.to_string(),
        author: "Ann".to_string(),
        content_type: content_type.map(|c| c.to_string()),
    }
}

fn highlight(id: i64, style: Option<i32>, note: Option<&str>, modified: &str) -> Highlight {
    Highlight {
        id,
        text: "line".to_string(),
        date_created: "2001-01-01T00:00:00".to_string(),
        date_modified: modified.to_string(),
        style,
        note: note.map(|n| n.to_string()),
    }
}

#[test]
fn yellow_highlight_without_note_or_change() {
    let b = book("Title", Some("iBooks"));
    let hs = vec![highlight(1, Some(3), None, "2001-01-01T00:00:00")];
    let text = text_export(&b, &hs);
    assert_eq!(
        text,
        "Book: Title\nAuthor: Ann\nFormat: iBooks\n\nHighlights:\n===========\n\n\
         [2001-01-01T00:00:00] (Yellow)\nline\n\n"
    );
    assert!(!text.contains("Note:"));
    assert!(!text.contains("Modified:"));
}

#[test]
fn note_and_modification_lines() {
    let b = book("Title", None);
    let hs = vec![highlight(1, Some(1), Some("mine"), "2001-01-02T00:00:00")];
    assert_eq!(
        text_export(&b, &hs),
        "Book: Title\nAuthor: Ann\n\nHighlights:\n===========\n\n\
         [2001-01-01T00:00:00] (Green)\nline\nNote: mine\nModified: 2001-01-02T00:00:00\n\n"
    );
}

#[test]
fn absent_style_in_text_and_json() {
    let b = book("T", Some("iBooks"));
    let hs = vec![highlight(2, None, None, "2001-01-01T00:00:00")];
    assert!(text_export(&b, &hs).contains("[2001-01-01T00:00:00] (No Style)\n"));
    let json = json_export(&b, &hs).unwrap();
    assert!(json.contains("\"style\": null,"));
}

#[test]
fn json_layout_and_escaping() {
    let b = book("A \"Q\" Book", Some("iBooks"));
    let hs = vec![highlight(7, Some(3), None, "2001-01-01T00:00:00")];
    let expected = "{\n  \"book\": {\n    \"id\": \"b1\",\n    \"title\": \"A \\\"Q\\\" Book\",\n    \"author\": \"Ann\",\n    \"content_type\": \"iBooks\"\n  },\n  \"highlights\": [\n    {\n      \"id\": 7,\n      \"text\": \"line\",\n      \"date_created\": \"2001-01-01T00:00:00\",\n      \"date_modified\": \"2001-01-01T00:00:00\",\n      \"style\": \"Yellow\",\n      \"note\": null\n    }\n  ]\n}";
    assert_eq!(json_export(&b, &hs).unwrap(), expected);
}

#[test]
fn json_with_several_and_with_no_highlights() {
    let b = book("T", None);
    let empty: Vec<Highlight> = Vec::new();
    assert_eq!(
        json_export(&b, &empty).unwrap(),
        "{\n  \"book\": {\n    \"id\": \"b1\",\n    \"title\": \"T\",\n    \"author\": \"Ann\",\n    \"content_type\": null\n  },\n  \"highlights\": []\n}"
    );
    let hs = vec![
        highlight(-3, Some(2), Some("n\tx"), "2001-01-01T00:00:00"),
        highlight(12, Some(9), None, "2001-01-01T00:00:00"),
    ];
    let json = json_export(&b, &hs).unwrap();
    assert!(json.contains("      \"id\": -3,\n"));
    assert!(json.contains("      \"note\": \"n\\tx\"\n    },\n    {\n      \"id\": 12,\n"));
    assert!(json.contains("      \"style\": \"Unknown\",\n"));
}

#[test]
fn forbidden_characters_become_underscores() {
    assert_eq!(sanitize_title("a/b\\c:d*e?f\"g<h>i|j"), "a_b_c_d_e_f_g_h_i_j");
    assert_eq!(sanitize_title("plain title"), "plain title");
    assert_eq!(sanitize_title(""), "");
}

#[test]
fn both_files_share_the_sanitized_stem() {
    let b = book("What? A/B", Some("iBooks"));
    let files = export_files("/out", &b, &[]).unwrap();
    assert_eq!(files.text_path, "/out/What_ A_B.txt");
    assert_eq!(files.json_path, "/out/What_ A_B.json");
    let slash = export_files("/out/", &b, &[]).unwrap();
    assert_eq!(slash.text_path, "/out/What_ A_B.txt");
}

#[test]
fn exporting_twice_gives_identical_files() {
    let b = book("Same", Some("iBooks"));
    let hs = vec![highlight(1, Some(4), Some("x"), "2001-01-03T00:00:00")];
    let exporter = HighlightExporter::in_home("/home/reader");
    let first = exporter.export_highlights(&b, &hs).unwrap();
    let second = exporter.export_highlights(&b, &hs).unwrap();
    assert_eq!(first.text, second.text);
    assert_eq!(first.json, second.json);
    assert_eq!(first.text_path, second.text_path);
    assert_eq!(first.json_path, second.json_path);
}

#[test]
fn exporter_and_writer_use_the_home_export_directory() {
    let exporter = HighlightExporter::in_home("/home/reader");
    assert_eq!(exporter.output_dir, "/home/reader/ibooks_highlights");
    let writer = HighlightWriter::in_home("/home/reader/");
    assert_eq!(writer.output_dir, "/home/reader/ibooks_highlights");
    let b = book("W", None);
    let files = writer.write_highlights(&b, &[]).unwrap();
    assert_eq!(files.text_path, "/home/reader/ibooks_highlights/W.txt");
    assert_eq!(files.json_path, "/home/reader/ibooks_highlights/W.json");
    assert_eq!(files.text, "Book: W\nAuthor: Ann\n\nHighlights:\n===========\n\n");
}

#[test]
fn exporting_a_title_with_every_forbidden_character() {
    let b = Book {
        id: "b".to_string(),
        title: "x/\\:*?\"<>|y".to_string(),
        author: "A".to_string(),
        content_type: None,
    };
    let exporter = HighlightExporter { output_dir: "/out".to_string() };
    let files = exporter.export_highlights(&b, &[]).unwrap();
    assert_eq!(files.text_path, "/out/x_________y.txt");
    assert_eq!(files.json_path, "/out/x_________y.json");
}

#[test]
fn exporter_and_writer_give_the_same_files() {
    let b = book("Same", None);
    let hs = vec![highlight(1, Some(3), None, "2001-01-01T00:00:00")];
    let e = HighlightExporter { output_dir: "/d".to_string() }.export_highlights(&b, &hs).unwrap();
    let w = HighlightWriter { output_dir: "/d".to_string() }.write_highlights(&b, &hs).unwrap();
    assert_eq!(e.text, w.text);
    assert_eq!(e.json, w.json);
    assert_eq!(e.text_path, w.text_path);
    assert_eq!(e.json_path, w.json_path);
    assert_eq!(
        e.text,
        "Book: Same\nAuthor: Ann\n\nHighlights:\n===========\n\n[2001-01-01T00:00:00] (Yellow)\nline\n\n"
    );
}

#[test]
fn json_escapes_control_characters() {
    let b = book("a\\b\u{1}c\u{1f}\r\n\u{8}\u{c}é", None);
    let json = json_export(&b, &[]).unwrap();
    assert!(json.contains("\"title\": \"a\\\\b\\u0001c\\u001f\\r\\n\\b\\fé\",\n"));
}
