use ibooks_highlights::models::{Book, Highlight};

#[test]
fn content_type_codes() {
    assert_eq!(Book::get_content_type_string(1), "iBooks");
    assert_eq!(Book::get_content_type_string(2), "iBooks");
    assert_eq!(Book::get_content_type_string(3), "PDF");
    assert_eq!(Book::get_content_type_string(0), "Unknown");
    assert_eq!(Book::get_content_type_string(-7), "Unknown");
}

#[test]
fn style_codes() {
    assert_eq!(Highlight::get_style_color(1), "Green");
    assert_eq!(Highlight::get_style_color(2), "Blue");
    assert_eq!(Highlight::get_style_color(3), "Yellow");
    assert_eq!(Highlight::get_style_color(4), "Pink");
    assert_eq!(Highlight::get_style_color(5), "Purple");
    assert_eq!(Highlight::get_style_color(0), "Unknown");
    assert_eq!(Highlight::get_style_color(6), "Unknown");
}

#[test]
fn absent_style_is_no_style() {
    let h = Highlight {
        id: 1,
        text: "t".to_string(),
        date_created: "d".to_string(),
        date_modified: "d".to_string(),
        style: None,
        note: None,
    };
    assert_eq!(h.style_name(), "No Style");
}
