use ibooks_highlights::menu::{book_label, display_text, selected_book, selection_options};
use ibooks_highlights::models::{Book, Highlight};
use ibooks_highlights::paths::ibooks_paths_in;

fn book(title: &str, content_type: Option<&str>) -> Book {
    Book {
        id: "id".to_string(),
        title: title.to_string(),
        author: "Ann".to_string(),
        content_type: content_type.map(|c| c.to_string()),
    }
}

#[test]
fn label_of_short_title() {
    assert_eq!(book_label(&book("Short", Some("iBooks"))), "Short by Ann • iBooks");
    assert_eq!(book_label(&book("Short", None)), "Short by Ann • Unknown Type");
}

#[test]
fn label_of_long_title_is_cut() {
    let fifty = "x".repeat(50);
    assert_eq!(book_label(&book(&fifty, None)), format!("{} by Ann • Unknown Type", fifty));
    let long = "y".repeat(51);
    assert_eq!(
        book_label(&book(&long, Some("iBooks"))),
        format!("{}... by Ann • iBooks", "y".repeat(47))
    );
}

#[test]
fn menu_ends_with_exit() {
    let books = vec![book("A", None), book("B", Some("iBooks"))];
    let options = selection_options(&books);
    assert_eq!(options, vec!["A by Ann • Unknown Type", "B by Ann • iBooks", "Exit"]);
}

#[test]
fn menu_choice_to_book() {
    assert_eq!(selected_book(Some(0), 2), Some(0));
    assert_eq!(selected_book(Some(1), 2), Some(1));
    assert_eq!(selected_book(Some(2), 2), None);
    assert_eq!(selected_book(None, 2), None);
}

#[test]
fn on_screen_listing() {
    let hs = vec![Highlight {
        id: 1,
        text: "words".to_string(),
        date_created: "c".to_string(),
        date_modified: "m".to_string(),
        style: Some(5),
        note: Some("n".to_string()),
    }];
    assert_eq!(
        display_text("Book", &hs),
        "\nHighlights for 'Book':\n\n🔍 [c] (Purple)\n   words\n   📝 Note: n\n   ✏️  Modified: m\n\n"
    );
}

#[test]
fn database_locations_under_home() {
    let p = ibooks_paths_in("/Users/r");
    assert_eq!(
        p.library_path,
        "/Users/r/Library/Containers/com.apple.iBooksX/Data/Documents/BKLibrary/BKLibrary-1-091020131601.sqlite"
    );
    assert_eq!(
        p.highlights_path,
        "/Users/r/Library/Containers/com.apple.iBooksX/Data/Documents/AEAnnotation/AEAnnotation_v10312011_1727_local.sqlite"
    );
}
