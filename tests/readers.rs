use ibooks_highlights::queries::{fetch_books, fetch_highlights, AnnotationRow, AssetRow};

fn asset(id: &str, title: Option<&str>, content_type: Option<i32>) -> AssetRow {
    AssetRow {
        asset_id: id.to_string(),
        title: title.map(|t| t.to_string()),
        author: format!("Author of {}", id),
        content_type,
    }
}

fn annotation(id: i64, book: &str, created: i64, location: Option<i64>) -> AnnotationRow {
    AnnotationRow {
        id,
        asset_id: Some(book.to_string()),
        selected_text: Some(format!("passage {}", id)),
        representative_text: None,
        created: Some(created),
        modified: Some(created),
        style: Some(1),
        note: None,
        deleted: false,
        location,
    }
}

fn ids(books: &[ibooks_highlights::models::Book]) -> Vec<String> {
    books.iter().map(|b| b.id.clone()).collect()
}

#[test]
fn books_most_recently_highlighted_first() {
    let assets = vec![
        asset("a", Some("Alpha"), Some(1)),
        asset("b", Some("Beta"), Some(2)),
        asset("c", Some("Gamma"), None),
    ];
    let anns = vec![
        annotation(1, "a", 100, None),
        annotation(2, "b", 50, None),
        annotation(3, "c", 70, None),
        annotation(4, "b", 300, None),
    ];
    let books = fetch_books(&assets, &anns);
    assert_eq!(ids(&books), vec!["b", "a", "c"]);
    assert_eq!(books[0].title, "Beta");
    assert_eq!(books[0].author, "Author of b");
    assert_eq!(books[0].content_type, Some("iBooks".to_string()));
    assert_eq!(books[2].content_type, None);
}

#[test]
fn pdfs_and_untitled_books_are_not_listed() {
    let assets = vec![
        asset("pdf", Some("Manual"), Some(3)),
        asset("untitled", None, Some(1)),
        asset("novel", Some("Novel"), Some(7)),
    ];
    let anns = vec![
        annotation(1, "pdf", 10, None),
        annotation(2, "untitled", 20, None),
        annotation(3, "novel", 5, None),
    ];
    let books = fetch_books(&assets, &anns);
    assert_eq!(ids(&books), vec!["novel"]);
    assert_eq!(books[0].content_type, Some("Unknown".to_string()));
}

#[test]
fn equal_latest_times_keep_both_books_in_catalog_order() {
    let assets = vec![asset("x", Some("X"), Some(1)), asset("y", Some("Y"), Some(1))];
    let anns = vec![annotation(1, "y", 40, None), annotation(2, "x", 40, None)];
    let books = fetch_books(&assets, &anns);
    assert_eq!(ids(&books), vec!["x", "y"]);
}

#[test]
fn books_without_live_annotations_are_not_listed() {
    let assets = vec![asset("gone", Some("Gone"), Some(1)), asset("none", Some("None"), Some(1))];
    let mut deleted = annotation(1, "gone", 10, None);
    deleted.deleted = true;
    let books = fetch_books(&assets, &vec![deleted]);
    assert!(books.is_empty());
}

#[test]
fn one_book_per_identifier_and_title() {
    let assets = vec![asset("a", Some("Alpha"), Some(1)), asset("a", Some("Alpha"), Some(2))];
    let anns = vec![annotation(1, "a", 10, None)];
    let books = fetch_books(&assets, &anns);
    assert_eq!(books.len(), 1);
}

#[test]
fn books_whose_annotations_cannot_be_dated_are_not_listed() {
    let assets = vec![asset("u", Some("U"), Some(1)), asset("d", Some("D"), Some(1))];
    let mut undated = annotation(1, "u", 0, None);
    undated.created = None;
    let anns = vec![undated, annotation(2, "d", -5, None)];
    let books = fetch_books(&assets, &anns);
    assert_eq!(ids(&books), vec!["d"]);
    assert!(fetch_highlights(&anns, "u").is_empty());
}

#[test]
fn deleted_annotations_do_not_count_for_recency() {
    let assets = vec![asset("a", Some("A"), Some(1)), asset("b", Some("B"), Some(1))];
    let mut late_deleted = annotation(1, "a", 500, None);
    late_deleted.deleted = true;
    let anns = vec![late_deleted, annotation(2, "a", 10, None), annotation(3, "b", 20, None)];
    let books = fetch_books(&assets, &anns);
    assert_eq!(ids(&books), vec!["b", "a"]);
}

#[test]
fn highlights_in_reading_order() {
    let anns = vec![
        annotation(1, "a", 0, Some(30)),
        annotation(2, "a", 0, Some(10)),
        annotation(3, "b", 0, Some(5)),
        annotation(4, "a", 0, None),
        annotation(5, "a", 0, Some(10)),
    ];
    let hs = fetch_highlights(&anns, "a");
    let order: Vec<i64> = hs.iter().map(|h| h.id).collect();
    assert_eq!(order, vec![4, 2, 5, 1]);
    assert_eq!(hs[0].date_created, "2001-01-01T00:00:00");
}

#[test]
fn highlight_fields_are_normalized() {
    let mut n = annotation(9, "a", 0, Some(1));
    n.modified = Some(86400);
    n.style = Some(3);
    n.note = Some("remember".to_string());
    let hs = fetch_highlights(&vec![n], "a");
    assert_eq!(hs.len(), 1);
    assert_eq!(hs[0].id, 9);
    assert_eq!(hs[0].text, "passage 9");
    assert_eq!(hs[0].date_created, "2001-01-01T00:00:00");
    assert_eq!(hs[0].date_modified, "2001-01-02T00:00:00");
    assert_eq!(hs[0].style, Some(3));
    assert_eq!(hs[0].note, Some("remember".to_string()));
}

#[test]
fn highlight_text_falls_back_to_representative_then_placeholder() {
    let mut rep = annotation(1, "a", 0, Some(1));
    rep.selected_text = None;
    rep.representative_text = Some("representative".to_string());
    let mut empty = annotation(2, "a", 0, Some(2));
    empty.selected_text = None;
    let hs = fetch_highlights(&vec![rep, empty], "a");
    assert_eq!(hs[0].text, "representative");
    assert_eq!(hs[1].text, "[No Text Available]");
}

#[test]
fn deleted_and_undatable_annotations_are_left_out() {
    let mut deleted = annotation(1, "a", 0, Some(1));
    deleted.deleted = true;
    let mut undated = annotation(2, "a", 0, Some(2));
    undated.modified = None;
    let mut far = annotation(3, "a", 0, Some(3));
    far.created = Some(i64::MAX);
    let kept = annotation(4, "a", 0, Some(4));
    let hs = fetch_highlights(&vec![deleted, undated, far, kept], "a");
    let order: Vec<i64> = hs.iter().map(|h| h.id).collect();
    assert_eq!(order, vec![4]);
}

#[test]
fn book_whose_annotations_are_all_deleted_has_nothing_to_export() {
    let assets = vec![asset("a", Some("Alpha"), Some(1))];
    let mut deleted = annotation(1, "a", 10, Some(1));
    deleted.deleted = true;
    let anns = vec![deleted];
    assert!(fetch_books(&assets, &anns).is_empty());
    assert!(fetch_highlights(&anns, "a").is_empty());
}
