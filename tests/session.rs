use ibooks_highlights::session::{next_action, Action, Event};

#[test]
fn no_books_is_reported() {
    assert_eq!(next_action(Event::BooksRead(0), 0), Action::ReportNoBooks);
}

#[test]
fn books_bring_the_menu() {
    assert_eq!(next_action(Event::BooksRead(3), 3), Action::ShowMenu);
}

#[test]
fn choosing_a_book_reads_its_highlights() {
    assert_eq!(next_action(Event::Chosen(Some(0)), 3), Action::ReadHighlights(0));
    assert_eq!(next_action(Event::Chosen(Some(2)), 3), Action::ReadHighlights(2));
}

#[test]
fn exit_entry_or_leaving_the_menu_says_goodbye() {
    assert_eq!(next_action(Event::Chosen(Some(3)), 3), Action::SayGoodbye);
    assert_eq!(next_action(Event::Chosen(None), 3), Action::SayGoodbye);
}

#[test]
fn book_without_highlights_is_not_exported() {
    assert_eq!(next_action(Event::HighlightsRead(0), 3), Action::ReportNoHighlights);
}

#[test]
fn highlights_are_displayed_and_exported() {
    assert_eq!(next_action(Event::HighlightsRead(4), 3), Action::DisplayAndExport);
}
