//! The decisions of one run of the program: from what was just read or chosen to
//! what is done next. The program performs each action and reports the event
//! that follows it.

use vstd::prelude::*;

verus! {

/// What the program has just learned.
#[derive(Clone, Copy, PartialEq, Eq, Structural, Debug)]
pub enum Event {
    /// The catalog reader returned this many books.
    BooksRead(usize),
    /// The menu returned this entry, or was left.
    Chosen(Option<usize>),
    /// The highlight reader returned this many highlights for the chosen book.
    HighlightsRead(usize),
}

/// What the program does next.
#[derive(Clone, Copy, PartialEq, Eq, Structural, Debug)]
pub enum Action {
    /// Say that no book has highlights, and stop.
    ReportNoBooks,
    /// Show the book menu.
    ShowMenu,
    /// Say goodbye, and stop.
    SayGoodbye,
    /// Read the highlights of the book at this index.
    ReadHighlights(usize),
    /// Say that the chosen book has no highlights, and stop without writing.
    ReportNoHighlights,
    /// Show the highlights and write the export files.
    DisplayAndExport,
}

/// The action that follows `e` when the menu lists `book_count` books.
pub open spec fn decide(e: Event, book_count: usize) -> Action {
    match e {
        Event::BooksRead(n) => if n == 0 {
            Action::ReportNoBooks
        } else {
            Action::ShowMenu
        },
        Event::Chosen(c) => match c {
            Some(i) => if i < book_count {
                Action::ReadHighlights(i)
            } else {
                Action::SayGoodbye
            },
            None => Action::SayGoodbye,
        },
        Event::HighlightsRead(n) => if n == 0 {
            Action::ReportNoHighlights
        } else {
            Action::DisplayAndExport
        },
    }
}

/// The action that follows `e` when the menu lists `book_count` books.
pub fn next_action(e: Event, book_count: usize) -> (a: Action)
    ensures
        a == decide(e, book_count),
        e == Event::BooksRead(0) ==> a == Action::ReportNoBooks,
        (e matches Event::BooksRead(n) && n > 0) ==> a == Action::ShowMenu,
        e matches Event::Chosen(Some(i)) ==> (i < book_count ==> a == Action::ReadHighlights(i)),
        (e matches Event::Chosen(c) && !(c matches Some(i) && i < book_count)) ==> a
            == Action::SayGoodbye,
        e == Event::HighlightsRead(0) ==> a == Action::ReportNoHighlights,
        (e matches Event::HighlightsRead(n) && n > 0) ==> a == Action::DisplayAndExport,
{
    match e {
        Event::BooksRead(n) => if n == 0 {
            Action::ReportNoBooks
        } else {
            Action::ShowMenu
        },
        Event::Chosen(c) => match c {
            Some(i) => if i < book_count {
                Action::ReadHighlights(i)
            } else {
                Action::SayGoodbye
            },
            None => Action::SayGoodbye,
        },
        Event::HighlightsRead(n) => if n == 0 {
            Action::ReportNoHighlights
        } else {
            Action::DisplayAndExport
        },
    }
}

/// Nothing is exported for a book without highlights: exporting follows only
/// a non-empty highlight list, and an empty one is reported instead. The menu
/// is shown only when there are books, and only a listed book is read.
pub proof fn lemma_export_needs_highlights(e: Event, book_count: usize)
    ensures
        decide(e, book_count) == Action::DisplayAndExport ==> (e matches Event::HighlightsRead(n)
            && n > 0),
        decide(Event::HighlightsRead(0), book_count) == Action::ReportNoHighlights,
        decide(e, book_count) == Action::ShowMenu ==> (e matches Event::BooksRead(n) && n > 0),
        decide(e, book_count) matches Action::ReadHighlights(i) ==> i < book_count,
{
}

} // verus!
