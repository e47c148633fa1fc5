use vstd::prelude::*;
use vstd::string::*;
use crate::models::{style_label, Book, Highlight};

verus! {

/// Longest title shown whole in the book menu, in characters.
pub const TITLE_WIDTH: usize = 50;

/// Characters of a longer title kept before the ellipsis.
pub const TITLE_KEPT: usize = 47;

/// Label of the menu entry that leaves without choosing a book.
pub const EXIT_LABEL: &'static str = "Exit";

/// A title as the menu shows it: cut to its first characters and an ellipsis when long.
pub open spec fn shown_title(t: Seq<char>) -> Seq<char> {
    if t.len() > TITLE_WIDTH {
        t.subrange(0, TITLE_KEPT as int) + "..."@
    } else {
        t
    }
}

/// Menu label of a book: title, author and format.
pub open spec fn label_of(b: Book) -> Seq<char> {
    shown_title(b.title@) + " by "@ + b.author@ + " • "@ + match b.content_type {
        Some(c) => c@,
        None => "Unknown Type"@,
    }
}

/// Menu label of a book.
pub fn book_label(book: &Book) -> (r: String)
    ensures
        r@ == label_of(*book),
{
    let title = book.title.as_str();
    let mut s = if title.unicode_len() > TITLE_WIDTH {
        String::from_str(title.substring_char(0, TITLE_KEPT)).concat("...")
    } else {
        String::from_str(title)
    };
    s.append(" by ");
    s.append(book.author.as_str());
    s.append(" • ");
    match &book.content_type {
        Some(c) => s.append(c.as_str()),
        None => s.append("Unknown Type"),
    }
    assert(s@ =~= label_of(*book));
    s
}

/// The entries of the book menu: one label per book, in order, then the exit entry.
pub fn selection_options(books: &[Book]) -> (r: Vec<String>)
    ensures
        r@.len() == books@.len() + 1,
        forall|i: int| 0 <= i < books@.len() ==> r@[i]@ == label_of(#[trigger] books@[i]),
        r@[books@.len() as int]@ == EXIT_LABEL@,
{
    let mut options: Vec<String> = Vec::new();
    let mut i: usize = 0;
    while i < books.len()
        invariant
            i <= books@.len(),
            options@.len() == i,
            forall|k: int| 0 <= k < i ==> options@[k]@ == label_of(#[trigger] books@[k]),
        decreases books.len() - i,
    {
        options.push(book_label(&books[i]));
        i = i + 1;
    }
    options.push(String::from_str(EXIT_LABEL));
    options
}

/// The book picked from a menu of `book_count` books and the exit entry: none
/// when the menu was left or the exit entry picked.
pub fn selected_book(choice: Option<usize>, book_count: usize) -> (r: Option<usize>)
    ensures
        r == (match choice {
            Some(i) => if i < book_count {
                Some(i)
            } else {
                None
            },
            None => None,
        }),
{
    match choice {
        Some(i) => if i < book_count {
            Some(i)
        } else {
            None
        },
        None => None,
    }
}

/// One highlight as shown on screen.
pub open spec fn display_block(h: Highlight) -> Seq<char> {
    "🔍 ["@ + h.date_created@ + "] ("@ + style_label(h.style) + ")\n"@ + "   "@ + h.text@ + "\n"@
        + match h.note {
        Some(n) => "   📝 Note: "@ + n@ + "\n"@,
        None => Seq::empty(),
    } + if h.date_modified@ != h.date_created@ {
        "   ✏️  Modified: "@ + h.date_modified@ + "\n"@
    } else {
        Seq::empty()
    } + "\n"@
}

/// The highlights as shown on screen, in the order given.
pub open spec fn display_blocks(hs: Seq<Highlight>) -> Seq<char>
    decreases hs.len(),
{
    if hs.len() == 0 {
        Seq::empty()
    } else {
        display_blocks(hs.drop_last()) + display_block(hs.last())
    }
}

/// The on-screen listing of a book's highlights.
pub open spec fn display_listing(title: Seq<char>, hs: Seq<Highlight>) -> Seq<char> {
    "\nHighlights for '"@ + title + "':\n\n"@ + display_blocks(hs)
}

fn push_display_block(s: &mut String, h: &Highlight)
    ensures
        final(s)@ == old(s)@ + display_block(*h),
{
    s.append("🔍 [");
    s.append(h.date_created.as_str());
    s.append("] (");
    s.append(h.style_name());
    s.append(")\n");
    s.append("   ");
    s.append(h.text.as_str());
    s.append("\n");
    match &h.note {
        Some(n) => {
            s.append("   📝 Note: ");
            s.append(n.as_str());
            s.append("\n");
        },
        None => {},
    }
    if h.date_modified != h.date_created {
        s.append("   ✏️  Modified: ");
        s.append(h.date_modified.as_str());
        s.append("\n");
    }
    s.append("\n");
    assert(final(s)@ =~= old(s)@ + display_block(*h));
}

/// Writes the on-screen listing of a book's highlights.
pub fn display_text(book_title: &str, highlights: &[Highlight]) -> (r: String)
    ensures
        r@ == display_listing(book_title@, highlights@),
{
    let mut s = String::from_str("\nHighlights for '");
    s.append(book_title);
    s.append("':\n\n");
    let mut i: usize = 0;
    while i < highlights.len()
        invariant
            i <= highlights@.len(),
            s@ == "\nHighlights for '"@ + book_title@ + "':\n\n"@ + display_blocks(
                highlights@.subrange(0, i as int),
            ),
        decreases highlights.len() - i,
    {
        push_display_block(&mut s, &highlights[i]);
        assert(highlights@.subrange(0, i + 1).drop_last() =~= highlights@.subrange(0, i as int));
        i = i + 1;
    }
    assert(highlights@.subrange(0, highlights@.len() as int) =~= highlights@);
    s
}

} // verus!
