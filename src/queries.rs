//! The two readers: from the rows of the library catalog and of the annotation
//! store to the ordered lists of books and highlights.
//!
//! Policies: an annotation without selected or representative text keeps its
//! place, with a placeholder text. A book is listed only when it has a
//! highlight: a live (not deleted) annotation whose two timestamps can be
//! written as dates. Books are ordered by the latest creation time among those
//! highlights alone; deleted or undatable annotations count for nothing, in the
//! listing as in the order. Content-type codes 1 and 2 read "iBooks", 3 reads
//! "PDF" (never listed), any other "Unknown".

use vstd::prelude::*;
use vstd::string::*;
use crate::models::{content_type_label, Book, Highlight};
use crate::ordering::{is_stable_order, stable_order};
use crate::timestamp::{date_text, in_calendar_range, normalize, EPOCH_SECONDS, LIMIT_SECONDS};

verus! {

/// Content-type code of PDF documents, which are never listed.
pub const PDF_CONTENT_TYPE: i32 = 3;

/// Text substituted for an annotation that holds no text of its own.
pub const NO_TEXT: &'static str = "[No Text Available]";

/// One row of the library catalog.
pub struct AssetRow {
    /// Catalog identifier of the book.
    pub asset_id: String,
    /// Title, absent for untitled entries.
    pub title: Option<String>,
    /// Author.
    pub author: String,
    /// Raw content-type code.
    pub content_type: Option<i32>,
}

/// One row of the annotation store, with its timestamps in whole seconds since
/// 2001-01-01T00:00:00 UTC.
pub struct AnnotationRow {
    /// Identifier of the annotation.
    pub id: i64,
    /// Catalog identifier of the annotated book.
    pub asset_id: Option<String>,
    /// Text the reader selected.
    pub selected_text: Option<String>,
    /// Representative text stored beside the selection.
    pub representative_text: Option<String>,
    /// Creation time.
    pub created: Option<i64>,
    /// Modification time.
    pub modified: Option<i64>,
    /// Colour style code.
    pub style: Option<i32>,
    /// The reader's note.
    pub note: Option<String>,
    /// Deletion flag.
    pub deleted: bool,
    /// Start of the highlighted range within the book.
    pub location: Option<i64>,
}

/// A catalog row that can be listed: it has a title and is no PDF.
pub open spec fn is_listable(a: AssetRow) -> bool {
    a.title is Some && a.content_type != Some(PDF_CONTENT_TYPE)
}

/// `n` is a live (not deleted) annotation of the book `id`.
pub open spec fn annotates(n: AnnotationRow, id: Seq<char>) -> bool {
    !n.deleted && n.asset_id is Some && n.asset_id->0@ == id
}

/// The book `id` has at least one highlight.
pub open spec fn has_highlight(anns: Seq<AnnotationRow>, id: Seq<char>) -> bool {
    exists|i: int| 0 <= i < anns.len() && is_highlight_entry(#[trigger] anns[i], id)
}

/// Latest creation time among the highlights of the book `id`.
pub open spec fn latest_created(anns: Seq<AnnotationRow>, id: Seq<char>) -> Option<i64>
    decreases anns.len(),
{
    if anns.len() == 0 {
        None
    } else {
        let rest = latest_created(anns.drop_last(), id);
        let n = anns.last();
        if is_highlight_entry(n, id) && (rest is None || rest->0 < n.created->0) {
            n.created
        } else {
            rest
        }
    }
}

/// Sort key of a book: most recent first, books without a dated annotation last.
pub open spec fn recency_key(latest: Option<i64>) -> i128 {
    match latest {
        Some(t) => (-(t as int)) as i128,
        None => 0x1_0000_0000_0000_0000i128,
    }
}

/// Catalog row `i` heads its (identifier, title) group among the listable rows
/// with annotations.
pub open spec fn is_book_entry(assets: Seq<AssetRow>, anns: Seq<AnnotationRow>, i: int) -> bool {
    &&& is_listable(assets[i])
    &&& has_highlight(anns, assets[i].asset_id@)
    &&& !exists|j: int|
        0 <= j < i && is_listable(#[trigger] assets[j]) && assets[j].asset_id@ == assets[i].asset_id@
            && assets[j].title->0@ == assets[i].title->0@
}

/// Which catalog rows become books.
pub open spec fn book_entries(assets: Seq<AssetRow>, anns: Seq<AnnotationRow>) -> Seq<bool> {
    Seq::new(assets.len(), |i: int| is_book_entry(assets, anns, i))
}

/// Sort keys of the catalog rows.
pub open spec fn book_keys(assets: Seq<AssetRow>, anns: Seq<AnnotationRow>) -> Seq<i128> {
    Seq::new(assets.len(), |i: int| recency_key(latest_created(anns, assets[i].asset_id@)))
}

/// `b` is the book that the catalog row `a` describes.
pub open spec fn book_of_row(b: Book, a: AssetRow) -> bool {
    &&& b.id@ == a.asset_id@
    &&& a.title is Some && b.title@ == a.title->0@
    &&& b.author@ == a.author@
    &&& match a.content_type {
        Some(c) => b.content_type is Some && b.content_type->0@ == content_type_label(c),
        None => b.content_type is None,
    }
}

/// The list of books that `fetch_books` returns, through the order of catalog rows `ord`.
pub open spec fn is_book_list(
    books: Seq<Book>,
    assets: Seq<AssetRow>,
    anns: Seq<AnnotationRow>,
    ord: Seq<usize>,
) -> bool {
    &&& is_stable_order(book_keys(assets, anns), book_entries(assets, anns), ord)
    &&& books.len() == ord.len()
    &&& forall|k: int| 0 <= k < books.len() ==> book_of_row(books[k], assets[ord[k] as int])
}

/// The annotation `n` becomes a highlight of the book `id`: it is live, and both
/// of its timestamps can be written as dates.
pub open spec fn is_highlight_entry(n: AnnotationRow, id: Seq<char>) -> bool {
    &&& annotates(n, id)
    &&& n.created is Some && in_calendar_range(n.created->0 as int)
    &&& n.modified is Some && in_calendar_range(n.modified->0 as int)
}

/// Sort key of an annotation: its position in the book, unplaced ones first.
pub open spec fn position_key(location: Option<i64>) -> i128 {
    match location {
        Some(p) => p as i128,
        None => -0x1_0000_0000_0000_0000i128,
    }
}

/// The text of an annotation: the selection, else the representative text, else
/// the placeholder.
pub open spec fn annotation_text(n: AnnotationRow) -> Seq<char> {
    match n.selected_text {
        Some(s) => s@,
        None => match n.representative_text {
            Some(r) => r@,
            None => NO_TEXT@,
        },
    }
}

/// `h` is the highlight that the annotation row `n` describes.
pub open spec fn highlight_of_row(h: Highlight, n: AnnotationRow) -> bool {
    &&& h.id == n.id
    &&& h.text@ == annotation_text(n)
    &&& n.created is Some && h.date_created@ == date_text(n.created->0 as int)
    &&& n.modified is Some && h.date_modified@ == date_text(n.modified->0 as int)
    &&& h.style == n.style
    &&& match n.note {
        Some(t) => h.note is Some && h.note->0@ == t@,
        None => h.note is None,
    }
}

/// The list of highlights that `fetch_highlights` returns, through the order of
/// annotation rows `ord`.
pub open spec fn is_highlight_list(
    hs: Seq<Highlight>,
    anns: Seq<AnnotationRow>,
    id: Seq<char>,
    ord: Seq<usize>,
) -> bool {
    &&& is_stable_order(
        Seq::new(anns.len(), |i: int| position_key(anns[i].location)),
        Seq::new(anns.len(), |i: int| is_highlight_entry(anns[i], id)),
        ord,
    )
    &&& hs.len() == ord.len()
    &&& forall|k: int| 0 <= k < hs.len() ==> highlight_of_row(hs[k], anns[ord[k] as int])
}

/// `a` is at least as recent as `b`, where an absent time is older than any.
pub open spec fn at_least_as_recent(a: Option<i64>, b: Option<i64>) -> bool {
    match (a, b) {
        (_, None) => true,
        (Some(x), Some(y)) => x >= y,
        (None, Some(_)) => false,
    }
}

/// No listed book is untitled or a PDF, and none carries the PDF label.
pub proof fn lemma_books_exclude_pdfs(
    books: Seq<Book>,
    assets: Seq<AssetRow>,
    anns: Seq<AnnotationRow>,
    ord: Seq<usize>,
)
    requires
        is_book_list(books, assets, anns, ord),
    ensures
        forall|k: int|
            0 <= k < books.len() ==> {
                let a = #[trigger] assets[ord[k] as int];
                &&& a.title is Some
                &&& a.content_type != Some(PDF_CONTENT_TYPE)
                &&& books[k].content_type matches Some(c) ==> c@ != "PDF"@
            },
{
    assert forall|k: int| 0 <= k < books.len() implies {
        let a = #[trigger] assets[ord[k] as int];
        &&& a.title is Some
        &&& a.content_type != Some(PDF_CONTENT_TYPE)
        &&& books[k].content_type matches Some(c) ==> c@ != "PDF"@
    } by {
        assert(book_entries(assets, anns)[ord[k] as int]);
        assert(book_of_row(books[k], assets[ord[k] as int]));
        reveal_strlit("PDF");
        reveal_strlit("iBooks");
        reveal_strlit("Unknown");
        assert("PDF"@.len() == 3 && "iBooks"@.len() == 6 && "Unknown"@.len() == 7);
    }
}

/// Books come most recently highlighted first, and every book that has a
/// highlight appears, whatever its time.
pub proof fn lemma_books_by_recency(
    books: Seq<Book>,
    assets: Seq<AssetRow>,
    anns: Seq<AnnotationRow>,
    ord: Seq<usize>,
)
    requires
        is_book_list(books, assets, anns, ord),
    ensures
        forall|k1: int, k2: int|
            0 <= k1 < k2 < books.len() ==> at_least_as_recent(
                latest_created(anns, #[trigger] books[k1].id@),
                latest_created(anns, #[trigger] books[k2].id@),
            ),
        forall|i: int|
            0 <= i < assets.len() && is_book_entry(assets, anns, i) ==> exists|k: int|
                0 <= k < books.len() && ord[k] == i && #[trigger] books[k].id@ == assets[i].asset_id@,
{
    let keys = book_keys(assets, anns);
    assert forall|k1: int, k2: int| 0 <= k1 < k2 < books.len() implies at_least_as_recent(
        latest_created(anns, #[trigger] books[k1].id@),
        latest_created(anns, #[trigger] books[k2].id@),
    ) by {
        assert(book_of_row(books[k1], assets[ord[k1] as int]));
        assert(book_of_row(books[k2], assets[ord[k2] as int]));
        assert(crate::ordering::precedes(keys, ord[k1] as int, ord[k2] as int));
    }
    assert forall|i: int| 0 <= i < assets.len() && is_book_entry(assets, anns, i) implies exists|k: int|
        0 <= k < books.len() && ord[k] == i && #[trigger] books[k].id@ == assets[i].asset_id@ by {
        assert(book_entries(assets, anns)[i]);
        let k = choose|k: int| 0 <= k < ord.len() && ord[k] == i;
        assert(book_of_row(books[k], assets[ord[k] as int]));
    }
}

/// Every listed book has a highlight, so the highlight reader finds at least
/// one for it.
pub proof fn lemma_listed_books_have_highlights(
    books: Seq<Book>,
    assets: Seq<AssetRow>,
    anns: Seq<AnnotationRow>,
    ord: Seq<usize>,
)
    requires
        is_book_list(books, assets, anns, ord),
    ensures
        forall|k: int|
            0 <= k < books.len() ==> has_highlight(anns, #[trigger] books[k].id@),
{
    assert forall|k: int| 0 <= k < books.len() implies has_highlight(
        anns,
        #[trigger] books[k].id@,
    ) by {
        assert(book_entries(assets, anns)[ord[k] as int]);
        assert(book_of_row(books[k], assets[ord[k] as int]));
    }
}

/// Highlights come in reading order: positions never decrease along the list.
pub proof fn lemma_highlights_in_reading_order(
    hs: Seq<Highlight>,
    anns: Seq<AnnotationRow>,
    id: Seq<char>,
    ord: Seq<usize>,
)
    requires
        is_highlight_list(hs, anns, id, ord),
    ensures
        forall|k1: int, k2: int|
            0 <= k1 < k2 < hs.len() ==> position_key(anns[#[trigger] ord[k1] as int].location)
                <= position_key(anns[#[trigger] ord[k2] as int].location),
{
    let keys = Seq::new(anns.len(), |i: int| position_key(anns[i].location));
    assert forall|k1: int, k2: int| 0 <= k1 < k2 < hs.len() implies position_key(
        anns[#[trigger] ord[k1] as int].location,
    ) <= position_key(anns[#[trigger] ord[k2] as int].location) by {
        assert(crate::ordering::precedes(keys, ord[k1] as int, ord[k2] as int));
    }
}

fn copy_text(o: &Option<String>) -> (r: Option<String>)
    ensures
        r is Some <==> o is Some,
        r is Some ==> r->0@ == o->0@,
{
    match o {
        Some(s) => Some(s.clone()),
        None => None,
    }
}

fn is_in_calendar(t: Option<i64>) -> (r: bool)
    ensures
        r == (t is Some && in_calendar_range(t->0 as int)),
{
    match t {
        Some(v) => v >= -EPOCH_SECONDS && v < LIMIT_SECONDS - EPOCH_SECONDS,
        None => false,
    }
}

fn is_highlight_row(n: &AnnotationRow, id: &String) -> (r: bool)
    ensures
        r == is_highlight_entry(*n, id@),
{
    is_live_annotation_of(n, id) && is_in_calendar(n.created) && is_in_calendar(n.modified)
}

fn is_live_annotation_of(n: &AnnotationRow, id: &String) -> (r: bool)
    ensures
        r == annotates(*n, id@),
{
    if n.deleted {
        return false;
    }
    match &n.asset_id {
        Some(a) => *a == *id,
        None => false,
    }
}

/// Whether the book `id` has a highlight, and the latest creation time among them.
fn annotation_summary(anns: &Vec<AnnotationRow>, id: &String) -> (r: (bool, Option<i64>))
    ensures
        r.0 == has_highlight(anns@, id@),
        r.1 == latest_created(anns@, id@),
{
    let mut found = false;
    let mut latest: Option<i64> = None;
    let mut j: usize = 0;
    while j < anns.len()
        invariant
            j <= anns.len(),
            found == exists|i: int| 0 <= i < j && is_highlight_entry(#[trigger] anns@[i], id@),
            latest == latest_created(anns@.subrange(0, j as int), id@),
        decreases anns.len() - j,
    {
        let n = &anns[j];
        assert(anns@.subrange(0, j + 1).drop_last() =~= anns@.subrange(0, j as int));
        if is_highlight_row(n, id) {
            found = true;
            match n.created {
                Some(c) => {
                    let newer = match latest {
                        Some(l) => l < c,
                        None => true,
                    };
                    if newer {
                        latest = Some(c);
                    }
                },
                None => {},
            }
        }
        j = j + 1;
    }
    assert(anns@.subrange(0, anns.len() as int) =~= anns@);
    (found, latest)
}

fn recency_key_exec(latest: Option<i64>) -> (r: i128)
    ensures
        r == recency_key(latest),
{
    match latest {
        Some(t) => -(t as i128),
        None => 0x1_0000_0000_0000_0000i128,
    }
}

fn book_from_row(a: &AssetRow) -> (b: Book)
    requires
        a.title is Some,
    ensures
        book_of_row(b, *a),
{
    let title = match &a.title {
        Some(t) => t.clone(),
        None => String::new(),
    };
    let content_type = match a.content_type {
        Some(c) => Some(Book::get_content_type_string(c)),
        None => None,
    };
    Book { id: a.asset_id.clone(), title, author: a.author.clone(), content_type }
}

/// Lists the books that carry highlights: one per catalog (identifier, title)
/// group, untitled entries and PDFs left out, the most recently highlighted first.
pub fn fetch_books(assets: &Vec<AssetRow>, annotations: &Vec<AnnotationRow>) -> (r: Vec<Book>)
    ensures
        exists|ord: Seq<usize>| is_book_list(r@, assets@, annotations@, ord),
{
    let mut keys: Vec<i128> = Vec::new();
    let mut chosen: Vec<bool> = Vec::new();
    let mut candidate: Vec<bool> = Vec::new();
    let mut i: usize = 0;
    while i < assets.len()
        invariant
            i <= assets.len(),
            keys.len() == i && chosen.len() == i && candidate.len() == i,
            forall|k: int| 0 <= k < i ==> keys@[k] == book_keys(assets@, annotations@)[k],
            forall|k: int| 0 <= k < i ==> chosen@[k] == book_entries(assets@, annotations@)[k],
            forall|k: int|
                0 <= k < i ==> candidate@[k] == (is_listable(assets@[k]) && has_highlight(
                    annotations@,
                    assets@[k].asset_id@,
                )),
        decreases assets.len() - i,
    {
        let a = &assets[i];
        let (found, latest) = annotation_summary(annotations, &a.asset_id);
        let listable = match &a.title {
            Some(_) => match a.content_type {
                Some(c) => c != PDF_CONTENT_TYPE,
                None => true,
            },
            None => false,
        };
        let mut first = true;
        if listable && found {
            let mut j: usize = 0;
            while j < i
                invariant
                    i < assets.len(),
                    j <= i,
                    candidate.len() == i,
                    a == &assets@[i as int],
                    a.title is Some,
                    forall|k: int|
                        0 <= k < i ==> candidate@[k] == (is_listable(assets@[k]) && has_highlight(
                            annotations@,
                            assets@[k].asset_id@,
                        )),
                    has_highlight(annotations@, a.asset_id@),
                    first == !exists|k: int|
                        0 <= k < j && is_listable(#[trigger] assets@[k]) && assets@[k].asset_id@
                            == a.asset_id@ && assets@[k].title->0@ == a.title->0@,
                decreases i - j,
            {
                let b = &assets[j];
                if candidate[j] && b.asset_id == a.asset_id {
                    match (&b.title, &a.title) {
                        (Some(tb), Some(ta)) => {
                            if *tb == *ta {
                                first = false;
                            }
                        },
                        _ => {},
                    }
                }
                j = j + 1;
            }
        }
        keys.push(recency_key_exec(latest));
        chosen.push(listable && found && first);
        candidate.push(listable && found);
        i = i + 1;
    }
    assert(keys@ =~= book_keys(assets@, annotations@));
    assert(chosen@ =~= book_entries(assets@, annotations@));
    let ord = stable_order(&keys, &chosen);
    let mut books: Vec<Book> = Vec::new();
    let mut k: usize = 0;
    while k < ord.len()
        invariant
            k <= ord.len(),
            is_stable_order(book_keys(assets@, annotations@), book_entries(assets@, annotations@), ord@),
            books.len() == k,
            forall|m: int| 0 <= m < k ==> book_of_row(books@[m], assets@[ord@[m] as int]),
        decreases ord.len() - k,
    {
        let idx = ord[k];
        assert(book_entries(assets@, annotations@)[idx as int]);
        books.push(book_from_row(&assets[idx]));
        k = k + 1;
    }
    assert(is_book_list(books@, assets@, annotations@, ord@));
    books
}

fn position_key_exec(location: Option<i64>) -> (r: i128)
    ensures
        r == position_key(location),
{
    match location {
        Some(p) => p as i128,
        None => -0x1_0000_0000_0000_0000i128,
    }
}

fn annotation_text_exec(n: &AnnotationRow) -> (r: String)
    ensures
        r@ == annotation_text(*n),
{
    match &n.selected_text {
        Some(s) => s.clone(),
        None => match &n.representative_text {
            Some(t) => t.clone(),
            None => String::from_str(NO_TEXT),
        },
    }
}

/// The highlight that an annotation row describes, where both of its timestamps
/// can be written as dates.
fn highlight_from_row(n: &AnnotationRow) -> (r: Option<Highlight>)
    ensures
        r is Some <==> (n.created is Some && in_calendar_range(n.created->0 as int)
            && n.modified is Some && in_calendar_range(n.modified->0 as int)),
        r matches Some(h) ==> highlight_of_row(h, *n),
{
    let created = match n.created {
        Some(c) => normalize(c),
        None => None,
    };
    let modified = match n.modified {
        Some(m) => normalize(m),
        None => None,
    };
    match (created, modified) {
        (Some(date_created), Some(date_modified)) => Some(
            Highlight {
                id: n.id,
                text: annotation_text_exec(n),
                date_created,
                date_modified,
                style: n.style,
                note: copy_text(&n.note),
            },
        ),
        _ => None,
    }
}

/// Lists the highlights of the book `book_id` in reading order: its live
/// annotations whose timestamps can be written as dates, ascending by position
/// (unplaced ones first, ties in store order).
pub fn fetch_highlights(annotations: &Vec<AnnotationRow>, book_id: &str) -> (r: Vec<Highlight>)
    ensures
        exists|ord: Seq<usize>| is_highlight_list(r@, annotations@, book_id@, ord),
{
    let id = String::from_str(book_id);
    let mut keys: Vec<i128> = Vec::new();
    let mut chosen: Vec<bool> = Vec::new();
    let mut i: usize = 0;
    while i < annotations.len()
        invariant
            i <= annotations.len(),
            id@ == book_id@,
            keys.len() == i && chosen.len() == i,
            forall|k: int|
                0 <= k < i ==> keys@[k] == position_key(#[trigger] annotations@[k].location),
            forall|k: int|
                0 <= k < i ==> chosen@[k] == is_highlight_entry(#[trigger] annotations@[k], id@),
        decreases annotations.len() - i,
    {
        let n = &annotations[i];
        keys.push(position_key_exec(n.location));
        chosen.push(is_highlight_row(n, &id));
        i = i + 1;
    }
    let ghost key_seq = Seq::new(annotations@.len(), |i: int| position_key(annotations@[i].location));
    let ghost chosen_seq = Seq::new(
        annotations@.len(),
        |i: int| is_highlight_entry(annotations@[i], book_id@),
    );
    assert(keys@ =~= key_seq);
    assert(chosen@ =~= chosen_seq);
    let ord = stable_order(&keys, &chosen);
    let mut hs: Vec<Highlight> = Vec::new();
    let mut k: usize = 0;
    while k < ord.len()
        invariant
            k <= ord.len(),
            is_stable_order(key_seq, chosen_seq, ord@),
            key_seq.len() == annotations.len(),
            chosen_seq == Seq::new(
                annotations@.len(),
                |i: int| is_highlight_entry(annotations@[i], book_id@),
            ),
            hs.len() == k,
            forall|m: int| 0 <= m < k ==> highlight_of_row(hs@[m], annotations@[ord@[m] as int]),
        decreases ord.len() - k,
    {
        let idx = ord[k];
        assert(chosen_seq[idx as int]);
        match highlight_from_row(&annotations[idx]) {
            Some(h) => hs.push(h),
            None => {},
        }
        k = k + 1;
    }
    assert(is_highlight_list(hs@, annotations@, book_id@, ord@));
    hs
}

} // verus!
