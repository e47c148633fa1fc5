//! The two export files of a book: a line-oriented text file and a
//! pretty-printed JSON file, named from the sanitized title.

use vstd::prelude::*;
use vstd::string::*;
use crate::digits::{push_signed_decimal, signed_decimal};
use crate::models::{style_color, style_label, Book, Highlight};

verus! {

/// Name of the directory, under the home directory, that receives exports.
pub const EXPORT_DIR_NAME: &'static str = "ibooks_highlights";

/// Characters that cannot stand in a file name.
pub open spec fn is_forbidden(c: char) -> bool {
    c == '/' || c == '\\' || c == ':' || c == '*' || c == '?' || c == '"' || c == '<' || c == '>'
        || c == '|'
}

/// A title with each forbidden character replaced by `_`.
pub open spec fn sanitized(title: Seq<char>) -> Seq<char> {
    Seq::new(title.len(), |i: int| if is_forbidden(title[i]) { '_' } else { title[i] })
}

/// `name` placed in the directory `dir`.
pub open spec fn path_in(dir: Seq<char>, name: Seq<char>) -> Seq<char> {
    if dir.len() == 0 {
        name
    } else if dir.last() == '/' {
        dir + name
    } else {
        dir + "/"@ + name
    }
}

/// Name of the text export of a book titled `title`.
pub open spec fn text_file_name(title: Seq<char>) -> Seq<char> {
    sanitized(title) + ".txt"@
}

/// Name of the JSON export of a book titled `title`.
pub open spec fn json_file_name(title: Seq<char>) -> Seq<char> {
    sanitized(title) + ".json"@
}

/// Header of the text export.
pub open spec fn text_header(b: Book) -> Seq<char> {
    "Book: "@ + b.title@ + "\n"@ + "Author: "@ + b.author@ + "\n"@ + match b.content_type {
        Some(c) => "Format: "@ + c@ + "\n"@,
        None => Seq::empty(),
    } + "\n"@ + "Highlights:\n"@ + "===========\n"@ + "\n"@
}

/// One highlight in the text export.
pub open spec fn text_block(h: Highlight) -> Seq<char> {
    "["@ + h.date_created@ + "] ("@ + style_label(h.style) + ")\n"@ + h.text@ + "\n"@ + match h.note {
        Some(n) => "Note: "@ + n@ + "\n"@,
        None => Seq::empty(),
    } + if h.date_modified@ != h.date_created@ {
        "Modified: "@ + h.date_modified@ + "\n"@
    } else {
        Seq::empty()
    } + "\n"@
}

/// The highlights of the text export, in the order given.
pub open spec fn text_blocks(hs: Seq<Highlight>) -> Seq<char>
    decreases hs.len(),
{
    if hs.len() == 0 {
        Seq::empty()
    } else {
        text_blocks(hs.drop_last()) + text_block(hs.last())
    }
}

proof fn lemma_text_blocks_append(a: Seq<Highlight>, b: Seq<Highlight>)
    ensures
        text_blocks(a + b) == text_blocks(a) + text_blocks(b),
    decreases b.len(),
{
    if b.len() == 0 {
        assert(a + b =~= a);
        assert(text_blocks(a) + text_blocks(b) =~= text_blocks(a));
    } else {
        lemma_text_blocks_append(a, b.drop_last());
        assert((a + b).drop_last() =~= a + b.drop_last());
        assert((a + b).last() == b.last());
        assert(text_blocks(a + b) =~= text_blocks(a) + text_blocks(b));
    }
}

/// The highlights of the text export stand one block each, in order: the block
/// of highlight `k` follows those of the highlights before it.
pub proof fn lemma_text_block_position(hs: Seq<Highlight>, k: int)
    requires
        0 <= k < hs.len(),
    ensures
        text_blocks(hs) == text_blocks(hs.take(k)) + text_block(hs[k]) + text_blocks(
            hs.skip(k + 1),
        ),
{
    let single = seq![hs[k]];
    assert(hs =~= hs.take(k) + single + hs.skip(k + 1));
    lemma_text_blocks_append(hs.take(k) + single, hs.skip(k + 1));
    lemma_text_blocks_append(hs.take(k), single);
    assert(single.drop_last() =~= Seq::<Highlight>::empty());
    assert(text_blocks(single) == text_blocks(single.drop_last()) + text_block(hs[k]));
    assert(text_blocks(single) =~= text_block(hs[k]));
}

/// A yellow highlight without a note and never modified reads as its header
/// line with `(Yellow)`, its text, and a blank line: no note line and no
/// modification line.
pub proof fn lemma_plain_yellow_block(h: Highlight)
    requires
        h.style == Some(3i32),
        h.note is None,
        h.date_modified@ == h.date_created@,
    ensures
        text_block(h) == "["@ + h.date_created@ + "] ("@ + "Yellow"@ + ")\n"@ + h.text@ + "\n"@
            + "\n"@,
{
    assert(text_block(h) =~= "["@ + h.date_created@ + "] ("@ + "Yellow"@ + ")\n"@ + h.text@
        + "\n"@ + "\n"@);
}

/// A highlight without a style shows `(No Style)` in the text export and
/// `null` as the style of its JSON element.
pub proof fn lemma_absent_style(h: Highlight)
    requires
        h.style is None,
    ensures
        text_block(h) == "["@ + h.date_created@ + "] ("@ + "No Style"@ + ")\n"@ + h.text@ + "\n"@
            + match h.note {
            Some(n) => "Note: "@ + n@ + "\n"@,
            None => Seq::empty(),
        } + if h.date_modified@ != h.date_created@ {
            "Modified: "@ + h.date_modified@ + "\n"@
        } else {
            Seq::empty()
        } + "\n"@,
        json_element(h) == json_highlight(
            signed_decimal(h.id as int),
            json_quoted(h.text@),
            json_quoted(h.date_created@),
            json_quoted(h.date_modified@),
            "null"@,
            json_optional(note_text(h)),
        ),
{
}

/// The whole text export of a book and its highlights.
pub open spec fn text_document(b: Book, hs: Seq<Highlight>) -> Seq<char> {
    text_header(b) + text_blocks(hs)
}

/// Lower-case hexadecimal digit of a value below sixteen.
pub open spec fn hex_digit(v: int) -> char {
    "0123456789abcdef"@[v]
}

/// A character as it stands inside a JSON string literal: quote and backslash
/// escaped, the five common control characters by their short escapes, the other
/// control characters as `\u00XX`, everything else unchanged.
pub open spec fn json_escape(c: char) -> Seq<char> {
    if c == '"' {
        "\\\""@
    } else if c == '\\' {
        "\\\\"@
    } else if c == '\u{8}' {
        "\\b"@
    } else if c == '\t' {
        "\\t"@
    } else if c == '\n' {
        "\\n"@
    } else if c == '\u{c}' {
        "\\f"@
    } else if c == '\r' {
        "\\r"@
    } else if (c as u32) < 0x20 {
        "\\u00"@ + seq![hex_digit(c as int / 16), hex_digit(c as int % 16)]
    } else {
        seq![c]
    }
}

/// The escaped characters of a string, in order.
pub open spec fn json_escaped(s: Seq<char>) -> Seq<char>
    decreases s.len(),
{
    if s.len() == 0 {
        Seq::empty()
    } else {
        json_escaped(s.drop_last()) + json_escape(s.last())
    }
}

/// A string as a JSON literal: its escaped characters between double quotes.
pub open spec fn json_quoted(s: Seq<char>) -> Seq<char> {
    "\""@ + json_escaped(s) + "\""@
}

/// Relies on serde_json::to_string on a `str`: it writes the escaped string
/// between quotes into a `Vec`, which cannot fail.
#[verifier::external_body]
fn quote_json(s: &str) -> (r: Option<String>)
    ensures
        r is Some,
        r matches Some(q) ==> q@ == json_quoted(s@),
{
    serde_json::to_string(s).ok()
}

/// The JSON literals of a book's fields.
pub struct JsonBookFields {
    pub id: String,
    pub title: String,
    pub author: String,
    pub content_type: String,
}

/// The JSON literals of a highlight's fields.
pub struct JsonHighlightFields {
    pub id: String,
    pub text: String,
    pub date_created: String,
    pub date_modified: String,
    pub style: String,
    pub note: String,
}

/// One `"key": value` line of a JSON object, with a comma when more follow.
pub open spec fn json_member(indent: Seq<char>, key: Seq<char>, value: Seq<char>, more: bool) -> Seq<
    char,
> {
    indent + "\""@ + key + "\": "@ + value + if more {
        ",\n"@
    } else {
        "\n"@
    }
}

/// The `book` member of the JSON export, from the literals of its fields.
pub open spec fn json_book(
    id: Seq<char>,
    title: Seq<char>,
    author: Seq<char>,
    content_type: Seq<char>,
) -> Seq<char> {
    "  \"book\": {\n"@ + json_member("    "@, "id"@, id, true) + json_member(
        "    "@,
        "title"@,
        title,
        true,
    ) + json_member("    "@, "author"@, author, true) + json_member(
        "    "@,
        "content_type"@,
        content_type,
        false,
    ) + "  },\n"@
}

/// One element of the `highlights` array, from the literals of its fields.
pub open spec fn json_highlight(
    id: Seq<char>,
    text: Seq<char>,
    date_created: Seq<char>,
    date_modified: Seq<char>,
    style: Seq<char>,
    note: Seq<char>,
) -> Seq<char> {
    "    {\n"@ + json_member("      "@, "id"@, id, true) + json_member(
        "      "@,
        "text"@,
        text,
        true,
    ) + json_member("      "@, "date_created"@, date_created, true) + json_member(
        "      "@,
        "date_modified"@,
        date_modified,
        true,
    ) + json_member("      "@, "style"@, style, true) + json_member(
        "      "@,
        "note"@,
        note,
        false,
    ) + "    }"@
}

/// Array elements separated by a comma and a line break.
pub open spec fn json_elements(items: Seq<Seq<char>>) -> Seq<char>
    decreases items.len(),
{
    if items.len() == 0 {
        Seq::empty()
    } else if items.len() == 1 {
        items[0]
    } else {
        json_elements(items.drop_last()) + ",\n"@ + items.last()
    }
}

/// The pretty-printed JSON export, from its `book` member and array elements.
pub open spec fn json_layout(book: Seq<char>, items: Seq<Seq<char>>) -> Seq<char> {
    "{\n"@ + book + if items.len() == 0 {
        "  \"highlights\": []\n"@
    } else {
        "  \"highlights\": [\n"@ + json_elements(items) + "\n  ]\n"@
    } + "}"@
}

/// The `book` member rendered from encoded fields.
pub open spec fn book_member_of_fields(f: JsonBookFields) -> Seq<char> {
    json_book(f.id@, f.title@, f.author@, f.content_type@)
}

/// An array element rendered from encoded fields.
pub open spec fn element_of_fields(f: JsonHighlightFields) -> Seq<char> {
    json_highlight(f.id@, f.text@, f.date_created@, f.date_modified@, f.style@, f.note@)
}

/// JSON literal of an optional string.
pub open spec fn json_optional(s: Option<Seq<char>>) -> Seq<char> {
    match s {
        Some(v) => json_quoted(v),
        None => "null"@,
    }
}

/// The content type of `b`, if any, as text.
pub open spec fn content_type_text(b: Book) -> Option<Seq<char>> {
    match b.content_type {
        Some(c) => Some(c@),
        None => None,
    }
}

/// The colour name of `h`'s style, if it has one.
pub open spec fn style_text(h: Highlight) -> Option<Seq<char>> {
    match h.style {
        Some(s) => Some(style_color(s)),
        None => None,
    }
}

/// The note of `h`, if any, as text.
pub open spec fn note_text(h: Highlight) -> Option<Seq<char>> {
    match h.note {
        Some(n) => Some(n@),
        None => None,
    }
}

/// The fields of `b` as JSON literals.
pub open spec fn book_fields_of(f: JsonBookFields, b: Book) -> bool {
    &&& f.id@ == json_quoted(b.id@)
    &&& f.title@ == json_quoted(b.title@)
    &&& f.author@ == json_quoted(b.author@)
    &&& f.content_type@ == json_optional(content_type_text(b))
}

/// The fields of `h` as JSON literals; the style appears as its colour name.
pub open spec fn highlight_fields_of(f: JsonHighlightFields, h: Highlight) -> bool {
    &&& f.id@ == signed_decimal(h.id as int)
    &&& f.text@ == json_quoted(h.text@)
    &&& f.date_created@ == json_quoted(h.date_created@)
    &&& f.date_modified@ == json_quoted(h.date_modified@)
    &&& f.style@ == json_optional(style_text(h))
    &&& f.note@ == json_optional(note_text(h))
}

/// The `book` member of the JSON export of `b`.
pub open spec fn json_book_member(b: Book) -> Seq<char> {
    json_book(
        json_quoted(b.id@),
        json_quoted(b.title@),
        json_quoted(b.author@),
        json_optional(content_type_text(b)),
    )
}

/// The array element of the JSON export of `h`.
pub open spec fn json_element(h: Highlight) -> Seq<char> {
    json_highlight(
        signed_decimal(h.id as int),
        json_quoted(h.text@),
        json_quoted(h.date_created@),
        json_quoted(h.date_modified@),
        json_optional(style_text(h)),
        json_optional(note_text(h)),
    )
}

/// The JSON export of `b` and `hs`; element `k` of its array is `json_element(hs[k])`.
pub open spec fn json_document(b: Book, hs: Seq<Highlight>) -> Seq<char> {
    json_layout(json_book_member(b), Seq::new(hs.len(), |i: int| json_element(hs[i])))
}

fn quote_optional(s: &Option<String>) -> (r: Option<String>)
    ensures
        r is Some,
        r matches Some(q) ==> q@ == json_optional(
            match s {
                Some(v) => Some(v@),
                None => None,
            },
        ),
{
    match s {
        Some(v) => quote_json(v.as_str()),
        None => Some(String::from_str("null")),
    }
}

/// Encodes the fields of a book as JSON literals.
pub fn encode_book(b: &Book) -> (r: Option<JsonBookFields>)
    ensures
        r is Some,
        r matches Some(f) ==> book_fields_of(f, *b),
{
    let id = quote_json(b.id.as_str())?;
    let title = quote_json(b.title.as_str())?;
    let author = quote_json(b.author.as_str())?;
    let content_type = quote_optional(&b.content_type)?;
    Some(JsonBookFields { id, title, author, content_type })
}

/// Encodes the fields of a highlight as JSON literals, its style as the colour
/// name.
pub fn encode_highlight(h: &Highlight) -> (r: Option<JsonHighlightFields>)
    ensures
        r is Some,
        r matches Some(f) ==> highlight_fields_of(f, *h),
{
    let mut id = String::new();
    push_signed_decimal(&mut id, h.id);
    assert(id@ =~= signed_decimal(h.id as int));
    let text = quote_json(h.text.as_str())?;
    let date_created = quote_json(h.date_created.as_str())?;
    let date_modified = quote_json(h.date_modified.as_str())?;
    let style = match h.style {
        Some(code) => quote_json(Highlight::get_style_color(code))?,
        None => String::from_str("null"),
    };
    let note = quote_optional(&h.note)?;
    Some(JsonHighlightFields { id, text, date_created, date_modified, style, note })
}

fn push_member(s: &mut String, indent: &str, key: &str, value: &str, more: bool)
    ensures
        final(s)@ == old(s)@ + json_member(indent@, key@, value@, more),
{
    s.append(indent);
    s.append("\"");
    s.append(key);
    s.append("\": ");
    s.append(value);
    if more {
        s.append(",\n");
    } else {
        s.append("\n");
    }
    assert(final(s)@ =~= old(s)@ + json_member(indent@, key@, value@, more));
}

fn push_json_book(s: &mut String, f: &JsonBookFields)
    ensures
        final(s)@ == old(s)@ + book_member_of_fields(*f),
{
    s.append("  \"book\": {\n");
    push_member(s, "    ", "id", f.id.as_str(), true);
    push_member(s, "    ", "title", f.title.as_str(), true);
    push_member(s, "    ", "author", f.author.as_str(), true);
    push_member(s, "    ", "content_type", f.content_type.as_str(), false);
    s.append("  },\n");
    assert(final(s)@ =~= old(s)@ + book_member_of_fields(*f));
}

fn push_json_element(s: &mut String, f: &JsonHighlightFields)
    ensures
        final(s)@ == old(s)@ + element_of_fields(*f),
{
    s.append("    {\n");
    push_member(s, "      ", "id", f.id.as_str(), true);
    push_member(s, "      ", "text", f.text.as_str(), true);
    push_member(s, "      ", "date_created", f.date_created.as_str(), true);
    push_member(s, "      ", "date_modified", f.date_modified.as_str(), true);
    push_member(s, "      ", "style", f.style.as_str(), true);
    push_member(s, "      ", "note", f.note.as_str(), false);
    s.append("    }");
    assert(final(s)@ =~= old(s)@ + element_of_fields(*f));
}

/// Lays out the pretty-printed JSON export from the encoded fields of a book and
/// of its highlights.
pub fn render_json(book: &JsonBookFields, highlights: &Vec<JsonHighlightFields>) -> (r: String)
    ensures
        r@ == json_layout(
            book_member_of_fields(*book),
            Seq::new(highlights@.len(), |i: int| element_of_fields(highlights@[i])),
        ),
{
    let ghost items = Seq::new(highlights@.len(), |i: int| element_of_fields(highlights@[i]));
    let mut s = String::new();
    s.append("{\n");
    push_json_book(&mut s, book);
    let ghost head = s@;
    if highlights.len() == 0 {
        s.append("  \"highlights\": []\n");
    } else {
        s.append("  \"highlights\": [\n");
        let ghost open = s@;
        let mut i: usize = 0;
        while i < highlights.len()
            invariant
                i <= highlights@.len(),
                items == Seq::new(highlights@.len(), |i: int| element_of_fields(highlights@[i])),
                s@ == open + json_elements(items.subrange(0, i as int)),
            decreases highlights.len() - i,
        {
            let ghost before = s@;
            if i > 0 {
                s.append(",\n");
            }
            push_json_element(&mut s, &highlights[i]);
            proof {
                let pre = items.subrange(0, i + 1);
                assert(pre.drop_last() =~= items.subrange(0, i as int));
                if i == 0 {
                    assert(json_elements(items.subrange(0, 0)) =~= Seq::empty());
                    assert(s@ =~= open + json_elements(pre));
                } else {
                    assert(s@ =~= open + json_elements(pre));
                }
            }
            i = i + 1;
        }
        assert(items.subrange(0, highlights@.len() as int) =~= items);
        s.append("\n  ]\n");
    }
    s.append("}");
    assert(s@ =~= json_layout(book_member_of_fields(*book), items));
    s
}

/// Writes the JSON export of a book and its highlights.
pub fn json_export(book: &Book, highlights: &[Highlight]) -> (r: Option<String>)
    ensures
        r is Some,
        r matches Some(s) ==> s@ == json_document(*book, highlights@),
{
    let fields = encode_book(book)?;
    let mut elements: Vec<JsonHighlightFields> = Vec::new();
    let mut i: usize = 0;
    while i < highlights.len()
        invariant
            i <= highlights@.len(),
            elements.len() == i,
            forall|k: int| 0 <= k < i ==> highlight_fields_of(elements@[k], highlights@[k]),
        decreases highlights.len() - i,
    {
        let f = encode_highlight(&highlights[i])?;
        elements.push(f);
        i = i + 1;
    }
    let r = render_json(&fields, &elements);
    assert(Seq::new(elements@.len(), |i: int| element_of_fields(elements@[i])) =~= Seq::new(
        highlights@.len(),
        |i: int| json_element(highlights@[i]),
    ));
    Some(r)
}

/// Replaces each character of `title` that cannot stand in a file name with `_`.
pub fn sanitize_title(title: &str) -> (r: String)
    ensures
        r@ == sanitized(title@),
{
    let n = title.unicode_len();
    let mut s = String::new();
    let mut i: usize = 0;
    while i < n
        invariant
            n == title@.len(),
            i <= n,
            s@ == sanitized(title@).subrange(0, i as int),
        decreases n - i,
    {
        let c = title.get_char(i);
        if c == '/' || c == '\\' || c == ':' || c == '*' || c == '?' || c == '"' || c == '<' || c
            == '>' || c == '|' {
            proof {
                reveal_strlit("_");
            }
            assert("_"@ =~= seq!['_']);
            s.append("_");
        } else {
            let one = title.substring_char(i, i + 1);
            assert(one@ =~= seq![c]);
            s.append(one);
        }
        assert(s@ =~= sanitized(title@).subrange(0, i + 1));
        i = i + 1;
    }
    assert(sanitized(title@).subrange(0, n as int) =~= sanitized(title@));
    s
}

/// Every forbidden character of a title becomes `_`, every other character
/// stays, none forbidden remains, and both export files share the same stem.
pub proof fn lemma_file_names(title: Seq<char>)
    ensures
        sanitized(title).len() == title.len(),
        forall|i: int|
            0 <= i < title.len() ==> (#[trigger] sanitized(title)[i] == if is_forbidden(title[i]) {
                '_'
            } else {
                title[i]
            }),
        forall|i: int| 0 <= i < title.len() ==> !is_forbidden(#[trigger] sanitized(title)[i]),
        text_file_name(title) == sanitized(title) + ".txt"@,
        json_file_name(title) == sanitized(title) + ".json"@,
{
}

/// Places the file `name` in the directory `dir`.
pub fn join_path(dir: &str, name: &str) -> (r: String)
    ensures
        r@ == path_in(dir@, name@),
{
    let n = dir.unicode_len();
    let mut s = String::from_str(dir);
    if n == 0 {
        return String::from_str(name);
    }
    if dir.get_char(n - 1) != '/' {
        s.append("/");
    }
    s.append(name);
    s
}

fn append_line(s: &mut String, label: &str, value: &str)
    ensures
        final(s)@ == old(s)@ + label@ + value@ + "\n"@,
{
    s.append(label);
    s.append(value);
    s.append("\n");
    assert(final(s)@ =~= old(s)@ + label@ + value@ + "\n"@);
}

fn push_text_block(s: &mut String, h: &Highlight)
    ensures
        final(s)@ == old(s)@ + text_block(*h),
{
    s.append("[");
    s.append(h.date_created.as_str());
    s.append("] (");
    s.append(h.style_name());
    s.append(")\n");
    s.append(h.text.as_str());
    s.append("\n");
    match &h.note {
        Some(n) => append_line(s, "Note: ", n.as_str()),
        None => {},
    }
    if h.date_modified != h.date_created {
        append_line(s, "Modified: ", h.date_modified.as_str());
    }
    s.append("\n");
    assert(final(s)@ =~= old(s)@ + text_block(*h));
}

/// Writes the text export of a book and its highlights.
pub fn text_export(book: &Book, highlights: &[Highlight]) -> (r: String)
    ensures
        r@ == text_document(*book, highlights@),
{
    let mut s = String::new();
    append_line(&mut s, "Book: ", book.title.as_str());
    append_line(&mut s, "Author: ", book.author.as_str());
    match &book.content_type {
        Some(c) => append_line(&mut s, "Format: ", c.as_str()),
        None => {},
    }
    s.append("\n");
    s.append("Highlights:\n");
    s.append("===========\n");
    s.append("\n");
    assert(s@ =~= text_header(*book));
    let mut i: usize = 0;
    while i < highlights.len()
        invariant
            i <= highlights@.len(),
            s@ == text_header(*book) + text_blocks(highlights@.subrange(0, i as int)),
        decreases highlights.len() - i,
    {
        push_text_block(&mut s, &highlights[i]);
        assert(highlights@.subrange(0, i + 1).drop_last() =~= highlights@.subrange(0, i as int));
        i = i + 1;
    }
    assert(highlights@.subrange(0, highlights@.len() as int) =~= highlights@);
    s
}

/// Why an export could not be prepared.
#[derive(Clone, Copy, PartialEq, Eq, Debug)]
pub enum ExportError {
    /// serde_json failed to encode a string; its string encoding never does.
    JsonEncoding,
}

/// The two files of an export: where each goes and what it holds.
pub struct ExportFiles {
    pub text_path: String,
    pub text: String,
    pub json_path: String,
    pub json: String,
}

/// `f` is the export of `b` and `hs` into the directory `dir`.
pub open spec fn is_export(f: ExportFiles, dir: Seq<char>, b: Book, hs: Seq<Highlight>) -> bool {
    &&& f.text_path@ == path_in(dir, text_file_name(b.title@))
    &&& f.text@ == text_document(b, hs)
    &&& f.json_path@ == path_in(dir, json_file_name(b.title@))
    &&& f.json@ == json_document(b, hs)
}

/// Two exports of the same book and highlights into the same directory are the
/// same files with the same contents.
pub proof fn lemma_export_deterministic(
    first: ExportFiles,
    second: ExportFiles,
    dir: Seq<char>,
    b: Book,
    hs: Seq<Highlight>,
)
    requires
        is_export(first, dir, b, hs),
        is_export(second, dir, b, hs),
    ensures
        first.text_path@ == second.text_path@,
        first.text@ == second.text@,
        first.json_path@ == second.json_path@,
        first.json@ == second.json@,
{
}

/// Prepares the export of `book` and `highlights` into the directory `dir`.
pub fn export_files(dir: &str, book: &Book, highlights: &[Highlight]) -> (r: Result<
    ExportFiles,
    ExportError,
>)
    ensures
        r is Ok,
        r matches Ok(f) ==> is_export(f, dir@, *book, highlights@),
{
    let json = match json_export(book, highlights) {
        Some(j) => j,
        None => return Err(ExportError::JsonEncoding),
    };
    let stem = sanitize_title(book.title.as_str());
    let text_name = stem.clone().concat(".txt");
    let json_name = stem.concat(".json");
    Ok(
        ExportFiles {
            text_path: join_path(dir, text_name.as_str()),
            text: text_export(book, highlights),
            json_path: join_path(dir, json_name.as_str()),
            json,
        },
    )
}

/// The directory of exports under the home directory `home`.
pub open spec fn export_dir_in(home: Seq<char>) -> Seq<char> {
    path_in(home, EXPORT_DIR_NAME@)
}

/// Writes a book's highlights to a text file and a JSON file in one directory.
pub struct HighlightExporter {
    pub output_dir: String,
}

impl HighlightExporter {
    /// The exporter that writes under the home directory `home`.
    pub fn in_home(home: &str) -> (r: Self)
        ensures
            r.output_dir@ == export_dir_in(home@),
    {
        HighlightExporter { output_dir: join_path(home, EXPORT_DIR_NAME) }
    }

    /// The exporter that writes under the current user's home directory, if it
    /// can be found.
    pub fn new() -> (r: Option<Self>)
        ensures
            r matches Some(e) ==> exists|home: Seq<char>| e.output_dir@ == export_dir_in(home),
    {
        match crate::paths::home_dir() {
            Some(home) => Some(HighlightExporter::in_home(home.as_str())),
            None => None,
        }
    }

    /// Prepares the text and JSON files of `book` and `highlights`.
    pub fn export_highlights(&self, book: &Book, highlights: &[Highlight]) -> (r: Result<
        ExportFiles,
        ExportError,
    >)
        ensures
            r is Ok,
            r matches Ok(f) ==> is_export(f, self.output_dir@, *book, highlights@),
    {
        export_files(self.output_dir.as_str(), book, highlights)
    }
}

/// Writes a book's highlights to a text file and a JSON file in one directory.
pub struct HighlightWriter {
    pub output_dir: String,
}

impl HighlightWriter {
    /// The writer that writes under the home directory `home`.
    pub fn in_home(home: &str) -> (r: Self)
        ensures
            r.output_dir@ == export_dir_in(home@),
    {
        HighlightWriter { output_dir: join_path(home, EXPORT_DIR_NAME) }
    }

    /// The writer that writes under the current user's home directory, if it can
    /// be found.
    pub fn new() -> (r: Option<Self>)
        ensures
            r matches Some(w) ==> exists|home: Seq<char>| w.output_dir@ == export_dir_in(home),
    {
        match crate::paths::home_dir() {
            Some(home) => Some(HighlightWriter::in_home(home.as_str())),
            None => None,
        }
    }

    /// Prepares the text and JSON files of `book` and `highlights`.
    pub fn write_highlights(&self, book: &Book, highlights: &[Highlight]) -> (r: Result<
        ExportFiles,
        ExportError,
    >)
        ensures
            r is Ok,
            r matches Ok(f) ==> is_export(f, self.output_dir@, *book, highlights@),
    {
        export_files(self.output_dir.as_str(), book, highlights)
    }
}

} // verus!
