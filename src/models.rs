use vstd::prelude::*;
use vstd::string::*;

verus! {

/// Label of a catalog content-type code.
pub open spec fn content_type_label(code: i32) -> Seq<char> {
    if code == 1 || code == 2 {
        "iBooks"@
    } else if code == 3 {
        "PDF"@
    } else {
        "Unknown"@
    }
}

/// Colour name of an annotation style code.
pub open spec fn style_color(style: i32) -> Seq<char> {
    if style == 1 {
        "Green"@
    } else if style == 2 {
        "Blue"@
    } else if style == 3 {
        "Yellow"@
    } else if style == 4 {
        "Pink"@
    } else if style == 5 {
        "Purple"@
    } else {
        "Unknown"@
    }
}

/// Name shown for an optional style code: its colour, or "No Style" when absent.
pub open spec fn style_label(style: Option<i32>) -> Seq<char> {
    match style {
        Some(s) => style_color(s),
        None => "No Style"@,
    }
}

/// A book of the library catalog that carries highlights.
pub struct Book {
    /// Catalog identifier of the book.
    pub id: String,
    /// Display title.
    pub title: String,
    /// Author.
    pub author: String,
    /// Content-type label, absent where the catalog has no code.
    pub content_type: Option<String>,
}

/// A highlight of a book, with its normalized timestamps.
pub struct Highlight {
    /// Identifier of the annotation.
    pub id: i64,
    /// Highlighted passage.
    pub text: String,
    /// Creation time as a date-time string.
    pub date_created: String,
    /// Last modification time as a date-time string.
    pub date_modified: String,
    /// Raw colour style code, if any.
    pub style: Option<i32>,
    /// The reader's note, if any.
    pub note: Option<String>,
}

impl Book {
    /// Converts a catalog content-type code to its label.
    pub fn get_content_type_string(content_type: i32) -> (r: String)
        ensures
            r@ == content_type_label(content_type),
    {
        if content_type == 1 || content_type == 2 {
            String::from_str("iBooks")
        } else if content_type == 3 {
            String::from_str("PDF")
        } else {
            String::from_str("Unknown")
        }
    }
}

impl Highlight {
    /// Converts a style code to its colour name.
    pub fn get_style_color(style: i32) -> (r: &'static str)
        ensures
            r@ == style_color(style),
    {
        match style {
            1 => "Green",
            2 => "Blue",
            3 => "Yellow",
            4 => "Pink",
            5 => "Purple",
            _ => "Unknown",
        }
    }

    /// Name of this highlight's style as shown in exports.
    pub fn style_name(&self) -> (r: &'static str)
        ensures
            r@ == style_label(self.style),
    {
        match self.style {
            Some(s) => Highlight::get_style_color(s),
            None => "No Style",
        }
    }
}

} // verus!
