//! What the outside book services (Open Library, Gemini, Google Books) hand back.
use vstd::prelude::*;
use crate::text::owned;

verus! {

/// A search hit from Open Library.
#[derive(Debug, Clone)]
pub struct OpenLibraryBook {
    pub open_library_id: String,
    pub title: String,
    pub author: String,
}

/// Bibliographic data of a book, the input of concept extraction.
#[derive(Debug, Clone)]
pub struct BookMetadata {
    pub title: String,
    pub author: String,
    pub description: String,
    pub subjects: Vec<String>,
}

/// Optional metadata from Google Books. `average_rating_bits` carries the rating's
/// IEEE-754 bit pattern.
#[derive(Debug, Clone)]
pub struct GoogleBooksMetadata {
    pub cover_image_url: Option<String>,
    pub page_count: Option<u32>,
    pub publisher: Option<String>,
    pub average_rating_bits: Option<u64>,
    pub preview_link: Option<String>,
}

/// How a call to an outside service failed.
#[derive(Debug)]
pub enum ExternalError {
    Transient(String),
    Permanent(String),
    SkippedOptional(String),
}

impl ExternalError {
    /// The text that describes the error.
    pub open spec fn message(&self) -> Seq<char> {
        match self {
            ExternalError::Transient(msg) => "transient error: "@ + msg@,
            ExternalError::Permanent(msg) => "permanent error: "@ + msg@,
            ExternalError::SkippedOptional(msg) => "skipped optional: "@ + msg@,
        }
    }

    /// The text that describes the error.
    pub fn to_string(&self) -> (s: String)
        ensures
            s@ == self.message(),
    {
        let (prefix, msg) = match self {
            ExternalError::Transient(msg) => (owned("transient error: "), msg),
            ExternalError::Permanent(msg) => (owned("permanent error: "), msg),
            ExternalError::SkippedOptional(msg) => (owned("skipped optional: "), msg),
        };
        let mut s = prefix;
        s.append(msg.as_str());
        s
    }
}

} // verus!
