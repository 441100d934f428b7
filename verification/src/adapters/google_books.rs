//! Google Books: optional metadata (cover, pages, publisher, rating, preview) by ISBN.
use vstd::prelude::*;
use crate::adapters::http::{failure_is_permanent, is_success, send_failure, status_failure, status_message, transient_with};
use crate::ports::external::{ExternalError, GoogleBooksMetadata};
use crate::text::owned;

verus! {

/// Seconds a Google Books request may take.
pub const TIMEOUT_SECS: u64 = 10;

/// The cover links of a volume.
#[derive(Debug)]
pub struct ImageLinks {
    pub thumbnail: Option<String>,
    pub small_thumbnail: Option<String>,
}

/// What Google Books says of a volume (the rating as IEEE-754 bits).
#[derive(Debug)]
pub struct VolumeInfo {
    pub page_count: Option<u32>,
    pub publisher: Option<String>,
    pub average_rating_bits: Option<u64>,
    pub preview_link: Option<String>,
    pub image_links: Option<ImageLinks>,
}

/// The query of a volume search by ISBN.
pub open spec fn isbn_query(isbn: Seq<char>) -> Seq<char> {
    "isbn:"@ + isbn
}

/// The Open Library cover used when Google Books has none.
pub open spec fn fallback_cover(isbn: Seq<char>) -> Seq<char> {
    "https://covers.openlibrary.org/b/isbn/"@ + isbn + "-M.jpg"@
}

/// The cover of a volume: its thumbnail, else its small thumbnail, else the Open Library cover
/// of the ISBN.
pub open spec fn cover_of(links: Option<ImageLinks>, isbn: Seq<char>) -> Seq<char> {
    match links {
        Some(l) => match l.thumbnail {
            Some(t) => t@,
            None => match l.small_thumbnail {
                Some(s) => s@,
                None => fallback_cover(isbn),
            },
        },
        None => fallback_cover(isbn),
    }
}

/// The metadata of a volume found for an ISBN.
pub open spec fn metadata_of_volume(info: VolumeInfo, isbn: Seq<char>, m: GoogleBooksMetadata) -> bool {
    &&& m.cover_image_url matches Some(c) && c@ == cover_of(info.image_links, isbn)
    &&& m.page_count == info.page_count
    &&& m.publisher == info.publisher
    &&& m.average_rating_bits == info.average_rating_bits
    &&& m.preview_link == info.preview_link
}

/// The metadata of a volume found for an ISBN.
pub fn volume_metadata(info: VolumeInfo, isbn: &str) -> (m: GoogleBooksMetadata)
    ensures
        metadata_of_volume(info, isbn@, m),
{
    let picked = match &info.image_links {
        Some(l) => match &l.thumbnail {
            Some(t) => Some(t.clone()),
            None => match &l.small_thumbnail {
                Some(s) => Some(s.clone()),
                None => None,
            },
        },
        None => None,
    };
    let cover = match picked {
        Some(c) => c,
        None => {
            let mut c = owned("https://covers.openlibrary.org/b/isbn/");
            c.append(isbn);
            c.append("-M.jpg");
            c
        },
    };
    GoogleBooksMetadata {
        cover_image_url: Some(cover),
        page_count: info.page_count,
        publisher: info.publisher,
        average_rating_bits: info.average_rating_bits,
        preview_link: info.preview_link,
    }
}

/// A volume search: the query and the API key it is sent with.
#[derive(Debug)]
pub struct VolumeQuery {
    pub q: String,
    pub api_key: String,
}

/// Where a Google Books lookup stands.
pub enum VolumeState {
    Sending { isbn: String },
    ReadingErrorBody { code: u16, status_text: String },
    ReadingVolumes { isbn: String },
    Finished,
}

/// The outcome of the last action.
pub enum VolumeEvent {
    /// The response's status (code and display), or why no response came (timed out, detail).
    Sent { result: Result<(u16, String), (bool, String)> },
    /// The body of a failure response (empty when it could not be read).
    ErrorBodyRead { body: String },
    /// The first volume's information (none when there are no items), or why the reply was
    /// not the expected JSON.
    VolumesRead { result: Result<Option<VolumeInfo>, String> },
}

/// What the application does next.
pub enum VolumeAction {
    Get { query: VolumeQuery },
    ReadErrorBody,
    ReadVolumes,
    Done { result: Result<Option<GoogleBooksMetadata>, ExternalError> },
}

impl VolumeState {
    /// The event that answers the action this state waits on.
    pub open spec fn awaits(&self, event: &VolumeEvent) -> bool {
        match (self, event) {
            (VolumeState::Sending { .. }, VolumeEvent::Sent { .. }) => true,
            (VolumeState::ReadingErrorBody { .. }, VolumeEvent::ErrorBodyRead { .. }) => true,
            (VolumeState::ReadingVolumes { .. }, VolumeEvent::VolumesRead { .. }) => true,
            _ => false,
        }
    }
}

/// Starts a lookup by ISBN: without an API key the lookup is skipped, as an optional step.
pub fn fetch_by_isbn(api_key: Option<String>, isbn: &str) -> (r: (VolumeState, VolumeAction))
    ensures
        match api_key {
            None => r.0 is Finished && (r.1 matches VolumeAction::Done {
                result: Err(ExternalError::SkippedOptional(m)),
            } && m@ == "KV_GOOGLE_BOOKS_API_KEY not set"@),
            Some(k) => (r.0 matches VolumeState::Sending { isbn: i } && i@ == isbn@) && (
            r.1 matches VolumeAction::Get { query } && query.q@ == isbn_query(isbn@) && query.api_key == k),
        },
{
    match api_key {
        None => (
            VolumeState::Finished,
            VolumeAction::Done {
                result: Err(ExternalError::SkippedOptional(owned("KV_GOOGLE_BOOKS_API_KEY not set"))),
            },
        ),
        Some(k) => {
            let mut q = owned("isbn:");
            q.append(isbn);
            (VolumeState::Sending { isbn: owned(isbn) }, VolumeAction::Get { query: VolumeQuery { q, api_key: k } })
        },
    }
}

/// One step of a Google Books lookup.
pub open spec fn volume_transition(state: VolumeState, event: VolumeEvent, next: VolumeState, action: VolumeAction) -> bool {
    match (state, event) {
        (VolumeState::Sending { isbn }, VolumeEvent::Sent { result }) => match result {
            Err((timed_out, detail)) => next is Finished && (action matches VolumeAction::Done {
                result: Err(ExternalError::Transient(m)),
            } && m@ == "Google Books"@ + (if timed_out {
                " timeout: "@
            } else {
                " request error: "@
            }) + detail@),
            Ok((code, status_text)) => if is_success(code) {
                next == (VolumeState::ReadingVolumes { isbn }) && action is ReadVolumes
            } else {
                next == (VolumeState::ReadingErrorBody { code, status_text }) && action is ReadErrorBody
            },
        },
        (VolumeState::ReadingErrorBody { code, status_text }, VolumeEvent::ErrorBodyRead { body }) => {
            let m = status_message("Google Books API error "@, status_text@, body@);
            &&& next is Finished
            &&& action matches VolumeAction::Done { result: Err(e) }
            &&& if failure_is_permanent(code) {
                e matches ExternalError::Permanent(t) && t@ == m
            } else {
                e matches ExternalError::Transient(t) && t@ == m
            }
        },
        (VolumeState::ReadingVolumes { isbn }, VolumeEvent::VolumesRead { result }) => {
            &&& next is Finished
            &&& match result {
                Err(detail) => action matches VolumeAction::Done { result: Err(ExternalError::Transient(m)) }
                    && m@ == "failed to parse Google Books response: "@ + detail@,
                Ok(None) => action matches VolumeAction::Done { result: Ok(None) },
                Ok(Some(info)) => action matches VolumeAction::Done { result: Ok(Some(m)) } && metadata_of_volume(
                    info,
                    isbn@,
                    m,
                ),
            }
        },
        _ => false,
    }
}

/// Advances a Google Books lookup by one step.
pub fn step_volume(state: VolumeState, event: VolumeEvent) -> (r: (VolumeState, VolumeAction))
    requires
        state.awaits(&event),
    ensures
        volume_transition(state, event, r.0, r.1),
{
    match (state, event) {
        (VolumeState::Sending { isbn }, VolumeEvent::Sent { result }) => match result {
            Err((timed_out, detail)) => (
                VolumeState::Finished,
                VolumeAction::Done { result: Err(send_failure("Google Books", timed_out, detail.as_str())) },
            ),
            Ok((code, status_text)) => if 200 <= code && code <= 299 {
                (VolumeState::ReadingVolumes { isbn }, VolumeAction::ReadVolumes)
            } else {
                (VolumeState::ReadingErrorBody { code, status_text }, VolumeAction::ReadErrorBody)
            },
        },
        (VolumeState::ReadingErrorBody { code, status_text }, VolumeEvent::ErrorBodyRead { body }) => (
            VolumeState::Finished,
            VolumeAction::Done {
                result: Err(status_failure("Google Books API error ", code, status_text.as_str(), body.as_str())),
            },
        ),
        (VolumeState::ReadingVolumes { isbn }, VolumeEvent::VolumesRead { result }) => match result {
            Err(detail) => (
                VolumeState::Finished,
                VolumeAction::Done {
                    result: Err(transient_with("failed to parse Google Books response: ", detail.as_str())),
                },
            ),
            Ok(None) => (VolumeState::Finished, VolumeAction::Done { result: Ok(None) }),
            Ok(Some(info)) => (
                VolumeState::Finished,
                VolumeAction::Done { result: Ok(Some(volume_metadata(info, isbn.as_str()))) },
            ),
        },
        _ => (VolumeState::Finished, VolumeAction::Done { result: Ok(None) }),
    }
}

/// Every volume found gets a cover: when Google Books has no image, the Open Library cover of
/// the ISBN stands in.
pub proof fn law_found_volumes_have_a_cover(info: VolumeInfo, isbn: Seq<char>, m: GoogleBooksMetadata)
    requires
        metadata_of_volume(info, isbn, m),
    ensures
        m.cover_image_url is Some,
        (info.image_links is None || (info.image_links matches Some(l) && l.thumbnail is None
            && l.small_thumbnail is None)) ==> m.cover_image_url->Some_0@ == fallback_cover(isbn),
{
}

} // verus!
