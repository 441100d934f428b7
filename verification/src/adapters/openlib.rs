//! Open Library: finding a book by title, and its metadata by ISBN.
use vstd::prelude::*;
use crate::adapters::http::{is_success, transient_with};
use crate::ports::external::{BookMetadata, ExternalError, OpenLibraryBook};
use crate::text::owned;

verus! {

/// One hit of a title search.
#[derive(Debug)]
pub struct SearchDoc {
    pub key: String,
    pub title: String,
    pub author_name: Option<Vec<String>>,
}

/// The reply to a title search.
#[derive(Debug)]
pub struct SearchResponse {
    pub num_found: u64,
    pub docs: Vec<SearchDoc>,
}

/// A book's description: a plain text or an object holding the text.
#[derive(Debug)]
pub enum OlDescription {
    Simple(String),
    Object { value: String },
}

impl OlDescription {
    /// The text of the description, whichever form it came in.
    pub open spec fn text_of(&self) -> Seq<char> {
        match self {
            OlDescription::Simple(s) => s@,
            OlDescription::Object { value } => value@,
        }
    }

    /// The text of the description, whichever form it came in.
    pub fn text(&self) -> (s: &str)
        ensures
            s@ == self.text_of(),
    {
        match self {
            OlDescription::Simple(s) => s.as_str(),
            OlDescription::Object { value } => value.as_str(),
        }
    }
}

/// A reference to one of a book's authors.
#[derive(Debug)]
pub struct OlAuthorRef {
    pub key: Option<String>,
}

/// The record of an edition, as fetched by ISBN.
#[derive(Debug)]
pub struct OlBookResponse {
    pub title: Option<String>,
    pub authors: Vec<OlAuthorRef>,
    pub description: Option<OlDescription>,
    pub subjects: Vec<String>,
}

/// What `reqwest::Url::parse_with_params` gives for the title search URL with `title`.
pub uninterp spec fn search_url_result(title: Seq<char>) -> Result<Seq<char>, Seq<char>>;

/// `reqwest::Url::parse_with_params("http://openlibrary.org/search.json", ..)` with the
/// query pairs `title`, `limit=1` and `fields=key,title,author_name`, rendered as text: the
/// outcome is named `search_url_result(title)`; the percent-encoding of the query is not
/// stated.
#[verifier::external_body]
fn search_url(title: &str) -> (r: Result<String, String>)
    ensures
        match r {
            Ok(u) => search_url_result(title@) == Ok::<Seq<char>, Seq<char>>(u@),
            Err(m) => search_url_result(title@) == Err::<Seq<char>, Seq<char>>(m@),
        },
{
    match reqwest::Url::parse_with_params(
        "http://openlibrary.org/search.json",
        &[("title", title), ("limit", "1"), ("fields", "key,title,author_name")],
    ) {
        Ok(u) => Ok(u.to_string()),
        Err(e) => Err(e.to_string()),
    }
}

/// The book a title search found: none when it found nothing, else the first hit, with its
/// first author (an empty name when it lists none).
pub open spec fn found_book(num_found: u64, docs: Seq<SearchDoc>, book: Option<OpenLibraryBook>) -> bool {
    if num_found == 0 || docs.len() == 0 {
        book is None
    } else {
        book matches Some(b) && b.open_library_id == docs[0].key && b.title == docs[0].title
            && b.author@ == match docs[0].author_name {
            Some(names) => if names@.len() > 0 {
                names@[0]@
            } else {
                Seq::empty()
            },
            None => Seq::empty(),
        }
    }
}

/// The book a title search found.
pub fn pick_search_result(search: SearchResponse) -> (r: Option<OpenLibraryBook>)
    ensures
        found_book(search.num_found, search.docs@, r),
{
    if search.num_found == 0 || search.docs.len() == 0 {
        return None;
    }
    let doc = &search.docs[0];
    let author = match &doc.author_name {
        Some(names) => if names.len() > 0 {
            names[0].clone()
        } else {
            String::new()
        },
        None => String::new(),
    };
    Some(OpenLibraryBook { open_library_id: doc.key.clone(), title: doc.title.clone(), author })
}

/// Where a title search stands.
pub enum SearchState {
    Sending,
    Reading,
    Finished,
}

/// The outcome of the last action.
pub enum SearchEvent {
    /// The response's status (code and display), or why no response came.
    Sent { result: Result<(u16, String), String> },
    /// The reply decoded, or why it could not be.
    Read { result: Result<SearchResponse, String> },
}

/// What the application does next.
pub enum SearchAction {
    Get { url: String },
    ReadJson,
    Done { result: Result<Option<OpenLibraryBook>, String> },
}

impl SearchState {
    /// The event that answers the action this state waits on.
    pub open spec fn awaits(&self, event: &SearchEvent) -> bool {
        match (self, event) {
            (SearchState::Sending, SearchEvent::Sent { .. }) => true,
            (SearchState::Reading, SearchEvent::Read { .. }) => true,
            _ => false,
        }
    }
}

/// Starts a title search: the search URL is built first.
pub fn search_by_title(title: &str) -> (r: (SearchState, SearchAction))
    ensures
        match search_url_result(title@) {
            Ok(u) => r.0 is Sending && (r.1 matches SearchAction::Get { url } && url@ == u),
            Err(m) => r.0 is Finished && (r.1 matches SearchAction::Done { result: Err(e) } && e@ == m),
        },
{
    match search_url(title) {
        Ok(url) => (SearchState::Sending, SearchAction::Get { url }),
        Err(m) => (SearchState::Finished, SearchAction::Done { result: Err(m) }),
    }
}

/// One step of a title search.
pub open spec fn search_transition(state: SearchState, event: SearchEvent, next: SearchState, action: SearchAction) -> bool {
    match (state, event) {
        (SearchState::Sending, SearchEvent::Sent { result }) => match result {
            Err(m) => next is Finished && (action matches SearchAction::Done { result: Err(e) } && e == m),
            Ok((code, status_text)) => if is_success(code) {
                next is Reading && action is ReadJson
            } else {
                next is Finished && (action matches SearchAction::Done { result: Err(e) } && e@
                    == "Open Library returned status "@ + status_text@)
            },
        },
        (SearchState::Reading, SearchEvent::Read { result }) => {
            &&& next is Finished
            &&& match result {
                Err(m) => action matches SearchAction::Done { result: Err(e) } && e == m,
                Ok(search) => action matches SearchAction::Done { result: Ok(book) } && found_book(
                    search.num_found,
                    search.docs@,
                    book,
                ),
            }
        },
        _ => false,
    }
}

/// Advances a title search by one step.
pub fn step_search(state: SearchState, event: SearchEvent) -> (r: (SearchState, SearchAction))
    requires
        state.awaits(&event),
    ensures
        search_transition(state, event, r.0, r.1),
{
    match (state, event) {
        (SearchState::Sending, SearchEvent::Sent { result }) => match result {
            Err(m) => (SearchState::Finished, SearchAction::Done { result: Err(m) }),
            Ok((code, status_text)) => if 200 <= code && code <= 299 {
                (SearchState::Reading, SearchAction::ReadJson)
            } else {
                let mut m = owned("Open Library returned status ");
                m.append(status_text.as_str());
                (SearchState::Finished, SearchAction::Done { result: Err(m) })
            },
        },
        (SearchState::Reading, SearchEvent::Read { result }) => match result {
            Err(m) => (SearchState::Finished, SearchAction::Done { result: Err(m) }),
            Ok(search) => (SearchState::Finished, SearchAction::Done { result: Ok(pick_search_result(search)) }),
        },
        _ => (SearchState::Finished, SearchAction::Done { result: Err(String::new()) }),
    }
}

/// The metadata read from an edition record, before its author is known.
#[derive(Debug)]
pub struct PartialMetadata {
    pub title: String,
    pub description: String,
    pub subjects: Vec<String>,
}

/// Where a fetch by ISBN stands.
pub enum FetchState {
    Sending { isbn: String },
    /// Waiting for the work record of a work id that a title search returned.
    SendingWork { work_key: String },
    ReadingBook,
    FetchingAuthor { partial: PartialMetadata },
    ReadingAuthor { partial: PartialMetadata },
    Finished,
}

/// The outcome of the last action.
pub enum FetchEvent {
    /// The response's status (code and display), or why no response came.
    Sent { result: Result<(u16, String), String> },
    /// The edition record decoded, or why it could not be.
    BookRead { result: Result<OlBookResponse, String> },
    /// Whether the author record answered with a success status.
    AuthorSent { succeeded: bool },
    /// The author's name, when the record could be decoded and holds one.
    AuthorRead { name: Option<String> },
}

/// What the application does next.
pub enum FetchAction {
    Get { url: String },
    ReadBook,
    GetAuthor { url: String },
    ReadAuthor,
    Done { result: Result<BookMetadata, ExternalError> },
}

impl FetchState {
    /// The event that answers the action this state waits on.
    pub open spec fn awaits(&self, event: &FetchEvent) -> bool {
        match (self, event) {
            (FetchState::Sending { .. }, FetchEvent::Sent { .. }) => true,
            (FetchState::SendingWork { .. }, FetchEvent::Sent { .. }) => true,
            (FetchState::ReadingBook, FetchEvent::BookRead { .. }) => true,
            (FetchState::FetchingAuthor { .. }, FetchEvent::AuthorSent { .. }) => true,
            (FetchState::ReadingAuthor { .. }, FetchEvent::AuthorRead { .. }) => true,
            _ => false,
        }
    }
}

/// The URL of the edition record of an ISBN.
pub open spec fn isbn_url(isbn: Seq<char>) -> Seq<char> {
    "https://openlibrary.org/isbn/"@ + isbn + ".json"@
}

/// Starts fetching the metadata of an ISBN.
pub fn fetch_by_isbn(isbn: &str) -> (r: (FetchState, FetchAction))
    ensures
        r.0 matches FetchState::Sending { isbn: i } && i@ == isbn@,
        r.1 matches FetchAction::Get { url } && url@ == isbn_url(isbn@),
{
    let mut url = owned("https://openlibrary.org/isbn/");
    url.append(isbn);
    url.append(".json");
    (FetchState::Sending { isbn: owned(isbn) }, FetchAction::Get { url })
}

/// The metadata of an edition record before its author: the title (`Unknown title` when it
/// has none), the text of the description (empty when it has none), the subjects.
pub open spec fn partial_of(book: OlBookResponse, partial: PartialMetadata) -> bool {
    &&& partial.title@ == match book.title {
        Some(t) => t@,
        None => "Unknown title"@,
    }
    &&& partial.description@ == match book.description {
        Some(d) => d.text_of(),
        None => Seq::empty(),
    }
    &&& partial.subjects == book.subjects
}

/// The metadata of an edition record with the given author.
pub open spec fn metadata_of(book: OlBookResponse, metadata: BookMetadata, author: Seq<char>) -> bool {
    &&& metadata.title@ == match book.title {
        Some(t) => t@,
        None => "Unknown title"@,
    }
    &&& metadata.description@ == match book.description {
        Some(d) => d.text_of(),
        None => Seq::empty(),
    }
    &&& metadata.subjects == book.subjects
    &&& metadata.author@ == author
}

/// The key of the first author of an edition record, if it has one.
pub open spec fn first_author_key(book: OlBookResponse) -> Option<Seq<char>> {
    if book.authors@.len() > 0 {
        match book.authors@[0].key {
            Some(k) => Some(k@),
            None => None,
        }
    } else {
        None
    }
}

/// The URL of the record of an Open Library work key (such as `/works/OL45804W`).
pub open spec fn work_url(work_key: Seq<char>) -> Seq<char> {
    "https://openlibrary.org"@ + work_key + ".json"@
}

/// Starts fetching the metadata of a work found by title: its work record is read like an
/// edition record.
pub fn fetch_by_work_id(work_key: &str) -> (r: (FetchState, FetchAction))
    ensures
        r.0 matches FetchState::SendingWork { work_key: k } && k@ == work_key@,
        r.1 matches FetchAction::Get { url } && url@ == work_url(work_key@),
{
    let mut url = owned("https://openlibrary.org");
    url.append(work_key);
    url.append(".json");
    (FetchState::SendingWork { work_key: owned(work_key) }, FetchAction::Get { url })
}

/// The metadata of a book with the given author.
pub open spec fn with_author(partial: PartialMetadata, metadata: BookMetadata, author: Seq<char>) -> bool {
    metadata.title == partial.title && metadata.description == partial.description
        && metadata.subjects == partial.subjects && metadata.author@ == author
}

/// One step of a fetch by ISBN or by work id.
pub open spec fn fetch_transition(state: FetchState, event: FetchEvent, next: FetchState, action: FetchAction) -> bool {
    match (state, event) {
        (FetchState::SendingWork { work_key }, FetchEvent::Sent { result }) => match result {
            Err(m) => next is Finished && action == (FetchAction::Done {
                result: Err(ExternalError::Transient(m)),
            }),
            Ok((code, status_text)) => if code == 404 {
                next is Finished && (action matches FetchAction::Done { result: Err(ExternalError::Permanent(m)) }
                    && m@ == "Work "@ + work_key@ + " not found in OpenLibrary"@)
            } else if !is_success(code) {
                next is Finished && (action matches FetchAction::Done { result: Err(ExternalError::Transient(m)) }
                    && m@ == "OpenLibrary returned HTTP "@ + status_text@)
            } else {
                next is ReadingBook && action is ReadBook
            },
        },
        (FetchState::Sending { isbn }, FetchEvent::Sent { result }) => match result {
            Err(m) => next is Finished && action == (FetchAction::Done {
                result: Err(ExternalError::Transient(m)),
            }),
            Ok((code, status_text)) => if code == 404 {
                next is Finished && (action matches FetchAction::Done { result: Err(ExternalError::Permanent(m)) }
                    && m@ == "ISBN "@ + isbn@ + " not found in OpenLibrary"@)
            } else if !is_success(code) {
                next is Finished && (action matches FetchAction::Done { result: Err(ExternalError::Transient(m)) }
                    && m@ == "OpenLibrary returned HTTP "@ + status_text@)
            } else {
                next is ReadingBook && action is ReadBook
            },
        },
        (FetchState::ReadingBook, FetchEvent::BookRead { result }) => match result {
            Err(m) => next is Finished && action == (FetchAction::Done {
                result: Err(ExternalError::Transient(m)),
            }),
            Ok(book) => match first_author_key(book) {
                None => next is Finished && (action matches FetchAction::Done { result: Ok(metadata) } && metadata_of(
                    book,
                    metadata,
                    "Unknown author"@,
                )),
                Some(key) => {
                    &&& next matches FetchState::FetchingAuthor { partial } && partial_of(book, partial)
                    &&& action matches FetchAction::GetAuthor { url } && url@ == "https://openlibrary.org"@ + key
                        + ".json"@
                },
            },
        },
        (FetchState::FetchingAuthor { partial }, FetchEvent::AuthorSent { succeeded }) => if succeeded {
            next == (FetchState::ReadingAuthor { partial }) && action is ReadAuthor
        } else {
            next is Finished && (action matches FetchAction::Done { result: Ok(metadata) } && with_author(
                partial,
                metadata,
                "Unknown author"@,
            ))
        },
        (FetchState::ReadingAuthor { partial }, FetchEvent::AuthorRead { name }) => {
            &&& next is Finished
            &&& action matches FetchAction::Done { result: Ok(metadata) } && with_author(
                partial,
                metadata,
                match name {
                    Some(n) => n@,
                    None => "Unknown author"@,
                },
            )
        },
        _ => false,
    }
}

fn metadata_with(partial: PartialMetadata, author: String) -> (m: BookMetadata)
    ensures
        with_author(partial, m, author@),
{
    BookMetadata { title: partial.title, author, description: partial.description, subjects: partial.subjects }
}

fn partial_metadata(book: OlBookResponse) -> (p: PartialMetadata)
    ensures
        partial_of(book, p),
{
    let title = match book.title {
        Some(t) => t,
        None => owned("Unknown title"),
    };
    let description = match &book.description {
        Some(d) => owned(d.text()),
        None => String::new(),
    };
    PartialMetadata { title, description, subjects: book.subjects }
}

/// The step after an edition record was read: the book is done when it names no author key,
/// else its first author's record is fetched.
fn after_book(book: OlBookResponse) -> (r: (FetchState, FetchAction))
    ensures
        match first_author_key(book) {
            None => r.0 is Finished && (r.1 matches FetchAction::Done { result: Ok(metadata) } && metadata_of(
                book,
                metadata,
                "Unknown author"@,
            )),
            Some(key) => {
                &&& r.0 matches FetchState::FetchingAuthor { partial } && partial_of(book, partial)
                &&& r.1 matches FetchAction::GetAuthor { url } && url@ == "https://openlibrary.org"@ + key
                    + ".json"@
            },
        },
{
    let key = if book.authors.len() > 0 {
        match &book.authors[0].key {
            Some(k) => Some(k.clone()),
            None => None,
        }
    } else {
        None
    };
    let ghost b = book;
    assert(match key {
        Some(k) => first_author_key(b) == Some(k@),
        None => first_author_key(b) is None,
    });
    let partial = partial_metadata(book);
    match key {
        None => {
            let m = metadata_with(partial, owned("Unknown author"));
            (FetchState::Finished, FetchAction::Done { result: Ok(m) })
        },
        Some(k) => {
            let mut url = owned("https://openlibrary.org");
            url.append(k.as_str());
            url.append(".json");
            (FetchState::FetchingAuthor { partial }, FetchAction::GetAuthor { url })
        },
    }
}

/// Advances a fetch by ISBN or by work id by one step.
pub fn step_fetch(state: FetchState, event: FetchEvent) -> (r: (FetchState, FetchAction))
    requires
        state.awaits(&event),
    ensures
        fetch_transition(state, event, r.0, r.1),
{
    match (state, event) {
        (FetchState::SendingWork { work_key }, FetchEvent::Sent { result }) => match result {
            Err(m) => (FetchState::Finished, FetchAction::Done { result: Err(ExternalError::Transient(m)) }),
            Ok((code, status_text)) => if code == 404 {
                let mut m = owned("Work ");
                m.append(work_key.as_str());
                m.append(" not found in OpenLibrary");
                (FetchState::Finished, FetchAction::Done { result: Err(ExternalError::Permanent(m)) })
            } else if !(200 <= code && code <= 299) {
                (
                    FetchState::Finished,
                    FetchAction::Done {
                        result: Err(transient_with("OpenLibrary returned HTTP ", status_text.as_str())),
                    },
                )
            } else {
                (FetchState::ReadingBook, FetchAction::ReadBook)
            },
        },
        (FetchState::Sending { isbn }, FetchEvent::Sent { result }) => match result {
            Err(m) => (FetchState::Finished, FetchAction::Done { result: Err(ExternalError::Transient(m)) }),
            Ok((code, status_text)) => if code == 404 {
                let mut m = owned("ISBN ");
                m.append(isbn.as_str());
                m.append(" not found in OpenLibrary");
                (FetchState::Finished, FetchAction::Done { result: Err(ExternalError::Permanent(m)) })
            } else if !(200 <= code && code <= 299) {
                (
                    FetchState::Finished,
                    FetchAction::Done {
                        result: Err(transient_with("OpenLibrary returned HTTP ", status_text.as_str())),
                    },
                )
            } else {
                (FetchState::ReadingBook, FetchAction::ReadBook)
            },
        },
        (FetchState::ReadingBook, FetchEvent::BookRead { result }) => match result {
            Err(m) => (FetchState::Finished, FetchAction::Done { result: Err(ExternalError::Transient(m)) }),
            Ok(book) => after_book(book),
        },
        (FetchState::FetchingAuthor { partial }, FetchEvent::AuthorSent { succeeded }) => if succeeded {
            (FetchState::ReadingAuthor { partial }, FetchAction::ReadAuthor)
        } else {
            (FetchState::Finished, FetchAction::Done { result: Ok(metadata_with(partial, owned("Unknown author"))) })
        },
        (FetchState::ReadingAuthor { partial }, FetchEvent::AuthorRead { name }) => {
            let author = match name {
                Some(n) => n,
                None => owned("Unknown author"),
            };
            (FetchState::Finished, FetchAction::Done { result: Ok(metadata_with(partial, author)) })
        },
        _ => (FetchState::Finished, FetchAction::Done { result: Err(ExternalError::Permanent(String::new())) }),
    }
}

/// The author looked up for a book is its first listed author: when the record lists an
/// author with a key first, its record is fetched from Open Library; when the first listed
/// author has no key, or no author is listed, the book's author is `Unknown author`.
pub proof fn law_the_first_author_is_looked_up(
    state: FetchState,
    event: FetchEvent,
    next: FetchState,
    action: FetchAction,
)
    requires
        fetch_transition(state, event, next, action),
        state is ReadingBook,
    ensures
        event matches FetchEvent::BookRead { result: Ok(book) } ==> {
            &&& (book.authors@.len() > 0 && book.authors@[0].key is Some) ==> (action matches FetchAction::GetAuthor {
                url,
            } && url@ == "https://openlibrary.org"@ + book.authors@[0].key->Some_0@ + ".json"@)
            &&& !(book.authors@.len() > 0 && book.authors@[0].key is Some) ==> (action matches FetchAction::Done {
                result: Ok(metadata),
            } && metadata.author@ == "Unknown author"@)
        },
{
}

} // verus!
