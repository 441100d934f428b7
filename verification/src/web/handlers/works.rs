//! Submitting works (by ISBN or by title), retrying failed ones, and reading them back.
use vstd::prelude::*;
use crate::domain::work::{
    is_valid_isbn10, is_valid_isbn13, isbn_verdict, law_accepted_isbn_is_normalised, validate_isbn, Work, WorkError,
};
use crate::ports::external::OpenLibraryBook;
use crate::ports::repository::RepoError;
use crate::text::{owned, same_text, trim, trimmed};

verus! {

/// A work submission.
#[derive(Debug)]
pub struct SubmitWorkInput {
    pub identifier: String,
    pub identifier_type: String,
}

/// The body of an accepted submission or retry (status 202).
#[derive(Debug)]
pub struct WorkCreatedResponse {
    pub work_id: String,
    pub status: String,
}

/// The paging of a work listing.
#[derive(Debug)]
pub struct ListWorksParams {
    pub limit: Option<u32>,
    pub offset: Option<u32>,
}

/// An error reply: its status and a JSON body with `error` and, for most errors, `message`.
#[derive(Debug)]
pub struct ApiError {
    pub status: u16,
    pub error: String,
    pub message: Option<String>,
}

/// The message published on `discovery.requested` for a new or retried work.
/// `identifier` is the ISBN or the title; a retried work without an ISBN carries none.
#[derive(Debug)]
pub struct DiscoveryEvent {
    pub work_id: String,
    pub identifier: Option<String>,
    pub identifier_type: String,
}

/// The answer to a submission or a retry.
#[derive(Debug)]
pub enum WorksReply {
    /// Status 202.
    Accepted { body: WorkCreatedResponse },
    /// Status 409: the work is already in the vault, under this id.
    Duplicate { work_id: String },
    /// An error status with its body.
    Error { body: ApiError },
}

/// An error reply with the given status, error code and message.
pub open spec fn is_api_error(reply: WorksReply, status: u16, error: Seq<char>, message: Option<Seq<char>>) -> bool {
    reply matches WorksReply::Error { body } && body.status == status && body.error@ == error
        && match (body.message, message) {
            (Some(m), Some(t)) => m@ == t,
            (None, None) => true,
            _ => false,
        }
}

fn api_error(status: u16, error: &str, message: Option<String>) -> (r: WorksReply)
    ensures
        r matches WorksReply::Error { body } && body.status == status && body.error@ == error@
            && body.message == message,
{
    WorksReply::Error { body: ApiError { status, error: owned(error), message } }
}

fn repo_failure(e: RepoError) -> (r: WorksReply)
    ensures
        is_api_error(r, 500, "internal_error"@, Some(e.message())),
{
    api_error(500, "internal_error", Some(e.to_string()))
}

/// Where a submission or retry stands: each state waits for the outcome of the action that
/// led to it.
pub enum WorksState {
    CheckingIsbn { isbn: String, publisher_available: bool },
    CreatingByIsbn { isbn: String },
    RecheckingIsbn { error: RepoError },
    SearchingTitle { title: String, publisher_available: bool },
    CheckingOpenLibraryId { title: String, book: OpenLibraryBook, publisher_available: bool },
    CreatingByTitle { title: String, open_library_id: String },
    RecheckingOpenLibraryId { error: RepoError },
    LoadingForRetry { publisher_available: bool },
    Resetting,
    Publishing { work_id: String, status: String },
    Finished,
}

/// The outcome of the last action.
pub enum WorksEvent {
    WorkFound { result: Result<Option<Work>, RepoError> },
    WorkStored { result: Result<Work, RepoError> },
    TitleSearched { result: Result<Option<OpenLibraryBook>, String> },
    Published { result: Result<(), String> },
}

/// What the application does next.
pub enum WorksAction {
    FindByIsbn { isbn: String },
    FindByOpenLibraryId { open_library_id: String },
    FindById { id: String },
    SearchTitle { title: String },
    CreateWork { isbn: String },
    CreateWorkByTitle { title: String, author: String, open_library_id: String },
    ResetToPending { id: String },
    Publish { subject: String, event: DiscoveryEvent },
    Respond { reply: WorksReply },
}

impl WorksState {
    /// The event that answers the action this state waits on.
    pub open spec fn awaits(&self, event: &WorksEvent) -> bool {
        match (self, event) {
            (WorksState::CheckingIsbn { .. }, WorksEvent::WorkFound { .. }) => true,
            (WorksState::CreatingByIsbn { .. }, WorksEvent::WorkStored { .. }) => true,
            (WorksState::RecheckingIsbn { .. }, WorksEvent::WorkFound { .. }) => true,
            (WorksState::SearchingTitle { .. }, WorksEvent::TitleSearched { .. }) => true,
            (WorksState::CheckingOpenLibraryId { .. }, WorksEvent::WorkFound { .. }) => true,
            (WorksState::CreatingByTitle { .. }, WorksEvent::WorkStored { .. }) => true,
            (WorksState::RecheckingOpenLibraryId { .. }, WorksEvent::WorkFound { .. }) => true,
            (WorksState::LoadingForRetry { .. }, WorksEvent::WorkFound { .. }) => true,
            (WorksState::Resetting, WorksEvent::WorkStored { .. }) => true,
            (WorksState::Publishing { .. }, WorksEvent::Published { .. }) => true,
            _ => false,
        }
    }
}

/// The reply to a submission that needs the message publisher when none is configured.
pub open spec fn is_messaging_unavailable(reply: WorksReply) -> bool {
    is_api_error(reply, 500, "messaging_unavailable"@, Some("NATS publisher is not initialised"@))
}

fn messaging_unavailable() -> (r: WorksReply)
    ensures
        is_messaging_unavailable(r),
{
    api_error(500, "messaging_unavailable", Some(owned("NATS publisher is not initialised")))
}

/// Where a submission starts, by the type of its identifier.
pub open spec fn submission_start(
    input: SubmitWorkInput,
    open_library_available: bool,
    publisher_available: bool,
    state: WorksState,
    action: WorksAction,
) -> bool {
    if input.identifier_type@ == "isbn"@ {
        match isbn_verdict(input.identifier@) {
            Err(m) => state is Finished && (action matches WorksAction::Respond { reply }
                && is_api_error(reply, 422, "invalid_isbn"@, Some(m))),
            Ok(isbn) => {
                &&& state matches WorksState::CheckingIsbn { isbn: s, publisher_available: p }
                    && s@ == isbn && p == publisher_available
                &&& action matches WorksAction::FindByIsbn { isbn: s } && s@ == isbn
            },
        }
    } else if input.identifier_type@ == "title"@ {
        if trimmed(input.identifier@).len() == 0 {
            state is Finished && (action matches WorksAction::Respond { reply }
                && is_api_error(reply, 422, "invalid_title"@, Some("title must not be empty"@)))
        } else if !open_library_available {
            state is Finished && (action matches WorksAction::Respond { reply }
                && is_api_error(reply, 500, "service_unavailable"@, Some("Open Library client is not initialised"@)))
        } else {
            &&& state matches WorksState::SearchingTitle { title, publisher_available: p }
                && title == input.identifier && p == publisher_available
            &&& action matches WorksAction::SearchTitle { title } && title@ == input.identifier@
        }
    } else {
        state is Finished && (action matches WorksAction::Respond { reply } && is_api_error(
            reply,
            422,
            "invalid_identifier_type"@,
            Some("identifier_type must be \"isbn\" or \"title\""@),
        ))
    }
}

/// Starts a submission: an ISBN is validated and looked up, a title is searched on Open
/// Library; any other identifier type is refused with 422.
pub fn post_works(input: SubmitWorkInput, open_library_available: bool, publisher_available: bool) -> (r: (
    WorksState,
    WorksAction,
))
    ensures
        submission_start(input, open_library_available, publisher_available, r.0, r.1),
{
    if same_text(input.identifier_type.as_str(), "isbn") {
        match validate_isbn(input.identifier.as_str()) {
            Ok(isbn) => {
                let asked = isbn.clone();
                (WorksState::CheckingIsbn { isbn, publisher_available }, WorksAction::FindByIsbn { isbn: asked })
            },
            Err(WorkError::InvalidIsbn(m)) => (
                WorksState::Finished,
                WorksAction::Respond { reply: api_error(422, "invalid_isbn", Some(m)) },
            ),
            Err(e) => (
                WorksState::Finished,
                WorksAction::Respond { reply: api_error(500, "internal_error", Some(e.to_string())) },
            ),
        }
    } else if same_text(input.identifier_type.as_str(), "title") {
        let trimmed_title = trim(input.identifier.as_str());
        if trimmed_title.as_str().is_empty() {
            (
                WorksState::Finished,
                WorksAction::Respond {
                    reply: api_error(422, "invalid_title", Some(owned("title must not be empty"))),
                },
            )
        } else if !open_library_available {
            (
                WorksState::Finished,
                WorksAction::Respond {
                    reply: api_error(
                        500,
                        "service_unavailable",
                        Some(owned("Open Library client is not initialised")),
                    ),
                },
            )
        } else {
            let asked = input.identifier.clone();
            (
                WorksState::SearchingTitle { title: input.identifier, publisher_available },
                WorksAction::SearchTitle { title: asked },
            )
        }
    } else {
        (
            WorksState::Finished,
            WorksAction::Respond {
                reply: api_error(
                    422,
                    "invalid_identifier_type",
                    Some(owned("identifier_type must be \"isbn\" or \"title\"")),
                ),
            },
        )
    }
}

/// Starts a retry of the work `id`: the work is loaded first.
pub fn post_works_retry(id: String, publisher_available: bool) -> (r: (WorksState, WorksAction))
    ensures
        r.0 == (WorksState::LoadingForRetry { publisher_available }),
        r.1 == (WorksAction::FindById { id }),
{
    (WorksState::LoadingForRetry { publisher_available }, WorksAction::FindById { id })
}

/// The subject discovery requests are published on.
pub open spec fn discovery_subject() -> Seq<char> {
    "discovery.requested"@
}

/// The reply to a work that turned out to be in the vault already.
pub open spec fn is_duplicate_of(reply: WorksReply, existing: Work) -> bool {
    reply matches WorksReply::Duplicate { work_id } && work_id == existing.id
}

/// A publication of the discovery request for a work.
pub open spec fn publishes(
    action: WorksAction,
    work_id: Seq<char>,
    identifier: Option<Seq<char>>,
    identifier_type: Seq<char>,
) -> bool {
    action matches WorksAction::Publish { subject, event } && subject@ == discovery_subject()
        && event.work_id@ == work_id && event.identifier_type@ == identifier_type && match (
        event.identifier,
        identifier,
    ) {
        (Some(a), Some(b)) => a@ == b,
        (None, None) => true,
        _ => false,
    }
}

/// The step after a lookup for an existing work: 409 when there is one, 500 when the lookup
/// failed, 500 when there is no publisher to announce a new work, else `create`.
pub open spec fn after_lookup(
    result: Result<Option<Work>, RepoError>,
    publisher_available: bool,
    next: WorksState,
    action: WorksAction,
    creating: WorksState,
    create: WorksAction,
) -> bool {
    match result {
        Ok(Some(existing)) => next is Finished && (action matches WorksAction::Respond { reply }
            && is_duplicate_of(reply, existing)),
        Err(e) => next is Finished && (action matches WorksAction::Respond { reply }
            && is_api_error(reply, 500, "internal_error"@, Some(e.message()))),
        Ok(None) => if publisher_available {
            next == creating && action == create
        } else {
            next is Finished && (action matches WorksAction::Respond { reply } && is_messaging_unavailable(reply))
        },
    }
}

/// The step after a failed creation was followed by a second lookup: 409 when the work has
/// appeared meanwhile, else the creation's error.
pub open spec fn after_recheck(
    result: Result<Option<Work>, RepoError>,
    error: RepoError,
    next: WorksState,
    action: WorksAction,
) -> bool {
    &&& next is Finished
    &&& match result {
        Ok(Some(existing)) => action matches WorksAction::Respond { reply } && is_duplicate_of(reply, existing),
        _ => action matches WorksAction::Respond { reply } && is_api_error(
            reply,
            500,
            "internal_error"@,
            Some(error.message()),
        ),
    }
}

/// One step of a submission or retry: from its state and the outcome of the last action, the
/// next state and the next action.
pub open spec fn works_transition(
    state: WorksState,
    event: WorksEvent,
    next: WorksState,
    action: WorksAction,
) -> bool {
    match (state, event) {
        (WorksState::CheckingIsbn { isbn, publisher_available }, WorksEvent::WorkFound { result }) => after_lookup(
            result,
            publisher_available,
            next,
            action,
            WorksState::CreatingByIsbn { isbn },
            WorksAction::CreateWork { isbn },
        ),
        (WorksState::CreatingByIsbn { isbn }, WorksEvent::WorkStored { result }) => match result {
            Ok(work) => {
                &&& next == (WorksState::Publishing { work_id: work.id, status: work.status })
                &&& publishes(action, work.id@, Some(isbn@), "isbn"@)
            },
            Err(e) => {
                &&& next == (WorksState::RecheckingIsbn { error: e })
                &&& action matches WorksAction::FindByIsbn { isbn: asked } && asked@ == isbn@
            },
        },
        (WorksState::RecheckingIsbn { error }, WorksEvent::WorkFound { result }) => after_recheck(
            result,
            error,
            next,
            action,
        ),
        (WorksState::SearchingTitle { title, publisher_available }, WorksEvent::TitleSearched { result }) => {
            match result {
                Ok(None) => next is Finished && (action matches WorksAction::Respond { reply }
                    && is_api_error(reply, 422, "title_not_found"@, Some("no results found for the given title"@))),
                Err(m) => next is Finished && (action matches WorksAction::Respond { reply }
                    && is_api_error(reply, 500, "internal_error"@, Some(m@))),
                Ok(Some(book)) => {
                    &&& next matches WorksState::CheckingOpenLibraryId { title: t, book: b, publisher_available: p }
                        && t == title && b == book && p == publisher_available
                    &&& action matches WorksAction::FindByOpenLibraryId { open_library_id }
                        && open_library_id@ == book.open_library_id@
                },
            }
        },
        (
            WorksState::CheckingOpenLibraryId { title, book, publisher_available },
            WorksEvent::WorkFound { result },
        ) => after_lookup(
            result,
            publisher_available,
            next,
            action,
            WorksState::CreatingByTitle { title, open_library_id: book.open_library_id },
            WorksAction::CreateWorkByTitle {
                title: book.title,
                author: book.author,
                open_library_id: book.open_library_id,
            },
        ),
        (WorksState::CreatingByTitle { title, open_library_id }, WorksEvent::WorkStored { result }) => match result {
            Ok(work) => {
                &&& next == (WorksState::Publishing { work_id: work.id, status: work.status })
                &&& publishes(action, work.id@, Some(title@), "title"@)
            },
            Err(e) => {
                &&& next == (WorksState::RecheckingOpenLibraryId { error: e })
                &&& action matches WorksAction::FindByOpenLibraryId { open_library_id: asked }
                    && asked@ == open_library_id@
            },
        },
        (WorksState::RecheckingOpenLibraryId { error }, WorksEvent::WorkFound { result }) => after_recheck(
            result,
            error,
            next,
            action,
        ),
        (WorksState::LoadingForRetry { publisher_available }, WorksEvent::WorkFound { result }) => match result {
            Err(e) => next is Finished && (action matches WorksAction::Respond { reply }
                && is_api_error(reply, 500, "internal_error"@, Some(e.message()))),
            Ok(None) => next is Finished && (action matches WorksAction::Respond { reply }
                && is_api_error(reply, 404, "not_found"@, None)),
            Ok(Some(work)) => if work.status@ != "failed"@ {
                next is Finished && (action matches WorksAction::Respond { reply }
                    && is_api_error(reply, 400, "not_failed"@, None))
            } else if !publisher_available {
                next is Finished && (action matches WorksAction::Respond { reply } && is_messaging_unavailable(reply))
            } else {
                next is Resetting && (action matches WorksAction::ResetToPending { id } && id@ == work.id@)
            },
        },
        (WorksState::Resetting, WorksEvent::WorkStored { result }) => match result {
            Err(RepoError::NotFound) => next is Finished && (action matches WorksAction::Respond { reply }
                && is_api_error(reply, 409, "status_changed"@, None)),
            Err(e) => next is Finished && (action matches WorksAction::Respond { reply }
                && is_api_error(reply, 500, "internal_error"@, Some(e.message()))),
            Ok(work) => {
                &&& next == (WorksState::Publishing { work_id: work.id, status: work.status })
                &&& publishes(action, work.id@, match work.isbn {
                    Some(i) => Some(i@),
                    None => None,
                }, "isbn"@)
            },
        },
        (WorksState::Publishing { work_id, status }, WorksEvent::Published { result }) => {
            &&& next is Finished
            &&& match result {
                Err(m) => action matches WorksAction::Respond { reply } && is_api_error(
                    reply,
                    500,
                    "messaging_error"@,
                    Some(m@),
                ),
                Ok(()) => action matches WorksAction::Respond { reply: WorksReply::Accepted { body } }
                    && body.work_id == work_id && body.status == status,
            }
        },
        _ => false,
    }
}

fn lookup_step(
    result: Result<Option<Work>, RepoError>,
    publisher_available: bool,
    creating: WorksState,
    create: WorksAction,
) -> (r: (WorksState, WorksAction))
    ensures
        after_lookup(result, publisher_available, r.0, r.1, creating, create),
{
    match result {
        Ok(Some(existing)) => (
            WorksState::Finished,
            WorksAction::Respond { reply: WorksReply::Duplicate { work_id: existing.id } },
        ),
        Err(e) => (WorksState::Finished, WorksAction::Respond { reply: repo_failure(e) }),
        Ok(None) => if publisher_available {
            (creating, create)
        } else {
            (WorksState::Finished, WorksAction::Respond { reply: messaging_unavailable() })
        },
    }
}

fn recheck_step(result: Result<Option<Work>, RepoError>, error: RepoError) -> (r: (WorksState, WorksAction))
    ensures
        after_recheck(result, error, r.0, r.1),
{
    match result {
        Ok(Some(existing)) => (
            WorksState::Finished,
            WorksAction::Respond { reply: WorksReply::Duplicate { work_id: existing.id } },
        ),
        _ => (WorksState::Finished, WorksAction::Respond { reply: repo_failure(error) }),
    }
}

fn publish_step(work: Work, identifier: Option<String>, identifier_type: &str) -> (r: (WorksState, WorksAction))
    ensures
        r.0 == (WorksState::Publishing { work_id: work.id, status: work.status }),
        publishes(r.1, work.id@, match identifier {
            Some(i) => Some(i@),
            None => None,
        }, identifier_type@),
{
    let event = DiscoveryEvent {
        work_id: work.id.clone(),
        identifier,
        identifier_type: owned(identifier_type),
    };
    (
        WorksState::Publishing { work_id: work.id, status: work.status },
        WorksAction::Publish { subject: owned("discovery.requested"), event },
    )
}

/// Advances a submission or retry by one step.
pub fn step_works(state: WorksState, event: WorksEvent) -> (r: (WorksState, WorksAction))
    requires
        state.awaits(&event),
    ensures
        works_transition(state, event, r.0, r.1),
{
    match (state, event) {
        (WorksState::CheckingIsbn { isbn, publisher_available }, WorksEvent::WorkFound { result }) => {
            let asked = isbn.clone();
            lookup_step(
                result,
                publisher_available,
                WorksState::CreatingByIsbn { isbn },
                WorksAction::CreateWork { isbn: asked },
            )
        },
        (WorksState::CreatingByIsbn { isbn }, WorksEvent::WorkStored { result }) => match result {
            Ok(work) => publish_step(work, Some(isbn), "isbn"),
            Err(e) => (WorksState::RecheckingIsbn { error: e }, WorksAction::FindByIsbn { isbn }),
        },
        (WorksState::RecheckingIsbn { error }, WorksEvent::WorkFound { result }) => recheck_step(result, error),
        (WorksState::SearchingTitle { title, publisher_available }, WorksEvent::TitleSearched { result }) => {
            match result {
                Ok(None) => (
                    WorksState::Finished,
                    WorksAction::Respond {
                        reply: api_error(422, "title_not_found", Some(owned("no results found for the given title"))),
                    },
                ),
                Err(m) => (
                    WorksState::Finished,
                    WorksAction::Respond { reply: api_error(500, "internal_error", Some(m)) },
                ),
                Ok(Some(book)) => {
                    let open_library_id = book.open_library_id.clone();
                    (
                        WorksState::CheckingOpenLibraryId { title, book, publisher_available },
                        WorksAction::FindByOpenLibraryId { open_library_id },
                    )
                },
            }
        },
        (
            WorksState::CheckingOpenLibraryId { title, book, publisher_available },
            WorksEvent::WorkFound { result },
        ) => {
            let creating = WorksState::CreatingByTitle { title, open_library_id: book.open_library_id.clone() };
            lookup_step(
                result,
                publisher_available,
                creating,
                WorksAction::CreateWorkByTitle {
                    title: book.title,
                    author: book.author,
                    open_library_id: book.open_library_id,
                },
            )
        },
        (WorksState::CreatingByTitle { title, open_library_id }, WorksEvent::WorkStored { result }) => {
            match result {
                Ok(work) => publish_step(work, Some(title), "title"),
                Err(e) => (
                    WorksState::RecheckingOpenLibraryId { error: e },
                    WorksAction::FindByOpenLibraryId { open_library_id },
                ),
            }
        },
        (WorksState::RecheckingOpenLibraryId { error }, WorksEvent::WorkFound { result }) => recheck_step(
            result,
            error,
        ),
        (WorksState::LoadingForRetry { publisher_available }, WorksEvent::WorkFound { result }) => match result {
            Err(e) => (WorksState::Finished, WorksAction::Respond { reply: repo_failure(e) }),
            Ok(None) => (WorksState::Finished, WorksAction::Respond { reply: api_error(404, "not_found", None) }),
            Ok(Some(work)) => if !same_text(work.status.as_str(), "failed") {
                (WorksState::Finished, WorksAction::Respond { reply: api_error(400, "not_failed", None) })
            } else if !publisher_available {
                (WorksState::Finished, WorksAction::Respond { reply: messaging_unavailable() })
            } else {
                (WorksState::Resetting, WorksAction::ResetToPending { id: work.id })
            },
        },
        (WorksState::Resetting, WorksEvent::WorkStored { result }) => match result {
            Err(RepoError::NotFound) => (
                WorksState::Finished,
                WorksAction::Respond { reply: api_error(409, "status_changed", None) },
            ),
            Err(e) => (WorksState::Finished, WorksAction::Respond { reply: repo_failure(e) }),
            Ok(work) => {
                let isbn = match &work.isbn {
                    Some(i) => Some(i.clone()),
                    None => None,
                };
                publish_step(work, isbn, "isbn")
            },
        },
        (WorksState::Publishing { work_id, status }, WorksEvent::Published { result }) => match result {
            Err(m) => (
                WorksState::Finished,
                WorksAction::Respond { reply: api_error(500, "messaging_error", Some(m)) },
            ),
            Ok(()) => (
                WorksState::Finished,
                WorksAction::Respond { reply: WorksReply::Accepted { body: WorkCreatedResponse { work_id, status } } },
            ),
        },
        _ => (WorksState::Finished, WorksAction::Respond { reply: api_error(500, "internal_error", None) }),
    }
}

/// The page of a work listing: at most 200 works (50 when unspecified), from `offset` (0 when
/// unspecified).
pub fn list_window(params: ListWorksParams) -> (r: (u32, u32))
    ensures
        r.0 == match params.limit {
            Some(l) => if l < 200 { l } else { 200 },
            None => 50,
        },
        r.1 == match params.offset {
            Some(o) => o,
            None => 0,
        },
{
    let limit = match params.limit {
        Some(l) => if l < 200 { l } else { 200 },
        None => 50,
    };
    let offset = match params.offset {
        Some(o) => o,
        None => 0,
    };
    (limit, offset)
}

/// The reply to a work listing.
pub fn get_works(listed: Result<Vec<Work>, RepoError>) -> (r: Result<Vec<Work>, ApiError>)
    ensures
        match listed {
            Ok(works) => r == Ok::<Vec<Work>, ApiError>(works),
            Err(e) => r matches Err(body) && body.status == 500 && body.error@ == "internal_error"@
                && (body.message matches Some(m) && m@ == e.message()),
        },
{
    match listed {
        Ok(works) => Ok(works),
        Err(e) => Err(ApiError { status: 500, error: owned("internal_error"), message: Some(e.to_string()) }),
    }
}

/// The reply to a request for one work: the work, 404 when there is none, 500 on failure.
pub fn get_work_by_id(found: Result<Option<Work>, RepoError>) -> (r: Result<Work, ApiError>)
    ensures
        match found {
            Ok(Some(work)) => r == Ok::<Work, ApiError>(work),
            Ok(None) => r matches Err(body) && body.status == 404 && body.error@ == "not_found"@
                && (body.message matches Some(m) && m@ == "Work not found"@),
            Err(e) => r matches Err(body) && body.status == 500 && body.error@ == "internal_error"@
                && (body.message matches Some(m) && m@ == e.message()),
        },
{
    match found {
        Ok(Some(work)) => Ok(work),
        Ok(None) => Err(ApiError { status: 404, error: owned("not_found"), message: Some(owned("Work not found")) }),
        Err(e) => Err(ApiError { status: 500, error: owned("internal_error"), message: Some(e.to_string()) }),
    }
}

/// A submitted ISBN is looked up, created and announced in its normalised form: hyphen-free,
/// a valid ISBN-13 or ISBN-10, and accepted unchanged by validation.
pub proof fn law_submitted_isbns_are_normalised(
    input: SubmitWorkInput,
    open_library_available: bool,
    publisher_available: bool,
    state: WorksState,
    action: WorksAction,
)
    requires
        submission_start(input, open_library_available, publisher_available, state, action),
    ensures
        state matches WorksState::CheckingIsbn { isbn, .. } ==> {
            &&& isbn_verdict(isbn@) == Ok::<Seq<char>, Seq<char>>(isbn@)
            &&& !isbn@.contains('-')
            &&& is_valid_isbn13(isbn@) || is_valid_isbn10(isbn@)
        },
{
    law_accepted_isbn_is_normalised(input.identifier@);
}

/// A work is created only after a lookup found none with the same ISBN (or Open Library id),
/// and only when a publisher is there to announce it; the ISBN it is created under is the one
/// that was looked up.
pub proof fn law_works_are_created_only_when_absent(
    state: WorksState,
    event: WorksEvent,
    next: WorksState,
    action: WorksAction,
)
    requires
        works_transition(state, event, next, action),
    ensures
        (action is CreateWork || action is CreateWorkByTitle) ==> (event matches WorksEvent::WorkFound {
            result: Ok(None),
        }),
        action matches WorksAction::CreateWork { isbn } ==> (state matches WorksState::CheckingIsbn {
            isbn: looked_up,
            publisher_available,
        } && looked_up == isbn && publisher_available),
        action matches WorksAction::CreateWorkByTitle { open_library_id, .. } ==> (
        state matches WorksState::CheckingOpenLibraryId { book, publisher_available, .. }
            && book.open_library_id == open_library_id && publisher_available),
{
}

/// A submission is accepted (202) only once the discovery request for the created work was
/// published, and the reply names the work that the request names.
pub proof fn law_accepted_only_after_publishing(
    state: WorksState,
    event: WorksEvent,
    next: WorksState,
    action: WorksAction,
)
    requires
        works_transition(state, event, next, action),
    ensures
        action matches WorksAction::Respond { reply: WorksReply::Accepted { body } } ==> (
        state matches WorksState::Publishing { work_id, .. } && body.work_id == work_id && (
        event matches WorksEvent::Published { result: Ok(()) })),
        action matches WorksAction::Publish { event: published, .. } ==> (
        event matches WorksEvent::WorkStored { result: Ok(work) } && published.work_id@ == work.id@ && (
        next matches WorksState::Publishing { work_id, .. } && work_id == work.id)),
{
}

/// Only a failed work is reset for another attempt.
pub proof fn law_only_failed_works_are_retried(
    state: WorksState,
    event: WorksEvent,
    next: WorksState,
    action: WorksAction,
)
    requires
        works_transition(state, event, next, action),
    ensures
        action matches WorksAction::ResetToPending { id } ==> (state is LoadingForRetry && (
        event matches WorksEvent::WorkFound { result: Ok(Some(work)) } && work.status@ == "failed"@
            && work.id@ == id@)),
{
}

} // verus!
