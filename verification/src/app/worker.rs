//! The discovery worker: how a work is processed, step by step, and how failures are classified.
//!
//! The worker's I/O (repositories, Open Library, Gemini) is driven by the application; this
//! module decides, from each outcome, what happens next.
use vstd::prelude::*;
use vstd::utf8::{valid_utf8, decode_utf8};
use crate::text::{same_text, contains_str, contains_text, lowercase, owned, to_lowercase};
use crate::domain::insight::GeminiResponse;
use crate::domain::work::WorkStatus;
use crate::ports::external::{BookMetadata, ExternalError, OpenLibraryBook};
use crate::ports::messaging::WorkerError;
use crate::ports::repository::RepoError;

verus! {

/// The lowercased error text names a condition that may clear up on a later attempt.
pub open spec fn names_transient_condition(lowered: Seq<char>) -> bool {
    ||| contains_text(lowered, "timeout"@)
    ||| contains_text(lowered, "connection refused"@)
    ||| contains_text(lowered, "service unavailable"@)
    ||| contains_text(lowered, "too many requests"@)
    ||| contains_text(lowered, "rate limit"@)
}

/// The error a message classifies into, given its lowercased form.
pub open spec fn classified(msg: Seq<char>, lowered: Seq<char>, r: WorkerError) -> bool {
    match r {
        WorkerError::Transient(m) => m@ == msg && names_transient_condition(lowered),
        WorkerError::Permanent(m) => m@ == msg && !names_transient_condition(lowered),
    }
}

/// Classifies an error message from its lowercased form `lowered`: transient when it names a
/// timeout, a refused connection, an unavailable service, too many requests or a rate limit.
pub fn classify_lowered(msg: &str, lowered: &str) -> (r: WorkerError)
    ensures
        classified(msg@, lowered@, r),
{
    if contains_str(lowered, "timeout") || contains_str(lowered, "connection refused")
        || contains_str(lowered, "service unavailable") || contains_str(lowered, "too many requests")
        || contains_str(lowered, "rate limit") {
        WorkerError::Transient(owned(msg))
    } else {
        WorkerError::Permanent(owned(msg))
    }
}

/// Classifies a raw error string into a worker error kind.
///
/// Transient errors are network/timeout/service-unavailable conditions that
/// may succeed on a subsequent attempt. Permanent errors indicate a data or
/// logic problem that will not resolve through retrying.
pub fn classify_error(msg: &str) -> (r: WorkerError)
    ensures
        classified(msg@, lowercase(msg@), r),
{
    let lowered = to_lowercase(msg);
    classify_lowered(msg, lowered.as_str())
}

impl WorkerError {
    /// A repository failure is transient: the store may be reachable on the next attempt.
    pub fn from_repo(e: RepoError) -> (r: WorkerError)
        ensures
            r matches WorkerError::Transient(m) && m@ == e.message(),
    {
        WorkerError::Transient(e.to_string())
    }

    /// An outside-service failure keeps its kind; a skipped optional call cannot succeed on a
    /// retry and counts as permanent.
    pub fn from_external(e: ExternalError) -> (r: WorkerError)
        ensures
            r == external_failure(e),
    {
        match e {
            ExternalError::Transient(msg) => WorkerError::Transient(msg),
            ExternalError::Permanent(msg) => WorkerError::Permanent(msg),
            ExternalError::SkippedOptional(msg) => WorkerError::Permanent(msg),
        }
    }
}

/// The worker error an outside-service failure turns into.
pub open spec fn external_failure(e: ExternalError) -> WorkerError {
    match e {
        ExternalError::Transient(msg) => WorkerError::Transient(msg),
        ExternalError::Permanent(msg) => WorkerError::Permanent(msg),
        ExternalError::SkippedOptional(msg) => WorkerError::Permanent(msg),
    }
}

/// The text of `std::str::Utf8Error`'s `Display` for a byte sequence that is not UTF-8.
pub uninterp spec fn utf8_error_description(bytes: Seq<u8>) -> Seq<char>;

/// `std::str::from_utf8`: succeeds exactly on valid UTF-8 and then decodes it; on failure the
/// error's text is named `utf8_error_description(bytes)`, whose wording is not stated.
#[verifier::external_body]
fn utf8_text(bytes: &[u8]) -> (r: Result<String, String>)
    ensures
        match r {
            Ok(s) => valid_utf8(bytes@) && s@ == decode_utf8(bytes@),
            Err(m) => !valid_utf8(bytes@) && m@ == utf8_error_description(bytes@),
        },
{
    match std::str::from_utf8(bytes) {
        Ok(s) => Ok(s.to_string()),
        Err(e) => Err(e.to_string()),
    }
}

/// The text of a discovery message, or the permanent error for a payload that is not UTF-8.
pub fn decode_payload(payload: &[u8]) -> (r: Result<String, WorkerError>)
    ensures
        match r {
            Ok(s) => valid_utf8(payload@) && s@ == decode_utf8(payload@),
            Err(e) => !valid_utf8(payload@) && (e matches WorkerError::Permanent(m) && m@
                == "invalid UTF-8 in message: "@ + utf8_error_description(payload@)),
        },
{
    match utf8_text(payload) {
        Ok(s) => Ok(s),
        Err(detail) => {
            let mut m = owned("invalid UTF-8 in message: ");
            m.append(detail.as_str());
            Err(WorkerError::Permanent(m))
        },
    }
}

/// The permanent error for a discovery message that is not the expected JSON object.
pub fn invalid_message_json(detail: &str) -> (e: WorkerError)
    ensures
        e matches WorkerError::Permanent(m) && m@ == "invalid message JSON: "@ + detail@,
{
    let mut m = owned("invalid message JSON: ");
    m.append(detail);
    WorkerError::Permanent(m)
}

/// A request to discover the knowledge in a work, as published on `discovery.requested`.
#[derive(Debug)]
pub struct DiscoveryRequest {
    pub work_id: String,
    pub identifier: String,
    pub identifier_type: String,
}

/// Where a job stands: each state waits for the outcome of the action that led to it.
pub enum JobState {
    MarkingProcessing { request: DiscoveryRequest },
    SearchingTitle { request: DiscoveryRequest },
    FetchingMetadata { request: DiscoveryRequest },
    Extracting { request: DiscoveryRequest },
    Writing { request: DiscoveryRequest },
    RecordingFailure { error: WorkerError },
    Finished,
}

/// The outcome of the last action.
pub enum JobEvent {
    StatusUpdated { result: Result<(), RepoError> },
    TitleSearched { result: Result<Option<OpenLibraryBook>, String> },
    MetadataFetched { result: Result<BookMetadata, ExternalError> },
    ConceptsExtracted { result: Result<GeminiResponse, ExternalError> },
    GraphWritten { result: Result<(), RepoError> },
}

/// What the application does next for a job.
pub enum JobAction {
    UpdateStatus { work_id: String, status: WorkStatus, error_msg: Option<String> },
    SearchByTitle { title: String },
    FetchByWorkId { open_library_id: String },
    FetchByIsbn { isbn: String },
    ExtractConcepts { metadata: BookMetadata },
    WriteGraph { work_id: String, response: GeminiResponse },
    Finish { outcome: Result<(), WorkerError> },
}

impl JobState {
    /// The event that answers the action this state waits on.
    pub open spec fn awaits(&self, event: &JobEvent) -> bool {
        match (self, event) {
            (JobState::MarkingProcessing { .. }, JobEvent::StatusUpdated { .. }) => true,
            (JobState::SearchingTitle { .. }, JobEvent::TitleSearched { .. }) => true,
            (JobState::FetchingMetadata { .. }, JobEvent::MetadataFetched { .. }) => true,
            (JobState::Extracting { .. }, JobEvent::ConceptsExtracted { .. }) => true,
            (JobState::Writing { .. }, JobEvent::GraphWritten { .. }) => true,
            (JobState::RecordingFailure { .. }, JobEvent::StatusUpdated { .. }) => true,
            _ => false,
        }
    }
}

/// How a job goes on after a failure with the given kind and text: a permanent failure is
/// first recorded on the work (status `failed`, with the text); a transient one ends the job
/// at once, so that the message is redelivered.
pub open spec fn failure_step(
    work_id: Seq<char>,
    transient: bool,
    msg: Seq<char>,
    next: JobState,
    action: JobAction,
) -> bool {
    if transient {
        &&& next is Finished
        &&& action matches JobAction::Finish { outcome: Err(WorkerError::Transient(m)) } && m@ == msg
    } else {
        &&& next matches JobState::RecordingFailure { error: WorkerError::Permanent(m) } && m@ == msg
        &&& action matches JobAction::UpdateStatus {
            work_id: w,
            status: WorkStatus::Failed,
            error_msg: Some(e),
        } && w@ == work_id && e@ == msg
    }
}

/// The message of a title search that found nothing.
pub open spec fn title_not_found(title: Seq<char>) -> Seq<char> {
    "title '"@ + title + "' not found in Open Library"@
}

/// One step of a job: from its state and the outcome of the last action, the next state and
/// the next action.
pub open spec fn job_transition(
    state: JobState,
    event: JobEvent,
    next: JobState,
    action: JobAction,
) -> bool {
    match (state, event) {
        (JobState::MarkingProcessing { request }, JobEvent::StatusUpdated { result }) => match result {
            Err(e) => {
                &&& next is Finished
                &&& action matches JobAction::Finish { outcome: Err(WorkerError::Transient(m)) }
                    && m@ == e.message()
            },
            Ok(()) => if request.identifier_type@ == "title"@ {
                &&& next == JobState::SearchingTitle { request }
                &&& action matches JobAction::SearchByTitle { title } && title@ == request.identifier@
            } else {
                &&& next == JobState::FetchingMetadata { request }
                &&& action matches JobAction::FetchByIsbn { isbn } && isbn@ == request.identifier@
            },
        },
        (JobState::SearchingTitle { request }, JobEvent::TitleSearched { result }) => match result {
            Err(msg) => failure_step(request.work_id@, true, msg@, next, action),
            Ok(None) => failure_step(
                request.work_id@,
                false,
                title_not_found(request.identifier@),
                next,
                action,
            ),
            Ok(Some(book)) => {
                &&& next == JobState::FetchingMetadata { request }
                &&& action matches JobAction::FetchByWorkId { open_library_id }
                    && open_library_id@ == book.open_library_id@
            },
        },
        (JobState::FetchingMetadata { request }, JobEvent::MetadataFetched { result }) => match result {
            Err(e) => failure_step(
                request.work_id@,
                external_failure(e) is Transient,
                failure_text(external_failure(e)),
                next,
                action,
            ),
            Ok(metadata) => {
                &&& next == JobState::Extracting { request }
                &&& action == JobAction::ExtractConcepts { metadata }
            },
        },
        (JobState::Extracting { request }, JobEvent::ConceptsExtracted { result }) => match result {
            Err(e) => failure_step(
                request.work_id@,
                external_failure(e) is Transient,
                failure_text(external_failure(e)),
                next,
                action,
            ),
            Ok(response) => {
                &&& next == JobState::Writing { request }
                &&& action matches JobAction::WriteGraph { work_id, response: r } && work_id@
                    == request.work_id@ && r == response
            },
        },
        (JobState::Writing { request }, JobEvent::GraphWritten { result }) => match result {
            Err(e) => failure_step(request.work_id@, true, e.message(), next, action),
            Ok(()) => {
                &&& next is Finished
                &&& action == JobAction::Finish { outcome: Ok(()) }
            },
        },
        (JobState::RecordingFailure { error }, JobEvent::StatusUpdated { .. }) => {
            &&& next is Finished
            &&& action == JobAction::Finish { outcome: Err(error) }
        },
        _ => false,
    }
}

/// The text a worker error carries.
pub open spec fn failure_text(e: WorkerError) -> Seq<char> {
    match e {
        WorkerError::Transient(m) => m@,
        WorkerError::Permanent(m) => m@,
    }
}

/// Starts a job: the work is first marked as processing.
pub fn start_job(request: DiscoveryRequest) -> (r: (JobState, JobAction))
    ensures
        (r.1 matches JobAction::UpdateStatus { work_id, status: WorkStatus::Processing, error_msg: None }
            && work_id@ == request.work_id@),
        r.0 == (JobState::MarkingProcessing { request }),
{
    let work_id = request.work_id.clone();
    (
        JobState::MarkingProcessing { request },
        JobAction::UpdateStatus { work_id, status: WorkStatus::Processing, error_msg: None },
    )
}

/// The next state and action after a failure.
fn fail(work_id: &String, error: WorkerError) -> (r: (JobState, JobAction))
    ensures
        failure_step(work_id@, error is Transient, failure_text(error), r.0, r.1),
{
    match error {
        WorkerError::Permanent(msg) => {
            let error_msg = msg.clone();
            (
                JobState::RecordingFailure { error: WorkerError::Permanent(msg) },
                JobAction::UpdateStatus {
                    work_id: work_id.clone(),
                    status: WorkStatus::Failed,
                    error_msg: Some(error_msg),
                },
            )
        },
        WorkerError::Transient(msg) => (
            JobState::Finished,
            JobAction::Finish { outcome: Err(WorkerError::Transient(msg)) },
        ),
    }
}

/// Advances a job by one step.
pub fn step_job(state: JobState, event: JobEvent) -> (r: (JobState, JobAction))
    requires
        state.awaits(&event),
    ensures
        job_transition(state, event, r.0, r.1),
{
    match (state, event) {
        (JobState::MarkingProcessing { request }, JobEvent::StatusUpdated { result }) => match result {
            Err(e) => (
                JobState::Finished,
                JobAction::Finish { outcome: Err(WorkerError::from_repo(e)) },
            ),
            Ok(()) => {
                if same_text(request.identifier_type.as_str(), "title") {
                    let title = request.identifier.clone();
                    (JobState::SearchingTitle { request }, JobAction::SearchByTitle { title })
                } else {
                    let isbn = request.identifier.clone();
                    (JobState::FetchingMetadata { request }, JobAction::FetchByIsbn { isbn })
                }
            },
        },
        (JobState::SearchingTitle { request }, JobEvent::TitleSearched { result }) => match result {
            Err(msg) => fail(&request.work_id, WorkerError::Transient(msg)),
            Ok(None) => {
                let mut m = owned("title '");
                m.append(request.identifier.as_str());
                m.append("' not found in Open Library");
                fail(&request.work_id, WorkerError::Permanent(m))
            },
            Ok(Some(book)) => (
                JobState::FetchingMetadata { request },
                JobAction::FetchByWorkId { open_library_id: book.open_library_id },
            ),
        },
        (JobState::FetchingMetadata { request }, JobEvent::MetadataFetched { result }) => match result {
            Err(e) => fail(&request.work_id, WorkerError::from_external(e)),
            Ok(metadata) => (JobState::Extracting { request }, JobAction::ExtractConcepts { metadata }),
        },
        (JobState::Extracting { request }, JobEvent::ConceptsExtracted { result }) => match result {
            Err(e) => fail(&request.work_id, WorkerError::from_external(e)),
            Ok(response) => {
                let work_id = request.work_id.clone();
                (JobState::Writing { request }, JobAction::WriteGraph { work_id, response })
            },
        },
        (JobState::Writing { request }, JobEvent::GraphWritten { result }) => match result {
            Err(e) => fail(&request.work_id, WorkerError::from_repo(e)),
            Ok(()) => (JobState::Finished, JobAction::Finish { outcome: Ok(()) }),
        },
        (JobState::RecordingFailure { error }, JobEvent::StatusUpdated { .. }) => (
            JobState::Finished,
            JobAction::Finish { outcome: Err(error) },
        ),
        _ => (JobState::Finished, JobAction::Finish { outcome: Ok(()) }),
    }
}

/// The discovery request a job in this state works on, if it still holds one.
pub open spec fn held_request(state: JobState) -> Option<DiscoveryRequest> {
    match state {
        JobState::MarkingProcessing { request } => Some(request),
        JobState::SearchingTitle { request } => Some(request),
        JobState::FetchingMetadata { request } => Some(request),
        JobState::Extracting { request } => Some(request),
        JobState::Writing { request } => Some(request),
        _ => None,
    }
}

/// What holds of every state a job reaches: only title submissions are searched by title, and
/// only permanent failures are being recorded.
pub open spec fn job_invariant(state: JobState) -> bool {
    match state {
        JobState::SearchingTitle { request } => request.identifier_type@ == "title"@,
        JobState::RecordingFailure { error } => error is Permanent,
        _ => true,
    }
}

/// Every job starts in a state of the invariant, and every step keeps it.
pub proof fn law_job_invariant_is_kept(
    request: DiscoveryRequest,
    state: JobState,
    event: JobEvent,
    next: JobState,
    action: JobAction,
)
    ensures
        job_invariant((JobState::MarkingProcessing { request })),
        job_transition(state, event, next, action) && job_invariant(state) ==> job_invariant(next),
{
}

/// A job keeps its request from step to step, and a title submission is never fetched by ISBN:
/// its metadata is looked up by title, then fetched by the Open Library work id the search
/// returned.
pub proof fn law_title_jobs_never_fetch_by_isbn(
    state: JobState,
    event: JobEvent,
    next: JobState,
    action: JobAction,
)
    requires
        job_transition(state, event, next, action),
        held_request(state) matches Some(r) && r.identifier_type@ == "title"@,
    ensures
        !(action is FetchByIsbn),
        held_request(next) is Some ==> held_request(next) == held_request(state),
        action matches JobAction::FetchByWorkId { open_library_id } ==> (state is SearchingTitle
            && (event matches JobEvent::TitleSearched { result: Ok(Some(book)) }
            && book.open_library_id@ == open_library_id@)),
{
}

/// A job keeps its request from step to step, and an ISBN submission is fetched by its raw
/// ISBN, never searched by title.
pub proof fn law_isbn_jobs_never_search_titles(
    state: JobState,
    event: JobEvent,
    next: JobState,
    action: JobAction,
)
    requires
        job_transition(state, event, next, action),
        held_request(state) matches Some(r) && r.identifier_type@ != "title"@,
        job_invariant(state),
    ensures
        !(action is SearchByTitle),
        !(action is FetchByWorkId),
        held_request(next) is Some ==> held_request(next) == held_request(state),
        action matches JobAction::FetchByIsbn { isbn } ==> isbn@ == held_request(state)->Some_0.identifier@,
{
}

/// A permanent failure never ends a job before the work is marked `failed` with the failure's
/// text; a transient failure ends the job without touching the work, so that it is retried.
pub proof fn law_permanent_failures_are_recorded(
    state: JobState,
    event: JobEvent,
    next: JobState,
    action: JobAction,
)
    requires
        job_transition(state, event, next, action),
        job_invariant(state),
    ensures
        action matches JobAction::Finish { outcome: Err(WorkerError::Permanent(_)) } ==> state is RecordingFailure,
        next matches JobState::RecordingFailure { error } ==> (error is Permanent && (action matches JobAction::UpdateStatus {
            status: WorkStatus::Failed,
            error_msg: Some(m),
            ..
        } && m@ == failure_text(error))),
        action matches JobAction::Finish { outcome: Err(WorkerError::Transient(_)) } ==> !(state is RecordingFailure),
{
}

/// Only a committed graph write completes a job successfully.
pub proof fn law_only_a_written_graph_completes_a_job(
    state: JobState,
    event: JobEvent,
    next: JobState,
    action: JobAction,
)
    requires
        job_transition(state, event, next, action),
    ensures
        action matches JobAction::Finish { outcome: Ok(()) } ==> (state is Writing
            && event matches JobEvent::GraphWritten { result: Ok(()) }),
{
}

/// An outside-service failure keeps its kind and its text: a transient one stays transient, a
/// permanent one stays permanent, and a skipped optional call counts as permanent.
pub proof fn law_external_failures_keep_their_kind(e: ExternalError)
    ensures
        e matches ExternalError::Transient(m) ==> external_failure(e) == WorkerError::Transient(m),
        e matches ExternalError::Permanent(m) ==> external_failure(e) == WorkerError::Permanent(m),
        e matches ExternalError::SkippedOptional(m) ==> external_failure(e) == WorkerError::Permanent(m),
{
}

/// A permanent failure of Open Library or Gemini marks the job's work `failed` with the
/// failure's text before the job ends; a transient one ends the job at once with a transient
/// error, so that the message is redelivered and the work is left as it is.
pub proof fn law_outside_failures_decide_the_work_status(
    state: JobState,
    event: JobEvent,
    next: JobState,
    action: JobAction,
)
    requires
        job_transition(state, event, next, action),
        state is FetchingMetadata || state is Extracting,
    ensures
        ({
            let failure = match event {
                JobEvent::MetadataFetched { result: Err(e) } => Some(e),
                JobEvent::ConceptsExtracted { result: Err(e) } => Some(e),
                _ => None,
            };
            let work_id = match state {
                JobState::FetchingMetadata { request } => request.work_id@,
                JobState::Extracting { request } => request.work_id@,
                _ => Seq::empty(),
            };
            &&& failure matches Some(ExternalError::Permanent(m)) ==> {
                &&& next matches JobState::RecordingFailure { error: WorkerError::Permanent(k) } && k@ == m@
                &&& action matches JobAction::UpdateStatus { work_id: w, status: WorkStatus::Failed, error_msg: Some(t) }
                    && w@ == work_id && t@ == m@
            }
            &&& failure matches Some(ExternalError::Transient(m)) ==> {
                &&& next is Finished
                &&& action matches JobAction::Finish { outcome: Err(WorkerError::Transient(k)) } && k@ == m@
            }
        }),
{
}

/// A message is transient exactly when its lowercased text mentions a timeout, a refused
/// connection, an unavailable service, too many requests or a rate limit; either way the
/// error keeps the message.
pub proof fn law_transient_conditions_are_retried(msg: Seq<char>, lowered: Seq<char>, r: WorkerError)
    requires
        classified(msg, lowered, r),
    ensures
        (contains_text(lowered, "timeout"@) || contains_text(lowered, "connection refused"@)
            || contains_text(lowered, "service unavailable"@) || contains_text(lowered, "too many requests"@)
            || contains_text(lowered, "rate limit"@)) ==> (r matches WorkerError::Transient(m) && m@ == msg),
        !(contains_text(lowered, "timeout"@) || contains_text(lowered, "connection refused"@)
            || contains_text(lowered, "service unavailable"@) || contains_text(lowered, "too many requests"@)
            || contains_text(lowered, "rate limit"@)) ==> (r matches WorkerError::Permanent(m) && m@ == msg),
{
}

} // verus!
