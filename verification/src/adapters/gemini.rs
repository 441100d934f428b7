//! Concept extraction with Gemini: the prompt, the request, and what the reply is made of.
use vstd::prelude::*;
use crate::adapters::http::{failure_is_permanent, is_success, permanent_with, send_failure, status_failure, status_message, transient_with};
use crate::domain::insight::GeminiResponse;
use crate::ports::external::{BookMetadata, ExternalError};
use crate::text::{join_with, joined, owned, texts};

verus! {

/// Seconds a Gemini request may take.
pub const GEMINI_TIMEOUT_SECS: u64 = 15;

/// The prompt that asks for the knowledge of a book.
pub open spec fn prompt_text(metadata: BookMetadata) -> Seq<char> {
    "Analyze the following book and extract structured knowledge:\nTitle: "@ + metadata.title@ + "\nAuthor: "@
        + metadata.author@ + "\nDescription: "@ + metadata.description@ + "\nSubjects: "@ + joined(
        texts(metadata.subjects@),
        ", "@,
    ) + "\n\nExtract a summary, key points, and concepts with their relationships."@
}

/// The prompt that asks for the knowledge of a book: its title, author, description and
/// subjects (joined by commas).
pub fn build_prompt(metadata: &BookMetadata) -> (p: String)
    ensures
        p@ == prompt_text(*metadata),
{
    let subjects = join_with(&metadata.subjects, ", ");
    let mut p = owned("Analyze the following book and extract structured knowledge:\nTitle: ");
    p.append(metadata.title.as_str());
    p.append("\nAuthor: ");
    p.append(metadata.author.as_str());
    p.append("\nDescription: ");
    p.append(metadata.description.as_str());
    p.append("\nSubjects: ");
    p.append(subjects.as_str());
    p.append("\n\nExtract a summary, key points, and concepts with their relationships.");
    p
}

/// The JSON schema the reply must follow, as JSON text.
pub fn response_schema() -> (s: &'static str)
    ensures
        s@ == RESPONSE_SCHEMA@,
{
    RESPONSE_SCHEMA
}

/// The JSON schema of the structured reply: a summary, key points, and concepts with their
/// weights and relations.
pub const RESPONSE_SCHEMA: &'static str = "{\"type\":\"OBJECT\",\"properties\":{\"summary\":{\"type\":\"STRING\"},\"key_points\":{\"type\":\"ARRAY\",\"items\":{\"type\":\"STRING\"}},\"concepts\":{\"type\":\"ARRAY\",\"items\":{\"type\":\"OBJECT\",\"properties\":{\"name\":{\"type\":\"STRING\"},\"display_name\":{\"type\":\"STRING\"},\"description\":{\"type\":\"STRING\"},\"domain\":{\"type\":\"STRING\"},\"relevance_weight\":{\"type\":\"NUMBER\"},\"related_concepts\":{\"type\":\"ARRAY\",\"items\":{\"type\":\"OBJECT\",\"properties\":{\"name\":{\"type\":\"STRING\"},\"relation_type\":{\"type\":\"STRING\"},\"strength\":{\"type\":\"NUMBER\"}}}}}}}}}";

/// The endpoint that generates content with `model`.
pub open spec fn generate_content_url(model: Seq<char>) -> Seq<char> {
    "https://generativelanguage.googleapis.com/v1beta/models/"@ + model + ":generateContent"@
}

/// A request to Gemini: where it goes and the prompt it carries (with the response schema).
#[derive(Debug)]
pub struct GeminiCall {
    pub url: String,
    pub prompt: String,
}

/// Where an extraction stands: each state waits for the outcome of the action that led to it.
pub enum ExtractState {
    Sending,
    ReadingErrorBody { code: u16, status_text: String },
    ReadingCandidates,
    Decoding,
    Finished,
}

/// The outcome of the last action.
pub enum ExtractEvent {
    /// The response's status (code and display), or why no response came.
    Sent { result: Result<(u16, String), (bool, String)> },
    /// The body of a failure response (empty when it could not be read).
    ErrorBodyRead { body: String },
    /// The texts of the parts of each candidate, or why the reply was not the expected JSON.
    CandidatesRead { result: Result<Vec<Vec<String>>, String> },
    /// The candidate text decoded as the structured reply, or why it did not fit the schema.
    Decoded { result: Result<GeminiResponse, String> },
}

/// What the application does next.
pub enum ExtractAction {
    Send { call: GeminiCall },
    ReadErrorBody,
    ReadCandidates,
    Decode { text: String },
    Done { result: Result<GeminiResponse, ExternalError> },
}

impl ExtractState {
    /// The event that answers the action this state waits on.
    pub open spec fn awaits(&self, event: &ExtractEvent) -> bool {
        match (self, event) {
            (ExtractState::Sending, ExtractEvent::Sent { .. }) => true,
            (ExtractState::ReadingErrorBody { .. }, ExtractEvent::ErrorBodyRead { .. }) => true,
            (ExtractState::ReadingCandidates, ExtractEvent::CandidatesRead { .. }) => true,
            (ExtractState::Decoding, ExtractEvent::Decoded { .. }) => true,
            _ => false,
        }
    }
}

/// Starts extracting the concepts of a book with `model`.
pub fn extract_concepts(metadata: &BookMetadata, model: &str) -> (r: (ExtractState, ExtractAction))
    ensures
        r.0 is Sending,
        r.1 matches ExtractAction::Send { call } && call.url@ == generate_content_url(model@)
            && call.prompt@ == prompt_text(*metadata),
{
    let mut url = owned("https://generativelanguage.googleapis.com/v1beta/models/");
    url.append(model);
    url.append(":generateContent");
    (ExtractState::Sending, ExtractAction::Send { call: GeminiCall { url, prompt: build_prompt(metadata) } })
}

/// The text of the first part of the first candidate, if there is one.
pub open spec fn first_candidate_text(candidates: Seq<Vec<String>>) -> Option<Seq<char>> {
    if candidates.len() > 0 && candidates[0]@.len() > 0 {
        Some(candidates[0]@[0]@)
    } else {
        None
    }
}

/// One step of an extraction: from its state and the outcome of the last action, the next
/// state and the next action.
pub open spec fn extract_transition(
    state: ExtractState,
    event: ExtractEvent,
    next: ExtractState,
    action: ExtractAction,
) -> bool {
    match (state, event) {
        (ExtractState::Sending, ExtractEvent::Sent { result }) => match result {
            Err((timed_out, detail)) => next is Finished && (action matches ExtractAction::Done {
                result: Err(ExternalError::Transient(m)),
            } && m@ == "Gemini"@ + (if timed_out {
                " timeout: "@
            } else {
                " request error: "@
            }) + detail@),
            Ok((code, status_text)) => if is_success(code) {
                next is ReadingCandidates && action is ReadCandidates
            } else {
                next == (ExtractState::ReadingErrorBody { code, status_text }) && action is ReadErrorBody
            },
        },
        (ExtractState::ReadingErrorBody { code, status_text }, ExtractEvent::ErrorBodyRead { body }) => {
            let m = status_message("Gemini API error "@, status_text@, body@);
            &&& next is Finished
            &&& action matches ExtractAction::Done { result: Err(e) }
            &&& if failure_is_permanent(code) {
                e matches ExternalError::Permanent(t) && t@ == m
            } else {
                e matches ExternalError::Transient(t) && t@ == m
            }
        },
        (ExtractState::ReadingCandidates, ExtractEvent::CandidatesRead { result }) => match result {
            Err(detail) => next is Finished && (action matches ExtractAction::Done {
                result: Err(ExternalError::Transient(m)),
            } && m@ == "failed to parse Gemini response: "@ + detail@),
            Ok(candidates) => match first_candidate_text(candidates@) {
                None => next is Finished && (action matches ExtractAction::Done {
                    result: Err(ExternalError::Permanent(m)),
                } && m@ == "Gemini returned empty candidates"@),
                Some(text) => next is Decoding && (action matches ExtractAction::Decode { text: t } && t@ == text),
            },
        },
        (ExtractState::Decoding, ExtractEvent::Decoded { result }) => {
            &&& next is Finished
            &&& match result {
                Err(detail) => action matches ExtractAction::Done { result: Err(ExternalError::Permanent(m)) }
                    && m@ == "Gemini schema violation: "@ + detail@,
                Ok(reply) => if reply.summary@.len() == 0 {
                    action matches ExtractAction::Done { result: Err(ExternalError::Permanent(m)) }
                        && m@ == "Gemini response missing required field: summary"@
                } else {
                    action == (ExtractAction::Done { result: Ok(reply) })
                },
            }
        },
        _ => false,
    }
}

fn finish(e: ExternalError) -> (r: (ExtractState, ExtractAction))
    ensures
        r.0 is Finished,
        r.1 == (ExtractAction::Done { result: Err(e) }),
{
    (ExtractState::Finished, ExtractAction::Done { result: Err(e) })
}

/// Advances an extraction by one step.
pub fn step_extract(state: ExtractState, event: ExtractEvent) -> (r: (ExtractState, ExtractAction))
    requires
        state.awaits(&event),
    ensures
        extract_transition(state, event, r.0, r.1),
{
    match (state, event) {
        (ExtractState::Sending, ExtractEvent::Sent { result }) => match result {
            Err((timed_out, detail)) => finish(send_failure("Gemini", timed_out, detail.as_str())),
            Ok((code, status_text)) => if 200 <= code && code <= 299 {
                (ExtractState::ReadingCandidates, ExtractAction::ReadCandidates)
            } else {
                (ExtractState::ReadingErrorBody { code, status_text }, ExtractAction::ReadErrorBody)
            },
        },
        (ExtractState::ReadingErrorBody { code, status_text }, ExtractEvent::ErrorBodyRead { body }) => {
            finish(status_failure("Gemini API error ", code, status_text.as_str(), body.as_str()))
        },
        (ExtractState::ReadingCandidates, ExtractEvent::CandidatesRead { result }) => match result {
            Err(detail) => finish(transient_with("failed to parse Gemini response: ", detail.as_str())),
            Ok(candidates) => {
                if candidates.len() > 0 && candidates[0].len() > 0 {
                    let text = candidates[0][0].clone();
                    (ExtractState::Decoding, ExtractAction::Decode { text })
                } else {
                    finish(ExternalError::Permanent(owned("Gemini returned empty candidates")))
                }
            },
        },
        (ExtractState::Decoding, ExtractEvent::Decoded { result }) => match result {
            Err(detail) => finish(permanent_with("Gemini schema violation: ", detail.as_str())),
            Ok(reply) => if reply.summary.as_str().is_empty() {
                finish(ExternalError::Permanent(owned("Gemini response missing required field: summary")))
            } else {
                (ExtractState::Finished, ExtractAction::Done { result: Ok(reply) })
            },
        },
        _ => finish(ExternalError::Permanent(String::new())),
    }
}

/// An extraction succeeds only with a reply whose summary is not empty, and a 4xx refusal
/// other than 429 is never retried.
pub proof fn law_accepted_replies_have_a_summary(
    state: ExtractState,
    event: ExtractEvent,
    next: ExtractState,
    action: ExtractAction,
)
    requires
        extract_transition(state, event, next, action),
    ensures
        action matches ExtractAction::Done { result: Ok(reply) } ==> reply.summary@.len() > 0,
        (state matches ExtractState::ReadingErrorBody { code, .. } && failure_is_permanent(code)) ==> (
        action matches ExtractAction::Done { result: Err(e) } && e is Permanent),
        (state matches ExtractState::ReadingErrorBody { code, .. } && !failure_is_permanent(code)) ==> (
        action matches ExtractAction::Done { result: Err(e) } && e is Transient),
{
}

} // verus!
