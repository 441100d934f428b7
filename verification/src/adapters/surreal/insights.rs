//! Storing an insight for a work, once.
use vstd::prelude::*;
use crate::adapters::surreal::graph_read::{record_key, thing_to_uuid};
use crate::adapters::surreal::graph_write::{invalid_work_id, is_hyphenated_uuid, keyed, new_uuid, parse_uuid, uuid_parses};
use crate::ports::repository::RepoError;
use crate::text::owned;

verus! {

/// The content of a new insight.
#[derive(Debug)]
pub struct InsightContent {
    pub summary: String,
    pub key_points: Vec<String>,
    pub raw_gemini_response: String,
}

/// Where the storing of an insight stands.
pub enum InsightState {
    CheckingExisting { work_id: String, content: InsightContent },
    Creating { work_id: String, insight_id: String },
    Relating { insight_id: String },
    Finished,
}

/// The outcome of the last action.
pub enum InsightEvent {
    /// The rendered id of the insight the work already has, if any.
    ExistingFound { result: Result<Option<String>, RepoError> },
    Created { result: Result<(), RepoError> },
    Related { result: Result<(), RepoError> },
}

/// What the repository does next.
pub enum InsightAction {
    /// Look up the insight the work already interprets.
    FindExisting { work_id: String },
    /// Create the insight record under this id.
    Create { insight_id: String, content: InsightContent },
    /// Run this statement.
    Run { statement: String },
    Done { result: Result<String, RepoError> },
}

impl InsightState {
    /// The event that answers the action this state waits on.
    pub open spec fn awaits(&self, event: &InsightEvent) -> bool {
        match (self, event) {
            (InsightState::CheckingExisting { .. }, InsightEvent::ExistingFound { .. }) => true,
            (InsightState::Creating { .. }, InsightEvent::Created { .. }) => true,
            (InsightState::Relating { .. }, InsightEvent::Related { .. }) => true,
            _ => false,
        }
    }
}

/// The statement that links a work to its insight.
pub open spec fn relate_statement(work_id: Seq<char>, insight_id: Seq<char>) -> Seq<char> {
    "RELATE work:`"@ + work_id + "`->interpreta->insight:`"@ + insight_id + "`"@
}

/// Starts storing an insight for a work: a work id that is not a UUID is refused before any
/// statement is run; otherwise the work's existing insight is looked up first.
pub fn create_insight(work_id: &str, content: InsightContent) -> (r: (InsightState, InsightAction))
    ensures
        !uuid_parses(work_id@) ==> r.0 is Finished && (r.1 matches InsightAction::Done {
            result: Err(RepoError::Internal(m)),
        } && m@ == invalid_work_id(work_id@)),
        uuid_parses(work_id@) ==> (r.0 matches InsightState::CheckingExisting { work_id: w, content: c }
            && w@ == work_id@ && c == content) && (r.1 matches InsightAction::FindExisting { work_id: w } && w@
            == work_id@),
{
    if !parse_uuid(work_id) {
        return (
            InsightState::Finished,
            InsightAction::Done {
                result: Err(RepoError::Internal(keyed("invalid work_id format: ", work_id))),
            },
        );
    }
    (
        InsightState::CheckingExisting { work_id: owned(work_id), content },
        InsightAction::FindExisting { work_id: owned(work_id) },
    )
}

/// One step of storing an insight.
pub open spec fn insight_transition(
    state: InsightState,
    event: InsightEvent,
    next: InsightState,
    action: InsightAction,
) -> bool {
    match (state, event) {
        (InsightState::CheckingExisting { work_id, content }, InsightEvent::ExistingFound { result }) => {
            match result {
                Err(e) => next is Finished && action == (InsightAction::Done { result: Err(e) }),
                Ok(Some(rendered)) => next is Finished && (action matches InsightAction::Done {
                    result: Ok(id),
                } && id@ == record_key(rendered@)),
                Ok(None) => {
                    &&& next matches InsightState::Creating { work_id: w, insight_id } && w == work_id
                        && is_hyphenated_uuid(insight_id@)
                    &&& action matches InsightAction::Create { insight_id: i, content: c } && c == content
                        && i == next->Creating_insight_id
                },
            }
        },
        (InsightState::Creating { work_id, insight_id }, InsightEvent::Created { result }) => match result {
            Err(e) => next is Finished && action == (InsightAction::Done { result: Err(e) }),
            Ok(()) => {
                &&& next == (InsightState::Relating { insight_id })
                &&& action matches InsightAction::Run { statement } && statement@ == relate_statement(
                    work_id@,
                    insight_id@,
                )
            },
        },
        (InsightState::Relating { insight_id }, InsightEvent::Related { result }) => {
            &&& next is Finished
            &&& match result {
                Err(e) => action == (InsightAction::Done { result: Err(e) }),
                Ok(()) => action == (InsightAction::Done { result: Ok(insight_id) }),
            }
        },
        _ => false,
    }
}

/// Advances the storing of an insight by one step.
pub fn step_insight(state: InsightState, event: InsightEvent) -> (r: (InsightState, InsightAction))
    requires
        state.awaits(&event),
    ensures
        insight_transition(state, event, r.0, r.1),
{
    match (state, event) {
        (InsightState::CheckingExisting { work_id, content }, InsightEvent::ExistingFound { result }) => {
            match result {
                Err(e) => (InsightState::Finished, InsightAction::Done { result: Err(e) }),
                Ok(Some(rendered)) => (
                    InsightState::Finished,
                    InsightAction::Done { result: Ok(thing_to_uuid(rendered.as_str())) },
                ),
                Ok(None) => {
                    let insight_id = new_uuid();
                    let id = insight_id.clone();
                    (InsightState::Creating { work_id, insight_id }, InsightAction::Create { insight_id: id, content })
                },
            }
        },
        (InsightState::Creating { work_id, insight_id }, InsightEvent::Created { result }) => match result {
            Err(e) => (InsightState::Finished, InsightAction::Done { result: Err(e) }),
            Ok(()) => {
                let mut statement = owned("RELATE work:`");
                statement.append(work_id.as_str());
                statement.append("`->interpreta->insight:`");
                statement.append(insight_id.as_str());
                statement.append("`");
                (InsightState::Relating { insight_id }, InsightAction::Run { statement })
            },
        },
        (InsightState::Relating { insight_id }, InsightEvent::Related { result }) => match result {
            Err(e) => (InsightState::Finished, InsightAction::Done { result: Err(e) }),
            Ok(()) => (InsightState::Finished, InsightAction::Done { result: Ok(insight_id) }),
        },
        _ => (InsightState::Finished, InsightAction::Done { result: Err(RepoError::NotFound) }),
    }
}

/// Storing an insight is idempotent: when the work already has one, its id is returned and no
/// new insight is created; an insight is created only after the look-up found none.
pub proof fn law_insight_creation_is_idempotent(
    state: InsightState,
    event: InsightEvent,
    next: InsightState,
    action: InsightAction,
)
    requires
        insight_transition(state, event, next, action),
    ensures
        event matches InsightEvent::ExistingFound { result: Ok(Some(rendered)) } ==> (action matches InsightAction::Done {
            result: Ok(id),
        } && id@ == record_key(rendered@)),
        action is Create ==> (event matches InsightEvent::ExistingFound { result: Ok(None) }),
{
}

} // verus!
