//! Concepts by key: find the concept stored under a name's key, or create it.
use vstd::prelude::*;
use crate::adapters::surreal::graph_read::{record_key, thing_to_uuid};
use crate::adapters::surreal::graph_write::{is_hyphenated_uuid, new_uuid};
use crate::domain::concept::{concept_key, normalize_concept_name, Concept};
use crate::ports::repository::RepoError;
use crate::text::{contains_str, contains_text, owned, trim, trimmed};

verus! {

/// A stored concept. `id` is the record id as SurrealDB renders it.
#[derive(Debug)]
pub struct ConceptRecord {
    pub id: Option<String>,
    pub name: String,
    pub display_name: String,
    pub description: String,
    pub domain: String,
}

/// The concept of a stored record: its id without quotes (empty when absent).
pub open spec fn concept_of_record(rec: ConceptRecord, c: Concept) -> bool {
    &&& c.id@ == match rec.id {
        Some(t) => record_key(t@),
        None => Seq::empty(),
    }
    &&& c.name == rec.name
    &&& c.display_name == rec.display_name
    &&& c.description == rec.description
    &&& c.domain == rec.domain
}

/// The concept of a stored record.
pub fn record_to_concept(rec: ConceptRecord) -> (c: Concept)
    ensures
        concept_of_record(rec, c),
{
    let id = match &rec.id {
        Some(t) => thing_to_uuid(t.as_str()),
        None => String::new(),
    };
    Concept { id, name: rec.name, display_name: rec.display_name, description: rec.description, domain: rec.domain }
}

/// A concept to create.
#[derive(Debug)]
pub struct NewConcept {
    pub name: String,
    pub display_name: String,
    pub description: String,
    pub domain: String,
}

/// Where an upsert stands.
pub enum UpsertState {
    Finding { key: String, new_concept: NewConcept },
    Creating { key: String },
    Refinding,
    Finished,
}

/// The outcome of the last action.
pub enum UpsertEvent {
    Found { result: Result<Option<ConceptRecord>, RepoError> },
    /// The created record, or the store's error text.
    Created { result: Result<Option<ConceptRecord>, String> },
}

/// What the repository does next.
pub enum UpsertAction {
    FindByName { name: String },
    Create { concept_id: String, new_concept: NewConcept },
    Done { result: Result<Concept, RepoError> },
}

impl UpsertState {
    /// The event that answers the action this state waits on.
    pub open spec fn awaits(&self, event: &UpsertEvent) -> bool {
        match (self, event) {
            (UpsertState::Finding { .. }, UpsertEvent::Found { .. }) => true,
            (UpsertState::Creating { .. }, UpsertEvent::Created { .. }) => true,
            (UpsertState::Refinding, UpsertEvent::Found { .. }) => true,
            _ => false,
        }
    }
}

/// Starts an upsert: the concept is looked up under the key of its display name.
pub fn upsert(display_name: &str, description: &str, domain: &str) -> (r: (UpsertState, UpsertAction))
    ensures
        r.0 matches UpsertState::Finding { key, new_concept } && key@ == concept_key(display_name@)
            && new_concept.name@ == concept_key(display_name@) && new_concept.display_name@ == trimmed(
            display_name@,
        ) && new_concept.description@ == description@ && new_concept.domain@ == domain@,
        r.1 matches UpsertAction::FindByName { name } && name@ == concept_key(display_name@),
{
    let key = normalize_concept_name(display_name);
    let new_concept = NewConcept {
        name: key.clone(),
        display_name: trim(display_name),
        description: owned(description),
        domain: owned(domain),
    };
    let name = key.clone();
    (UpsertState::Finding { key, new_concept }, UpsertAction::FindByName { name })
}

/// A store error that says another writer created the same concept first.
pub open spec fn is_unique_conflict(message: Seq<char>) -> bool {
    contains_text(message, "already exists"@) || contains_text(message, "unique"@)
}

/// One step of an upsert.
pub open spec fn upsert_transition(state: UpsertState, event: UpsertEvent, next: UpsertState, action: UpsertAction) -> bool {
    match (state, event) {
        (UpsertState::Finding { key, new_concept }, UpsertEvent::Found { result }) => match result {
            Err(e) => next is Finished && action == (UpsertAction::Done { result: Err(e) }),
            Ok(Some(rec)) => next is Finished && (action matches UpsertAction::Done { result: Ok(c) }
                && concept_of_record(rec, c)),
            Ok(None) => {
                &&& next == (UpsertState::Creating { key })
                &&& action matches UpsertAction::Create { concept_id, new_concept: n } && n == new_concept
                    && is_hyphenated_uuid(concept_id@)
            },
        },
        (UpsertState::Creating { key }, UpsertEvent::Created { result }) => match result {
            Ok(Some(rec)) => next is Finished && (action matches UpsertAction::Done { result: Ok(c) }
                && concept_of_record(rec, c)),
            Ok(None) => next is Finished && (action matches UpsertAction::Done {
                result: Err(RepoError::Internal(m)),
            } && m@ == "no concept record returned"@),
            Err(msg) => if is_unique_conflict(msg@) {
                next is Refinding && (action matches UpsertAction::FindByName { name } && name == key)
            } else {
                next is Finished && action == (UpsertAction::Done { result: Err(RepoError::Internal(msg)) })
            },
        },
        (UpsertState::Refinding, UpsertEvent::Found { result }) => {
            &&& next is Finished
            &&& match result {
                Err(e) => action == (UpsertAction::Done { result: Err(e) }),
                Ok(Some(rec)) => action matches UpsertAction::Done { result: Ok(c) } && concept_of_record(rec, c),
                Ok(None) => action matches UpsertAction::Done { result: Err(RepoError::Internal(m)) }
                    && m@ == "concept not found after unique conflict"@,
            }
        },
        _ => false,
    }
}

/// Advances an upsert by one step.
pub fn step_upsert(state: UpsertState, event: UpsertEvent) -> (r: (UpsertState, UpsertAction))
    requires
        state.awaits(&event),
    ensures
        upsert_transition(state, event, r.0, r.1),
{
    match (state, event) {
        (UpsertState::Finding { key, new_concept }, UpsertEvent::Found { result }) => match result {
            Err(e) => (UpsertState::Finished, UpsertAction::Done { result: Err(e) }),
            Ok(Some(rec)) => (UpsertState::Finished, UpsertAction::Done { result: Ok(record_to_concept(rec)) }),
            Ok(None) => (
                UpsertState::Creating { key },
                UpsertAction::Create { concept_id: new_uuid(), new_concept },
            ),
        },
        (UpsertState::Creating { key }, UpsertEvent::Created { result }) => match result {
            Ok(Some(rec)) => (UpsertState::Finished, UpsertAction::Done { result: Ok(record_to_concept(rec)) }),
            Ok(None) => (
                UpsertState::Finished,
                UpsertAction::Done { result: Err(RepoError::Internal(owned("no concept record returned"))) },
            ),
            Err(msg) => if contains_str(msg.as_str(), "already exists") || contains_str(msg.as_str(), "unique") {
                (UpsertState::Refinding, UpsertAction::FindByName { name: key })
            } else {
                (UpsertState::Finished, UpsertAction::Done { result: Err(RepoError::Internal(msg)) })
            },
        },
        (UpsertState::Refinding, UpsertEvent::Found { result }) => match result {
            Err(e) => (UpsertState::Finished, UpsertAction::Done { result: Err(e) }),
            Ok(Some(rec)) => (UpsertState::Finished, UpsertAction::Done { result: Ok(record_to_concept(rec)) }),
            Ok(None) => (
                UpsertState::Finished,
                UpsertAction::Done {
                    result: Err(RepoError::Internal(owned("concept not found after unique conflict"))),
                },
            ),
        },
        _ => (UpsertState::Finished, UpsertAction::Done { result: Err(RepoError::NotFound) }),
    }
}

} // verus!
