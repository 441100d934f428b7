//! Concepts and the knowledge graph built from them.
use vstd::prelude::*;
use crate::text::{lowercase, to_lowercase, trim, trimmed};

verus! {

/// A concept of the knowledge graph.
#[derive(Debug, Clone)]
pub struct Concept {
    pub id: String,
    /// Normalized lowercase name (used as the unique key).
    pub name: String,
    pub display_name: String,
    pub description: String,
    pub domain: String,
}

/// A relation between two concepts (strength as IEEE-754 bits).
#[derive(Debug, Clone)]
pub struct ConceptRelation {
    pub from_concept_name: String,
    pub to_concept_name: String,
    pub relation_type: String,
    pub strength_bits: u64,
}

/// A node in the graph API response.
#[derive(Debug, Clone)]
pub struct GraphNode {
    pub id: String,
    pub name: String,
    pub display_name: String,
    pub domain: String,
}

/// An edge in the graph API response (strength as IEEE-754 bits).
#[derive(Debug, Clone)]
pub struct GraphEdge {
    pub source: String,
    pub target: String,
    pub relation_type: String,
    pub strength_bits: u64,
}

/// Full graph data returned by `GET /api/graph`.
#[derive(Debug, Clone)]
pub struct GraphData {
    pub nodes: Vec<GraphNode>,
    pub edges: Vec<GraphEdge>,
}

/// A book (work) that mentions a concept.
#[derive(Debug, Clone)]
pub struct ConceptBook {
    pub work_id: String,
    pub title: String,
    pub author: String,
}

/// A related concept entry in the concept detail view (strength as IEEE-754 bits).
#[derive(Debug, Clone)]
pub struct RelatedConceptSummary {
    pub id: String,
    pub display_name: String,
    pub domain: String,
    pub relation_type: String,
    pub strength_bits: u64,
}

/// Full concept detail returned by `GET /api/concepts/{id}`.
#[derive(Debug, Clone)]
pub struct ConceptDetail {
    pub concept: Concept,
    pub books: Vec<ConceptBook>,
    pub related_concepts: Vec<RelatedConceptSummary>,
}

/// The key a concept is stored under: its display name trimmed, then lowercased.
pub open spec fn concept_key(display_name: Seq<char>) -> Seq<char> {
    lowercase(trimmed(display_name))
}

/// Normalize a concept name to lowercase, trimmed.
pub fn normalize_concept_name(display_name: &str) -> (r: String)
    ensures
        r@ == concept_key(display_name@),
{
    let t = trim(display_name);
    to_lowercase(t.as_str())
}

} // verus!
