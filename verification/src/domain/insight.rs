//! Insights: what concept extraction says about a book.
use vstd::prelude::*;
use crate::text::owned;

verus! {

/// A concept linked to an insight, with its relevance (IEEE-754 bits of the weight).
#[derive(Debug, Clone)]
pub struct ConceptWithWeight {
    pub id: String,
    pub display_name: String,
    pub description: String,
    pub domain: String,
    pub relevance_weight_bits: u64,
}

/// An insight with the concepts it mentions.
#[derive(Debug, Clone)]
pub struct InsightDetail {
    pub id: String,
    pub summary: String,
    pub key_points: Vec<String>,
    pub concepts: Vec<ConceptWithWeight>,
}

/// A stored insight.
#[derive(Debug, Clone)]
pub struct Insight {
    pub id: String,
    pub summary: String,
    pub key_points: Vec<String>,
    pub raw_gemini_response: String,
}

/// The structured response that Gemini returns.
#[derive(Debug, Clone)]
pub struct GeminiResponse {
    pub summary: String,
    pub key_points: Vec<String>,
    pub concepts: Vec<ExtractedConcept>,
}

/// A concept extracted from a book (relevance as IEEE-754 bits of the weight).
#[derive(Debug, Clone)]
pub struct ExtractedConcept {
    pub name: String,
    pub display_name: String,
    pub description: String,
    pub domain: String,
    pub relevance_weight_bits: u64,
    pub related_concepts: Vec<RelatedConceptRef>,
}

/// A relation from an extracted concept to another one (strength as IEEE-754 bits).
#[derive(Debug, Clone)]
pub struct RelatedConceptRef {
    pub name: String,
    pub relation_type: String,
    pub strength_bits: u64,
}

/// The relation type of a related concept whose type the response leaves out.
pub fn default_relation_type() -> (s: String)
    ensures
        s@ == "related"@,
{
    owned("related")
}

} // verus!
