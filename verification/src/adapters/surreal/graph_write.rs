//! The graph write: one SurrealQL transaction that stores an insight, its concepts and their
//! relations for a work.
//!
//! Every identifier embedded in the statements is a UUID generated here or a work id that
//! parsed as one; every text that came from the extraction travels in a `$`-binding.
use vstd::prelude::*;
use uuid::Uuid;
use crate::domain::concept::{concept_key, normalize_concept_name};
use crate::domain::insight::{ExtractedConcept, GeminiResponse, RelatedConceptRef};
use crate::domain::user::is_lower_hex;
use crate::ports::repository::RepoError;
use crate::text::{decimal, decimal_string, owned};

verus! {

/// A value bound to a `$` parameter of the transaction.
#[derive(Debug)]
pub enum BindValue {
    Text(String),
    TextList(Vec<String>),
    /// A JSON number, given by the IEEE-754 bits of its value.
    NumberBits(u64),
}

/// What a bound value holds.
pub enum BindData {
    Text(Seq<char>),
    TextList(Seq<Seq<char>>),
    NumberBits(u64),
}

/// What a bound value holds.
pub open spec fn bind_data(v: BindValue) -> BindData {
    match v {
        BindValue::Text(s) => BindData::Text(s@),
        BindValue::TextList(l) => BindData::TextList(l@.map_values(|s: String| s@)),
        BindValue::NumberBits(b) => BindData::NumberBits(b),
    }
}

/// The parameter names and values of a list of bindings.
pub open spec fn bindings_data(bs: Seq<(String, BindValue)>) -> Seq<(Seq<char>, BindData)> {
    bs.map_values(|b: (String, BindValue)| (b.0@, bind_data(b.1)))
}

/// A UUID as `Uuid`'s `Display` writes it: 36 characters, lowercase hexadecimal digits in
/// groups of 8, 4, 4, 4 and 12, separated by hyphens.
pub open spec fn is_hyphenated_uuid(s: Seq<char>) -> bool {
    &&& s.len() == 36
    &&& forall|k: int|
        0 <= k < 36 ==> if k == 8 || k == 13 || k == 18 || k == 23 {
            #[trigger] s[k] == '-'
        } else {
            is_lower_hex(s[k])
        }
}

/// `Uuid::new_v4().to_string()`: a fresh random UUID in its hyphenated lowercase form, as the
/// `Display` impl of `uuid` writes it. Its value is random and is not stated.
#[verifier::external_body]
pub(crate) fn new_uuid() -> (s: String)
    ensures
        is_hyphenated_uuid(s@),
{
    Uuid::new_v4().to_string()
}

/// Whether `Uuid::parse_str` accepts a text.
pub uninterp spec fn uuid_parses(s: Seq<char>) -> bool;

/// `Uuid::parse_str(s).is_ok()`: the outcome is named `uuid_parses(s)`; which of the formats
/// the crate documents (simple, hyphenated, URN, braced) a text is in is not stated.
#[verifier::external_body]
pub(crate) fn parse_uuid(s: &str) -> (ok: bool)
    ensures
        ok == uuid_parses(s@),
{
    Uuid::parse_str(s).is_ok()
}

/// The record ids generated for one graph write: one per extracted concept, and one per
/// relation of each concept.
#[derive(Debug)]
pub struct GraphIds {
    pub concept_ids: Vec<String>,
    pub related_ids: Vec<Vec<String>>,
}

/// The concept ids, as texts.
pub open spec fn concept_id_texts(ids: GraphIds) -> Seq<Seq<char>> {
    ids.concept_ids@.map_values(|s: String| s@)
}

/// The related-concept ids, per concept, as texts.
pub open spec fn related_id_texts(ids: GraphIds) -> Seq<Seq<Seq<char>>> {
    ids.related_ids@.map_values(|v: Vec<String>| v@.map_values(|s: String| s@))
}

/// The ids have the shape of the extracted concepts: one per concept and one per relation.
pub open spec fn ids_fit(ids: GraphIds, concepts: Seq<ExtractedConcept>) -> bool {
    &&& ids.concept_ids@.len() == concepts.len()
    &&& ids.related_ids@.len() == concepts.len()
    &&& forall|i: int| 0 <= i < concepts.len() ==> #[trigger] ids.related_ids@[i]@.len()
        == concepts[i].related_concepts@.len()
}

/// Every generated id is a hyphenated UUID.
pub open spec fn ids_are_uuids(ids: GraphIds) -> bool {
    &&& forall|i: int| 0 <= i < ids.concept_ids@.len() ==> is_hyphenated_uuid(#[trigger] ids.concept_ids@[i]@)
    &&& forall|i: int, j: int|
        0 <= i < ids.related_ids@.len() && 0 <= j < ids.related_ids@[i]@.len() ==> is_hyphenated_uuid(
            #[trigger] ids.related_ids@[i]@[j]@,
        )
}

/// Fresh ids for the concepts and relations of an extraction.
pub fn fresh_graph_ids(concepts: &Vec<ExtractedConcept>) -> (ids: GraphIds)
    ensures
        ids_fit(ids, concepts@),
        ids_are_uuids(ids),
{
    let mut concept_ids: Vec<String> = Vec::new();
    let mut related_ids: Vec<Vec<String>> = Vec::new();
    let mut i: usize = 0;
    while i < concepts.len()
        invariant
            i <= concepts.len(),
            concept_ids@.len() == i,
            related_ids@.len() == i,
            forall|k: int| 0 <= k < i ==> #[trigger] related_ids@[k]@.len() == concepts@[k].related_concepts@.len(),
            forall|k: int| 0 <= k < i ==> is_hyphenated_uuid(#[trigger] concept_ids@[k]@),
            forall|k: int, l: int|
                0 <= k < i && 0 <= l < related_ids@[k]@.len() ==> is_hyphenated_uuid(
                    #[trigger] related_ids@[k]@[l]@,
                ),
        decreases concepts.len() - i,
    {
        concept_ids.push(new_uuid());
        let n = concepts[i].related_concepts.len();
        let mut rel: Vec<String> = Vec::new();
        let mut j: usize = 0;
        while j < n
            invariant
                j <= n,
                rel@.len() == j,
                forall|l: int| 0 <= l < j ==> is_hyphenated_uuid(#[trigger] rel@[l]@),
            decreases n - j,
        {
            rel.push(new_uuid());
            j = j + 1;
        }
        related_ids.push(rel);
        i = i + 1;
    }
    GraphIds { concept_ids, related_ids }
}

/// The opening of the transaction: the look-up of an insight the work already has, and the
/// creation of the new insight and its `interpreta` edge when there is none.
#[verifier::opaque]
pub open spec fn header_sql(work_id: Seq<char>, insight_id: Seq<char>) -> Seq<char> {
    "BEGIN TRANSACTION;\nLET $existing_insight = (SELECT out FROM interpreta WHERE in = type::thing('work', '"@
        + work_id + "') LIMIT 1);\nIF array::len($existing_insight) = 0 THEN (CREATE insight:`"@
        + insight_id
        + "` SET summary = $summary, key_points = $key_points, raw_gemini_response = $raw_json, created_at = time::now()) END;\nIF array::len($existing_insight) = 0 THEN (RELATE work:`"@
        + work_id + "`->interpreta->insight:`"@ + insight_id + "`) END;\n"@
}

fn header_statements(work_id: &str, insight_id: &str) -> (s: String)
    ensures
        s@ == header_sql(work_id@, insight_id@),
{
    proof {
        reveal(header_sql);
    }
    let mut s = owned("BEGIN TRANSACTION;\nLET $existing_insight = (SELECT out FROM interpreta WHERE in = type::thing('work', '");
    s.append(work_id);
    s.append("') LIMIT 1);\nIF array::len($existing_insight) = 0 THEN (CREATE insight:`");
    s.append(insight_id);
    s.append("` SET summary = $summary, key_points = $key_points, raw_gemini_response = $raw_json, created_at = time::now()) END;\nIF array::len($existing_insight) = 0 THEN (RELATE work:`");
    s.append(work_id);
    s.append("`->interpreta->insight:`");
    s.append(insight_id);
    s.append("`) END;\n");
    s
}

/// The statements of concept `i`: reuse the concept stored under its key or create it, and link
/// the insight to it with a `menciona` edge unless that edge is already there, so that writing
/// the same graph again adds no edge.
#[verifier::opaque]
pub open spec fn concept_sql(i: nat, concept_id: Seq<char>, insight_id: Seq<char>) -> Seq<char> {
    "LET $c"@ + decimal(i) + "_existing = (SELECT id FROM concept WHERE name = $cname_"@
        + decimal(i) + " LIMIT 1);\nLET $c"@ + decimal(i) + "_id = IF array::len($c"@
        + decimal(i) + "_existing) > 0 THEN $c"@ + decimal(i)
        + "_existing[0].id ELSE (CREATE concept:`"@ + concept_id + "` SET name = $cname_"@
        + decimal(i) + ", display_name = $cdisplay_"@ + decimal(i) + ", description = $cdesc_"@
        + decimal(i) + ", domain = $cdom_"@ + decimal(i)
        + ", created_at = time::now() RETURN id)[0].id END;\nLET $eff_insight_"@ + decimal(i)
        + " = IF array::len($existing_insight) = 0 THEN insight:`"@ + insight_id
        + "` ELSE $existing_insight[0].out END;\nLET $m"@ + decimal(i)
        + "_existing = (SELECT id FROM menciona WHERE in = $eff_insight_"@ + decimal(i)
        + " AND out = $c"@ + decimal(i) + "_id LIMIT 1);\nIF array::len($m"@ + decimal(i)
        + "_existing) = 0 THEN (RELATE $eff_insight_"@ + decimal(i) + "->menciona->$c"@
        + decimal(i) + "_id SET relevance_weight = $cweight_"@ + decimal(i) + ") END;\n"@
}

fn concept_statements(i: u64, concept_id: &str, insight_id: &str) -> (s: String)
    ensures
        s@ == concept_sql(i as nat, concept_id@, insight_id@),
{
    proof {
        reveal(concept_sql);
    }
    let d = decimal_string(i);
    let mut s = owned("LET $c");
    s.append(d.as_str());
    s.append("_existing = (SELECT id FROM concept WHERE name = $cname_");
    s.append(d.as_str());
    s.append(" LIMIT 1);\nLET $c");
    s.append(d.as_str());
    s.append("_id = IF array::len($c");
    s.append(d.as_str());
    s.append("_existing) > 0 THEN $c");
    s.append(d.as_str());
    s.append("_existing[0].id ELSE (CREATE concept:`");
    s.append(concept_id);
    s.append("` SET name = $cname_");
    s.append(d.as_str());
    s.append(", display_name = $cdisplay_");
    s.append(d.as_str());
    s.append(", description = $cdesc_");
    s.append(d.as_str());
    s.append(", domain = $cdom_");
    s.append(d.as_str());
    s.append(", created_at = time::now() RETURN id)[0].id END;\nLET $eff_insight_");
    s.append(d.as_str());
    s.append(" = IF array::len($existing_insight) = 0 THEN insight:`");
    s.append(insight_id);
    s.append("` ELSE $existing_insight[0].out END;\nLET $m");
    s.append(d.as_str());
    s.append("_existing = (SELECT id FROM menciona WHERE in = $eff_insight_");
    s.append(d.as_str());
    s.append(" AND out = $c");
    s.append(d.as_str());
    s.append("_id LIMIT 1);\nIF array::len($m");
    s.append(d.as_str());
    s.append("_existing) = 0 THEN (RELATE $eff_insight_");
    s.append(d.as_str());
    s.append("->menciona->$c");
    s.append(d.as_str());
    s.append("_id SET relevance_weight = $cweight_");
    s.append(d.as_str());
    s.append(") END;\n");
    s
}

/// The statements of relation `j` of concept `i`: reuse or create the related concept, and link
/// concept `i` to it with a `relacionado_a` edge.
#[verifier::opaque]
pub open spec fn related_sql(i: nat, j: nat, related_id: Seq<char>) -> Seq<char> {
    "LET $r"@ + decimal(i) + "_"@ + decimal(j)
        + "_existing = (SELECT id FROM concept WHERE name = $rname_"@ + decimal(i) + "_"@
        + decimal(j) + " LIMIT 1);\nLET $r"@ + decimal(i) + "_"@ + decimal(j)
        + "_id = IF array::len($r"@ + decimal(i) + "_"@ + decimal(j) + "_existing) > 0 THEN $r"@
        + decimal(i) + "_"@ + decimal(j) + "_existing[0].id ELSE (CREATE concept:`"@
        + related_id + "` SET name = $rname_"@ + decimal(i) + "_"@ + decimal(j)
        + ", display_name = $rdn_"@ + decimal(i) + "_"@ + decimal(j)
        + ", description = '', domain = '', created_at = time::now() RETURN id)[0].id END;\nRELATE $c"@
        + decimal(i) + "_id->relacionado_a->$r"@ + decimal(i) + "_"@ + decimal(j)
        + "_id SET relation_type = $rtype_"@ + decimal(i) + "_"@ + decimal(j)
        + ", strength = $rstrength_"@ + decimal(i) + "_"@ + decimal(j) + ";\n"@
}

fn related_statements(i: u64, j: u64, related_id: &str) -> (s: String)
    ensures
        s@ == related_sql(i as nat, j as nat, related_id@),
{
    proof {
        reveal(related_sql);
    }
    let d = decimal_string(i);
    let e = decimal_string(j);
    let mut s = owned("LET $r");
    s.append(d.as_str());
    s.append("_");
    s.append(e.as_str());
    s.append("_existing = (SELECT id FROM concept WHERE name = $rname_");
    s.append(d.as_str());
    s.append("_");
    s.append(e.as_str());
    s.append(" LIMIT 1);\nLET $r");
    s.append(d.as_str());
    s.append("_");
    s.append(e.as_str());
    s.append("_id = IF array::len($r");
    s.append(d.as_str());
    s.append("_");
    s.append(e.as_str());
    s.append("_existing) > 0 THEN $r");
    s.append(d.as_str());
    s.append("_");
    s.append(e.as_str());
    s.append("_existing[0].id ELSE (CREATE concept:`");
    s.append(related_id);
    s.append("` SET name = $rname_");
    s.append(d.as_str());
    s.append("_");
    s.append(e.as_str());
    s.append(", display_name = $rdn_");
    s.append(d.as_str());
    s.append("_");
    s.append(e.as_str());
    s.append(", description = '', domain = '', created_at = time::now() RETURN id)[0].id END;\nRELATE $c");
    s.append(d.as_str());
    s.append("_id->relacionado_a->$r");
    s.append(d.as_str());
    s.append("_");
    s.append(e.as_str());
    s.append("_id SET relation_type = $rtype_");
    s.append(d.as_str());
    s.append("_");
    s.append(e.as_str());
    s.append(", strength = $rstrength_");
    s.append(d.as_str());
    s.append("_");
    s.append(e.as_str());
    s.append(";\n");
    s
}

/// The close of the transaction: the work is marked done.
#[verifier::opaque]
pub open spec fn footer_sql(work_id: Seq<char>) -> Seq<char> {
    "UPDATE work:`"@ + work_id
        + "` SET status = 'done', updated_at = time::now();\nCOMMIT TRANSACTION;\n"@
}

fn footer_statements(work_id: &str) -> (s: String)
    ensures
        s@ == footer_sql(work_id@),
{
    proof {
        reveal(footer_sql);
    }
    let mut s = owned("UPDATE work:`");
    s.append(work_id);
    s.append("` SET status = 'done', updated_at = time::now();\nCOMMIT TRANSACTION;\n");
    s
}

/// The statements of the first `n` relations of concept `i`, in order.
pub open spec fn relations_sql(i: nat, related_ids: Seq<Seq<char>>, n: nat) -> Seq<char>
    decreases n,
{
    if n == 0 {
        Seq::empty()
    } else {
        relations_sql(i, related_ids, (n - 1) as nat) + related_sql(i, (n - 1) as nat, related_ids[n - 1])
    }
}

/// The statements of the first `n` concepts, each followed by those of its relations.
pub open spec fn concepts_sql(
    concept_ids: Seq<Seq<char>>,
    related_ids: Seq<Seq<Seq<char>>>,
    insight_id: Seq<char>,
    n: nat,
) -> Seq<char>
    decreases n,
{
    if n == 0 {
        Seq::empty()
    } else {
        let i = (n - 1) as nat;
        concepts_sql(concept_ids, related_ids, insight_id, i) + concept_sql(i, concept_ids[i as int], insight_id)
            + relations_sql(i, related_ids[i as int], related_ids[i as int].len())
    }
}

/// The whole transaction. It is a function of the record ids alone: no text of the extraction
/// enters it.
pub open spec fn transaction_sql(
    work_id: Seq<char>,
    insight_id: Seq<char>,
    concept_ids: Seq<Seq<char>>,
    related_ids: Seq<Seq<Seq<char>>>,
) -> Seq<char> {
    header_sql(work_id, insight_id) + concepts_sql(concept_ids, related_ids, insight_id, concept_ids.len())
        + footer_sql(work_id)
}

/// The bindings of the insight itself.
pub open spec fn head_bindings(gemini: GeminiResponse, raw_json: Seq<char>) -> Seq<(Seq<char>, BindData)> {
    seq![
        ("summary"@, BindData::Text(gemini.summary@)),
        ("key_points"@, BindData::TextList(gemini.key_points@.map_values(|s: String| s@))),
        ("raw_json"@, BindData::Text(raw_json)),
    ]
}

/// The bindings of concept `i`: its key, display name, description, domain and weight.
pub open spec fn concept_bindings(i: nat, c: ExtractedConcept) -> Seq<(Seq<char>, BindData)> {
    seq![
        ("cname_"@ + decimal(i), BindData::Text(concept_key(c.display_name@))),
        ("cdisplay_"@ + decimal(i), BindData::Text(c.display_name@)),
        ("cdesc_"@ + decimal(i), BindData::Text(c.description@)),
        ("cdom_"@ + decimal(i), BindData::Text(c.domain@)),
        ("cweight_"@ + decimal(i), BindData::NumberBits(c.relevance_weight_bits)),
    ]
}

/// The suffix of the parameters of relation `j` of concept `i`.
pub open spec fn pair_suffix(i: nat, j: nat) -> Seq<char> {
    decimal(i) + "_"@ + decimal(j)
}

/// The bindings of relation `j` of concept `i`: the related concept's key and name, the
/// relation type and the strength.
pub open spec fn relation_bindings(i: nat, j: nat, r: RelatedConceptRef) -> Seq<(Seq<char>, BindData)> {
    seq![
        ("rname_"@ + pair_suffix(i, j), BindData::Text(concept_key(r.name@))),
        ("rdn_"@ + pair_suffix(i, j), BindData::Text(r.name@)),
        ("rtype_"@ + pair_suffix(i, j), BindData::Text(r.relation_type@)),
        ("rstrength_"@ + pair_suffix(i, j), BindData::NumberBits(r.strength_bits)),
    ]
}

/// The bindings of the first `n` relations of concept `i`.
pub open spec fn relations_bindings(i: nat, rels: Seq<RelatedConceptRef>, n: nat) -> Seq<(Seq<char>, BindData)>
    decreases n,
{
    if n == 0 {
        Seq::empty()
    } else {
        relations_bindings(i, rels, (n - 1) as nat) + relation_bindings(i, (n - 1) as nat, rels[n - 1])
    }
}

/// The bindings of the first `n` concepts, each followed by those of its relations.
pub open spec fn concepts_bindings(concepts: Seq<ExtractedConcept>, n: nat) -> Seq<(Seq<char>, BindData)>
    decreases n,
{
    if n == 0 {
        Seq::empty()
    } else {
        let i = (n - 1) as nat;
        let c = concepts[i as int];
        concepts_bindings(concepts, i) + concept_bindings(i, c) + relations_bindings(
            i,
            c.related_concepts@,
            c.related_concepts@.len(),
        )
    }
}

/// All bindings of the transaction, in order.
pub open spec fn transaction_bindings(gemini: GeminiResponse, raw_json: Seq<char>) -> Seq<(Seq<char>, BindData)> {
    head_bindings(gemini, raw_json) + concepts_bindings(gemini.concepts@, gemini.concepts@.len())
}

proof fn lemma_bindings_data_append(a: Seq<(String, BindValue)>, b: Seq<(String, BindValue)>)
    ensures
        bindings_data(a + b) == bindings_data(a) + bindings_data(b),
{
    assert(bindings_data(a + b) =~= bindings_data(a) + bindings_data(b));
}

pub(crate) fn keyed(prefix: &str, suffix: &str) -> (k: String)
    ensures
        k@ == prefix@ + suffix@,
{
    let mut k = owned(prefix);
    k.append(suffix);
    k
}

fn copy_texts(v: &Vec<String>) -> (r: Vec<String>)
    ensures
        r@.map_values(|s: String| s@) == v@.map_values(|s: String| s@),
{
    let mut r: Vec<String> = Vec::new();
    let mut i: usize = 0;
    while i < v.len()
        invariant
            i <= v.len(),
            r@.len() == i,
            forall|k: int| 0 <= k < i ==> #[trigger] r@[k]@ == v@[k]@,
        decreases v.len() - i,
    {
        r.push(v[i].clone());
        i = i + 1;
    }
    assert(r@.map_values(|s: String| s@) =~= v@.map_values(|s: String| s@));
    r
}

fn concept_binding_list(i: u64, c: &ExtractedConcept) -> (v: Vec<(String, BindValue)>)
    ensures
        bindings_data(v@) == concept_bindings(i as nat, *c),
{
    let d = decimal_string(i);
    let mut v: Vec<(String, BindValue)> = Vec::new();
    v.push((keyed("cname_", d.as_str()), BindValue::Text(normalize_concept_name(c.display_name.as_str()))));
    v.push((keyed("cdisplay_", d.as_str()), BindValue::Text(c.display_name.clone())));
    v.push((keyed("cdesc_", d.as_str()), BindValue::Text(c.description.clone())));
    v.push((keyed("cdom_", d.as_str()), BindValue::Text(c.domain.clone())));
    v.push((keyed("cweight_", d.as_str()), BindValue::NumberBits(c.relevance_weight_bits)));
    assert(bindings_data(v@) =~= concept_bindings(i as nat, *c));
    v
}

fn relation_binding_list(i: u64, j: u64, r: &RelatedConceptRef) -> (v: Vec<(String, BindValue)>)
    ensures
        bindings_data(v@) == relation_bindings(i as nat, j as nat, *r),
{
    let mut suffix = decimal_string(i);
    suffix.append("_");
    let e = decimal_string(j);
    suffix.append(e.as_str());
    let mut v: Vec<(String, BindValue)> = Vec::new();
    v.push((keyed("rname_", suffix.as_str()), BindValue::Text(normalize_concept_name(r.name.as_str()))));
    v.push((keyed("rdn_", suffix.as_str()), BindValue::Text(r.name.clone())));
    v.push((keyed("rtype_", suffix.as_str()), BindValue::Text(r.relation_type.clone())));
    v.push((keyed("rstrength_", suffix.as_str()), BindValue::NumberBits(r.strength_bits)));
    assert(bindings_data(v@) =~= relation_bindings(i as nat, j as nat, *r));
    v
}

/// Builds a complete SurrealQL transaction as a single string, with the values its `$`
/// parameters are bound to.
///
/// The record ids (the work's, the new insight's and the pre-generated concept ids) are the
/// only values written into the statements; every text of the extraction is bound.
pub fn build_transaction_sql(
    work_id: &str,
    insight_id: &str,
    gemini_response: &GeminiResponse,
    raw_json: &str,
    ids: &GraphIds,
) -> (r: (String, Vec<(String, BindValue)>))
    requires
        ids_fit(*ids, gemini_response.concepts@),
    ensures
        r.0@ == transaction_sql(work_id@, insight_id@, concept_id_texts(*ids), related_id_texts(*ids)),
        bindings_data(r.1@) == transaction_bindings(*gemini_response, raw_json@),
{
    let concepts = &gemini_response.concepts;
    let ghost cids = concept_id_texts(*ids);
    let ghost rids = related_id_texts(*ids);
    let mut sql = header_statements(work_id, insight_id);
    let mut bindings: Vec<(String, BindValue)> = Vec::new();
    bindings.push((owned("summary"), BindValue::Text(gemini_response.summary.clone())));
    bindings.push((owned("key_points"), BindValue::TextList(copy_texts(&gemini_response.key_points))));
    bindings.push((owned("raw_json"), BindValue::Text(owned(raw_json))));
    assert(bindings_data(bindings@) =~= head_bindings(*gemini_response, raw_json@));
    let mut i: usize = 0;
    while i < concepts.len()
        invariant
            i <= concepts.len(),
            concepts@ == gemini_response.concepts@,
            ids_fit(*ids, concepts@),
            cids == concept_id_texts(*ids),
            rids == related_id_texts(*ids),
            sql@ == header_sql(work_id@, insight_id@) + concepts_sql(cids, rids, insight_id@, i as nat),
            bindings_data(bindings@) == head_bindings(*gemini_response, raw_json@) + concepts_bindings(
                concepts@,
                i as nat,
            ),
        decreases concepts.len() - i,
    {
        let c = &concepts[i];
        let ghost before_sql = sql@;
        let ghost before_bindings = bindings_data(bindings@);
        let block = concept_statements(i as u64, ids.concept_ids[i].as_str(), insight_id);
        sql.append(block.as_str());
        let mut cb = concept_binding_list(i as u64, c);
        proof {
            lemma_bindings_data_append(bindings@, cb@);
        }
        bindings.append(&mut cb);
        let rel_ids = &ids.related_ids[i];
        let n = c.related_concepts.len();
        assert(rel_ids@.len() == n);
        let ghost mid_sql = sql@;
        let ghost mid_bindings = bindings_data(bindings@);
        let mut j: usize = 0;
        while j < n
            invariant
                j <= n,
                n == c.related_concepts@.len(),
                rel_ids@.len() == n,
                rids[i as int] == rel_ids@.map_values(|s: String| s@),
                sql@ == mid_sql + relations_sql(i as nat, rids[i as int], j as nat),
                bindings_data(bindings@) == mid_bindings + relations_bindings(
                    i as nat,
                    c.related_concepts@,
                    j as nat,
                ),
            decreases n - j,
        {
            let stmt = related_statements(i as u64, j as u64, rel_ids[j].as_str());
            sql.append(stmt.as_str());
            let mut rb = relation_binding_list(i as u64, j as u64, &c.related_concepts[j]);
            proof {
                lemma_bindings_data_append(bindings@, rb@);
            }
            bindings.append(&mut rb);
            j = j + 1;
        }
        proof {
            assert(rids[i as int].len() == n);
            assert(cids[i as int] == ids.concept_ids@[i as int]@);
            assert(sql@ =~= header_sql(work_id@, insight_id@) + concepts_sql(cids, rids, insight_id@, (i + 1) as nat));
            assert(bindings_data(bindings@) =~= head_bindings(*gemini_response, raw_json@) + concepts_bindings(
                concepts@,
                (i + 1) as nat,
            ));
        }
        i = i + 1;
    }
    let footer = footer_statements(work_id);
    sql.append(footer.as_str());
    (sql, bindings)
}

/// A graph write ready to run: the statements, their bindings, and the ids it creates.
#[derive(Debug)]
pub struct GraphWrite {
    pub sql: String,
    pub bindings: Vec<(String, BindValue)>,
    pub insight_id: String,
    pub ids: GraphIds,
}

/// The error for a work id that is not a UUID.
pub open spec fn invalid_work_id(work_id: Seq<char>) -> Seq<char> {
    "invalid work_id format: "@ + work_id
}

/// Prepares the graph write for a work: a work id that does not parse as a UUID is refused;
/// otherwise a fresh insight id and fresh concept ids are drawn and the transaction is built.
/// `raw_json` is the extraction as JSON, stored with the insight.
pub fn prepare_graph_write(work_id: &str, gemini_response: &GeminiResponse, raw_json: &str) -> (r: Result<
    GraphWrite,
    RepoError,
>)
    ensures
        r is Err <==> !uuid_parses(work_id@),
        r matches Err(e) ==> (e matches RepoError::Internal(m) && m@ == invalid_work_id(work_id@)),
        r matches Ok(w) ==> {
            &&& is_hyphenated_uuid(w.insight_id@)
            &&& ids_fit(w.ids, gemini_response.concepts@)
            &&& ids_are_uuids(w.ids)
            &&& w.sql@ == transaction_sql(
                work_id@,
                w.insight_id@,
                concept_id_texts(w.ids),
                related_id_texts(w.ids),
            )
            &&& bindings_data(w.bindings@) == transaction_bindings(*gemini_response, raw_json@)
        },
{
    if !parse_uuid(work_id) {
        return Err(RepoError::Internal(keyed("invalid work_id format: ", work_id)));
    }
    let insight_id = new_uuid();
    let ids = fresh_graph_ids(&gemini_response.concepts);
    let (sql, bindings) = build_transaction_sql(work_id, insight_id.as_str(), gemini_response, raw_json, &ids);
    Ok(GraphWrite { sql, bindings, insight_id, ids })
}

/// A generated UUID holds only lowercase hexadecimal digits and hyphens: embedded in a quoted
/// record id it can neither close the quotes nor start a parameter, a comment or a new
/// statement.
pub proof fn law_uuids_are_safe_to_embed(s: Seq<char>)
    requires
        is_hyphenated_uuid(s),
    ensures
        forall|k: int|
            0 <= k < s.len() ==> {
                &&& #[trigger] s[k] != '`'
                &&& s[k] != '\u{27}'
                &&& s[k] != '$'
                &&& s[k] != ';'
                &&& s[k] != ' '
                &&& s[k] != '\n'
            },
{
    assert forall|k: int| 0 <= k < s.len() implies {
        &&& #[trigger] s[k] != '`'
        &&& s[k] != '\u{27}'
        &&& s[k] != '$'
        &&& s[k] != ';'
        &&& s[k] != ' '
        &&& s[k] != '\n'
    } by {
        assert(s[k] == '-' || is_lower_hex(s[k]));
    }
}

} // verus!
