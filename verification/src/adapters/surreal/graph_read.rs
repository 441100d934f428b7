//! The graph read: what the graph and concept-detail queries' rows become.
use vstd::prelude::*;
use crate::domain::concept::{Concept, ConceptBook, ConceptDetail, GraphData, GraphEdge, GraphNode, RelatedConceptSummary};
use crate::ports::repository::RepoError;
use crate::text::{chars_of, owned, same_text, string_of_range};

verus! {

/// A row of the `concept` table; `id` is the record key as SurrealDB renders it.
#[derive(Debug)]
pub struct ConceptRow {
    pub id: Option<String>,
    pub name: String,
    pub display_name: String,
    pub description: Option<String>,
    pub domain: String,
}

/// A row of the `relacionado_a` edges: its two ends as rendered record keys.
#[derive(Debug)]
pub struct EdgeRow {
    pub source: Option<String>,
    pub target: Option<String>,
    pub relation_type: String,
    pub strength_bits: u64,
}

/// A work that interprets one of the insights mentioning a concept.
#[derive(Debug)]
pub struct WorkRow {
    pub work_id: Option<String>,
    pub title: String,
    pub author: String,
}

/// An outbound `relacionado_a` edge of a concept, with the related concept's names.
#[derive(Debug)]
pub struct RelatedRow {
    pub concept_id: Option<String>,
    pub display_name: String,
    pub domain: String,
    pub relation_type: String,
    pub strength_bits: u64,
}

/// The text without its leading backticks.
pub open spec fn drop_leading_backticks(s: Seq<char>) -> Seq<char>
    decreases s.len(),
{
    if s.len() > 0 && s[0] == '`' {
        drop_leading_backticks(s.drop_first())
    } else {
        s
    }
}

/// The text without its trailing backticks.
pub open spec fn drop_trailing_backticks(s: Seq<char>) -> Seq<char>
    decreases s.len(),
{
    if s.len() > 0 && s.last() == '`' {
        drop_trailing_backticks(s.drop_last())
    } else {
        s
    }
}

/// The key of a record id as rendered by SurrealDB, without the backticks it may be quoted
/// in (what `trim_matches('`')` gives).
pub open spec fn record_key(rendered: Seq<char>) -> Seq<char> {
    drop_trailing_backticks(drop_leading_backticks(rendered))
}

/// The key of a rendered record id: its backtick quotes removed.
pub fn thing_to_uuid(rendered: &str) -> (r: String)
    ensures
        r@ == record_key(rendered@),
{
    let v = chars_of(rendered);
    let n = v.len();
    let mut i: usize = 0;
    assert(v@.subrange(0, n as int) =~= v@);
    while i < n && v[i] == '`'
        invariant
            i <= n == v@.len(),
            drop_leading_backticks(v@) == drop_leading_backticks(v@.subrange(i as int, n as int)),
        decreases n - i,
    {
        assert(v@.subrange(i as int, n as int).drop_first() =~= v@.subrange(i + 1, n as int));
        i = i + 1;
    }
    let ghost w = v@.subrange(i as int, n as int);
    assert(drop_leading_backticks(v@) == w);
    let mut j: usize = n;
    while j > i && v[j - 1] == '`'
        invariant
            i <= j <= n == v@.len(),
            w == v@.subrange(i as int, n as int),
            drop_trailing_backticks(w) == drop_trailing_backticks(v@.subrange(i as int, j as int)),
        decreases j,
    {
        assert(v@.subrange(i as int, j as int).drop_last() =~= v@.subrange(i as int, j - 1));
        j = j - 1;
    }
    string_of_range(&v, i, j)
}

/// The rows that carry a record id, in order.
pub open spec fn rows_with_id(rows: Seq<ConceptRow>) -> Seq<ConceptRow>
    decreases rows.len(),
{
    if rows.len() == 0 {
        Seq::empty()
    } else {
        let rest = rows_with_id(rows.drop_last());
        if rows.last().id is Some {
            rest.push(rows.last())
        } else {
            rest
        }
    }
}

/// The graph node of a concept row that carries an id.
pub open spec fn node_of(row: ConceptRow, node: GraphNode) -> bool {
    &&& row.id matches Some(id) && node.id@ == record_key(id@)
    &&& node.name == row.name
    &&& node.display_name == row.display_name
    &&& node.domain == row.domain
}

/// The ids of the nodes.
pub open spec fn node_ids(nodes: Seq<GraphNode>) -> Seq<Seq<char>> {
    nodes.map_values(|n: GraphNode| n.id@)
}

/// Whether an edge row makes it into the graph: both its ends are known and, when the nodes
/// were filtered by domain, both ends are among the nodes.
pub open spec fn edge_kept(row: EdgeRow, ids: Seq<Seq<char>>, filtered: bool) -> bool {
    &&& row.source is Some
    &&& row.target is Some
    &&& filtered ==> ids.contains(record_key(row.source->Some_0@))
    &&& filtered ==> ids.contains(record_key(row.target->Some_0@))
}

/// The edge rows that make it into the graph, in order.
pub open spec fn kept_edges(rows: Seq<EdgeRow>, ids: Seq<Seq<char>>, filtered: bool) -> Seq<EdgeRow>
    decreases rows.len(),
{
    if rows.len() == 0 {
        Seq::empty()
    } else {
        let rest = kept_edges(rows.drop_last(), ids, filtered);
        if edge_kept(rows.last(), ids, filtered) {
            rest.push(rows.last())
        } else {
            rest
        }
    }
}

/// The graph edge of an edge row whose ends are known.
pub open spec fn edge_of(row: EdgeRow, edge: GraphEdge) -> bool {
    &&& row.source matches Some(s) && edge.source@ == record_key(s@)
    &&& row.target matches Some(t) && edge.target@ == record_key(t@)
    &&& edge.relation_type == row.relation_type
    &&& edge.strength_bits == row.strength_bits
}

/// Whether a text is among the given ones.
fn contains_id(ids: &Vec<String>, id: &str) -> (r: bool)
    ensures
        r == ids@.map_values(|s: String| s@).contains(id@),
{
    let mut i: usize = 0;
    while i < ids.len()
        invariant
            i <= ids.len(),
            forall|k: int| 0 <= k < i ==> ids@[k]@ != id@,
        decreases ids.len() - i,
    {
        if same_text(ids[i].as_str(), id) {
            assert(ids@.map_values(|s: String| s@)[i as int] == id@);
            return true;
        }
        i = i + 1;
    }
    proof {
        let texts = ids@.map_values(|s: String| s@);
        if texts.contains(id@) {
            let k = choose|k: int| 0 <= k < texts.len() && #[trigger] texts[k] == id@;
            assert(ids@[k]@ == id@);
        }
    }
    false
}

/// The graph of the concept rows and the edge rows: one node per row with an id, in order,
/// and the edges that `edge_kept` keeps, in order. `filtered` tells whether the concept rows
/// were restricted to some domains.
pub fn assemble_graph(rows: Vec<ConceptRow>, edge_rows: Vec<EdgeRow>, filtered: bool) -> (g: GraphData)
    ensures
        graph_of(rows@, edge_rows@, filtered, g),
{
    let mut nodes: Vec<GraphNode> = Vec::new();
    let mut ids: Vec<String> = Vec::new();
    let mut i: usize = 0;
    while i < rows.len()
        invariant
            i <= rows.len(),
            nodes@.len() == rows_with_id(rows@.take(i as int)).len(),
            ids@.len() == nodes@.len(),
            forall|k: int| 0 <= k < nodes@.len() ==> node_of(rows_with_id(rows@.take(i as int))[k], #[trigger] nodes@[k]),
            forall|k: int| 0 <= k < nodes@.len() ==> #[trigger] ids@[k]@ == nodes@[k].id@,
        decreases rows.len() - i,
    {
        assert(rows@.take(i + 1).drop_last() =~= rows@.take(i as int));
        let row = &rows[i];
        match &row.id {
            Some(id) => {
                let key = thing_to_uuid(id.as_str());
                ids.push(key.clone());
                nodes.push(
                    GraphNode {
                        id: key,
                        name: row.name.clone(),
                        display_name: row.display_name.clone(),
                        domain: row.domain.clone(),
                    },
                );
            },
            None => {},
        }
        i = i + 1;
    }
    assert(rows@.take(rows@.len() as int) =~= rows@);
    assert(ids@.map_values(|s: String| s@) =~= node_ids(nodes@));
    let mut edges: Vec<GraphEdge> = Vec::new();
    let mut e: usize = 0;
    while e < edge_rows.len()
        invariant
            e <= edge_rows.len(),
            ids@.map_values(|s: String| s@) == node_ids(nodes@),
            edges@.len() == kept_edges(edge_rows@.take(e as int), node_ids(nodes@), filtered).len(),
            forall|k: int|
                0 <= k < edges@.len() ==> edge_of(
                    kept_edges(edge_rows@.take(e as int), node_ids(nodes@), filtered)[k],
                    #[trigger] edges@[k],
                ),
        decreases edge_rows.len() - e,
    {
        assert(edge_rows@.take(e + 1).drop_last() =~= edge_rows@.take(e as int));
        let row = &edge_rows[e];
        match (&row.source, &row.target) {
            (Some(s), Some(t)) => {
                let src = thing_to_uuid(s.as_str());
                let tgt = thing_to_uuid(t.as_str());
                let outside = filtered && (!contains_id(&ids, src.as_str()) || !contains_id(&ids, tgt.as_str()));
                if !outside {
                    edges.push(
                        GraphEdge {
                            source: src,
                            target: tgt,
                            relation_type: row.relation_type.clone(),
                            strength_bits: row.strength_bits,
                        },
                    );
                }
            },
            _ => {},
        }
        e = e + 1;
    }
    assert(edge_rows@.take(edge_rows@.len() as int) =~= edge_rows@);
    GraphData { nodes, edges }
}

/// With a domain filter, every edge of the graph joins two of its nodes.
pub proof fn law_filtered_graph_edges_join_nodes(rows: Seq<EdgeRow>, ids: Seq<Seq<char>>)
    ensures
        forall|i: int|
            0 <= i < kept_edges(rows, ids, true).len() ==> {
                let r = #[trigger] kept_edges(rows, ids, true)[i];
                &&& r.source is Some && ids.contains(record_key(r.source->Some_0@))
                &&& r.target is Some && ids.contains(record_key(r.target->Some_0@))
            },
    decreases rows.len(),
{
    if rows.len() > 0 {
        law_filtered_graph_edges_join_nodes(rows.drop_last(), ids);
    }
}

/// A domain filter that matched no concept yields no edge.
pub proof fn law_empty_filter_yields_no_edges(rows: Seq<EdgeRow>)
    ensures
        kept_edges(rows, Seq::empty(), true).len() == 0,
    decreases rows.len(),
{
    if rows.len() > 0 {
        law_empty_filter_yields_no_edges(rows.drop_last());
    }
}

/// Where a concept-detail read stands: each state waits for the rows of the query that led to
/// it.
pub enum DetailState {
    LoadingConcept { id: String },
    LoadingMentions { id: String, concept: Concept },
    LoadingBooks { id: String, concept: Concept },
    LoadingRelated { concept: Concept, books: Vec<ConceptBook> },
    Finished,
}

/// The rows of the last query.
pub enum DetailEvent {
    ConceptRows { result: Result<Vec<ConceptRow>, RepoError> },
    /// The rendered ids of the insights that mention the concept.
    MentionRows { result: Result<Vec<Option<String>>, RepoError> },
    WorkRows { result: Result<Vec<WorkRow>, RepoError> },
    RelatedRows { result: Result<Vec<RelatedRow>, RepoError> },
}

/// What the repository does next.
pub enum DetailAction {
    /// Run `query` (the concept with record key `$id`), with `id` bound to `$id`.
    QueryConcept { query: String, id: String },
    /// Run `query` (the insights whose `menciona` edges point at concept `$id`).
    QueryMentions { query: String, id: String },
    /// Run `query` (the works whose `interpreta` edges point at the insights bound to
    /// `$insight_ids`, given by their rendered ids).
    QueryWorks { query: String, insight_ids: Vec<String> },
    /// Run `query` (the outbound `relacionado_a` edges of concept `$id`).
    QueryRelated { query: String, id: String },
    /// The read is over.
    Done { result: Result<Option<ConceptDetail>, RepoError> },
}

impl DetailState {
    /// The rows that answer the query this state waits on.
    pub open spec fn awaits(&self, event: &DetailEvent) -> bool {
        match (self, event) {
            (DetailState::LoadingConcept { .. }, DetailEvent::ConceptRows { .. }) => true,
            (DetailState::LoadingMentions { .. }, DetailEvent::MentionRows { .. }) => true,
            (DetailState::LoadingBooks { .. }, DetailEvent::WorkRows { .. }) => true,
            (DetailState::LoadingRelated { .. }, DetailEvent::RelatedRows { .. }) => true,
            _ => false,
        }
    }
}

/// The concept of a concept row with an id; a missing description reads as empty.
pub open spec fn concept_of(row: ConceptRow, c: Concept) -> bool {
    &&& row.id matches Some(id) && c.id@ == record_key(id@)
    &&& c.name == row.name
    &&& c.display_name == row.display_name
    &&& c.description@ == match row.description {
        Some(d) => d@,
        None => Seq::empty(),
    }
    &&& c.domain == row.domain
}

/// The ids present among the mention rows, in order.
pub open spec fn present_ids(rows: Seq<Option<String>>) -> Seq<Seq<char>>
    decreases rows.len(),
{
    if rows.len() == 0 {
        Seq::empty()
    } else {
        let rest = present_ids(rows.drop_last());
        match rows.last() {
            Some(id) => rest.push(id@),
            None => rest,
        }
    }
}

/// The work rows with an id, in order.
pub open spec fn works_with_id(rows: Seq<WorkRow>) -> Seq<WorkRow>
    decreases rows.len(),
{
    if rows.len() == 0 {
        Seq::empty()
    } else {
        let rest = works_with_id(rows.drop_last());
        if rows.last().work_id is Some {
            rest.push(rows.last())
        } else {
            rest
        }
    }
}

/// The book of a work row with an id.
pub open spec fn book_of(row: WorkRow, b: ConceptBook) -> bool {
    &&& row.work_id matches Some(id) && b.work_id@ == record_key(id@)
    &&& b.title == row.title
    &&& b.author == row.author
}

/// The related rows with a concept id, in order.
pub open spec fn related_with_id(rows: Seq<RelatedRow>) -> Seq<RelatedRow>
    decreases rows.len(),
{
    if rows.len() == 0 {
        Seq::empty()
    } else {
        let rest = related_with_id(rows.drop_last());
        if rows.last().concept_id is Some {
            rest.push(rows.last())
        } else {
            rest
        }
    }
}

/// The summary of a related row with a concept id.
pub open spec fn summary_of(row: RelatedRow, s: RelatedConceptSummary) -> bool {
    &&& row.concept_id matches Some(id) && s.id@ == record_key(id@)
    &&& s.display_name == row.display_name
    &&& s.domain == row.domain
    &&& s.relation_type == row.relation_type
    &&& s.strength_bits == row.strength_bits
}

/// The books of the work rows: one per row with an id, in order.
pub open spec fn books_of(rows: Seq<WorkRow>, books: Seq<ConceptBook>) -> bool {
    &&& books.len() == works_with_id(rows).len()
    &&& forall|i: int| 0 <= i < books.len() ==> book_of(works_with_id(rows)[i], #[trigger] books[i])
}

/// The related summaries of the related rows: one per row with a concept id, in order.
pub open spec fn summaries_of(rows: Seq<RelatedRow>, related: Seq<RelatedConceptSummary>) -> bool {
    &&& related.len() == related_with_id(rows).len()
    &&& forall|i: int| 0 <= i < related.len() ==> summary_of(related_with_id(rows)[i], #[trigger] related[i])
}

fn concept_books(rows: Vec<WorkRow>) -> (books: Vec<ConceptBook>)
    ensures
        books_of(rows@, books@),
{
    let mut books: Vec<ConceptBook> = Vec::new();
    let mut i: usize = 0;
    while i < rows.len()
        invariant
            i <= rows.len(),
            books_of(rows@.take(i as int), books@),
        decreases rows.len() - i,
    {
        assert(rows@.take(i + 1).drop_last() =~= rows@.take(i as int));
        let row = &rows[i];
        match &row.work_id {
            Some(id) => {
                books.push(
                    ConceptBook {
                        work_id: thing_to_uuid(id.as_str()),
                        title: row.title.clone(),
                        author: row.author.clone(),
                    },
                );
            },
            None => {},
        }
        i = i + 1;
    }
    assert(rows@.take(rows@.len() as int) =~= rows@);
    books
}

fn related_summaries(rows: Vec<RelatedRow>) -> (related: Vec<RelatedConceptSummary>)
    ensures
        summaries_of(rows@, related@),
{
    let mut related: Vec<RelatedConceptSummary> = Vec::new();
    let mut i: usize = 0;
    while i < rows.len()
        invariant
            i <= rows.len(),
            summaries_of(rows@.take(i as int), related@),
        decreases rows.len() - i,
    {
        assert(rows@.take(i + 1).drop_last() =~= rows@.take(i as int));
        let row = &rows[i];
        match &row.concept_id {
            Some(id) => {
                related.push(
                    RelatedConceptSummary {
                        id: thing_to_uuid(id.as_str()),
                        display_name: row.display_name.clone(),
                        domain: row.domain.clone(),
                        relation_type: row.relation_type.clone(),
                        strength_bits: row.strength_bits,
                    },
                );
            },
            None => {},
        }
        i = i + 1;
    }
    assert(rows@.take(rows@.len() as int) =~= rows@);
    related
}

fn mentioned_insights(rows: Vec<Option<String>>) -> (ids: Vec<String>)
    ensures
        ids@.map_values(|s: String| s@) == present_ids(rows@),
{
    let mut ids: Vec<String> = Vec::new();
    let mut i: usize = 0;
    while i < rows.len()
        invariant
            i <= rows.len(),
            ids@.map_values(|s: String| s@) == present_ids(rows@.take(i as int)),
        decreases rows.len() - i,
    {
        assert(rows@.take(i + 1).drop_last() =~= rows@.take(i as int));
        match &rows[i] {
            Some(id) => {
                let ghost before = ids@;
                ids.push(id.clone());
                assert(ids@.map_values(|s: String| s@) =~= before.map_values(|s: String| s@).push(id@));
            },
            None => {},
        }
        i = i + 1;
    }
    assert(rows@.take(rows@.len() as int) =~= rows@);
    ids
}

/// The concept query: the concept whose record id is `concept:$id`.
pub open spec fn concept_by_id_query() -> Seq<char> {
    "SELECT id, name, display_name, description, domain FROM concept WHERE id = type::thing('concept', $id) LIMIT 1"@
}

/// The mention query: the insights at the `in` end of the `menciona` edges whose `out` end is
/// `concept:$id`.
pub open spec fn mentions_query() -> Seq<char> {
    "SELECT in AS insight_id FROM menciona WHERE out = type::thing('concept', $id)"@
}

/// The book query: the works at the `in` end of the `interpreta` edges whose `out` end is one
/// of the insights in `$insight_ids`, with their titles and authors.
pub open spec fn works_query() -> Seq<char> {
    "SELECT in AS work_id, in.title AS title, in.author AS author FROM interpreta WHERE out IN $insight_ids"@
}

/// The related query: only the outbound `relacionado_a` edges, those whose `in` end is
/// `concept:$id`, with the concept at their `out` end.
pub open spec fn related_query() -> Seq<char> {
    "SELECT out AS concept_id, out.display_name AS display_name, out.domain AS domain, relation_type, strength FROM relacionado_a WHERE in = type::thing('concept', $id)"@
}

fn concept_by_id_text() -> (q: String)
    ensures
        q@ == concept_by_id_query(),
{
    owned(
        "SELECT id, name, display_name, description, domain FROM concept WHERE id = type::thing('concept', $id) LIMIT 1",
    )
}

fn mentions_text() -> (q: String)
    ensures
        q@ == mentions_query(),
{
    owned("SELECT in AS insight_id FROM menciona WHERE out = type::thing('concept', $id)")
}

fn works_text() -> (q: String)
    ensures
        q@ == works_query(),
{
    owned("SELECT in AS work_id, in.title AS title, in.author AS author FROM interpreta WHERE out IN $insight_ids")
}

fn related_text() -> (q: String)
    ensures
        q@ == related_query(),
{
    owned(
        "SELECT out AS concept_id, out.display_name AS display_name, out.domain AS domain, relation_type, strength FROM relacionado_a WHERE in = type::thing('concept', $id)",
    )
}

/// Starts reading the detail of the concept with record key `id`: the concept query, with
/// `id` bound.
pub fn get_concept_detail(id: String) -> (r: (DetailState, DetailAction))
    ensures
        r.0 == (DetailState::LoadingConcept { id }),
        r.1 matches DetailAction::QueryConcept { query, id: i } && query@ == concept_by_id_query() && i == id,
{
    let asked = id.clone();
    (DetailState::LoadingConcept { id }, DetailAction::QueryConcept { query: concept_by_id_text(), id: asked })
}

/// One step of a concept-detail read: from its state and the rows of the last query, the next
/// state and the next query (or the result).
pub open spec fn detail_transition(
    state: DetailState,
    event: DetailEvent,
    next: DetailState,
    action: DetailAction,
) -> bool {
    match (state, event) {
        (DetailState::LoadingConcept { id }, DetailEvent::ConceptRows { result }) => match result {
            Err(e) => next is Finished && action == (DetailAction::Done { result: Err(e) }),
            Ok(rows) => if rows@.len() == 0 || rows@[0].id is None {
                next is Finished && (action matches DetailAction::Done { result: Ok(None) })
            } else {
                &&& next matches DetailState::LoadingMentions { id: i, concept } && i == id && concept_of(
                    rows@[0],
                    concept,
                )
                &&& action matches DetailAction::QueryMentions { query, id: i } && query@ == mentions_query()
                    && i@ == id@
            },
        },
        (DetailState::LoadingMentions { id, concept }, DetailEvent::MentionRows { result }) => match result {
            Err(e) => next is Finished && action == (DetailAction::Done { result: Err(e) }),
            Ok(rows) => if present_ids(rows@).len() == 0 {
                &&& next matches DetailState::LoadingRelated { concept: c, books } && c == concept && books@.len() == 0
                &&& action matches DetailAction::QueryRelated { query, id: i } && query@ == related_query()
                    && i@ == id@
            } else {
                &&& next matches DetailState::LoadingBooks { id: i, concept: c } && i == id && c == concept
                &&& action matches DetailAction::QueryWorks { query, insight_ids } && query@ == works_query()
                    && insight_ids@.map_values(|s: String| s@) == present_ids(rows@)
            },
        },
        (DetailState::LoadingBooks { id, concept }, DetailEvent::WorkRows { result }) => match result {
            Err(e) => next is Finished && action == (DetailAction::Done { result: Err(e) }),
            Ok(rows) => {
                &&& next matches DetailState::LoadingRelated { concept: c, books } && c == concept && books_of(
                    rows@,
                    books@,
                )
                &&& action matches DetailAction::QueryRelated { query, id: i } && query@ == related_query()
                    && i@ == id@
            },
        },
        (DetailState::LoadingRelated { concept, books }, DetailEvent::RelatedRows { result }) => {
            &&& next is Finished
            &&& match result {
                Err(e) => action == (DetailAction::Done { result: Err(e) }),
                Ok(rows) => action matches DetailAction::Done { result: Ok(Some(detail)) }
                    && detail.concept == concept && detail.books == books && summaries_of(
                    rows@,
                    detail.related_concepts@,
                ),
            }
        },
        _ => false,
    }
}

/// Advances a concept-detail read by one step.
pub fn step_concept_detail(state: DetailState, event: DetailEvent) -> (r: (DetailState, DetailAction))
    requires
        state.awaits(&event),
    ensures
        detail_transition(state, event, r.0, r.1),
{
    match (state, event) {
        (DetailState::LoadingConcept { id }, DetailEvent::ConceptRows { result }) => match result {
            Err(e) => (DetailState::Finished, DetailAction::Done { result: Err(e) }),
            Ok(rows) => {
                if rows.len() == 0 {
                    return (DetailState::Finished, DetailAction::Done { result: Ok(None) });
                }
                let row = &rows[0];
                match &row.id {
                    None => (DetailState::Finished, DetailAction::Done { result: Ok(None) }),
                    Some(rendered) => {
                        let concept = Concept {
                            id: thing_to_uuid(rendered.as_str()),
                            name: row.name.clone(),
                            display_name: row.display_name.clone(),
                            description: match &row.description {
                                Some(d) => d.clone(),
                                None => String::new(),
                            },
                            domain: row.domain.clone(),
                        };
                        let asked = id.clone();
                        (
                            DetailState::LoadingMentions { id, concept },
                            DetailAction::QueryMentions { query: mentions_text(), id: asked },
                        )
                    },
                }
            },
        },
        (DetailState::LoadingMentions { id, concept }, DetailEvent::MentionRows { result }) => match result {
            Err(e) => (DetailState::Finished, DetailAction::Done { result: Err(e) }),
            Ok(rows) => {
                let insight_ids = mentioned_insights(rows);
                if insight_ids.len() == 0 {
                    (
                        DetailState::LoadingRelated { concept, books: Vec::new() },
                        DetailAction::QueryRelated { query: related_text(), id },
                    )
                } else {
                    let asked = insight_ids;
                    (
                        DetailState::LoadingBooks { id, concept },
                        DetailAction::QueryWorks { query: works_text(), insight_ids: asked },
                    )
                }
            },
        },
        (DetailState::LoadingBooks { id, concept }, DetailEvent::WorkRows { result }) => match result {
            Err(e) => (DetailState::Finished, DetailAction::Done { result: Err(e) }),
            Ok(rows) => {
                let books = concept_books(rows);
                (
                    DetailState::LoadingRelated { concept, books },
                    DetailAction::QueryRelated { query: related_text(), id },
                )
            },
        },
        (DetailState::LoadingRelated { concept, books }, DetailEvent::RelatedRows { result }) => match result {
            Err(e) => (DetailState::Finished, DetailAction::Done { result: Err(e) }),
            Ok(rows) => {
                let related_concepts = related_summaries(rows);
                (
                    DetailState::Finished,
                    DetailAction::Done { result: Ok(Some(ConceptDetail { concept, books, related_concepts })) },
                )
            },
        },
        _ => (DetailState::Finished, DetailAction::Done { result: Ok(None) }),
    }
}

/// The node query: all concepts, or those of the requested domains.
pub open spec fn node_query(filtered: bool) -> Seq<char> {
    if filtered {
        "SELECT id, name, display_name, description, domain FROM concept WHERE domain IN $domains"@
    } else {
        "SELECT id, name, display_name, description, domain FROM concept"@
    }
}

/// The edge query: every `relacionado_a` edge.
pub open spec fn edge_query() -> Seq<char> {
    "SELECT in AS source, out AS target, relation_type, strength FROM relacionado_a"@
}

/// Where a graph read stands.
pub enum GraphReadState {
    LoadingNodes { filtered: bool },
    LoadingEdges { rows: Vec<ConceptRow>, filtered: bool },
    Finished,
}

/// The rows of the last query.
pub enum GraphReadEvent {
    NodeRows { result: Result<Vec<ConceptRow>, RepoError> },
    EdgeRows { result: Result<Vec<EdgeRow>, RepoError> },
}

/// What the repository does next.
pub enum GraphReadAction {
    /// Run the node query, with the domains bound to `$domains` when there are some.
    QueryNodes { query: String, domains: Option<Vec<String>> },
    QueryEdges { query: String },
    Done { result: Result<GraphData, RepoError> },
}

impl GraphReadState {
    /// The rows that answer the query this state waits on.
    pub open spec fn awaits(&self, event: &GraphReadEvent) -> bool {
        match (self, event) {
            (GraphReadState::LoadingNodes { .. }, GraphReadEvent::NodeRows { .. }) => true,
            (GraphReadState::LoadingEdges { .. }, GraphReadEvent::EdgeRows { .. }) => true,
            _ => false,
        }
    }
}

/// Starts reading the graph, of the given domains or of all.
pub fn get_graph(domains: Option<Vec<String>>) -> (r: (GraphReadState, GraphReadAction))
    ensures
        r.0 == (GraphReadState::LoadingNodes { filtered: domains is Some }),
        r.1 matches GraphReadAction::QueryNodes { query, domains: d } && query@ == node_query(domains is Some)
            && d == domains,
{
    let filtered = match &domains {
        Some(_) => true,
        None => false,
    };
    let query = if filtered {
        owned("SELECT id, name, display_name, description, domain FROM concept WHERE domain IN $domains")
    } else {
        owned("SELECT id, name, display_name, description, domain FROM concept")
    };
    (GraphReadState::LoadingNodes { filtered }, GraphReadAction::QueryNodes { query, domains })
}

/// The graph assembled from the rows.
pub open spec fn graph_of(rows: Seq<ConceptRow>, edge_rows: Seq<EdgeRow>, filtered: bool, g: GraphData) -> bool {
    &&& g.nodes@.len() == rows_with_id(rows).len()
    &&& forall|i: int| 0 <= i < g.nodes@.len() ==> node_of(rows_with_id(rows)[i], #[trigger] g.nodes@[i])
    &&& g.edges@.len() == kept_edges(edge_rows, node_ids(g.nodes@), filtered).len()
    &&& forall|i: int|
        0 <= i < g.edges@.len() ==> edge_of(
            kept_edges(edge_rows, node_ids(g.nodes@), filtered)[i],
            #[trigger] g.edges@[i],
        )
}

/// One step of a graph read.
pub open spec fn graph_read_transition(
    state: GraphReadState,
    event: GraphReadEvent,
    next: GraphReadState,
    action: GraphReadAction,
) -> bool {
    match (state, event) {
        (GraphReadState::LoadingNodes { filtered }, GraphReadEvent::NodeRows { result }) => match result {
            Err(e) => next is Finished && action == (GraphReadAction::Done { result: Err(e) }),
            Ok(rows) => next == (GraphReadState::LoadingEdges { rows, filtered }) && (
            action matches GraphReadAction::QueryEdges { query } && query@ == edge_query()),
        },
        (GraphReadState::LoadingEdges { rows, filtered }, GraphReadEvent::EdgeRows { result }) => {
            &&& next is Finished
            &&& match result {
                Err(e) => action == (GraphReadAction::Done { result: Err(e) }),
                Ok(edge_rows) => action matches GraphReadAction::Done { result: Ok(g) } && graph_of(
                    rows@,
                    edge_rows@,
                    filtered,
                    g,
                ),
            }
        },
        _ => false,
    }
}

/// Advances a graph read by one step.
pub fn step_graph_read(state: GraphReadState, event: GraphReadEvent) -> (r: (GraphReadState, GraphReadAction))
    requires
        state.awaits(&event),
    ensures
        graph_read_transition(state, event, r.0, r.1),
{
    match (state, event) {
        (GraphReadState::LoadingNodes { filtered }, GraphReadEvent::NodeRows { result }) => match result {
            Err(e) => (GraphReadState::Finished, GraphReadAction::Done { result: Err(e) }),
            Ok(rows) => (
                GraphReadState::LoadingEdges { rows, filtered },
                GraphReadAction::QueryEdges {
                    query: owned("SELECT in AS source, out AS target, relation_type, strength FROM relacionado_a"),
                },
            ),
        },
        (GraphReadState::LoadingEdges { rows, filtered }, GraphReadEvent::EdgeRows { result }) => match result {
            Err(e) => (GraphReadState::Finished, GraphReadAction::Done { result: Err(e) }),
            Ok(edge_rows) => (
                GraphReadState::Finished,
                GraphReadAction::Done { result: Ok(assemble_graph(rows, edge_rows, filtered)) },
            ),
        },
        _ => (GraphReadState::Finished, GraphReadAction::Done { result: Err(RepoError::NotFound) }),
    }
}

/// The edge rows a graph keeps come from the given rows, in their order.
proof fn lemma_kept_edges_come_from_rows(rows: Seq<EdgeRow>, ids: Seq<Seq<char>>, filtered: bool)
    ensures
        kept_edges(rows, ids, filtered).len() <= rows.len(),
        forall|i: int|
            0 <= i < kept_edges(rows, ids, filtered).len() ==> exists|j: int|
                0 <= j < rows.len() && rows[j] == #[trigger] kept_edges(rows, ids, filtered)[i],
    decreases rows.len(),
{
    if rows.len() > 0 {
        lemma_kept_edges_come_from_rows(rows.drop_last(), ids, filtered);
        let rest = kept_edges(rows.drop_last(), ids, filtered);
        assert forall|i: int| 0 <= i < kept_edges(rows, ids, filtered).len() implies exists|j: int|
            0 <= j < rows.len() && rows[j] == #[trigger] kept_edges(rows, ids, filtered)[i] by {
            if i < rest.len() {
                let j = choose|j: int| 0 <= j < rows.drop_last().len() && rows.drop_last()[j] == rest[i];
                assert(rows[j] == rows.drop_last()[j]);
            } else {
                assert(rows[rows.len() - 1] == rows.last());
            }
        }
    }
}

/// Each node and each edge of an assembled graph carries what its row says: a node the key,
/// names and domain of its concept row; an edge the keys of its two ends, its relation type
/// and its strength, taken from an edge row that was read, and only from such a row.
pub proof fn law_graph_carries_its_rows(
    rows: Seq<ConceptRow>,
    edge_rows: Seq<EdgeRow>,
    filtered: bool,
    g: GraphData,
)
    requires
        graph_of(rows, edge_rows, filtered, g),
    ensures
        g.nodes@.len() <= rows.len(),
        forall|i: int|
            #![trigger g.nodes@[i]]
            0 <= i < g.nodes@.len() ==> g.nodes@[i].id@ == record_key(
                rows_with_id(rows)[i].id->Some_0@,
            ) && g.nodes@[i].name == rows_with_id(rows)[i].name && g.nodes@[i].display_name == rows_with_id(
                rows,
            )[i].display_name && g.nodes@[i].domain == rows_with_id(rows)[i].domain,
        forall|i: int|
            #![trigger g.edges@[i]]
            0 <= i < g.edges@.len() ==> (exists|j: int|
                0 <= j < edge_rows.len() && edge_rows[j] == kept_edges(edge_rows, node_ids(g.nodes@), filtered)[i])
                && g.edges@[i].source@ == record_key(
                kept_edges(edge_rows, node_ids(g.nodes@), filtered)[i].source->Some_0@,
            ) && g.edges@[i].target@ == record_key(
                kept_edges(edge_rows, node_ids(g.nodes@), filtered)[i].target->Some_0@,
            ) && g.edges@[i].relation_type == kept_edges(edge_rows, node_ids(g.nodes@), filtered)[i].relation_type
                && g.edges@[i].strength_bits == kept_edges(edge_rows, node_ids(g.nodes@), filtered)[i].strength_bits,
{
    lemma_rows_with_id_shorter(rows);
    let kept = kept_edges(edge_rows, node_ids(g.nodes@), filtered);
    lemma_kept_edges_come_from_rows(edge_rows, node_ids(g.nodes@), filtered);
    assert forall|i: int| #![trigger g.nodes@[i]] 0 <= i < g.nodes@.len() implies rows_with_id(rows)[i].id is Some
        && g.nodes@[i].id@ == record_key(rows_with_id(rows)[i].id->Some_0@) && g.nodes@[i].name == rows_with_id(
        rows,
    )[i].name && g.nodes@[i].display_name == rows_with_id(rows)[i].display_name && g.nodes@[i].domain
        == rows_with_id(rows)[i].domain by {
        assert(node_of(rows_with_id(rows)[i], g.nodes@[i]));
    }
    assert forall|i: int| #![trigger g.edges@[i]] 0 <= i < g.edges@.len() implies (exists|j: int|
        0 <= j < edge_rows.len() && edge_rows[j] == kept[i]) && kept[i].source is Some && kept[i].target is Some
        && g.edges@[i].source@ == record_key(kept[i].source->Some_0@) && g.edges@[i].target@ == record_key(
        kept[i].target->Some_0@,
    ) && g.edges@[i].relation_type == kept[i].relation_type && g.edges@[i].strength_bits == kept[i].strength_bits by {
        assert(edge_of(kept[i], g.edges@[i]));
        assert(exists|j: int| 0 <= j < edge_rows.len() && edge_rows[j] == #[trigger] kept[i]);
    }
}

proof fn lemma_rows_with_id_shorter(rows: Seq<ConceptRow>)
    ensures
        rows_with_id(rows).len() <= rows.len(),
    decreases rows.len(),
{
    if rows.len() > 0 {
        lemma_rows_with_id_shorter(rows.drop_last());
    }
}

} // verus!
