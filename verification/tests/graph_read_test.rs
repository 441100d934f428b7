use knowledge_vault::adapters::surreal::graph_read::{
    assemble_graph, get_concept_detail, get_graph, step_concept_detail, step_graph_read, thing_to_uuid, ConceptRow,
    DetailAction, DetailEvent, DetailState, EdgeRow, GraphReadAction, GraphReadEvent, RelatedRow, WorkRow,
};
use knowledge_vault::domain::concept::ConceptDetail;
use knowledge_vault::ports::repository::RepoError;
use knowledge_vault::web::handlers::graph::{get_api_concept_by_id, get_api_graph, parse_domains, GraphQueryParams};

fn row(id: Option<&str>, name: &str, domain: &str) -> ConceptRow {
    ConceptRow {
        id: id.map(|s| s.to_string()),
        name: name.into(),
        display_name: name.to_uppercase(),
        description: None,
        domain: domain.into(),
    }
}

fn edge(s: Option<&str>, t: Option<&str>) -> EdgeRow {
    EdgeRow { source: s.map(|x| x.to_string()), target: t.map(|x| x.to_string()), relation_type: "related".into(), strength_bits: 0 }
}

#[test]
fn record_keys_lose_their_backticks() {
    assert_eq!(thing_to_uuid("`abc-1`"), "abc-1");
    assert_eq!(thing_to_uuid("``x``"), "x");
    assert_eq!(thing_to_uuid("plain"), "plain");
    assert_eq!(thing_to_uuid("a`b"), "a`b");
    assert_eq!(thing_to_uuid(""), "");
}

#[test]
fn nodes_are_the_rows_with_ids() {
    let g = assemble_graph(vec![row(Some("`a`"), "alpha", "x"), row(None, "ghost", "x"), row(Some("b"), "beta", "y")], vec![], false);
    assert_eq!(g.nodes.len(), 2);
    assert_eq!((g.nodes[0].id.as_str(), g.nodes[0].name.as_str()), ("a", "alpha"));
    assert_eq!(g.nodes[1].id, "b");
    assert_eq!(g.nodes[1].display_name, "BETA");
}

#[test]
fn a_filtered_graph_keeps_only_edges_between_its_nodes() {
    let g = assemble_graph(
        vec![row(Some("a"), "alpha", "x"), row(Some("b"), "beta", "x")],
        vec![edge(Some("`a`"), Some("b")), edge(Some("a"), Some("c")), edge(None, Some("a"))],
        true,
    );
    assert_eq!(g.edges.len(), 1);
    assert_eq!((g.edges[0].source.as_str(), g.edges[0].target.as_str()), ("a", "b"));
}

#[test]
fn an_unfiltered_graph_keeps_every_edge_with_both_ends() {
    let g = assemble_graph(vec![row(Some("a"), "alpha", "x")], vec![edge(Some("a"), Some("c")), edge(Some("d"), None)], false);
    assert_eq!(g.edges.len(), 1);
    assert_eq!(g.edges[0].target, "c");
}

#[test]
fn a_filter_that_matched_nothing_yields_no_edge() {
    let g = assemble_graph(vec![], vec![edge(Some("a"), Some("c"))], true);
    assert_eq!(g.nodes.len(), 0);
    assert_eq!(g.edges.len(), 0);
}

#[test]
fn the_graph_read_queries_nodes_then_edges() {
    let (state, action) = get_graph(Some(vec!["x".into()]));
    match &action {
        GraphReadAction::QueryNodes { query, domains } => {
            assert!(query.ends_with("WHERE domain IN $domains"));
            assert_eq!(domains, &Some(vec!["x".to_string()]));
        }
        _ => panic!("expected the node query"),
    }
    let (state, action) = step_graph_read(state, GraphReadEvent::NodeRows { result: Ok(vec![row(Some("a"), "alpha", "x")]) });
    match &action {
        GraphReadAction::QueryEdges { query } => {
            assert_eq!(query, "SELECT in AS source, out AS target, relation_type, strength FROM relacionado_a")
        }
        _ => panic!("expected the edge query"),
    }
    let (_, action) = step_graph_read(state, GraphReadEvent::EdgeRows { result: Ok(vec![edge(Some("a"), Some("z"))]) });
    match action {
        GraphReadAction::Done { result: Ok(g) } => {
            assert_eq!(g.nodes.len(), 1);
            assert_eq!(g.edges.len(), 0);
        }
        _ => panic!("expected the graph"),
    }
    let (_, action) = get_graph(None);
    match action {
        GraphReadAction::QueryNodes { query, domains } => {
            assert_eq!(query, "SELECT id, name, display_name, description, domain FROM concept");
            assert!(domains.is_none());
        }
        _ => panic!("expected the node query"),
    }
}

#[test]
fn a_concept_detail_is_read_in_four_queries() {
    let (state, action) = get_concept_detail("c1".into());
    match &action {
        DetailAction::QueryConcept { query, id } => {
            assert_eq!(id, "c1");
            assert!(query.contains("FROM concept WHERE id = type::thing('concept', $id)"));
        }
        _ => panic!("expected the concept query"),
    }
    let (state, action) = step_concept_detail(state, DetailEvent::ConceptRows { result: Ok(vec![row(Some("`c1`"), "alpha", "x")]) });
    match &action {
        DetailAction::QueryMentions { query, id } => {
            assert_eq!(id, "c1");
            assert!(query.contains("FROM menciona WHERE out = type::thing('concept', $id)"));
        }
        _ => panic!("expected the mention query"),
    }
    let (state, action) = step_concept_detail(state, DetailEvent::MentionRows { result: Ok(vec![Some("i1".into()), None]) });
    match &action {
        DetailAction::QueryWorks { query, insight_ids } => {
            assert_eq!(insight_ids, &vec!["i1".to_string()]);
            assert!(query.contains("FROM interpreta WHERE out IN $insight_ids"));
        }
        _ => panic!("expected the work query"),
    }
    let works = vec![WorkRow { work_id: Some("`w1`".into()), title: "T".into(), author: "A".into() }, WorkRow { work_id: None, title: "X".into(), author: "Y".into() }];
    let (state, action) = step_concept_detail(state, DetailEvent::WorkRows { result: Ok(works) });
    match &action {
        DetailAction::QueryRelated { query, id } => {
            assert_eq!(id, "c1");
            assert!(query.contains("FROM relacionado_a WHERE in = type::thing('concept', $id)"));
        }
        _ => panic!("expected the related query"),
    }
    let related = vec![RelatedRow { concept_id: Some("c2".into()), display_name: "Beta".into(), domain: "y".into(), relation_type: "related".into(), strength_bits: 7 }];
    let (_, action) = step_concept_detail(state, DetailEvent::RelatedRows { result: Ok(related) });
    match action {
        DetailAction::Done { result: Ok(Some(d)) } => {
            assert_eq!(d.concept.id, "c1");
            assert_eq!(d.concept.description, "");
            assert_eq!(d.books.len(), 1);
            assert_eq!(d.books[0].work_id, "w1");
            assert_eq!(d.related_concepts.len(), 1);
            assert_eq!(d.related_concepts[0].strength_bits, 7);
        }
        _ => panic!("expected the detail"),
    }
}

#[test]
fn without_mentions_no_work_query_is_made() {
    let (state, _) = get_concept_detail("c1".into());
    let (state, _) = step_concept_detail(state, DetailEvent::ConceptRows { result: Ok(vec![row(Some("c1"), "alpha", "x")]) });
    let (state, action) = step_concept_detail(state, DetailEvent::MentionRows { result: Ok(vec![None]) });
    assert!(matches!(action, DetailAction::QueryRelated { .. }));
    assert!(matches!(state, DetailState::LoadingRelated { .. }));
}

#[test]
fn a_missing_concept_is_none_and_errors_pass_through() {
    let (state, _) = get_concept_detail("c1".into());
    let (_, action) = step_concept_detail(state, DetailEvent::ConceptRows { result: Ok(vec![]) });
    assert!(matches!(action, DetailAction::Done { result: Ok(None) }));
    let (state, _) = get_concept_detail("c1".into());
    let (_, action) = step_concept_detail(state, DetailEvent::ConceptRows { result: Ok(vec![row(None, "a", "x")]) });
    assert!(matches!(action, DetailAction::Done { result: Ok(None) }));
    let (state, _) = get_concept_detail("c1".into());
    let (_, action) = step_concept_detail(state, DetailEvent::ConceptRows { result: Err(RepoError::NotFound) });
    assert!(matches!(action, DetailAction::Done { result: Err(RepoError::NotFound) }));
}

#[test]
fn requested_domains_are_trimmed_and_non_empty() {
    assert_eq!(
        parse_domains(GraphQueryParams { domain: Some(" philosophy, ,science ,".into()) }),
        Some(vec!["philosophy".to_string(), "science".to_string()])
    );
    assert_eq!(parse_domains(GraphQueryParams { domain: Some(" , ".into()) }), None);
    assert_eq!(parse_domains(GraphQueryParams { domain: None }), None);
}

#[test]
fn graph_api_replies() {
    let e = get_api_graph(Err(RepoError::Internal("x".into()))).err().unwrap();
    assert_eq!((e.status, e.error.as_str()), (500, "internal_error"));
    let e = get_api_concept_by_id(Ok(None::<ConceptDetail>)).err().unwrap();
    assert_eq!((e.status, e.message), (404, Some("Concept not found".to_string())));
}
