use knowledge_vault::adapters::surreal::graph_write::{build_transaction_sql, fresh_graph_ids, prepare_graph_write, BindValue, GraphIds};
use knowledge_vault::domain::insight::{ExtractedConcept, GeminiResponse, RelatedConceptRef};
use knowledge_vault::ports::repository::RepoError;

const WORK: &str = "11111111-1111-4111-8111-111111111111";
const INSIGHT: &str = "22222222-2222-4222-8222-222222222222";

fn response() -> GeminiResponse {
    GeminiResponse {
        summary: "A book about code.".into(),
        key_points: vec!["one".into(), "two".into()],
        concepts: vec![ExtractedConcept {
            name: "ignored".into(),
            display_name: "  Clean Code ".into(),
            description: "Readable code; '); DROP".into(),
            domain: "software".into(),
            relevance_weight_bits: 0.75f64.to_bits(),
            related_concepts: vec![RelatedConceptRef {
                name: "Refactoring".into(),
                relation_type: "related".into(),
                strength_bits: 0.5f64.to_bits(),
            }],
        }],
    }
}

fn ids() -> GraphIds {
    GraphIds {
        concept_ids: vec!["33333333-3333-4333-8333-333333333333".into()],
        related_ids: vec![vec!["44444444-4444-4444-8444-444444444444".into()]],
    }
}

fn is_uuid(s: &str) -> bool {
    s.len() == 36
        && s.chars().enumerate().all(|(i, c)| {
            if [8, 13, 18, 23].contains(&i) {
                c == '-'
            } else {
                c.is_ascii_digit() || ('a'..='f').contains(&c)
            }
        })
}

#[test]
fn the_transaction_text_is_exactly_the_expected_statements() {
    let (sql, _) = build_transaction_sql(WORK, INSIGHT, &response(), "{}", &ids());
    let expected: String = [
        "BEGIN TRANSACTION;\n",
        "LET $existing_insight = (SELECT out FROM interpreta WHERE in = type::thing('work', '11111111-1111-4111-8111-111111111111') LIMIT 1);\n",
        "IF array::len($existing_insight) = 0 THEN (CREATE insight:`22222222-2222-4222-8222-222222222222` SET summary = $summary, key_points = $key_points, raw_gemini_response = $raw_json, created_at = time::now()) END;\n",
        "IF array::len($existing_insight) = 0 THEN (RELATE work:`11111111-1111-4111-8111-111111111111`->interpreta->insight:`22222222-2222-4222-8222-222222222222`) END;\n",
        "LET $c0_existing = (SELECT id FROM concept WHERE name = $cname_0 LIMIT 1);\n",
        "LET $c0_id = IF array::len($c0_existing) > 0 THEN $c0_existing[0].id ELSE (CREATE concept:`33333333-3333-4333-8333-333333333333` SET name = $cname_0, display_name = $cdisplay_0, description = $cdesc_0, domain = $cdom_0, created_at = time::now() RETURN id)[0].id END;\n",
        "LET $eff_insight_0 = IF array::len($existing_insight) = 0 THEN insight:`22222222-2222-4222-8222-222222222222` ELSE $existing_insight[0].out END;\n",
        "LET $m0_existing = (SELECT id FROM menciona WHERE in = $eff_insight_0 AND out = $c0_id LIMIT 1);\n",
        "IF array::len($m0_existing) = 0 THEN (RELATE $eff_insight_0->menciona->$c0_id SET relevance_weight = $cweight_0) END;\n",
        "LET $r0_0_existing = (SELECT id FROM concept WHERE name = $rname_0_0 LIMIT 1);\n",
        "LET $r0_0_id = IF array::len($r0_0_existing) > 0 THEN $r0_0_existing[0].id ELSE (CREATE concept:`44444444-4444-4444-8444-444444444444` SET name = $rname_0_0, display_name = $rdn_0_0, description = '', domain = '', created_at = time::now() RETURN id)[0].id END;\n",
        "RELATE $c0_id->relacionado_a->$r0_0_id SET relation_type = $rtype_0_0, strength = $rstrength_0_0;\n",
        "UPDATE work:`11111111-1111-4111-8111-111111111111` SET status = 'done', updated_at = time::now();\n",
        "COMMIT TRANSACTION;\n"
    ]
    .concat();
    assert_eq!(sql, expected);
}

#[test]
fn extracted_text_travels_only_in_bindings() {
    let (sql, bindings) = build_transaction_sql(WORK, INSIGHT, &response(), "{\"raw\":1}", &ids());
    assert!(!sql.contains("DROP"));
    assert!(!sql.contains("Clean Code"));
    let keys: Vec<&str> = bindings.iter().map(|(k, _)| k.as_str()).collect();
    assert_eq!(
        keys,
        vec![
            "summary", "key_points", "raw_json", "cname_0", "cdisplay_0", "cdesc_0", "cdom_0", "cweight_0",
            "rname_0_0", "rdn_0_0", "rtype_0_0", "rstrength_0_0"
        ]
    );
    match &bindings[3].1 {
        BindValue::Text(t) => assert_eq!(t, "clean code"),
        _ => panic!("expected the concept key"),
    }
    match &bindings[4].1 {
        BindValue::Text(t) => assert_eq!(t, "  Clean Code "),
        _ => panic!("expected the display name"),
    }
    match &bindings[7].1 {
        BindValue::NumberBits(b) => assert_eq!(f64::from_bits(*b), 0.75),
        _ => panic!("expected the weight"),
    }
    match &bindings[8].1 {
        BindValue::Text(t) => assert_eq!(t, "refactoring"),
        _ => panic!("expected the related key"),
    }
    match &bindings[1].1 {
        BindValue::TextList(l) => assert_eq!(l, &vec!["one".to_string(), "two".to_string()]),
        _ => panic!("expected the key points"),
    }
}

#[test]
fn the_statements_do_not_depend_on_the_extracted_text() {
    let mut other = response();
    other.concepts[0].display_name = "Something else".into();
    other.summary = "different".into();
    let (a, _) = build_transaction_sql(WORK, INSIGHT, &response(), "{}", &ids());
    let (b, _) = build_transaction_sql(WORK, INSIGHT, &other, "[]", &ids());
    assert_eq!(a, b);
}

#[test]
fn fresh_ids_fit_the_extraction_and_are_uuids() {
    let r = response();
    let ids = fresh_graph_ids(&r.concepts);
    assert_eq!(ids.concept_ids.len(), 1);
    assert_eq!(ids.related_ids.len(), 1);
    assert_eq!(ids.related_ids[0].len(), 1);
    assert!(is_uuid(&ids.concept_ids[0]));
    assert!(is_uuid(&ids.related_ids[0][0]));
    assert_ne!(ids.concept_ids[0], ids.related_ids[0][0]);
}

#[test]
fn a_work_id_that_is_not_a_uuid_is_refused() {
    match prepare_graph_write("work'); --", &response(), "{}") {
        Err(RepoError::Internal(m)) => assert_eq!(m, "invalid work_id format: work'); --"),
        _ => panic!("expected the work id to be refused"),
    }
}

#[test]
fn a_prepared_write_uses_its_fresh_ids() {
    let w = prepare_graph_write(WORK, &response(), "{}").ok().unwrap();
    assert!(is_uuid(&w.insight_id));
    assert!(w.sql.contains(&format!("CREATE insight:`{}`", w.insight_id)));
    assert!(w.sql.contains(&format!("CREATE concept:`{}`", w.ids.concept_ids[0])));
    assert!(w.sql.starts_with("BEGIN TRANSACTION;\n"));
    assert!(w.sql.ends_with("COMMIT TRANSACTION;\n"));
    assert_eq!(w.bindings.len(), 12);
}
