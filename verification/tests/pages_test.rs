use knowledge_vault::web::handlers::setup::html_escape;
use knowledge_vault::domain::insight::InsightDetail;
use knowledge_vault::ports::repository::RepoError;
use knowledge_vault::web::handlers::health::get_health;
use knowledge_vault::web::handlers::pages::{page_for_visitor, page_reply, PageReply};
use knowledge_vault::web::handlers::work_detail::{get_work_detail_page, get_work_insight, render_detail_page};

#[test]
fn signed_in_users_get_the_page() {
    assert_eq!(page_reply(true, None), PageReply::Serve);
}

#[test]
fn visitors_go_to_setup_only_while_there_is_no_account() {
    assert_eq!(page_for_visitor(Ok(0)), PageReply::RedirectToSetup);
    assert_eq!(page_for_visitor(Ok(2)), PageReply::RedirectToLogin);
    assert_eq!(page_for_visitor(Err(RepoError::NotFound)), PageReply::RedirectToLogin);
    assert_eq!(page_reply(false, Some(Ok(0))), PageReply::RedirectToSetup);
}

#[test]
fn health_reflects_the_database() {
    let (status, body) = get_health(true, "0.1.0");
    assert_eq!((status, body.status, body.version, body.db), (200, "ok", "0.1.0", Some("connected")));
    let (status, body) = get_health(false, "0.1.0");
    assert_eq!((status, body.status, body.db), (503, "degraded", Some("disconnected")));
}

#[test]
fn the_detail_page_embeds_the_work_id_as_json() {
    let page = render_detail_page("w-1");
    assert!(page.contains("var WORK_ID = \"w-1\";"));
    assert!(page.starts_with("<!DOCTYPE html>"));
    assert!(page.ends_with("</html>"));
    let page = get_work_detail_page("a\"b\\c\nd\u{1}");
    assert!(page.contains(r#"var WORK_ID = "a\"b\\c\nd\u0001";"#));
}

#[test]
fn a_work_without_insight_is_404() {
    let e = get_work_insight(Ok(None::<InsightDetail>)).err().unwrap();
    assert_eq!((e.status, e.error.as_str()), (404, "not_found"));
    assert_eq!(e.message, Some("No insight available for this work".to_string()));
    let d = InsightDetail { id: "i".into(), summary: "s".into(), key_points: vec![], concepts: vec![] };
    assert_eq!(get_work_insight(Ok(Some(d))).ok().unwrap().id, "i");
}

#[test]
fn escaping_leaves_no_markup_characters() {
    let escaped = html_escape("<script>alert('x')</script> & \"more\"");
    assert!(!escaped.contains('<') && !escaped.contains('>') && !escaped.contains('"') && !escaped.contains('\''));
}
