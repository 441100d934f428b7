//! The knowledge graph over the API: which domains are asked for, and the replies.
use vstd::prelude::*;
use crate::domain::concept::{ConceptDetail, GraphData};
use crate::ports::repository::RepoError;
use crate::text::{owned, split_on, split_str, trim, trimmed};
use crate::web::handlers::works::ApiError;

verus! {

/// The query of a graph request: a comma-separated list of domains.
#[derive(Debug)]
pub struct GraphQueryParams {
    pub domain: Option<String>,
}

/// The non-empty trimmed pieces, in order.
pub open spec fn domain_list(pieces: Seq<Seq<char>>) -> Seq<Seq<char>>
    decreases pieces.len(),
{
    if pieces.len() == 0 {
        Seq::empty()
    } else {
        let rest = domain_list(pieces.drop_last());
        let t = trimmed(pieces.last());
        if t.len() > 0 {
            rest.push(t)
        } else {
            rest
        }
    }
}

/// The domains a graph request asks for: the trimmed, non-empty comma-separated names, or
/// none (the whole graph) when the parameter is absent or names none.
pub open spec fn requested_domains(domain: Option<Seq<char>>) -> Option<Seq<Seq<char>>> {
    match domain {
        None => None,
        Some(d) => {
            let l = domain_list(split_on(d, ','));
            if l.len() == 0 {
                None
            } else {
                Some(l)
            }
        },
    }
}

/// The domains a graph request asks for.
pub fn parse_domains(params: GraphQueryParams) -> (r: Option<Vec<String>>)
    ensures
        match requested_domains(match params.domain {
            Some(d) => Some(d@),
            None => None,
        }) {
            None => r is None,
            Some(l) => r matches Some(v) && v@.map_values(|s: String| s@) == l,
        },
{
    match params.domain {
        None => None,
        Some(d) => {
            let pieces = split_str(d.as_str(), ',');
            let ghost all = split_on(d@, ',');
            let mut list: Vec<String> = Vec::new();
            let mut i: usize = 0;
            while i < pieces.len()
                invariant
                    i <= pieces.len() == all.len(),
                    forall|k: int| 0 <= k < pieces@.len() ==> #[trigger] pieces@[k]@ == all[k],
                    list@.map_values(|s: String| s@) == domain_list(all.take(i as int)),
                decreases pieces.len() - i,
            {
                assert(all.take(i + 1).drop_last() =~= all.take(i as int));
                assert(all.take(i + 1).last() == pieces@[i as int]@);
                let t = trim(pieces[i].as_str());
                if !t.as_str().is_empty() {
                    let ghost before = list@;
                    list.push(t);
                    assert(list@.map_values(|s: String| s@) =~= before.map_values(|s: String| s@).push(
                        trimmed(pieces@[i as int]@),
                    ));
                }
                i = i + 1;
            }
            assert(all.take(pieces.len() as int) =~= all);
            if list.len() == 0 {
                None
            } else {
                Some(list)
            }
        },
    }
}

/// The reply to a graph request: the graph, or 500 when it could not be read.
pub fn get_api_graph(read: Result<GraphData, RepoError>) -> (r: Result<GraphData, ApiError>)
    ensures
        match read {
            Ok(g) => r == Ok::<GraphData, ApiError>(g),
            Err(e) => r matches Err(body) && body.status == 500 && body.error@ == "internal_error"@
                && (body.message matches Some(m) && m@ == e.message()),
        },
{
    match read {
        Ok(g) => Ok(g),
        Err(e) => Err(ApiError { status: 500, error: owned("internal_error"), message: Some(e.to_string()) }),
    }
}

/// The reply to a request for a concept: its detail, 404 when there is no such concept, 500
/// on failure.
pub fn get_api_concept_by_id(found: Result<Option<ConceptDetail>, RepoError>) -> (r: Result<ConceptDetail, ApiError>)
    ensures
        match found {
            Ok(Some(d)) => r == Ok::<ConceptDetail, ApiError>(d),
            Ok(None) => r matches Err(body) && body.status == 404 && body.error@ == "not_found"@
                && (body.message matches Some(m) && m@ == "Concept not found"@),
            Err(e) => r matches Err(body) && body.status == 500 && body.error@ == "internal_error"@
                && (body.message matches Some(m) && m@ == e.message()),
        },
{
    match found {
        Ok(Some(d)) => Ok(d),
        Ok(None) => Err(ApiError { status: 404, error: owned("not_found"), message: Some(owned("Concept not found")) }),
        Err(e) => Err(ApiError { status: 500, error: owned("internal_error"), message: Some(e.to_string()) }),
    }
}

/// Every requested domain is a non-empty name without surrounding white space.
pub proof fn law_requested_domains_are_trimmed_names(pieces: Seq<Seq<char>>)
    ensures
        forall|i: int| 0 <= i < domain_list(pieces).len() ==> {
            let d = #[trigger] domain_list(pieces)[i];
            d.len() > 0 && exists|k: int| 0 <= k < pieces.len() && d == trimmed(pieces[k])
        },
    decreases pieces.len(),
{
    if pieces.len() > 0 {
        law_requested_domains_are_trimmed_names(pieces.drop_last());
        let rest = domain_list(pieces.drop_last());
        assert forall|i: int| 0 <= i < domain_list(pieces).len() implies {
            let d = #[trigger] domain_list(pieces)[i];
            d.len() > 0 && exists|k: int| 0 <= k < pieces.len() && d == trimmed(pieces[k])
        } by {
            if i < rest.len() {
                let d = rest[i];
                assert(domain_list(pieces)[i] == d);
                let k = choose|k: int| 0 <= k < pieces.drop_last().len() && d == trimmed(pieces.drop_last()[k]);
                assert(pieces[k] == pieces.drop_last()[k]);
            } else {
                assert(domain_list(pieces)[i] == trimmed(pieces.last()));
                assert(pieces[pieces.len() - 1] == pieces.last());
            }
        }
    }
}

} // verus!
