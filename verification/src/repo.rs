//! Classification of backend lookup outcomes into domain results, shared by
//! city and region fetches so both have identical error semantics, and the
//! parameters of a capped free-text search.
//!
//! The transport boundary performs the point lookup and hands this layer the
//! raw status code together with the decode outcome of the body; every
//! decision on them is made here.

use vstd::prelude::*;
use vstd::string::StringExecFns;

use crate::error::{ErrorResponse, ErrorView};
use crate::numfmt::{dec_u64, spec_dec};

verus! {

/// Message for an id absent from the index, e.g. `"City#123 not found."`.
pub open spec fn spec_not_found_msg(label: Seq<char>, id: u64) -> Seq<char> {
    label + "#"@ + spec_dec(id as nat) + " not found."@
}

/// Message for an unexpected backend status, e.g. `"ES response 503."`.
pub open spec fn spec_backend_msg(status: u16) -> Seq<char> {
    "ES response "@ + spec_dec(status as nat) + "."@
}

/// How a point lookup's outcome is classified:
/// status 404 is the entity's absence; any other non-200 status is a backend
/// fault; status 200 yields the decoded body, or a backend fault when the
/// body did not decode. `body` is the decode outcome, its error the decoder's
/// message.
pub open spec fn spec_classify<T>(
    status: u16,
    body: Result<T, Seq<char>>,
    label: Seq<char>,
    id: u64,
) -> Result<T, ErrorView> {
    if status == 404 {
        Err(ErrorView::NotFound(spec_not_found_msg(label, id)))
    } else if status != 200 {
        Err(ErrorView::InternalServerError(spec_backend_msg(status)))
    } else {
        match body {
            Ok(t) => Ok(t),
            Err(m) => Err(ErrorView::InternalServerError(m)),
        }
    }
}

/// The decode outcome with its error message as a character sequence.
pub open spec fn spec_decode_view<T>(body: Result<T, String>) -> Result<T, Seq<char>> {
    match body {
        Ok(t) => Ok(t),
        Err(m) => Err(m@),
    }
}

/// Classify one entity lookup: `status` is the backend's status code, `body`
/// the outcome of decoding its body, `entity_label` names the entity kind in
/// messages, `id` the id that was looked up.
pub fn classify_entity<T>(
    status: u16,
    body: Result<T, String>,
    entity_label: &str,
    id: u64,
) -> (r: Result<T, ErrorResponse>)
    ensures
        ({
            let c = spec_classify(status, spec_decode_view(body), entity_label@, id);
            &&& r is Ok <==> c is Ok
            &&& r is Ok ==> r->Ok_0 == c->Ok_0
            &&& r is Err ==> r->Err_0@ == c->Err_0
        }),
{
    if status == 404 {
        let mut m = entity_label.to_owned();
        m.append("#");
        let id_dec = dec_u64(id);
        m.append(id_dec.as_str());
        m.append(" not found.");
        proof {
            assert(m@ =~= spec_not_found_msg(entity_label@, id));
        }
        Err(ErrorResponse::NotFound(m))
    } else if status != 200 {
        let mut m = "ES response ".to_owned();
        let status_dec = dec_u64(status as u64);
        m.append(status_dec.as_str());
        m.append(".");
        proof {
            assert(m@ =~= spec_backend_msg(status));
        }
        Err(ErrorResponse::InternalServerError(m))
    } else {
        match body {
            Ok(t) => Ok(t),
            Err(m) => Err(ErrorResponse::InternalServerError(m)),
        }
    }
}

/// Classify a city lookup; same semantics as any entity lookup, with the
/// `City` label in messages.
pub fn classify_city(status: u16, body: Result<crate::model::ElasticCity, String>, id: u64) -> (r:
    Result<crate::model::ElasticCity, ErrorResponse>)
    ensures
        ({
            let c = spec_classify(status, spec_decode_view(body), "City"@, id);
            &&& r is Ok <==> c is Ok
            &&& r is Ok ==> r->Ok_0 == c->Ok_0
            &&& r is Err ==> r->Err_0@ == c->Err_0
        }),
{
    classify_entity(status, body, "City", id)
}

/// Classify a region lookup; same semantics as any entity lookup, with the
/// `Region` label in messages.
pub fn classify_region(
    status: u16,
    body: Result<crate::model::ElasticRegion, String>,
    id: u64,
) -> (r: Result<crate::model::ElasticRegion, ErrorResponse>)
    ensures
        ({
            let c = spec_classify(status, spec_decode_view(body), "Region"@, id);
            &&& r is Ok <==> c is Ok
            &&& r is Ok ==> r->Ok_0 == c->Ok_0
            &&& r is Err ==> r->Err_0@ == c->Err_0
        }),
{
    classify_entity(status, body, "Region", id)
}

/// Any backend status other than 200 and 404 classifies as a backend
/// fault — never as the entity's absence and never as a silent success —
/// whatever the body held.
pub proof fn lemma_backend_fault<T>(
    status: u16,
    body: Result<T, Seq<char>>,
    label: Seq<char>,
    id: u64,
)
    requires
        status != 200,
        status != 404,
    ensures
        spec_classify(status, body, label, id) == Err::<T, ErrorView>(
            ErrorView::InternalServerError(spec_backend_msg(status)),
        ),
{
}

/// Upper bound on search results; the search request itself carries it, so
/// the backend returns at most this many documents and no application-level
/// truncation or pagination exists.
pub const SEARCH_LIMIT: u64 = 10;

/// Parameters of a free-text city search as handed to the backend.
pub struct SearchRequest {
    /// The free-text query.
    pub query: String,
    /// Optional country code limiting the search's scope.
    pub country_iso: Option<String>,
    /// Maximum number of documents the backend may return.
    pub limit: u64,
}

/// Build the backend search request: the query and optional country filter
/// pass through unchanged, and the result cap is always [`SEARCH_LIMIT`].
pub fn search_request(query: String, country_iso: Option<String>) -> (r: SearchRequest)
    ensures
        r.query == query,
        r.country_iso == country_iso,
        r.limit == SEARCH_LIMIT,
{
    SearchRequest { query, country_iso, limit: SEARCH_LIMIT }
}

} // verus!
