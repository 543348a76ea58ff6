//! Assembly of raw city documents into localized response records.
//!
//! A single city is assembled from its resolved region: both names are
//! localized under the requested language's key, and a missing key fails the
//! request. A list of cities is assembled record-for-record in the input
//! list's order — region lookups may race at the boundary, but the output
//! order is pinned to the input order — failing fast with the first failing
//! entry's error.

use vstd::prelude::*;

use crate::error::{ErrorResponse, ErrorView};
use crate::language::{spec_name_key, Language};
use crate::model::{
    CityResponse, CityResponseView, CityView, ElasticCity, ElasticRegion, RegionView, lookup,
    spec_lookup,
};
use crate::repo::{spec_classify, spec_not_found_msg, SEARCH_LIMIT};

verus! {

/// View of a region fetch outcome.
pub open spec fn region_result_view(r: Result<ElasticRegion, ErrorResponse>) -> Result<
    RegionView,
    ErrorView,
> {
    match r {
        Ok(x) => Ok(x@),
        Err(e) => Err(e@),
    }
}

/// View of an assembly outcome.
pub open spec fn response_result_view(r: Result<CityResponse, ErrorResponse>) -> Result<
    CityResponseView,
    ErrorView,
> {
    match r {
        Ok(x) => Ok(x@),
        Err(e) => Err(e@),
    }
}

/// Views of a list of region fetch outcomes.
pub open spec fn region_results_view(rs: Seq<Result<ElasticRegion, ErrorResponse>>) -> Seq<
    Result<RegionView, ErrorView>,
> {
    rs.map_values(|r: Result<ElasticRegion, ErrorResponse>| region_result_view(r))
}

/// How one city is assembled with its region fetch outcome: a failed region
/// fetch propagates as-is; then the city's and the region's localized names
/// are both required under the language's key, a missing key failing with
/// `BadRequest` carrying that key; on success the record holds both
/// localized names.
pub open spec fn spec_assemble(
    c: CityView,
    region: Result<RegionView, ErrorView>,
    lang: Language,
) -> Result<CityResponseView, ErrorView> {
    match region {
        Err(e) => Err(e),
        Ok(reg) => {
            let key = spec_name_key(lang);
            match spec_lookup(c.names, key) {
                None => Err(ErrorView::BadRequest(key)),
                Some(name) => match spec_lookup(reg.names, key) {
                    None => Err(ErrorView::BadRequest(key)),
                    Some(region_name) => Ok(
                        CityResponseView {
                            id: c.id,
                            is_featured: c.is_featured,
                            country_iso: c.country_iso,
                            name,
                            region_name,
                        },
                    ),
                },
            }
        },
    }
}

/// Assemble one city with the outcome of its region fetch.
pub fn assemble(
    city: ElasticCity,
    region: Result<ElasticRegion, ErrorResponse>,
    language: Language,
) -> (r: Result<CityResponse, ErrorResponse>)
    ensures
        response_result_view(r) == spec_assemble(city@, region_result_view(region), language),
{
    let reg = match region {
        Err(e) => {
            return Err(e);
        },
        Ok(reg) => reg,
    };
    let key = language.name_key();
    let name = match lookup(&city.names, &key) {
        None => {
            return Err(ErrorResponse::BadRequest(key));
        },
        Some(n) => n.clone(),
    };
    let region_name = match lookup(&reg.names, &key) {
        None => {
            return Err(ErrorResponse::BadRequest(key));
        },
        Some(n) => n.clone(),
    };
    Ok(
        CityResponse {
            id: city.id,
            is_featured: city.is_featured,
            country_iso: city.country_iso,
            name,
            region_name,
        },
    )
}

/// How a city list is assembled: entry by entry in input order, failing
/// fast with the first failing entry's error.
pub open spec fn spec_assemble_all(
    cs: Seq<CityView>,
    rs: Seq<Result<RegionView, ErrorView>>,
    lang: Language,
) -> Result<Seq<CityResponseView>, ErrorView>
    decreases cs.len(),
{
    if cs.len() == 0 {
        Ok(Seq::empty())
    } else {
        match spec_assemble(cs[0], rs[0], lang) {
            Err(e) => Err(e),
            Ok(h) => match spec_assemble_all(cs.skip(1), rs.skip(1), lang) {
                Err(e) => Err(e),
                Ok(t) => Ok(seq![h] + t),
            },
        }
    }
}

/// Assemble every city with the outcome of its region fetch, preserving the
/// input order index-for-index; if any entry fails, the whole list fails
/// with the first failing entry's error and no partial result.
pub fn assemble_all(
    cities: Vec<ElasticCity>,
    regions: Vec<Result<ElasticRegion, ErrorResponse>>,
    language: Language,
) -> (r: Result<Vec<CityResponse>, ErrorResponse>)
    requires
        cities@.len() == regions@.len(),
    ensures
        ({
            let s = spec_assemble_all(
                cities.deep_view(),
                region_results_view(regions@),
                language,
            );
            &&& r is Ok <==> s is Ok
            &&& r is Ok ==> r->Ok_0.deep_view() == s->Ok_0
            &&& r is Err ==> r->Err_0@ == s->Err_0
        }),
    decreases cities@.len(),
{
    let ghost cs0 = cities.deep_view();
    let ghost rs0 = region_results_view(regions@);
    let mut cs_vec = cities;
    let mut rs_vec = regions;
    if cs_vec.len() == 0 {
        let out: Vec<CityResponse> = Vec::new();
        proof {
            assert(out.deep_view() =~= Seq::<CityResponseView>::empty());
        }
        Ok(out)
    } else {
        let c = cs_vec.remove(0);
        let reg = rs_vec.remove(0);
        proof {
            assert(c@ == cs0[0]);
            assert(region_result_view(reg) == rs0[0]);
            assert(cs_vec.deep_view() =~= cs0.skip(1));
            assert(region_results_view(rs_vec@) =~= rs0.skip(1));
        }
        match assemble(c, reg, language) {
            Err(e) => Err(e),
            Ok(h) => {
                match assemble_all(cs_vec, rs_vec, language) {
                    Err(e) => Err(e),
                    Ok(mut t) => {
                        let ghost tail = t.deep_view();
                        t.insert(0, h);
                        proof {
                            assert(t.deep_view() =~= seq![h@] + tail);
                        }
                        Ok(t)
                    },
                }
            },
        }
    }
}

/// Order preservation: when every city/region pair assembles, the list
/// assembly succeeds and its `j`-th record is exactly the assembly of the
/// `j`-th input pair — output order equals input order, whatever order the
/// region fetches completed in.
pub proof fn lemma_assemble_all_ok(
    cs: Seq<CityView>,
    rs: Seq<Result<RegionView, ErrorView>>,
    lang: Language,
)
    requires
        cs.len() == rs.len(),
        forall|j: int| 0 <= j < cs.len() ==> spec_assemble(cs[j], rs[j], lang) is Ok,
    ensures
        spec_assemble_all(cs, rs, lang) is Ok,
        spec_assemble_all(cs, rs, lang)->Ok_0.len() == cs.len(),
        forall|j: int|
            0 <= j < cs.len() ==> spec_assemble_all(cs, rs, lang)->Ok_0[j] == spec_assemble(
                cs[j],
                rs[j],
                lang,
            )->Ok_0,
    decreases cs.len(),
{
    if cs.len() > 0 {
        assert(forall|j: int|
            0 <= j < cs.skip(1).len() ==> cs.skip(1)[j] == cs[j + 1] && rs.skip(1)[j] == rs[j
                + 1]);
        lemma_assemble_all_ok(cs.skip(1), rs.skip(1), lang);
        let whole = spec_assemble_all(cs, rs, lang);
        let t = spec_assemble_all(cs.skip(1), rs.skip(1), lang)->Ok_0;
        assert(whole->Ok_0 == seq![spec_assemble(cs[0], rs[0], lang)->Ok_0] + t);
        assert(forall|j: int| 1 <= j < cs.len() ==> whole->Ok_0[j] == t[j - 1]);
    }
}

/// Fail-fast: when the entry at index `i` fails and every earlier entry
/// assembles, the list assembly fails with exactly that entry's error.
pub proof fn lemma_assemble_all_first_error(
    cs: Seq<CityView>,
    rs: Seq<Result<RegionView, ErrorView>>,
    lang: Language,
    i: int,
)
    requires
        cs.len() == rs.len(),
        0 <= i < cs.len(),
        forall|j: int| 0 <= j < i ==> spec_assemble(cs[j], rs[j], lang) is Ok,
        spec_assemble(cs[i], rs[i], lang) is Err,
    ensures
        spec_assemble_all(cs, rs, lang) == Err::<Seq<CityResponseView>, ErrorView>(
            spec_assemble(cs[i], rs[i], lang)->Err_0,
        ),
    decreases i,
{
    if i > 0 {
        assert(forall|j: int|
            0 <= j < cs.skip(1).len() ==> cs.skip(1)[j] == cs[j + 1] && rs.skip(1)[j] == rs[j
                + 1]);
        lemma_assemble_all_first_error(cs.skip(1), rs.skip(1), lang, i - 1);
    }
}

/// A successful list assembly has exactly one record per input document.
pub proof fn lemma_assemble_all_len(
    cs: Seq<CityView>,
    rs: Seq<Result<RegionView, ErrorView>>,
    lang: Language,
)
    requires
        spec_assemble_all(cs, rs, lang) is Ok,
    ensures
        spec_assemble_all(cs, rs, lang)->Ok_0.len() == cs.len(),
    decreases cs.len(),
{
    if cs.len() > 0 {
        lemma_assemble_all_len(cs.skip(1), rs.skip(1), lang);
    }
}

/// The search response can never exceed the search cap: the backend is
/// asked for at most [`SEARCH_LIMIT`] documents, and assembling a document
/// list yields exactly one record per document.
pub proof fn lemma_search_cap(
    cs: Seq<CityView>,
    rs: Seq<Result<RegionView, ErrorView>>,
    lang: Language,
)
    requires
        cs.len() <= SEARCH_LIMIT,
        spec_assemble_all(cs, rs, lang) is Ok,
    ensures
        spec_assemble_all(cs, rs, lang)->Ok_0.len() <= SEARCH_LIMIT,
{
    lemma_assemble_all_len(cs, rs, lang);
}

/// How the single-city endpoint composes its parts: a failed city fetch
/// propagates as-is, and a found city is assembled with its region fetch
/// outcome.
pub open spec fn spec_get(
    city_fetch: Result<CityView, ErrorView>,
    region_fetch: Result<RegionView, ErrorView>,
    lang: Language,
) -> Result<CityResponseView, ErrorView> {
    match city_fetch {
        Err(e) => Err(e),
        Ok(c) => spec_assemble(c, region_fetch, lang),
    }
}

/// A city id absent from the index — its lookup answered 404 — fails the
/// single-city endpoint with `NotFound`, whatever the region fetch held.
pub proof fn lemma_get_city_absent(
    body: Result<CityView, Seq<char>>,
    region_fetch: Result<RegionView, ErrorView>,
    lang: Language,
    id: u64,
)
    ensures
        spec_get(spec_classify(404, body, "City"@, id), region_fetch, lang) == Err::<
            CityResponseView,
            ErrorView,
        >(ErrorView::NotFound(spec_not_found_msg("City"@, id))),
{
}

/// A found city whose region id is absent from the index — the region
/// lookup answered 404 — fails the single-city endpoint with `NotFound`
/// as well.
pub proof fn lemma_get_region_absent(
    c: CityView,
    body: Result<RegionView, Seq<char>>,
    lang: Language,
    id: u64,
)
    ensures
        spec_get(Ok(c), spec_classify(404, body, "Region"@, id), lang) == Err::<
            CityResponseView,
            ErrorView,
        >(ErrorView::NotFound(spec_not_found_msg("Region"@, id))),
{
}

/// Localization is exact: a found city whose region is found, both holding
/// a name under the requested language's key, yields a response whose
/// `name` and `region_name` are exactly the documents' entries under that
/// key.
pub proof fn lemma_get_localizes(c: CityView, reg: RegionView, lang: Language)
    requires
        spec_lookup(c.names, spec_name_key(lang)) is Some,
        spec_lookup(reg.names, spec_name_key(lang)) is Some,
    ensures
        spec_get(Ok(c), Ok(reg), lang) == Ok::<CityResponseView, ErrorView>(
            CityResponseView {
                id: c.id,
                is_featured: c.is_featured,
                country_iso: c.country_iso,
                name: spec_lookup(c.names, spec_name_key(lang))->Some_0,
                region_name: spec_lookup(reg.names, spec_name_key(lang))->Some_0,
            },
        ),
{
}

/// A found city/region pair lacking the requested language's key — in the
/// city, the region, or both — fails with `BadRequest` carrying that key.
pub proof fn lemma_get_missing_language(c: CityView, reg: RegionView, lang: Language)
    requires
        spec_lookup(c.names, spec_name_key(lang)) is None || spec_lookup(
            reg.names,
            spec_name_key(lang),
        ) is None,
    ensures
        spec_get(Ok(c), Ok(reg), lang) == Err::<CityResponseView, ErrorView>(
            ErrorView::BadRequest(spec_name_key(lang)),
        ),
{
}

} // verus!
