//! Ordering of the featured city list: cities of the requested language's
//! preferred country come first, and within each part the input order is
//! kept — a single-key stable sort, nothing more.

use vstd::prelude::*;

use crate::language::{spec_preferred_country, Language};
use crate::model::{CityView, ElasticCity};

verus! {

/// Whether a city's country is the language's preferred country.
pub open spec fn spec_city_matches(c: CityView, lang: Language) -> bool {
    c.country_iso == spec_preferred_country(lang)
}

/// The cities of the preferred country, in input order.
pub open spec fn spec_matching(cs: Seq<CityView>, lang: Language) -> Seq<CityView> {
    cs.filter(|c: CityView| spec_city_matches(c, lang))
}

/// The cities of any other country, in input order.
pub open spec fn spec_rest(cs: Seq<CityView>, lang: Language) -> Seq<CityView> {
    cs.filter(|c: CityView| !spec_city_matches(c, lang))
}

/// The featured order: matching cities first, then the rest, each part in
/// input order — the stable single-key sort the featured endpoint applies.
pub open spec fn spec_featured_order(cs: Seq<CityView>, lang: Language) -> Seq<CityView> {
    spec_matching(cs, lang) + spec_rest(cs, lang)
}

proof fn lemma_partition_empty(lang: Language)
    ensures
        spec_matching(Seq::empty(), lang) == Seq::<CityView>::empty(),
        spec_rest(Seq::empty(), lang) == Seq::<CityView>::empty(),
{
    reveal(Seq::filter);
}

proof fn lemma_partition_push(s: Seq<CityView>, c: CityView, lang: Language)
    ensures
        spec_matching(s.push(c), lang) == if spec_city_matches(c, lang) {
            spec_matching(s, lang).push(c)
        } else {
            spec_matching(s, lang)
        },
        spec_rest(s.push(c), lang) == if !spec_city_matches(c, lang) {
            spec_rest(s, lang).push(c)
        } else {
            spec_rest(s, lang)
        },
{
    reveal(Seq::filter);
    assert(s.push(c).drop_last() =~= s);
    assert(s.push(c).last() == c);
}

/// No city is lost or invented by the featured order: it holds exactly the
/// input cities, as a multiset, and so also exactly as many.
pub proof fn lemma_featured_order_permutes(cs: Seq<CityView>, lang: Language)
    ensures
        spec_featured_order(cs, lang).to_multiset() == cs.to_multiset(),
        spec_featured_order(cs, lang).len() == cs.len(),
    decreases cs.len(),
{
    broadcast use vstd::seq_lib::group_to_multiset_ensures;
    broadcast use vstd::seq_lib::lemma_multiset_commutative;
    broadcast use vstd::multiset::group_multiset_axioms;

    if cs.len() == 0 {
        lemma_partition_empty(lang);
        assert(cs =~= Seq::<CityView>::empty());
        assert(spec_featured_order(cs, lang) =~= Seq::<CityView>::empty());
    } else {
        let s = cs.drop_last();
        let c = cs.last();
        assert(cs =~= s.push(c));
        lemma_featured_order_permutes(s, lang);
        lemma_partition_push(s, c, lang);
        let m = spec_matching(s, lang);
        let r = spec_rest(s, lang);
        if spec_city_matches(c, lang) {
            assert((m.push(c) + r).to_multiset() =~= (m + r).to_multiset().insert(c));
        } else {
            assert((m + r.push(c)).to_multiset() =~= (m + r).to_multiset().insert(c));
        }
        assert(spec_featured_order(cs, lang).to_multiset() =~= cs.to_multiset());
    }
}

/// Reorder cities for the featured list: all cities whose country is the
/// language's preferred country first, the others after them, keeping the
/// input's relative order within each part.
pub fn featured_order(cities: Vec<ElasticCity>, language: Language) -> (r: Vec<ElasticCity>)
    ensures
        r.deep_view() == spec_featured_order(cities.deep_view(), language),
{
    let ghost cs0 = cities.deep_view();
    let pref = language.preferred_country_iso();
    let mut left = cities;
    let mut front: Vec<ElasticCity> = Vec::new();
    let mut back: Vec<ElasticCity> = Vec::new();
    let ghost mut done: Seq<CityView> = Seq::empty();
    proof {
        lemma_partition_empty(language);
        assert(front.deep_view() =~= Seq::<CityView>::empty());
        assert(back.deep_view() =~= Seq::<CityView>::empty());
        assert(done + left.deep_view() =~= cs0);
    }
    while left.len() > 0
        invariant
            done + left.deep_view() == cs0,
            pref@ == spec_preferred_country(language),
            front.deep_view() == spec_matching(done, language),
            back.deep_view() == spec_rest(done, language),
        decreases left.len(),
    {
        let ghost done_pre = done;
        let ghost left_pre = left.deep_view();
        let c = left.remove(0);
        proof {
            assert(c@ == left_pre[0]);
            assert(left.deep_view() =~= left_pre.skip(1));
            done = done_pre.push(c@);
            assert(done + left.deep_view() =~= cs0);
            lemma_partition_push(done_pre, c@, language);
        }
        if c.country_iso.eq(&pref) {
            front.push(c);
            proof {
                assert(front.deep_view() =~= spec_matching(done, language));
            }
        } else {
            back.push(c);
            proof {
                assert(back.deep_view() =~= spec_rest(done, language));
            }
        }
    }
    proof {
        assert(done =~= cs0);
    }
    let mut out = front;
    out.append(&mut back);
    proof {
        assert(out.deep_view() =~= spec_featured_order(cs0, language));
    }
    out
}

} // verus!
