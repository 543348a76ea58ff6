//! City and region documents as this layer reads them, the localized
//! response record, and lookup in an entity's `names` mapping.
//!
//! A raw document holds fixed fields plus an open-ended set of locale-key to
//! string pairs; the decode step at the boundary collects those pairs into
//! the `names` list (keys unique, one pair per locale key). Lookup takes the
//! first pair whose key matches, so unique keys make it the mapping's value.

use vstd::prelude::*;

verus! {

/// City document as indexed. The geometry payload of the raw document is
/// discarded at decode; the core never reads it.
pub struct ElasticCity {
    /// Stable positive identifier.
    pub id: u64,
    /// Whether the city is promoted on default displays.
    pub is_featured: bool,
    /// ISO 3166-1 alpha-2 country code, or a custom 4-letter code.
    pub country_iso: String,
    /// Foreign key into the region index.
    pub region_id: u64,
    /// Locale key to localized name, one pair per key.
    pub names: Vec<(String, String)>,
}

/// Region document as indexed.
pub struct ElasticRegion {
    /// Stable positive identifier.
    pub id: u64,
    /// ISO 3166-1 alpha-2 country code, or a custom 4-letter code.
    pub country_iso: String,
    /// Locale key to localized name, one pair per key.
    pub names: Vec<(String, String)>,
}

/// Localized output record combining a city with its resolved region.
pub struct CityResponse {
    pub id: u64,
    pub is_featured: bool,
    pub country_iso: String,
    /// The city's name in the requested language.
    pub name: String,
    /// The resolved region's name in the requested language.
    pub region_name: String,
}

/// Mathematical model of an [`ElasticCity`].
#[verifier::ext_equal]
pub struct CityView {
    pub id: u64,
    pub is_featured: bool,
    pub country_iso: Seq<char>,
    pub region_id: u64,
    pub names: Seq<(Seq<char>, Seq<char>)>,
}

/// Mathematical model of an [`ElasticRegion`].
#[verifier::ext_equal]
pub struct RegionView {
    pub id: u64,
    pub country_iso: Seq<char>,
    pub names: Seq<(Seq<char>, Seq<char>)>,
}

/// Mathematical model of a [`CityResponse`].
#[verifier::ext_equal]
pub struct CityResponseView {
    pub id: u64,
    pub is_featured: bool,
    pub country_iso: Seq<char>,
    pub name: Seq<char>,
    pub region_name: Seq<char>,
}

impl View for ElasticCity {
    type V = CityView;

    open spec fn view(&self) -> CityView {
        CityView {
            id: self.id,
            is_featured: self.is_featured,
            country_iso: self.country_iso@,
            region_id: self.region_id,
            names: self.names.deep_view(),
        }
    }
}

impl DeepView for ElasticCity {
    type V = CityView;

    open spec fn deep_view(&self) -> CityView {
        self.view()
    }
}

impl View for ElasticRegion {
    type V = RegionView;

    open spec fn view(&self) -> RegionView {
        RegionView {
            id: self.id,
            country_iso: self.country_iso@,
            names: self.names.deep_view(),
        }
    }
}

impl DeepView for ElasticRegion {
    type V = RegionView;

    open spec fn deep_view(&self) -> RegionView {
        self.view()
    }
}

impl View for CityResponse {
    type V = CityResponseView;

    open spec fn view(&self) -> CityResponseView {
        CityResponseView {
            id: self.id,
            is_featured: self.is_featured,
            country_iso: self.country_iso@,
            name: self.name@,
            region_name: self.region_name@,
        }
    }
}

impl DeepView for CityResponse {
    type V = CityResponseView;

    open spec fn deep_view(&self) -> CityResponseView {
        self.view()
    }
}

/// The value under `key` in a list of key/value pairs: the first pair whose
/// key matches, or `None` when no pair matches.
pub open spec fn spec_lookup(names: Seq<(Seq<char>, Seq<char>)>, key: Seq<char>) -> Option<
    Seq<char>,
>
    decreases names.len(),
{
    if names.len() == 0 {
        None
    } else if names[0].0 == key {
        Some(names[0].1)
    } else {
        spec_lookup(names.skip(1), key)
    }
}

proof fn lemma_lookup_unmatched_prefix(
    names: Seq<(Seq<char>, Seq<char>)>,
    key: Seq<char>,
    i: int,
)
    requires
        0 <= i <= names.len(),
        forall|j: int| 0 <= j < i ==> names[j].0 != key,
    ensures
        spec_lookup(names, key) == spec_lookup(names.skip(i), key),
    decreases i,
{
    if i == 0 {
        assert(names.skip(0) =~= names);
    } else {
        assert(names[0].0 != key);
        assert(forall|j: int| 0 <= j < i - 1 ==> names.skip(1)[j] == names[j + 1]);
        lemma_lookup_unmatched_prefix(names.skip(1), key, i - 1);
        assert(names.skip(1).skip(i - 1) =~= names.skip(i));
    }
}

/// Find `key` in `names`; `Some` exactly when the model lookup finds it,
/// and then the same value.
pub fn lookup<'a>(names: &'a Vec<(String, String)>, key: &String) -> (r: Option<&'a String>)
    ensures
        match r {
            Some(v) => spec_lookup(names.deep_view(), key@) == Some(v@),
            None => spec_lookup(names.deep_view(), key@) is None,
        },
{
    let ghost model = names.deep_view();
    let n = names.len();
    let mut i: usize = 0;
    while i < n
        invariant
            n == names.len(),
            i <= n,
            model == names.deep_view(),
            forall|j: int| 0 <= j < i ==> model[j].0 != key@,
        decreases n - i,
    {
        proof {
            assert(model[i as int] == names@[i as int].deep_view());
        }
        if names[i].0.eq(key) {
            proof {
                lemma_lookup_unmatched_prefix(model, key@, i as int);
                assert(model.skip(i as int)[0] == model[i as int]);
            }
            return Some(&names[i].1);
        }
        i += 1;
    }
    proof {
        lemma_lookup_unmatched_prefix(model, key@, n as int);
        assert(model.skip(n as int) =~= Seq::<(Seq<char>, Seq<char>)>::empty());
    }
    None
}

} // verus!
