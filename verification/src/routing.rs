//! Per-collection database routing of the composed frontend host.
//!
//! Each MongoDB collection the composed application opens belongs to one
//! service's database. A per-service URI setting points a collection at that
//! service's MongoDB; where it is not set, the collection falls back to the
//! shared URI and shared database name. Clients are shared between
//! collections that route to the same URI.
use vstd::prelude::*;

verus! {

/// A collection, the setting that holds its service's URI, and the database
/// it lives in when that setting is given.
pub struct CollectionSpec {
    pub collection: String,
    pub uri_env: String,
    pub db_name: String,
}

/// Where a collection is opened: a URI and a database on it.
pub struct CollectionRoute {
    pub collection: String,
    pub uri: String,
    pub database: String,
}

/// The route of one collection: with its service URI set, that URI and the
/// collection's own database; otherwise the fallback URI and fallback database.
pub open spec fn route_matches(
    spec: CollectionSpec,
    env_uri: Option<String>,
    fallback_uri: Seq<char>,
    fallback_db: Seq<char>,
    r: CollectionRoute,
) -> bool {
    &&& r.collection@ == spec.collection@
    &&& match env_uri {
        Some(u) => r.uri@ == u@ && r.database@ == spec.db_name@,
        None => r.uri@ == fallback_uri && r.database@ == fallback_db,
    }
}

/// Routes one collection.
pub fn route_collection(
    spec: &CollectionSpec,
    env_uri: Option<String>,
    fallback_uri: &String,
    fallback_db: &String,
) -> (r: CollectionRoute)
    ensures
        route_matches(*spec, env_uri, fallback_uri@, fallback_db@, r),
{
    match env_uri {
        Some(uri) => CollectionRoute {
            collection: spec.collection.clone(),
            uri,
            database: spec.db_name.clone(),
        },
        None => CollectionRoute {
            collection: spec.collection.clone(),
            uri: fallback_uri.clone(),
            database: fallback_db.clone(),
        },
    }
}

/// Routes every collection; `env_uris[i]` is the value of the URI setting
/// of `specs[i]`.
pub fn route_collections(
    specs: &Vec<CollectionSpec>,
    env_uris: Vec<Option<String>>,
    fallback_uri: &String,
    fallback_db: &String,
) -> (routes: Vec<CollectionRoute>)
    requires
        env_uris@.len() == specs@.len(),
    ensures
        routes@.len() == specs@.len(),
        forall|i: int|
            0 <= i < specs@.len() ==> route_matches(
                specs@[i],
                env_uris@[i],
                fallback_uri@,
                fallback_db@,
                #[trigger] routes@[i],
            ),
{
    let mut routes: Vec<CollectionRoute> = Vec::new();
    let mut i: usize = 0;
    while i < specs.len()
        invariant
            env_uris@.len() == specs@.len(),
            i <= specs@.len(),
            routes@.len() == i,
            forall|j: int|
                0 <= j < i ==> route_matches(
                    specs@[j],
                    env_uris@[j],
                    fallback_uri@,
                    fallback_db@,
                    #[trigger] routes@[j],
                ),
        decreases specs@.len() - i,
    {
        let env_uri = match &env_uris[i] {
            Some(u) => Some(u.clone()),
            None => None,
        };
        routes.push(route_collection(&specs[i], env_uri, fallback_uri, fallback_db));
        i = i + 1;
    }
    routes
}

/// The distinct values of `s`, each at its first occurrence, in order.
pub open spec fn first_occurrences(s: Seq<Seq<char>>) -> Seq<Seq<char>>
    decreases s.len(),
{
    if s.len() == 0 {
        Seq::empty()
    } else {
        let prefix = first_occurrences(s.drop_last());
        if prefix.contains(s.last()) {
            prefix
        } else {
            prefix.push(s.last())
        }
    }
}

/// The URIs of the routes, in route order.
pub open spec fn route_uris(routes: Seq<CollectionRoute>) -> Seq<Seq<char>> {
    routes.map_values(|r: CollectionRoute| r.uri@)
}

/// The URIs that need a client: each distinct route URI once, in the order
/// the routes first name it.
pub fn distinct_uris(routes: &Vec<CollectionRoute>) -> (uris: Vec<String>)
    ensures
        uris@.map_values(|u: String| u@) == first_occurrences(route_uris(routes@)),
{
    let mut uris: Vec<String> = Vec::new();
    let mut i: usize = 0;
    while i < routes.len()
        invariant
            i <= routes@.len(),
            uris@.map_values(|u: String| u@) == first_occurrences(route_uris(routes@).subrange(0, i as int)),
        decreases routes@.len() - i,
    {
        let ghost before = uris@.map_values(|u: String| u@);
        let ghost s = route_uris(routes@).subrange(0, i + 1);
        assert(s.drop_last() =~= route_uris(routes@).subrange(0, i as int));
        assert(s.last() == routes@[i as int].uri@);
        let uri = &routes[i].uri;
        let mut seen = false;
        let mut j: usize = 0;
        while j < uris.len()
            invariant
                j <= uris@.len(),
                uris@.map_values(|u: String| u@) == before,
                seen == exists|k: int| 0 <= k < j && before[k] == uri@,
            decreases uris@.len() - j,
        {
            assert(before[j as int] == uris@[j as int]@);
            if uris[j] == *uri {
                seen = true;
            }
            j = j + 1;
        }
        proof {
            if seen {
                let k = choose|k: int| 0 <= k < uris@.len() && before[k] == uri@;
                assert(before.contains(uri@));
            } else {
                assert(!before.contains(uri@));
            }
        }
        if !seen {
            uris.push(uri.clone());
            assert(uris@.map_values(|u: String| u@) =~= before.push(uri@));
        }
        i = i + 1;
    }
    assert(route_uris(routes@).subrange(0, routes@.len() as int) =~= route_uris(routes@));
    uris
}

/// Distinct first occurrences: no value twice, and exactly the values of `s`.
pub proof fn lemma_first_occurrences(s: Seq<Seq<char>>)
    ensures
        first_occurrences(s).no_duplicates(),
        forall|u: Seq<char>| #[trigger] first_occurrences(s).contains(u) <==> s.contains(u),
    decreases s.len(),
{
    if s.len() > 0 {
        let t = s.drop_last();
        lemma_first_occurrences(t);
        let p = first_occurrences(t);
        let x = s.last();
        assert forall|u: Seq<char>| #[trigger] first_occurrences(s).contains(u) <==> s.contains(u) by {
            if s.contains(u) {
                let k = choose|k: int| 0 <= k < s.len() && s[k] == u;
                if k < s.len() - 1 {
                    assert(t[k] == u);
                    assert(t.contains(u));
                    assert(p.contains(u));
                    let m = choose|m: int| 0 <= m < p.len() && p[m] == u;
                    if !p.contains(x) {
                        assert(p.push(x)[m] == u);
                    }
                } else {
                    assert(u == x);
                    if !p.contains(x) {
                        assert(p.push(x)[p.len() as int] == u);
                    }
                }
            }
            if first_occurrences(s).contains(u) {
                if p.contains(u) {
                    assert(t.contains(u));
                    let k = choose|k: int| 0 <= k < t.len() && t[k] == u;
                    assert(s[k] == u);
                } else {
                    let m = choose|m: int| 0 <= m < p.push(x).len() && p.push(x)[m] == u;
                    if m < p.len() {
                        assert(p[m] == u);
                    }
                    assert(u == x);
                    assert(s[s.len() - 1] == u);
                }
            }
        }
        if !p.contains(x) {
            let q = p.push(x);
            assert forall|a: int, b: int| 0 <= a < q.len() && 0 <= b < q.len() && a != b implies q[a] != q[b] by {
                if a == p.len() {
                    assert(q[b] == p[b]);
                } else if b == p.len() {
                    assert(q[a] == p[a]);
                } else {
                    assert(q[a] == p[a] && q[b] == p[b]);
                }
            }
        }
    }
}

/// Every collection's route has a client, no client is made twice, and every
/// client serves some collection.
pub proof fn lemma_one_client_per_uri(routes: Seq<CollectionRoute>)
    ensures
        first_occurrences(route_uris(routes)).no_duplicates(),
        forall|i: int|
            0 <= i < routes.len() ==> first_occurrences(route_uris(routes)).contains(#[trigger] routes[i].uri@),
        forall|u: Seq<char>|
            #[trigger] first_occurrences(route_uris(routes)).contains(u) ==> exists|i: int|
                0 <= i < routes.len() && routes[i].uri@ == u,
{
    lemma_first_occurrences(route_uris(routes));
    assert forall|i: int| 0 <= i < routes.len() implies first_occurrences(route_uris(routes)).contains(
        #[trigger] routes[i].uri@,
    ) by {
        assert(route_uris(routes)[i] == routes[i].uri@);
    }
    assert forall|u: Seq<char>| #[trigger] first_occurrences(route_uris(routes)).contains(u) implies exists|i: int|
        0 <= i < routes.len() && routes[i].uri@ == u by {
        let k = choose|k: int| 0 <= k < route_uris(routes).len() && route_uris(routes)[k] == u;
        assert(routes[k].uri@ == u);
    }
}

/// The route a collection is opened on: the last route for that collection
/// name (a later entry for the same name replaces an earlier one).
pub fn route_for(routes: &Vec<CollectionRoute>, collection: &String) -> (r: Option<usize>)
    ensures
        match r {
            Some(i) => i < routes@.len() && routes@[i as int].collection@ == collection@ && forall|j: int|
                i < j < routes@.len() ==> routes@[j].collection@ != collection@,
            None => forall|j: int| 0 <= j < routes@.len() ==> routes@[j].collection@ != collection@,
        },
{
    let mut found: Option<usize> = None;
    let mut i: usize = 0;
    while i < routes.len()
        invariant
            i <= routes@.len(),
            match found {
                Some(k) => k < i && routes@[k as int].collection@ == collection@ && forall|j: int|
                    k < j < i ==> routes@[j].collection@ != collection@,
                None => forall|j: int| 0 <= j < i ==> routes@[j].collection@ != collection@,
            },
        decreases routes@.len() - i,
    {
        if routes[i].collection == *collection {
            found = Some(i);
        }
        i = i + 1;
    }
    found
}

} // verus!
