use host_lib::routing::{distinct_uris, route_collection, route_collections, route_for, CollectionSpec};

fn spec(c: &str, env: &str, db: &str) -> CollectionSpec {
    CollectionSpec { collection: c.to_string(), uri_env: env.to_string(), db_name: db.to_string() }
}

fn specs() -> Vec<CollectionSpec> {
    vec![
        spec("attractions", "MONGO_URI_ATTRACTIONS", "attractions-db"),
        spec("geo", "MONGO_URI_GEO", "geo-db"),
        spec("number", "MONGO_URI_RESERVATION", "reservation-db"),
        spec("reservation", "MONGO_URI_RESERVATION", "reservation-db"),
    ]
}

#[test]
fn unset_uri_falls_back_to_shared_database() {
    let r = route_collection(&spec("geo", "MONGO_URI_GEO", "geo-db"), None, &"mongodb://m:27017".to_string(), &"hotel".to_string());
    assert_eq!(r.collection, "geo");
    assert_eq!(r.uri, "mongodb://m:27017");
    assert_eq!(r.database, "hotel");
}

#[test]
fn set_uri_uses_the_service_database() {
    let r = route_collection(
        &spec("geo", "MONGO_URI_GEO", "geo-db"),
        Some("mongodb://geo:27017".to_string()),
        &"mongodb://m:27017".to_string(),
        &"hotel".to_string(),
    );
    assert_eq!(r.uri, "mongodb://geo:27017");
    assert_eq!(r.database, "geo-db");
}

#[test]
fn routes_and_clients() {
    let env = vec![
        None,
        Some("mongodb://geo:27017".to_string()),
        Some("mongodb://res:27017".to_string()),
        Some("mongodb://res:27017".to_string()),
    ];
    let routes = route_collections(&specs(), env, &"mongodb://m:27017".to_string(), &"hotel".to_string());
    assert_eq!(routes.len(), 4);
    assert_eq!(routes[0].database, "hotel");
    assert_eq!(routes[2].database, "reservation-db");
    assert_eq!(routes[3].collection, "reservation");
    let uris = distinct_uris(&routes);
    assert_eq!(uris, vec!["mongodb://m:27017", "mongodb://geo:27017", "mongodb://res:27017"]);
    assert_eq!(route_for(&routes, &"reservation".to_string()), Some(3));
    assert_eq!(route_for(&routes, &"users".to_string()), None);
}

#[test]
fn all_unset_share_one_client() {
    let routes = route_collections(&specs(), vec![None, None, None, None], &"mongodb://m".to_string(), &"hotel".to_string());
    assert_eq!(distinct_uris(&routes), vec!["mongodb://m"]);
}

#[test]
fn later_route_for_a_name_wins() {
    let s = vec![spec("geo", "A", "a-db"), spec("geo", "B", "b-db")];
    let routes = route_collections(&s, vec![Some("u1".to_string()), Some("u2".to_string())], &"f".to_string(), &"h".to_string());
    assert_eq!(route_for(&routes, &"geo".to_string()), Some(1));
}
