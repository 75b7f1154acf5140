use host_lib::rpc::{
    availability_request, internal, reservation_request, AttractionsService, GeoService, RecommendService,
    ReservationRequest, ReservationService, Requirement, ReviewService, RpcCode, SearchService, UserService,
};

#[test]
fn requirement_names() {
    assert_eq!(Requirement::from_wire("dis").ok(), Some(Requirement::Distance));
    assert_eq!(Requirement::from_wire("distance").ok(), Some(Requirement::Distance));
    assert_eq!(Requirement::from_wire("rate").ok(), Some(Requirement::Rate));
    assert_eq!(Requirement::from_wire("price").ok(), Some(Requirement::Price));
}

#[test]
fn unknown_requirement_is_an_invalid_argument() {
    let e = Requirement::from_wire("cheap").err().unwrap();
    assert_eq!(e.code, RpcCode::InvalidArgument);
    assert_eq!(e.message, "unknown require: cheap");
    let e = Requirement::from_wire("").err().unwrap();
    assert_eq!(e.message, "unknown require: ");
    assert!(Requirement::from_wire("Rate").is_err());
}

#[test]
fn requirement_round_trip() {
    for r in [Requirement::Distance, Requirement::Rate, Requirement::Price] {
        assert_eq!(Requirement::from_wire(r.wire_name()).ok(), Some(r));
    }
    assert_eq!(Requirement::Distance.wire_name(), "dis");
    assert_eq!(Requirement::Rate.wire_name(), "rate");
    assert_eq!(Requirement::Price.wire_name(), "price");
}

#[test]
fn internal_status_carries_the_message() {
    let s = internal("boom".to_string());
    assert_eq!(s.code, RpcCode::Internal);
    assert_eq!(s.message, "boom");
}

fn request(ids: &[&str]) -> ReservationRequest {
    ReservationRequest {
        customer_name: "alice".to_string(),
        hotel_id: ids.iter().map(|s| s.to_string()).collect(),
        in_date: "2015-04-09".to_string(),
        out_date: "2015-04-10".to_string(),
        room_number: 2,
    }
}

#[test]
fn make_reservation_uses_the_first_hotel() {
    let o = ReservationService::<()>::make_reservation_args(request(&["5", "6"]));
    assert_eq!(o.hotel_id, "5");
    assert_eq!(o.customer_name, "alice");
    assert_eq!(o.in_date, "2015-04-09");
    assert_eq!(o.out_date, "2015-04-10");
    assert_eq!(o.room_number, 2);
    let o = ReservationService::<()>::make_reservation_args(request(&[]));
    assert_eq!(o.hotel_id, "");
}

#[test]
fn check_availability_asks_for_every_hotel() {
    let q = ReservationService::<()>::check_availability_args(request(&["1", "2", "3"]));
    assert_eq!(q.hotel_ids, vec!["1", "2", "3"]);
    assert_eq!(q.room_number, 2);
    assert_eq!(q.in_date, "2015-04-09");
}

#[test]
fn frontend_reservation_reaches_the_component_unchanged() {
    let req = reservation_request(
        "42".to_string(),
        "bob".to_string(),
        "2015-04-09".to_string(),
        "2015-04-12".to_string(),
        1,
    );
    assert_eq!(req.hotel_id, vec!["42".to_string()]);
    let o = ReservationService::<()>::make_reservation_args(req);
    assert_eq!(o.hotel_id, "42");
    assert_eq!(o.customer_name, "bob");
    assert_eq!(o.out_date, "2015-04-12");
    assert_eq!(o.room_number, 1);
}

#[test]
fn availability_request_has_no_customer() {
    let req = availability_request(vec!["1".to_string()], "a".to_string(), "b".to_string(), 1);
    assert_eq!(req.customer_name, "");
    assert_eq!(req.hotel_id, vec!["1".to_string()]);
    assert_eq!(req.room_number, 1);
}

#[test]
fn replies_pass_results_and_wrap_errors() {
    let ok = AttractionsService::<()>::reply(Ok(vec!["r1".to_string()])).ok().unwrap();
    assert_eq!(ok.attraction_ids, vec!["r1".to_string()]);
    let err = AttractionsService::<()>::reply(Err("trap".to_string())).err().unwrap();
    assert_eq!(err.code, RpcCode::Internal);
    assert_eq!(err.message, "trap");

    let ok = ReservationService::<()>::reply(Ok(vec![])).ok().unwrap();
    assert!(ok.hotel_id.is_empty());
    assert_eq!(ReservationService::<()>::reply(Err("x".to_string())).err().unwrap().message, "x");

    assert!(UserService::<()>::reply(Ok(true)).ok().unwrap().correct);
    assert!(!UserService::<()>::reply(Ok(false)).ok().unwrap().correct);
    assert_eq!(UserService::<()>::reply(Err("e".to_string())).err().unwrap().code, RpcCode::Internal);

    let reviews = ReviewService::<()>::reply(Ok(vec![1u8, 2])).ok().unwrap();
    assert_eq!(reviews.reviews, vec![1, 2]);
    assert_eq!(ReviewService::<()>::reply::<u8>(Err("r".to_string())).err().unwrap().message, "r");
}

#[test]
fn hotel_id_replies() {
    let ids = vec!["1".to_string(), "2".to_string()];
    assert_eq!(GeoService::<()>::reply(Ok(ids.clone())).ok().unwrap().hotel_ids, ids);
    assert_eq!(SearchService::<()>::reply(Ok(ids.clone())).ok().unwrap().hotel_ids, ids);
    assert_eq!(RecommendService::<()>::reply(Ok(vec![])).ok().unwrap().hotel_ids.len(), 0);
    let e = RecommendService::<()>::reply(Err("down".to_string())).err().unwrap();
    assert_eq!(e.code, RpcCode::Internal);
    assert_eq!(e.message, "down");
    assert_eq!(GeoService::<()>::reply(Err("g".to_string())).err().unwrap().message, "g");
}
