//! The gRPC faces of the services: request and reply messages, the status a
//! failed call is answered with, and what each service handler does around its
//! component call (how a request becomes the component's arguments, and how the
//! component's outcome becomes the reply).
use std::sync::Arc;
use vstd::prelude::*;
use vstd::string::StringExecFns;

verus! {

/// The gRPC status codes the services answer with.
#[derive(PartialEq, Eq, Structural, Clone, Copy, Debug)]
pub enum RpcCode {
    /// The component call failed.
    Internal,
    /// The request named something the service does not know.
    InvalidArgument,
}

/// A failed gRPC call: a status code and its message.
pub struct RpcStatus {
    pub code: RpcCode,
    pub message: String,
}

/// The status a service answers with when its component call fails: `Internal`
/// carrying the component's error text.
pub fn internal(message: String) -> (s: RpcStatus)
    ensures
        s.code == RpcCode::Internal,
        s.message@ == message@,
{
    RpcStatus { code: RpcCode::Internal, message }
}

/// Passes a component's result through, or turns its error into an `Internal` status.
pub open spec fn answers_with<T>(outcome: Result<T, String>, r: Result<T, RpcStatus>) -> bool {
    match outcome {
        Ok(v) => r == Ok::<T, RpcStatus>(v),
        Err(m) => r matches Err(s) && s.code == RpcCode::Internal && s.message@ == m@,
    }
}

fn answer<T>(outcome: Result<T, String>) -> (r: Result<T, RpcStatus>)
    ensures
        answers_with(outcome, r),
{
    match outcome {
        Ok(v) => Ok(v),
        Err(m) => Err(internal(m)),
    }
}

// ---------------------------------------------------------------- recommendation

/// What a recommendation is ranked by.
#[derive(PartialEq, Eq, Structural, Clone, Copy, Debug)]
pub enum Requirement {
    Distance,
    Rate,
    Price,
}

/// The requirement a wire name stands for: `dis` or `distance`, `rate`, `price`.
pub open spec fn requirement_named(name: Seq<char>) -> Option<Requirement> {
    if name == "dis"@ || name == "distance"@ {
        Some(Requirement::Distance)
    } else if name == "rate"@ {
        Some(Requirement::Rate)
    } else if name == "price"@ {
        Some(Requirement::Price)
    } else {
        None
    }
}

/// The name a requirement is sent under.
pub open spec fn wire_name_of(r: Requirement) -> Seq<char> {
    match r {
        Requirement::Distance => "dis"@,
        Requirement::Rate => "rate"@,
        Requirement::Price => "price"@,
    }
}

impl Requirement {
    /// Reads the `require` field of a recommendation request; an unknown name
    /// is answered with `InvalidArgument` and `unknown require: <name>`.
    pub fn from_wire(require: &str) -> (r: Result<Requirement, RpcStatus>)
        ensures
            match requirement_named(require@) {
                Some(req) => r == Ok::<Requirement, RpcStatus>(req),
                None => r matches Err(s) && s.code == RpcCode::InvalidArgument && s.message@
                    == "unknown require: "@ + require@,
            },
    {
        let name = require.to_owned();
        if name == "dis".to_owned() || name == "distance".to_owned() {
            Ok(Requirement::Distance)
        } else if name == "rate".to_owned() {
            Ok(Requirement::Rate)
        } else if name == "price".to_owned() {
            Ok(Requirement::Price)
        } else {
            let mut message = "unknown require: ".to_owned();
            message.append(require);
            Err(RpcStatus { code: RpcCode::InvalidArgument, message })
        }
    }

    /// The name the frontend sends a requirement under (`dis`, `rate`, `price`).
    pub fn wire_name(&self) -> (s: &'static str)
        ensures
            s@ == wire_name_of(*self),
    {
        match self {
            Requirement::Distance => "dis",
            Requirement::Rate => "rate",
            Requirement::Price => "price",
        }
    }
}

/// Every requirement the frontend sends is read back as itself by the
/// recommendation service.
pub proof fn lemma_requirement_round_trip(r: Requirement)
    ensures
        requirement_named(wire_name_of(r)) == Some(r),
{
    reveal_strlit("dis");
    reveal_strlit("distance");
    reveal_strlit("rate");
    reveal_strlit("price");
    assert("dis"@.len() == 3);
    assert("distance"@.len() == 8);
    assert("rate"@.len() == 4);
    assert("price"@.len() == 5);
}

// ---------------------------------------------------------------- attractions

/// A request naming a hotel.
pub struct AttractionsRequest {
    pub hotel_id: String,
}

/// The ids of the attractions near a hotel.
pub struct AttractionsResult {
    pub attraction_ids: Vec<String>,
}

/// The attractions gRPC service over a component.
pub struct AttractionsService<C> {
    pub component: Arc<C>,
}

impl<C> AttractionsService<C> {
    /// The reply to a `NearbyRest`, `NearbyMus` or `NearbyCinema` request,
    /// given what the component call returned.
    pub fn reply(outcome: Result<Vec<String>, String>) -> (r: Result<AttractionsResult, RpcStatus>)
        ensures
            match outcome {
                Ok(ids) => r matches Ok(res) && res.attraction_ids@ == ids@,
                Err(m) => r matches Err(s) && s.code == RpcCode::Internal && s.message@ == m@,
            },
    {
        match answer(outcome) {
            Ok(attraction_ids) => Ok(AttractionsResult { attraction_ids }),
            Err(s) => Err(s),
        }
    }
}

// ---------------------------------------------------------------- reservation

/// A reservation request: it names hotels, a customer, a stay and a number of rooms.
pub struct ReservationRequest {
    pub customer_name: String,
    pub hotel_id: Vec<String>,
    pub in_date: String,
    pub out_date: String,
    pub room_number: i32,
}

/// The hotel ids a reservation call answers with.
pub struct ReservationResult {
    pub hotel_id: Vec<String>,
}

/// The arguments of the component's availability check.
pub struct AvailabilityQuery {
    pub hotel_ids: Vec<String>,
    pub in_date: String,
    pub out_date: String,
    pub room_number: i32,
}

/// The arguments of the component's reservation call.
pub struct ReservationOrder {
    pub hotel_id: String,
    pub customer_name: String,
    pub in_date: String,
    pub out_date: String,
    pub room_number: i32,
}

/// The first of a list of hotel ids, or the empty id when there is none.
pub open spec fn first_or_empty(ids: Seq<String>) -> Seq<char> {
    if ids.len() > 0 { ids[0]@ } else { Seq::empty() }
}

/// The reservation gRPC service over a component.
pub struct ReservationService<C> {
    pub component: Arc<C>,
}

impl<C> ReservationService<C> {
    /// What a `CheckAvailability` request asks the component: every hotel it names.
    pub fn check_availability_args(req: ReservationRequest) -> (q: AvailabilityQuery)
        ensures
            q.hotel_ids@ == req.hotel_id@,
            q.in_date@ == req.in_date@,
            q.out_date@ == req.out_date@,
            q.room_number == req.room_number,
    {
        AvailabilityQuery {
            hotel_ids: req.hotel_id,
            in_date: req.in_date,
            out_date: req.out_date,
            room_number: req.room_number,
        }
    }

    /// What a `MakeReservation` request asks the component: a reservation at
    /// the first hotel it names (the empty id when it names none).
    pub fn make_reservation_args(req: ReservationRequest) -> (o: ReservationOrder)
        ensures
            o.hotel_id@ == first_or_empty(req.hotel_id@),
            o.customer_name@ == req.customer_name@,
            o.in_date@ == req.in_date@,
            o.out_date@ == req.out_date@,
            o.room_number == req.room_number,
    {
        let ReservationRequest { customer_name, hotel_id, in_date, out_date, room_number } = req;
        let mut ids = hotel_id;
        let hotel_id = if ids.len() > 0 {
            ids.swap_remove(0)
        } else {
            String::new()
        };
        ReservationOrder { hotel_id, customer_name, in_date, out_date, room_number }
    }

    /// The reply to either call, given what the component call returned.
    pub fn reply(outcome: Result<Vec<String>, String>) -> (r: Result<ReservationResult, RpcStatus>)
        ensures
            match outcome {
                Ok(ids) => r matches Ok(res) && res.hotel_id@ == ids@,
                Err(m) => r matches Err(s) && s.code == RpcCode::Internal && s.message@ == m@,
            },
    {
        match answer(outcome) {
            Ok(hotel_id) => Ok(ReservationResult { hotel_id }),
            Err(s) => Err(s),
        }
    }
}

/// The request the frontend sends to reserve at one hotel.
pub fn reservation_request(
    hotel_id: String,
    customer_name: String,
    in_date: String,
    out_date: String,
    room_number: i32,
) -> (req: ReservationRequest)
    ensures
        req.hotel_id@.len() == 1,
        req.hotel_id@[0]@ == hotel_id@,
        req.customer_name@ == customer_name@,
        req.in_date@ == in_date@,
        req.out_date@ == out_date@,
        req.room_number == room_number,
{
    let mut ids: Vec<String> = Vec::new();
    ids.push(hotel_id);
    ReservationRequest { customer_name, hotel_id: ids, in_date, out_date, room_number }
}

/// The request the frontend sends to check the availability of hotels; it
/// carries no customer.
pub fn availability_request(
    hotel_ids: Vec<String>,
    in_date: String,
    out_date: String,
    room_number: i32,
) -> (req: ReservationRequest)
    ensures
        req.hotel_id@ == hotel_ids@,
        req.customer_name@ == Seq::<char>::empty(),
        req.in_date@ == in_date@,
        req.out_date@ == out_date@,
        req.room_number == room_number,
{
    ReservationRequest { customer_name: String::new(), hotel_id: hotel_ids, in_date, out_date, room_number }
}

/// A reservation the frontend asks for reaches the component for the same
/// hotel, customer, stay and number of rooms.
pub proof fn lemma_reservation_reaches_component(req: ReservationRequest, hotel_id: String)
    requires
        req.hotel_id@.len() == 1,
        req.hotel_id@[0]@ == hotel_id@,
    ensures
        first_or_empty(req.hotel_id@) == hotel_id@,
{
}

// ---------------------------------------------------------------- review

/// The reviews of a hotel.
pub struct ReviewResult<R> {
    pub reviews: Vec<R>,
}

/// The review gRPC service over a component.
pub struct ReviewService<C> {
    pub component: Arc<C>,
}

impl<C> ReviewService<C> {
    /// The reply to a `GetReviews` request, given what the component call returned.
    pub fn reply<R>(outcome: Result<Vec<R>, String>) -> (r: Result<ReviewResult<R>, RpcStatus>)
        ensures
            match outcome {
                Ok(reviews) => r matches Ok(res) && res.reviews@ == reviews@,
                Err(m) => r matches Err(s) && s.code == RpcCode::Internal && s.message@ == m@,
            },
    {
        match answer(outcome) {
            Ok(reviews) => Ok(ReviewResult { reviews }),
            Err(s) => Err(s),
        }
    }
}

// ---------------------------------------------------------------- user

/// A login check.
pub struct UserRequest {
    pub username: String,
    pub password: String,
}

/// Whether the login was correct.
pub struct UserResult {
    pub correct: bool,
}

/// The user gRPC service over a component.
pub struct UserService<C> {
    pub component: Arc<C>,
}

impl<C> UserService<C> {
    /// The reply to a `CheckUser` request, given what the component call returned.
    pub fn reply(outcome: Result<bool, String>) -> (r: Result<UserResult, RpcStatus>)
        ensures
            match outcome {
                Ok(correct) => r matches Ok(res) && res.correct == correct,
                Err(m) => r matches Err(s) && s.code == RpcCode::Internal && s.message@ == m@,
            },
    {
        match answer(outcome) {
            Ok(correct) => Ok(UserResult { correct }),
            Err(s) => Err(s),
        }
    }
}

// ---------------------------------------------------------------- hotel-id replies

/// The ids a geo, search or recommendation call answers with.
pub struct HotelIdsResult {
    pub hotel_ids: Vec<String>,
}

/// The reply carrying the hotel ids a component found.
pub open spec fn ids_reply(outcome: Result<Vec<String>, String>, r: Result<HotelIdsResult, RpcStatus>) -> bool {
    match outcome {
        Ok(ids) => r matches Ok(res) && res.hotel_ids@ == ids@,
        Err(m) => r matches Err(s) && s.code == RpcCode::Internal && s.message@ == m@,
    }
}

fn ids_result(outcome: Result<Vec<String>, String>) -> (r: Result<HotelIdsResult, RpcStatus>)
    ensures
        ids_reply(outcome, r),
{
    match answer(outcome) {
        Ok(hotel_ids) => Ok(HotelIdsResult { hotel_ids }),
        Err(s) => Err(s),
    }
}

/// The geo gRPC service over a component.
pub struct GeoService<C> {
    pub component: Arc<C>,
}

impl<C> GeoService<C> {
    /// The reply to a `Nearby` request, given what the component call returned.
    pub fn reply(outcome: Result<Vec<String>, String>) -> (r: Result<HotelIdsResult, RpcStatus>)
        ensures
            ids_reply(outcome, r),
    {
        ids_result(outcome)
    }
}

/// The search gRPC service over a component.
pub struct SearchService<C> {
    pub component: Arc<C>,
}

impl<C> SearchService<C> {
    /// The reply to a `Nearby` search, given what the component call returned.
    pub fn reply(outcome: Result<Vec<String>, String>) -> (r: Result<HotelIdsResult, RpcStatus>)
        ensures
            ids_reply(outcome, r),
    {
        ids_result(outcome)
    }
}

/// The recommendation gRPC service over a component.
pub struct RecommendService<C> {
    pub component: Arc<C>,
}

impl<C> RecommendService<C> {
    /// The reply to a `GetRecommendations` request, given what the component
    /// call returned.
    pub fn reply(outcome: Result<Vec<String>, String>) -> (r: Result<HotelIdsResult, RpcStatus>)
        ensures
            ids_reply(outcome, r),
    {
        ids_result(outcome)
    }
}

} // verus!
