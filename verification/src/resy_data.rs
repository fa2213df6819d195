//! The data the reservation service exchanges, held as plain values.

use vstd::prelude::*;
use crate::ascii::{contains_ignore_case, contains_seq, eq_ignore_case, lower};
use crate::caltime::{parse_datetime, spec_parse_datetime, SlotDateTime};

verus! {

/// One city of the service's network: which country it belongs to and the
/// slug its venue pages live under. The search endpoint also needs the
/// city's coordinates; those stay with the network layer, which keeps them
/// alongside this record.
pub struct RestaurantCityConfig {
    pub country_code: String,
    pub url_slug: String,
}

/// The mathematical content of a city record.
pub ghost struct CityConfigView {
    pub country_code: Seq<char>,
    pub url_slug: Seq<char>,
}

impl View for RestaurantCityConfig {
    type V = CityConfigView;

    open spec fn view(&self) -> CityConfigView {
        CityConfigView { country_code: self.country_code@, url_slug: self.url_slug@ }
    }
}

impl Clone for RestaurantCityConfig {
    fn clone(&self) -> (r: Self)
        ensures
            r@ == self@,
    {
        RestaurantCityConfig {
            country_code: self.country_code.clone(),
            url_slug: self.url_slug.clone(),
        }
    }
}

/// Whether a city record matches a city/country query: the country code
/// equal and the city name contained in the slug, ASCII case ignored.
pub open spec fn spec_city_matches(cfg: CityConfigView, city: Seq<char>, country: Seq<char>) -> bool {
    lower(cfg.country_code) == lower(country) && contains_seq(lower(cfg.url_slug), lower(city))
}

impl RestaurantCityConfig {
    /// Whether this record answers a city/country query.
    pub fn is_match(&self, city: &str, country: &str) -> (r: bool)
        ensures
            r == spec_city_matches(self@, city@, country@),
    {
        let country_match = eq_ignore_case(self.country_code.as_str(), country);
        let city_match = contains_ignore_case(self.url_slug.as_str(), city);
        country_match && city_match
    }
}

/// One venue the search endpoint returned.
pub struct RestaurantSearchResult {
    pub object_id: String,
    pub name: String,
}

/// The mathematical content of a search hit.
pub ghost struct SearchResultView {
    pub object_id: Seq<char>,
    pub name: Seq<char>,
}

impl View for RestaurantSearchResult {
    type V = SearchResultView;

    open spec fn view(&self) -> SearchResultView {
        SearchResultView { object_id: self.object_id@, name: self.name@ }
    }
}

impl Clone for RestaurantSearchResult {
    fn clone(&self) -> (r: Self)
        ensures
            r@ == self@,
    {
        RestaurantSearchResult { object_id: self.object_id.clone(), name: self.name.clone() }
    }
}

/// The hit a name search settles on: the first one, the name being assumed
/// unique within its city.
pub fn first_search_hit(hits: &Vec<RestaurantSearchResult>) -> (r: Option<RestaurantSearchResult>)
    ensures
        hits@.len() > 0 ==> (r matches Some(h) && h@ == hits@[0]@),
        hits@.len() == 0 ==> r is None,
{
    if hits.len() > 0 {
        Some(hits[0].clone())
    } else {
        None
    }
}

/// When a reservation slot starts, as the wire carries it.
pub struct ReservationSlotDate {
    pub start: String,
}

impl ReservationSlotDate {
    /// The slot's start moment as a date and time of day.
    pub fn to_datetime(&self) -> (r: SlotDateTime)
        requires
            spec_parse_datetime(self.start@) is Some,
        ensures
            Some(r) == spec_parse_datetime(self.start@),
            r.wf(),
    {
        match parse_datetime(self.start.as_str()) {
            Some(dt) => dt,
            None => vstd::pervasive::unreached(),
        }
    }
}

impl Clone for ReservationSlotDate {
    fn clone(&self) -> (r: Self)
        ensures
            r.start@ == self.start@,
    {
        ReservationSlotDate { start: self.start.clone() }
    }
}

/// What one slot offers: its table type and the token that buys its
/// booking details.
pub struct ReservationSlotConfig {
    pub id: u32,
    pub slot_type: String,
    pub token: String,
}

impl Clone for ReservationSlotConfig {
    fn clone(&self) -> (r: Self)
        ensures
            r.id == self.id,
            r.slot_type@ == self.slot_type@,
            r.token@ == self.token@,
    {
        ReservationSlotConfig {
            id: self.id,
            slot_type: self.slot_type.clone(),
            token: self.token.clone(),
        }
    }
}

/// One bookable time window at a restaurant.
pub struct ReservationSlot {
    pub date: ReservationSlotDate,
    pub config: ReservationSlotConfig,
}

/// The mathematical content of a slot.
pub ghost struct SlotView {
    pub start: Seq<char>,
    pub id: u32,
    pub slot_type: Seq<char>,
    pub token: Seq<char>,
}

impl View for ReservationSlot {
    type V = SlotView;

    open spec fn view(&self) -> SlotView {
        SlotView {
            start: self.date.start@,
            id: self.config.id,
            slot_type: self.config.slot_type@,
            token: self.config.token@,
        }
    }
}

impl Clone for ReservationSlot {
    fn clone(&self) -> (r: Self)
        ensures
            r@ == self@,
    {
        ReservationSlot { date: self.date.clone(), config: self.config.clone() }
    }
}

/// The request body that asks for a slot's booking details.
pub struct ReservationDetailsRequest {
    pub config_id: String,
    pub date: String,
    pub party_size: String,
}

impl ReservationDetailsRequest {
    pub fn new(config_id: String, date: String, party_size: String) -> (r: ReservationDetailsRequest)
        ensures
            r.config_id@ == config_id@,
            r.date@ == date@,
            r.party_size@ == party_size@,
    {
        ReservationDetailsRequest { config_id, date, party_size }
    }
}

/// One saved payment method of the user.
#[derive(Clone, Copy, Debug, PartialEq, Eq, Structural)]
pub struct PaymentMethod {
    pub id: u32,
}

/// The user part of a details response: the payment methods on file.
pub struct DetailsUser {
    pub payment_methods: Vec<PaymentMethod>,
}

/// The credential that finalizes a booking.
pub struct BookToken {
    pub value: String,
}

impl Clone for BookToken {
    fn clone(&self) -> (r: Self)
        ensures
            r.value@ == self.value@,
    {
        BookToken { value: self.value.clone() }
    }
}

/// What the details step hands back: the book token and the user's saved
/// payment methods.
pub struct ReservationDetails {
    pub user: DetailsUser,
    pub book_token: BookToken,
}

impl ReservationDetails {
    /// The payment method a booking falls back on: the first one the
    /// service returned, in its order. A user may have none on file.
    pub fn get_payment_id(&self) -> (r: Option<PaymentMethod>)
        ensures
            self.user.payment_methods@.len() > 0 ==> r == Some(self.user.payment_methods@[0]),
            self.user.payment_methods@.len() == 0 ==> r is None,
    {
        if self.user.payment_methods.len() > 0 {
            Some(self.user.payment_methods[0])
        } else {
            None
        }
    }
}

/// What one availability notification watches: a venue, a date, a party
/// size and a preferred time window.
pub struct ResyNotificationSpec {
    pub venue_id: u32,
    pub party_size: u8,
    pub day: String,
    pub time_preferred_start: String,
    pub time_preferred_end: String,
    pub service_type_id: u8,
}

/// One availability notification of the user.
pub struct ResyNotification {
    pub specs: ResyNotificationSpec,
}

/// Whether a notification passes an optional venue filter: with no filter
/// every notification passes, with one only those for that venue.
pub fn notifications_filter(notification: &ResyNotification, restaurant_id: &Option<u32>) -> (r:
    bool)
    ensures
        r == match *restaurant_id {
            None => true,
            Some(id) => notification.specs.venue_id == id,
        },
{
    match restaurant_id {
        None => true,
        Some(id) => notification.specs.venue_id == *id,
    }
}

} // verus!
