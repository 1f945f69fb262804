//! Places submitted from other sources.

use crate::command::{asks, Call};
use crate::decimal::{decimal, i64_of, parse_i64};
use crate::json::{no_members, optional, optional_number, set_member, Doc, Json};
use crate::text::{before, span_before};
use vstd::prelude::*;
use vstd::string::*;

verus! {

/// A place from another source.
#[derive(Debug, PartialEq, Eq)]
pub struct SubmitPlaceArgs {
    pub origin: String,
    pub external_id: String,
    /// The latitude, as the literal of a JSON number; none where it is not finite.
    pub lat: Option<String>,
    /// The longitude, as the literal of a JSON number; none where it is not finite.
    pub lon: Option<String>,
    pub category: String,
    pub name: String,
    pub extra_fields: Option<String>,
}

/// Submits a place.
pub fn submit_place(args: &SubmitPlaceArgs) -> (call: Call)
    ensures
        asks(
            call,
            "submit_place"@,
            Map::empty()
                .insert("origin"@, Doc::Text(args.origin@))
                .insert("external_id"@, Doc::Text(args.external_id@))
                .insert("lat"@, optional_number(args.lat))
                .insert("lon"@, optional_number(args.lon))
                .insert("category"@, Doc::Text(args.category@))
                .insert("name"@, Doc::Text(args.name@))
                .insert("extra_fields"@, optional(args.extra_fields)),
        ),
{
    let mut members = no_members();
    set_member(&mut members, "origin", Json::text(args.origin.as_str()));
    set_member(&mut members, "external_id", Json::text(args.external_id.as_str()));
    set_member(&mut members, "lat", Json::optional_number(&args.lat));
    set_member(&mut members, "lon", Json::optional_number(&args.lon));
    set_member(&mut members, "category", Json::text(args.category.as_str()));
    set_member(&mut members, "name", Json::text(args.name.as_str()));
    set_member(&mut members, "extra_fields", Json::optional_text(&args.extra_fields));
    Call { method: "submit_place".to_owned(), params: Json::Object(members) }
}

/// How a submitted place is named.
pub enum PlaceKey {
    /// By its number.
    Id(int),
    /// By where it came from and what it is called there.
    External(Seq<char>, Seq<char>),
}

/// Reads the name of a submitted place. A text that writes an `i64` names
/// the place by number. Any other text is cut at its colons: what stands
/// before the first is the origin, what stands between the first and the
/// second, or the end, is the external id. A text that is neither names
/// nothing.
pub open spec fn place_key(id: Seq<char>) -> Option<PlaceKey> {
    match i64_of(id) {
        Some(n) => Some(PlaceKey::Id(n as int)),
        None => {
            let cut = span_before(id, ':') as int;
            if cut == id.len() {
                None
            } else {
                let rest = id.subrange(cut + 1, id.len() as int);
                Some(
                    PlaceKey::External(
                        id.subrange(0, cut),
                        rest.subrange(0, span_before(rest, ':') as int),
                    ),
                )
            }
        },
    }
}

/// The parameters that name a submitted place.
pub open spec fn place_params(key: PlaceKey) -> Map<Seq<char>, Doc> {
    match key {
        PlaceKey::Id(n) => Map::empty().insert("id"@, Doc::Number(decimal(n))),
        PlaceKey::External(origin, external_id) => Map::empty().insert(
            "origin"@,
            Doc::Text(origin),
        ).insert("external_id"@, Doc::Text(external_id)),
    }
}

/// Tells whether a text names a submitted place.
pub fn names_place(id: &str) -> (r: bool)
    ensures
        r == (place_key(id@) is Some),
{
    match parse_i64(id) {
        Some(_) => true,
        None => before(id, ':') < id.unicode_len(),
    }
}

fn place_call(method: &str, id: &str) -> (call: Call)
    requires
        place_key(id@) is Some,
    ensures
        asks(call, method@, place_params(place_key(id@)->0)),
{
    let mut members = no_members();
    match parse_i64(id) {
        Some(n) => {
            set_member(&mut members, "id", Json::integer(n));
        },
        None => {
            let cut = before(id, ':');
            let n = id.unicode_len();
            assert(cut < n);
            let rest = id.substring_char(cut + 1, n);
            let end = before(rest, ':');
            set_member(&mut members, "origin", Json::text(id.substring_char(0, cut)));
            set_member(&mut members, "external_id", Json::text(rest.substring_char(0, end)));
        },
    }
    Call { method: method.to_owned(), params: Json::Object(members) }
}

/// Which submitted place to fetch.
#[derive(Debug, PartialEq, Eq)]
pub struct GetSubmittedPlaceArgs {
    /// A number, or `origin:external_id`.
    pub id: String,
}

/// Fetches a submitted place. The id must name one: [`names_place`] tells.
pub fn get_submitted_place(args: &GetSubmittedPlaceArgs) -> (call: Call)
    requires
        place_key(args.id@) is Some,
    ensures
        asks(call, "get_submitted_place"@, place_params(place_key(args.id@)->0)),
{
    place_call("get_submitted_place", args.id.as_str())
}

/// Which submitted place to revoke.
#[derive(Debug, PartialEq, Eq)]
pub struct RevokeSubmittedPlaceArgs {
    /// A number, or `origin:external_id`.
    pub id: String,
}

/// Revokes a submitted place. The id must name one: [`names_place`] tells.
pub fn revoke_submitted_place(args: &RevokeSubmittedPlaceArgs) -> (call: Call)
    requires
        place_key(args.id@) is Some,
    ensures
        asks(call, "revoke_submitted_place"@, place_params(place_key(args.id@)->0)),
{
    place_call("revoke_submitted_place", args.id.as_str())
}

} // verus!
