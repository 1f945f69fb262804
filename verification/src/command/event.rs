//! Events.

use crate::command::{asks, Call};
use crate::decimal::decimal;
use crate::json::{no_members, optional, optional_number, set_member, Doc, Json};
use vstd::prelude::*;

verus! {

/// A new event.
#[derive(Debug, PartialEq, Eq)]
pub struct CreateEventArgs {
    /// The latitude, as the literal of a JSON number; none where it is not finite.
    pub lat: Option<String>,
    /// The longitude, as the literal of a JSON number; none where it is not finite.
    pub lon: Option<String>,
    pub name: String,
    pub website: String,
    pub starts_at: String,
    pub ends_at: Option<String>,
}

/// Creates an event.
pub fn create_event(args: &CreateEventArgs) -> (call: Call)
    ensures
        asks(
            call,
            "create_event"@,
            Map::empty()
                .insert("lat"@, optional_number(args.lat))
                .insert("lon"@, optional_number(args.lon))
                .insert("name"@, Doc::Text(args.name@))
                .insert("website"@, Doc::Text(args.website@))
                .insert("starts_at"@, Doc::Text(args.starts_at@))
                .insert("ends_at"@, optional(args.ends_at)),
        ),
{
    let mut members = no_members();
    set_member(&mut members, "lat", Json::optional_number(&args.lat));
    set_member(&mut members, "lon", Json::optional_number(&args.lon));
    set_member(&mut members, "name", Json::text(args.name.as_str()));
    set_member(&mut members, "website", Json::text(args.website.as_str()));
    set_member(&mut members, "starts_at", Json::text(args.starts_at.as_str()));
    set_member(&mut members, "ends_at", Json::optional_text(&args.ends_at));
    Call { method: "create_event".to_owned(), params: Json::Object(members) }
}

/// Fetches all events.
pub fn get_events() -> (call: Call)
    ensures
        asks(
            call,
            "get_events"@,
            Map::empty(),
        ),
{
    let members = no_members();
    Call { method: "get_events".to_owned(), params: Json::Object(members) }
}

/// Which event to fetch.
#[derive(Debug, PartialEq, Eq)]
pub struct GetEventArgs {
    pub id: i64,
}

/// Fetches an event by its id.
pub fn get_event(args: &GetEventArgs) -> (call: Call)
    ensures
        asks(
            call,
            "get_event"@,
            Map::empty()
                .insert("id"@, Doc::Number(decimal(args.id as int))),
        ),
{
    let mut members = no_members();
    set_member(&mut members, "id", Json::integer(args.id));
    Call { method: "get_event".to_owned(), params: Json::Object(members) }
}

/// Which event to delete.
#[derive(Debug, PartialEq, Eq)]
pub struct DeleteEventArgs {
    pub id: i64,
}

/// Deletes an event.
pub fn delete_event(args: &DeleteEventArgs) -> (call: Call)
    ensures
        asks(
            call,
            "delete_event"@,
            Map::empty()
                .insert("id"@, Doc::Number(decimal(args.id as int))),
        ),
{
    let mut members = no_members();
    set_member(&mut members, "id", Json::integer(args.id));
    Call { method: "delete_event".to_owned(), params: Json::Object(members) }
}

} // verus!
