//! Areas: communities, countries and other regions.

use crate::command::{asks, Call, CommandError};
use crate::decimal::decimal;
use crate::json::{no_members, parse, parsed, set_member, Doc, Json};
use vstd::prelude::*;

verus! {

/// Which area to fetch.
#[derive(Debug, PartialEq, Eq)]
pub struct GetAreaArgs {
    /// A numeric id or an alias.
    pub id: String,
}

/// Fetches an area by its numeric id or its alias.
pub fn get_area(args: &GetAreaArgs) -> (call: Call)
    ensures
        asks(
            call,
            "get_area"@,
            Map::empty()
                .insert("id"@, Doc::Text(args.id@)),
        ),
{
    let mut members = no_members();
    set_member(&mut members, "id", Json::text(args.id.as_str()));
    Call { method: "get_area".to_owned(), params: Json::Object(members) }
}

/// Which tag to take from which area.
#[derive(Debug, PartialEq, Eq)]
pub struct RemoveAreaTagArgs {
    /// A numeric id or an alias.
    pub id: String,
    /// The tag's name.
    pub tag: String,
}

/// Takes a tag from an area.
pub fn remove_area_tag(args: &RemoveAreaTagArgs) -> (call: Call)
    ensures
        asks(
            call,
            "remove_area_tag"@,
            Map::empty()
                .insert("id"@, Doc::Text(args.id@))
                .insert("tag"@, Doc::Text(args.tag@)),
        ),
{
    let mut members = no_members();
    set_member(&mut members, "id", Json::text(args.id.as_str()));
    set_member(&mut members, "tag", Json::text(args.tag.as_str()));
    Call { method: "remove_area_tag".to_owned(), params: Json::Object(members) }
}

/// An icon for an area.
#[derive(Debug, PartialEq, Eq)]
pub struct SetAreaIconArgs {
    /// A numeric id or an alias.
    pub id: String,
    /// The image, base64-encoded.
    pub icon_base64: String,
    /// The image file's extension.
    pub icon_ext: String,
}

/// Gives an area an icon.
pub fn set_area_icon(args: &SetAreaIconArgs) -> (call: Call)
    ensures
        asks(
            call,
            "set_area_icon"@,
            Map::empty()
                .insert("id"@, Doc::Text(args.id@))
                .insert("icon_base64"@, Doc::Text(args.icon_base64@))
                .insert("icon_ext"@, Doc::Text(args.icon_ext@)),
        ),
{
    let mut members = no_members();
    set_member(&mut members, "id", Json::text(args.id.as_str()));
    set_member(&mut members, "icon_base64", Json::text(args.icon_base64.as_str()));
    set_member(&mut members, "icon_ext", Json::text(args.icon_ext.as_str()));
    Call { method: "set_area_icon".to_owned(), params: Json::Object(members) }
}

/// A range of element ids.
#[derive(Debug, PartialEq, Eq)]
pub struct GenerateAreasElementsMappingArgs {
    pub from_element_id: i64,
    pub to_element_id: i64,
}

/// Maps the elements of an id range to the areas that hold them.
pub fn generate_areas_elements_mapping(args: &GenerateAreasElementsMappingArgs) -> (call: Call)
    ensures
        asks(
            call,
            "generate_areas_elements_mapping"@,
            Map::empty()
                .insert("from_element_id"@, Doc::Number(decimal(args.from_element_id as int)))
                .insert("to_element_id"@, Doc::Number(decimal(args.to_element_id as int))),
        ),
{
    let mut members = no_members();
    set_member(&mut members, "from_element_id", Json::integer(args.from_element_id));
    set_member(&mut members, "to_element_id", Json::integer(args.to_element_id));
    Call { method: "generate_areas_elements_mapping".to_owned(), params: Json::Object(members) }
}

/// A tag for an area, with its value as the text of a JSON document.
#[derive(Debug, PartialEq, Eq)]
pub struct SetAreaTagArgs {
    /// A numeric id or an alias.
    pub id: String,
    pub name: String,
    pub value: String,
}

/// Sets a tag of an area to a value that was read already.
pub fn set_area_tag_to(args: &SetAreaTagArgs, value: Json) -> (call: Call)
    ensures
        asks(
            call,
            "set_area_tag"@,
            Map::empty().insert("id"@, Doc::Text(args.id@)).insert(
                "name"@,
                Doc::Text(args.name@),
            ).insert("value"@, value@),
        ),
{
    let mut members = no_members();
    set_member(&mut members, "id", Json::text(args.id.as_str()));
    set_member(&mut members, "name", Json::text(args.name.as_str()));
    set_member(&mut members, "value", value);
    Call { method: "set_area_tag".to_owned(), params: Json::Object(members) }
}

/// Sets a tag of an area. The value is read from its text, which must hold a
/// JSON document.
pub fn set_area_tag(args: &SetAreaTagArgs) -> (r: Result<Call, CommandError>)
    ensures
        match parsed(args.value@) {
            Some(doc) => r matches Ok(call) && asks(
                call,
                "set_area_tag"@,
                Map::empty().insert("id"@, Doc::Text(args.id@)).insert(
                    "name"@,
                    Doc::Text(args.name@),
                ).insert("value"@, doc),
            ),
            None => r == Err::<Call, CommandError>(CommandError::InvalidJson),
        },
{
    match parse(args.value.as_str()) {
        Some(value) => Ok(set_area_tag_to(args, value)),
        None => Err(CommandError::InvalidJson),
    }
}

} // verus!
