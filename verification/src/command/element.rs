//! Elements: the places on the map.

use crate::command::{asks, Call, CommandError};
use crate::decimal::decimal;
use crate::json::{no_members, parse, parsed, set_member, Doc, Json};
use vstd::prelude::*;

verus! {

/// Which element to fetch.
#[derive(Debug, PartialEq, Eq)]
pub struct GetElementArgs {
    pub id: i64,
}

/// Fetches an element by its id.
pub fn get_element(args: &GetElementArgs) -> (call: Call)
    ensures
        asks(
            call,
            "get_element"@,
            Map::empty()
                .insert("id"@, Doc::Number(decimal(args.id as int))),
        ),
{
    let mut members = no_members();
    set_member(&mut members, "id", Json::integer(args.id));
    Call { method: "get_element".to_owned(), params: Json::Object(members) }
}

/// Which tag to take from which element.
#[derive(Debug, PartialEq, Eq)]
pub struct RemoveElementTagArgs {
    pub element_id: i64,
    pub tag_name: String,
}

/// Takes a tag from an element.
pub fn remove_element_tag(args: &RemoveElementTagArgs) -> (call: Call)
    ensures
        asks(
            call,
            "remove_element_tag"@,
            Map::empty()
                .insert("element_id"@, Doc::Number(decimal(args.element_id as int)))
                .insert("tag_name"@, Doc::Text(args.tag_name@)),
        ),
{
    let mut members = no_members();
    set_member(&mut members, "element_id", Json::integer(args.element_id));
    set_member(&mut members, "tag_name", Json::text(args.tag_name.as_str()));
    Call { method: "remove_element_tag".to_owned(), params: Json::Object(members) }
}

/// Fetches all boosted elements.
pub fn get_boosted_elements() -> (call: Call)
    ensures
        asks(
            call,
            "get_boosted_elements"@,
            Map::empty(),
        ),
{
    let members = no_members();
    Call { method: "get_boosted_elements".to_owned(), params: Json::Object(members) }
}

/// Which element to boost, and for how long.
#[derive(Debug, PartialEq, Eq)]
pub struct BoostElementArgs {
    /// A numeric id or an OSM id such as `node:12345`.
    pub id: String,
    pub days: i64,
}

/// Boosts an element for a number of days.
pub fn boost_element(args: &BoostElementArgs) -> (call: Call)
    ensures
        asks(
            call,
            "boost_element"@,
            Map::empty()
                .insert("id"@, Doc::Text(args.id@))
                .insert("days"@, Doc::Number(decimal(args.days as int))),
        ),
{
    let mut members = no_members();
    set_member(&mut members, "id", Json::text(args.id.as_str()));
    set_member(&mut members, "days", Json::integer(args.days));
    Call { method: "boost_element".to_owned(), params: Json::Object(members) }
}

/// Asks for the current price of a boost.
pub fn paywall_get_boost_element_quote() -> (call: Call)
    ensures
        asks(
            call,
            "paywall_get_boost_element_quote"@,
            Map::empty(),
        ),
{
    let members = no_members();
    Call { method: "paywall_get_boost_element_quote".to_owned(), params: Json::Object(members) }
}

/// Which element to boost against an invoice, and for how long.
#[derive(Debug, PartialEq, Eq)]
pub struct PaywallBoostElementArgs {
    pub element_id: String,
    pub days: i64,
}

/// Asks for an invoice for a boost.
pub fn paywall_boost_element(args: &PaywallBoostElementArgs) -> (call: Call)
    ensures
        asks(
            call,
            "paywall_boost_element"@,
            Map::empty()
                .insert("element_id"@, Doc::Text(args.element_id@))
                .insert("days"@, Doc::Number(decimal(args.days as int))),
        ),
{
    let mut members = no_members();
    set_member(&mut members, "element_id", Json::text(args.element_id.as_str()));
    set_member(&mut members, "days", Json::integer(args.days));
    Call { method: "paywall_boost_element".to_owned(), params: Json::Object(members) }
}

/// A comment on an element.
#[derive(Debug, PartialEq, Eq)]
pub struct AddElementCommentArgs {
    pub element_id: i64,
    pub comment: String,
}

/// Adds a comment to an element.
pub fn add_element_comment(args: &AddElementCommentArgs) -> (call: Call)
    ensures
        asks(
            call,
            "add_element_comment"@,
            Map::empty()
                .insert("element_id"@, Doc::Number(decimal(args.element_id as int)))
                .insert("comment"@, Doc::Text(args.comment@)),
        ),
{
    let mut members = no_members();
    set_member(&mut members, "element_id", Json::integer(args.element_id));
    set_member(&mut members, "comment", Json::text(args.comment.as_str()));
    Call { method: "add_element_comment".to_owned(), params: Json::Object(members) }
}

/// Asks for the current price of a comment.
pub fn paywall_get_add_element_comment_quote() -> (call: Call)
    ensures
        asks(
            call,
            "paywall_get_add_element_comment_quote"@,
            Map::empty(),
        ),
{
    let members = no_members();
    Call { method: "paywall_get_add_element_comment_quote".to_owned(), params: Json::Object(members) }
}

/// A comment on an element, against an invoice.
#[derive(Debug, PartialEq, Eq)]
pub struct PaywallAddElementCommentArgs {
    pub element_id: String,
    pub comment: String,
}

/// Asks for an invoice for a comment.
pub fn paywall_add_element_comment(args: &PaywallAddElementCommentArgs) -> (call: Call)
    ensures
        asks(
            call,
            "paywall_add_element_comment"@,
            Map::empty()
                .insert("element_id"@, Doc::Text(args.element_id@))
                .insert("comment"@, Doc::Text(args.comment@)),
        ),
{
    let mut members = no_members();
    set_member(&mut members, "element_id", Json::text(args.element_id.as_str()));
    set_member(&mut members, "comment", Json::text(args.comment.as_str()));
    Call { method: "paywall_add_element_comment".to_owned(), params: Json::Object(members) }
}

/// Nothing to say.
#[derive(Debug, PartialEq, Eq)]
pub struct GenerateElementIssuesArgs {}

/// Has the server generate the issue tags of all elements.
pub fn generate_element_issues(_args: &GenerateElementIssuesArgs) -> (call: Call)
    ensures
        asks(
            call,
            "generate_element_issues"@,
            Map::empty(),
        ),
{
    let members = no_members();
    Call { method: "generate_element_issues".to_owned(), params: Json::Object(members) }
}

/// Nothing to say.
#[derive(Debug, PartialEq, Eq)]
pub struct SyncElementsArgs {}

/// Has the server merge the latest map snapshot into its elements.
pub fn sync_elements(_args: &SyncElementsArgs) -> (call: Call)
    ensures
        asks(
            call,
            "sync_elements"@,
            Map::empty(),
        ),
{
    let members = no_members();
    Call { method: "sync_elements".to_owned(), params: Json::Object(members) }
}

/// A range of element ids.
#[derive(Debug, PartialEq, Eq)]
pub struct GenerateElementIconsArgs {
    pub from_element_id: i64,
    pub to_element_id: i64,
}

/// Has the server generate the icon tags of an id range.
pub fn generate_element_icons(args: &GenerateElementIconsArgs) -> (call: Call)
    ensures
        asks(
            call,
            "generate_element_icons"@,
            Map::empty()
                .insert("from_element_id"@, Doc::Number(decimal(args.from_element_id as int)))
                .insert("to_element_id"@, Doc::Number(decimal(args.to_element_id as int))),
        ),
{
    let mut members = no_members();
    set_member(&mut members, "from_element_id", Json::integer(args.from_element_id));
    set_member(&mut members, "to_element_id", Json::integer(args.to_element_id));
    Call { method: "generate_element_icons".to_owned(), params: Json::Object(members) }
}

/// A range of element ids.
#[derive(Debug, PartialEq, Eq)]
pub struct GenerateElementCategoriesArgs {
    pub from_element_id: i64,
    pub to_element_id: i64,
}

/// Has the server generate the category tags of an id range.
pub fn generate_element_categories(args: &GenerateElementCategoriesArgs) -> (call: Call)
    ensures
        asks(
            call,
            "generate_element_categories"@,
            Map::empty()
                .insert("from_element_id"@, Doc::Number(decimal(args.from_element_id as int)))
                .insert("to_element_id"@, Doc::Number(decimal(args.to_element_id as int))),
        ),
{
    let mut members = no_members();
    set_member(&mut members, "from_element_id", Json::integer(args.from_element_id));
    set_member(&mut members, "to_element_id", Json::integer(args.to_element_id));
    Call { method: "generate_element_categories".to_owned(), params: Json::Object(members) }
}

/// A tag for an element, with its value as the text of a JSON document.
#[derive(Debug, PartialEq, Eq)]
pub struct SetElementTagArgs {
    pub element_id: i64,
    pub tag_name: String,
    pub tag_value: String,
}

/// Sets a tag of an element to a value that was read already.
pub fn set_element_tag_to(args: &SetElementTagArgs, value: Json) -> (call: Call)
    ensures
        asks(
            call,
            "set_element_tag"@,
            Map::empty().insert("element_id"@, Doc::Number(decimal(args.element_id as int))).insert(
                "tag_name"@,
                Doc::Text(args.tag_name@),
            ).insert("tag_value"@, value@),
        ),
{
    let mut members = no_members();
    set_member(&mut members, "element_id", Json::integer(args.element_id));
    set_member(&mut members, "tag_name", Json::text(args.tag_name.as_str()));
    set_member(&mut members, "tag_value", value);
    Call { method: "set_element_tag".to_owned(), params: Json::Object(members) }
}

/// Sets a tag of an element. The value is read from its text, which must hold a
/// JSON document.
pub fn set_element_tag(args: &SetElementTagArgs) -> (r: Result<Call, CommandError>)
    ensures
        match parsed(args.tag_value@) {
            Some(doc) => r matches Ok(call) && asks(
                call,
                "set_element_tag"@,
                Map::empty().insert("element_id"@, Doc::Number(decimal(args.element_id as int))).insert(
                    "tag_name"@,
                    Doc::Text(args.tag_name@),
                ).insert("tag_value"@, doc),
            ),
            None => r == Err::<Call, CommandError>(CommandError::InvalidJson),
        },
{
    match parse(args.tag_value.as_str()) {
        Some(value) => Ok(set_element_tag_to(args, value)),
        None => Err(CommandError::InvalidJson),
    }
}

} // verus!
