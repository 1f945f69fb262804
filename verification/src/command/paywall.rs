//! Paid actions that need no login.

use crate::command::{asks, Call};
use crate::json::{no_members, set_member, Doc, Json};
use vstd::prelude::*;

verus! {

/// Asks for the current price of a comment.
pub fn paywall_get_add_element_comment_quote() -> (call: Call)
    ensures
        asks(
            call,
            "paywall_get_add_element_comment_quote"@,
            Map::empty(),
        ),
{
    let members = no_members();
    Call { method: "paywall_get_add_element_comment_quote".to_owned(), params: Json::Object(members) }
}

/// A comment on an element, against an invoice.
#[derive(Debug, PartialEq, Eq)]
pub struct PaywallAddElementCommentArgs {
    pub element_id: String,
    pub comment: String,
}

/// Asks for an invoice for a comment.
pub fn paywall_add_element_comment(args: &PaywallAddElementCommentArgs) -> (call: Call)
    ensures
        asks(
            call,
            "paywall_add_element_comment"@,
            Map::empty()
                .insert("element_id"@, Doc::Text(args.element_id@))
                .insert("comment"@, Doc::Text(args.comment@)),
        ),
{
    let mut members = no_members();
    set_member(&mut members, "element_id", Json::text(args.element_id.as_str()));
    set_member(&mut members, "comment", Json::text(args.comment.as_str()));
    Call { method: "paywall_add_element_comment".to_owned(), params: Json::Object(members) }
}

} // verus!
