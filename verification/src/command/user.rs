//! Users.

use crate::command::{asks, Call};
use crate::decimal::decimal;
use crate::json::{no_members, set_member, Doc, Json};
use vstd::prelude::*;

verus! {

/// Whose latest actions to fetch, and how many.
#[derive(Debug, PartialEq, Eq)]
pub struct GetUserActivityArgs {
    /// An OSM user name.
    pub id: String,
    pub limit: i64,
}

/// Fetches the latest actions of a user.
pub fn get_user_activity(args: &GetUserActivityArgs) -> (call: Call)
    ensures
        asks(
            call,
            "get_user_activity"@,
            Map::empty()
                .insert("id"@, Doc::Text(args.id@))
                .insert("limit"@, Doc::Number(decimal(args.limit as int))),
        ),
{
    let mut members = no_members();
    set_member(&mut members, "id", Json::text(args.id.as_str()));
    set_member(&mut members, "limit", Json::integer(args.limit));
    Call { method: "get_user_activity".to_owned(), params: Json::Object(members) }
}

} // verus!
