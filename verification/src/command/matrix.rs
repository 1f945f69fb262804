//! Messages to Matrix rooms.

use crate::command::{asks, Call};
use crate::json::{no_members, set_member, Doc, Json};
use vstd::prelude::*;

verus! {

/// A message for a room.
#[derive(Debug, PartialEq, Eq)]
pub struct SendMatrixMessageArgs {
    pub room_id: String,
    pub message: String,
}

/// Sends a message to a Matrix room.
pub fn send_matrix_message(args: &SendMatrixMessageArgs) -> (call: Call)
    ensures
        asks(
            call,
            "send_matrix_message"@,
            Map::empty()
                .insert("room_id"@, Doc::Text(args.room_id@))
                .insert("message"@, Doc::Text(args.message@)),
        ),
{
    let mut members = no_members();
    set_member(&mut members, "room_id", Json::text(args.room_id.as_str()));
    set_member(&mut members, "message", Json::text(args.message.as_str()));
    Call { method: "send_matrix_message".to_owned(), params: Json::Object(members) }
}

} // verus!
