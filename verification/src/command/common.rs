//! Search, and calls of any method.

use crate::command::{asks, Call, CommandError};
use crate::json::{no_members, parse, parsed, set_member, Doc, Json};
use vstd::prelude::*;

verus! {

/// What to look for.
#[derive(Debug, PartialEq, Eq)]
pub struct SearchArgs {
    pub query: String,
}

/// Searches for whatever matches a query.
pub fn search(args: &SearchArgs) -> (call: Call)
    ensures
        asks(
            call,
            "search"@,
            Map::empty()
                .insert("query"@, Doc::Text(args.query@)),
        ),
{
    let mut members = no_members();
    set_member(&mut members, "query", Json::text(args.query.as_str()));
    Call { method: "search".to_owned(), params: Json::Object(members) }
}

/// A method and, as text, the JSON document of its parameters.
#[derive(Debug, PartialEq, Eq)]
pub struct CustomArgs {
    pub method: String,
    /// The parameters; an empty object where none are given.
    pub params: Option<String>,
}

/// Calls any method with parameters that were read already.
pub fn rpc_with(args: &CustomArgs, params: Json) -> (call: Call)
    ensures
        call.method@ == args.method@,
        call.params@ == params@,
{
    Call { method: args.method.clone(), params }
}

/// Calls any method. The parameters are read from their text; whether they
/// are an object is for the call to say.
pub fn rpc(args: &CustomArgs) -> (r: Result<Call, CommandError>)
    ensures
        match args.params {
            Some(text) => match parsed(text@) {
                Some(doc) => r matches Ok(call) && call.method@ == args.method@ && call.params@
                    == doc,
                None => r == Err::<Call, CommandError>(CommandError::InvalidJson),
            },
            None => r matches Ok(call) && asks(call, args.method@, Map::empty()),
        },
{
    match &args.params {
        Some(text) => match parse(text.as_str()) {
            Some(params) => Ok(rpc_with(args, params)),
            None => Err(CommandError::InvalidJson),
        },
        None => Ok(rpc_with(args, Json::Object(no_members()))),
    }
}

} // verus!
