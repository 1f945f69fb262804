//! Signing up: a new user, then an API key for it.

use crate::command::{
    asks, failure_line, login_failure, store_api_key, token_of, welcome, Call, CommandError,
};
use crate::db::{initialized, written, SettingsError, Store};
use crate::json::{no_members, set_member, Doc, Json};
use crate::rpc::{opt_doc, RpcResponse};
use vstd::prelude::*;

verus! {

/// A name and a password for a new user.
#[derive(Debug, PartialEq, Eq)]
pub struct SignUpArgs {
    pub name: String,
    pub password: String,
}

/// Creates the user: the first call of a sign-up. [`sign_up_next`] takes the
/// answer.
pub fn sign_up(args: &SignUpArgs) -> (call: Call)
    ensures
        asks(
            call,
            "add_user"@,
            Map::empty()
                .insert("name"@, Doc::Text(args.name@))
                .insert("password"@, Doc::Text(args.password@)),
        ),
{
    let mut members = no_members();
    set_member(&mut members, "name", Json::text(args.name.as_str()));
    set_member(&mut members, "password", Json::text(args.password.as_str()));
    Call { method: "add_user".to_owned(), params: Json::Object(members) }
}

/// What follows the answer to the first call of a sign-up.
#[derive(Debug, PartialEq, Eq)]
pub enum SignUpStep {
    /// The user was not created; the line is for standard error.
    Stop(String),
    /// The user was created; an API key is asked for next.
    CreateKey(Call),
}

/// Takes the answer to the first call of a sign-up: an error ends the
/// sign-up, anything else leads to the request for an API key.
pub fn sign_up_next(args: &SignUpArgs, response: &RpcResponse, verbosity: i64) -> (step: SignUpStep)
    ensures
        match opt_doc(response.error) {
            Some(_) => step matches SignUpStep::Stop(line) && line@ == login_failure(
                verbosity as int,
            ),
            None => step matches SignUpStep::CreateKey(call) && asks(
                call,
                "create_api_key"@,
                Map::empty().insert("username"@, Doc::Text(args.name@)).insert(
                    "password"@,
                    Doc::Text(args.password@),
                ).insert("label"@, Doc::Text("Created by btcmap-cli during signup"@)),
            ),
        },
{
    if response.error.is_some() {
        SignUpStep::Stop(failure_line(verbosity))
    } else {
        let mut members = no_members();
        set_member(&mut members, "username", Json::text(args.name.as_str()));
        set_member(&mut members, "password", Json::text(args.password.as_str()));
        set_member(&mut members, "label", Json::text("Created by btcmap-cli during signup"));
        SignUpStep::CreateKey(
            Call { method: "create_api_key".to_owned(), params: Json::Object(members) },
        )
    }
}

/// Takes the answer to the request for an API key: it must have a result
/// that holds the key, which is stored as the credential. The line that
/// comes back is for standard output.
pub fn sign_up_finish(args: &SignUpArgs, response: &RpcResponse, store: &mut Store) -> (r: Result<
    String,
    CommandError,
>)
    ensures
        match opt_doc(response.result) {
            Some(result) => match token_of(result) {
                Some(token) => match initialized(old(store)@) {
                    Some(records) => {
                        &&& final(store)@ == written(records, "password"@, token)
                        &&& r matches Ok(line)
                        &&& line@ == welcome(args.name@)
                    },
                    None => final(store)@ == old(store)@ && r == Err::<String, CommandError>(
                        CommandError::Settings(SettingsError::Corruption),
                    ),
                },
                None => final(store)@ == old(store)@ && r == Err::<String, CommandError>(
                    CommandError::MissingToken,
                ),
            },
            None => final(store)@ == old(store)@ && r == Err::<String, CommandError>(
                CommandError::MissingResult,
            ),
        },
{
    match &response.result {
        Some(result) => store_api_key(result, args.name.as_str(), store),
        None => Err(CommandError::MissingResult),
    }
}

} // verus!
