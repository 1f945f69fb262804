//! Accounts, permissions and invoices.

use crate::command::{
    asks, failure_line, login_failure, store_api_key, token_of, welcome, Call, CommandError,
};
use crate::db::{initialized, written, SettingsError, Store};
use crate::decimal::decimal;
use crate::json::{no_members, set_member, Doc, Json};
use crate::rpc::{opt_doc, RpcResponse};
use vstd::prelude::*;

verus! {

/// A user name and a password.
#[derive(Debug, PartialEq, Eq)]
pub struct LoginArgs {
    pub username: String,
    pub password: String,
}

/// Asks for an API key in exchange for a user name and a password. [`login_finish`]
/// takes the answer.
pub fn login(args: &LoginArgs) -> (call: Call)
    ensures
        asks(
            call,
            "create_api_key"@,
            Map::empty()
                .insert("username"@, Doc::Text(args.username@))
                .insert("password"@, Doc::Text(args.password@))
                .insert("label"@, Doc::Text("Created by btcmap-cli"@)),
        ),
{
    let mut members = no_members();
    set_member(&mut members, "username", Json::text(args.username.as_str()));
    set_member(&mut members, "password", Json::text(args.password.as_str()));
    set_member(&mut members, "label", Json::text("Created by btcmap-cli"));
    Call { method: "create_api_key".to_owned(), params: Json::Object(members) }
}

/// How a login ended.
#[derive(Debug, PartialEq, Eq)]
pub enum LoginReport {
    /// The API key was stored; the line is for standard output.
    LoggedIn(String),
    /// The server gave no result; the line is for standard error.
    Failed(String),
}

/// Takes the answer to a login. A result must hold the API key, which is
/// stored as the credential; an answer without a result is a failed login and
/// changes nothing.
pub fn login_finish(
    args: &LoginArgs,
    response: &RpcResponse,
    store: &mut Store,
    verbosity: i64,
) -> (r: Result<LoginReport, CommandError>)
    ensures
        match opt_doc(response.result) {
            Some(result) => match token_of(result) {
                Some(token) => match initialized(old(store)@) {
                    Some(records) => {
                        &&& final(store)@ == written(records, "password"@, token)
                        &&& r matches Ok(LoginReport::LoggedIn(line))
                        &&& line@ == welcome(args.username@)
                    },
                    None => final(store)@ == old(store)@ && r == Err::<LoginReport, CommandError>(
                        CommandError::Settings(SettingsError::Corruption),
                    ),
                },
                None => final(store)@ == old(store)@ && r == Err::<LoginReport, CommandError>(
                    CommandError::MissingToken,
                ),
            },
            None => {
                &&& final(store)@ == old(store)@
                &&& r matches Ok(LoginReport::Failed(line))
                &&& line@ == login_failure(verbosity as int)
            },
        },
{
    match &response.result {
        Some(result) => match store_api_key(result, args.username.as_str(), store) {
            Ok(line) => Ok(LoginReport::LoggedIn(line)),
            Err(e) => Err(e),
        },
        None => Ok(LoginReport::Failed(failure_line(verbosity))),
    }
}
/// A user name, a password and a label for the new key.
#[derive(Debug, PartialEq, Eq)]
pub struct CreateApiKeyArgs {
    pub username: String,
    pub password: String,
    pub label: String,
}

/// Asks for an API key under a label.
pub fn create_api_key(args: &CreateApiKeyArgs) -> (call: Call)
    ensures
        asks(
            call,
            "create_api_key"@,
            Map::empty()
                .insert("username"@, Doc::Text(args.username@))
                .insert("password"@, Doc::Text(args.password@))
                .insert("label"@, Doc::Text(args.label@)),
        ),
{
    let mut members = no_members();
    set_member(&mut members, "username", Json::text(args.username.as_str()));
    set_member(&mut members, "password", Json::text(args.password.as_str()));
    set_member(&mut members, "label", Json::text(args.label.as_str()));
    Call { method: "create_api_key".to_owned(), params: Json::Object(members) }
}

/// A new user.
#[derive(Debug, PartialEq, Eq)]
pub struct AddUserArgs {
    pub name: String,
    pub password: String,
}

/// Creates a user.
pub fn add_user(args: &AddUserArgs) -> (call: Call)
    ensures
        asks(
            call,
            "add_user"@,
            Map::empty()
                .insert("name"@, Doc::Text(args.name@))
                .insert("password"@, Doc::Text(args.password@)),
        ),
{
    let mut members = no_members();
    set_member(&mut members, "name", Json::text(args.name.as_str()));
    set_member(&mut members, "password", Json::text(args.password.as_str()));
    Call { method: "add_user".to_owned(), params: Json::Object(members) }
}

/// A user, the old password and the new one.
#[derive(Debug, PartialEq, Eq)]
pub struct ChangePasswordArgs {
    pub username: String,
    pub old_password: String,
    pub new_password: String,
}

/// Changes a password; the old one must be known.
pub fn change_password(args: &ChangePasswordArgs) -> (call: Call)
    ensures
        asks(
            call,
            "change_password"@,
            Map::empty()
                .insert("username"@, Doc::Text(args.username@))
                .insert("old_password"@, Doc::Text(args.old_password@))
                .insert("new_password"@, Doc::Text(args.new_password@)),
        ),
{
    let mut members = no_members();
    set_member(&mut members, "username", Json::text(args.username.as_str()));
    set_member(&mut members, "old_password", Json::text(args.old_password.as_str()));
    set_member(&mut members, "new_password", Json::text(args.new_password.as_str()));
    Call { method: "change_password".to_owned(), params: Json::Object(members) }
}

/// An admin and an action to allow.
#[derive(Debug, PartialEq, Eq)]
pub struct AddAdminActionArgs {
    pub admin_name: String,
    pub action: String,
}

/// Allows an admin an action.
pub fn add_admin_action(args: &AddAdminActionArgs) -> (call: Call)
    ensures
        asks(
            call,
            "add_admin_action"@,
            Map::empty()
                .insert("admin"@, Doc::Text(args.admin_name@))
                .insert("action"@, Doc::Text(args.action@)),
        ),
{
    let mut members = no_members();
    set_member(&mut members, "admin", Json::text(args.admin_name.as_str()));
    set_member(&mut members, "action", Json::text(args.action.as_str()));
    Call { method: "add_admin_action".to_owned(), params: Json::Object(members) }
}

/// An admin and an action to forbid.
#[derive(Debug, PartialEq, Eq)]
pub struct RemoveAdminActionArgs {
    pub admin_name: String,
    pub action: String,
}

/// Forbids an admin an action.
pub fn remove_admin_action(args: &RemoveAdminActionArgs) -> (call: Call)
    ensures
        asks(
            call,
            "remove_admin_action"@,
            Map::empty()
                .insert("admin"@, Doc::Text(args.admin_name@))
                .insert("action"@, Doc::Text(args.action@)),
        ),
{
    let mut members = no_members();
    set_member(&mut members, "admin", Json::text(args.admin_name.as_str()));
    set_member(&mut members, "action", Json::text(args.action.as_str()));
    Call { method: "remove_admin_action".to_owned(), params: Json::Object(members) }
}

/// An amount and what it is for.
#[derive(Debug, PartialEq, Eq)]
pub struct GenerateInvoiceArgs {
    pub amount_sats: i64,
    pub description: String,
}

/// Asks for an invoice.
pub fn generate_invoice(args: &GenerateInvoiceArgs) -> (call: Call)
    ensures
        asks(
            call,
            "generate_invoice"@,
            Map::empty()
                .insert("amount_sats"@, Doc::Number(decimal(args.amount_sats as int)))
                .insert("description"@, Doc::Text(args.description@)),
        ),
{
    let mut members = no_members();
    set_member(&mut members, "amount_sats", Json::integer(args.amount_sats));
    set_member(&mut members, "description", Json::text(args.description.as_str()));
    Call { method: "generate_invoice".to_owned(), params: Json::Object(members) }
}

/// Nothing to say.
#[derive(Debug, PartialEq, Eq)]
pub struct SyncUnpaidInvoicesArgs {}

/// Has the server look after its unpaid invoices.
pub fn sync_unpaid_invoices(_args: &SyncUnpaidInvoicesArgs) -> (call: Call)
    ensures
        asks(
            call,
            "sync_unpaid_invoices"@,
            Map::empty(),
        ),
{
    let members = no_members();
    Call { method: "sync_unpaid_invoices".to_owned(), params: Json::Object(members) }
}

/// Which invoice to fetch.
#[derive(Debug, PartialEq, Eq)]
pub struct GetInvoiceArgs {
    pub id: i64,
}

/// Fetches an invoice by its id.
pub fn get_invoice(args: &GetInvoiceArgs) -> (call: Call)
    ensures
        asks(
            call,
            "get_invoice"@,
            Map::empty()
                .insert("id"@, Doc::Number(decimal(args.id as int))),
        ),
{
    let mut members = no_members();
    set_member(&mut members, "id", Json::integer(args.id));
    Call { method: "get_invoice".to_owned(), params: Json::Object(members) }
}

} // verus!
