//! The subcommands. Each maps its arguments onto the method and the
//! parameters of one call; a few go on from the answer.

pub mod admin;
pub mod area;
pub mod auth;
pub mod common;
pub mod element;
pub mod event;
pub mod import;
pub mod matrix;
pub mod paywall;
pub mod report;
pub mod setup;
pub mod user;

use crate::db::{initialized, read, written, SettingsError, Store};
use crate::json::{Doc, Json};
use crate::settings::{get_str, put_str};
use vstd::prelude::*;
use vstd::string::*;

verus! {

/// A call as a subcommand asks for it: the method and its parameters.
#[derive(Debug, PartialEq, Eq)]
pub struct Call {
    pub method: String,
    pub params: Json,
}

/// Why a subcommand could not go on.
#[derive(Debug, PartialEq, Eq)]
pub enum CommandError {
    /// An argument that should hold a JSON document holds none.
    InvalidJson,
    /// The answer to a request for an API key has no result.
    MissingResult,
    /// The result of a request for an API key has no text under `token`.
    MissingToken,
    /// No credential is stored.
    NotLoggedIn,
    /// The settings could not be read or written.
    Settings(SettingsError),
}

/// The subcommands by name.
#[derive(Debug, Clone, Copy, PartialEq, Eq)]
pub enum Subcommand {
    SetServer,
    State,
    Login,
    SignUp,
    ChangePassword,
    CreateApiKey,
    AddUser,
    AddAdminAction,
    RemoveAdminAction,
    GenerateInvoice,
    SyncUnpaidInvoices,
    GetInvoice,
    GetElement,
    SetElementTag,
    RemoveElementTag,
    GetBoostedElements,
    BoostElement,
    PaywallGetBoostElementQuote,
    PaywallBoostElement,
    AddElementComment,
    PaywallGetAddElementCommentQuote,
    PaywallAddElementComment,
    GenerateElementIssues,
    SyncElements,
    GenerateElementIcons,
    GenerateElementCategories,
    Search,
    Rpc,
    GetArea,
    SetAreaTag,
    RemoveAreaTag,
    SetAreaIcon,
    GenerateAreasElementsMapping,
    GetUserActivity,
    GenerateReports,
    GetTrendingCountries,
    GetTrendingCommunities,
    GetMostCommentedCountries,
    CreateEvent,
    GetEvents,
    GetEvent,
    DeleteEvent,
    SubmitPlace,
    GetSubmittedPlace,
    RevokeSubmittedPlace,
    SendMatrixMessage,
}

/// The subcommands that run without a stored credential: those that set up
/// the client, and those that bring their own user name and password.
pub open spec fn open_to_all(subcommand: Subcommand) -> bool {
    ||| subcommand is SetServer
    ||| subcommand is State
    ||| subcommand is Login
    ||| subcommand is SignUp
    ||| subcommand is ChangePassword
    ||| subcommand is CreateApiKey
}

/// Whether `call` asks for `method` with exactly the parameters `params`.
pub open spec fn asks(call: Call, method: Seq<char>, params: Map<Seq<char>, Doc>) -> bool {
    call.method@ == method && call.params@ == Doc::Object(params)
}

/// The key under which an API key comes back.
pub open spec fn token_of(result: Doc) -> Option<Seq<char>> {
    match result.member("token"@) {
        Some(Doc::Text(token)) => Some(token),
        _ => None,
    }
}

/// The line that greets whoever has logged in.
pub open spec fn welcome(who: Seq<char>) -> Seq<char> {
    "You are now logged in as "@ + who
}

/// The line that reports a failed login: at verbosity 0 it points to the
/// verbose mode.
pub open spec fn login_failure(verbosity: int) -> Seq<char> {
    if verbosity == 0 {
        "Login failed, use verbose mode to see more details"@
    } else {
        "Login failed"@
    }
}

impl CommandError {
    /// The diagnostic shown to the user.
    pub fn message(&self) -> (text: String)
        ensures
            text@ == match *self {
                CommandError::InvalidJson => "argument is not a valid JSON value"@,
                CommandError::MissingResult => "the answer holds no result"@,
                CommandError::MissingToken => "the result holds no token"@,
                CommandError::NotLoggedIn => "you need to login first, run btcmap-cli login <password>"@,
                CommandError::Settings(e) => match e {
                    SettingsError::Storage(detail) => detail@,
                    SettingsError::Corruption => "settings database has been corrupted"@,
                },
            },
    {
        match self {
            CommandError::InvalidJson => "argument is not a valid JSON value".to_owned(),
            CommandError::MissingResult => "the answer holds no result".to_owned(),
            CommandError::MissingToken => "the result holds no token".to_owned(),
            CommandError::NotLoggedIn => "you need to login first, run btcmap-cli login <password>".to_owned(),
            CommandError::Settings(e) => e.message(),
        }
    }
}

/// Lets a subcommand pass only where a credential is stored.
pub fn require_login(store: &mut Store) -> (r: Result<(), CommandError>)
    ensures
        match initialized(old(store)@) {
            Some(records) => final(store)@ == records && r == if read(records, "password"@).len()
                == 0 {
                Err::<(), CommandError>(CommandError::NotLoggedIn)
            } else {
                Ok::<(), CommandError>(())
            },
            None => final(store)@ == old(store)@ && r == Err::<(), CommandError>(
                CommandError::Settings(SettingsError::Corruption),
            ),
        },
{
    match get_str("password", store) {
        Ok(password) => {
            if password.as_str().unicode_len() == 0 {
                Err(CommandError::NotLoggedIn)
            } else {
                Ok(())
            }
        },
        Err(e) => Err(CommandError::Settings(e)),
    }
}

/// Tells the subcommands that need a stored credential from the others.
pub fn needs_login(subcommand: Subcommand) -> (r: bool)
    ensures
        r == !open_to_all(subcommand),
{
    match subcommand {
        Subcommand::SetServer => false,
        Subcommand::State => false,
        Subcommand::Login => false,
        Subcommand::SignUp => false,
        Subcommand::ChangePassword => false,
        Subcommand::CreateApiKey => false,
        _ => true,
    }
}

/// Decides whether a run may go on. A subcommand that is open to all passes
/// and the settings are not touched; any other, and a run without a
/// subcommand, passes only where a credential is stored.
pub fn gate(subcommand: Option<Subcommand>, store: &mut Store) -> (r: Result<(), CommandError>)
    ensures
        match subcommand {
            Some(s) if open_to_all(s) => final(store)@ == old(store)@ && r is Ok,
            _ => match initialized(old(store)@) {
                Some(records) => final(store)@ == records && r == if read(
                    records,
                    "password"@,
                ).len() == 0 {
                    Err::<(), CommandError>(CommandError::NotLoggedIn)
                } else {
                    Ok::<(), CommandError>(())
                },
                None => final(store)@ == old(store)@ && r == Err::<(), CommandError>(
                    CommandError::Settings(SettingsError::Corruption),
                ),
            },
        },
{
    match subcommand {
        Some(s) => {
            if needs_login(s) {
                require_login(store)
            } else {
                Ok(())
            }
        },
        None => require_login(store),
    }
}

/// The text under `token` in the result of a request for an API key.
pub fn api_key(result: &Json) -> (token: Option<String>)
    ensures
        match token {
            Some(text) => token_of(result@) == Some(text@),
            None => token_of(result@) is None,
        },
{
    match result.member("token") {
        Some(value) => match value.as_text() {
            Some(text) => Some(text.clone()),
            None => None,
        },
        None => None,
    }
}

/// Stores the API key that `result` holds as the credential and greets `who`.
pub fn store_api_key(result: &Json, who: &str, store: &mut Store) -> (r: Result<
    String,
    CommandError,
>)
    ensures
        match token_of(result@) {
            Some(token) => match initialized(old(store)@) {
                Some(records) => {
                    &&& final(store)@ == written(records, "password"@, token)
                    &&& r matches Ok(line)
                    &&& line@ == welcome(who@)
                },
                None => final(store)@ == old(store)@ && r == Err::<String, CommandError>(
                    CommandError::Settings(SettingsError::Corruption),
                ),
            },
            None => final(store)@ == old(store)@ && r == Err::<String, CommandError>(
                CommandError::MissingToken,
            ),
        },
{
    match api_key(result) {
        Some(token) => match put_str("password", token.as_str(), store) {
            Ok(()) => {
                let mut line = "You are now logged in as ".to_owned();
                line.append(who);
                Ok(line)
            },
            Err(e) => Err(CommandError::Settings(e)),
        },
        None => Err(CommandError::MissingToken),
    }
}

/// The line that reports a failed login.
pub fn failure_line(verbosity: i64) -> (line: String)
    ensures
        line@ == login_failure(verbosity as int),
{
    if verbosity == 0 {
        "Login failed, use verbose mode to see more details".to_owned()
    } else {
        "Login failed".to_owned()
    }
}

} // verus!
