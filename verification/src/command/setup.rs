//! The server to talk to, and what is stored locally.

use crate::db::{initialized, read, written, SettingsError, Store};
use crate::json::{no_members, set_member, Doc, Json};
use crate::rpc::{lines_view, Line, LineView};
use crate::settings::{get_str, put_str};
use vstd::prelude::*;
use vstd::string::*;

verus! {

/// Which server to talk to.
#[derive(Debug, PartialEq, Eq)]
pub struct SetServerArgs {
    /// A URL, or one of the names `prod` and `dev`.
    pub url: String,
}

/// Nothing to say.
#[derive(Debug, PartialEq, Eq)]
pub struct StateArgs {}

/// The URL that a server's name stands for; any other text stands for
/// itself.
pub open spec fn server_url(name: Seq<char>) -> Seq<char> {
    if name == "prod"@ {
        "https://api.btcmap.org/rpc"@
    } else if name == "dev"@ {
        "http://127.0.0.1:8000/rpc"@
    } else {
        name
    }
}

/// What is shown when the server is set: from verbosity 1 on, the old value
/// and the new one.
pub open spec fn server_trace(verbosity: int, old_url: Seq<char>, new_url: Seq<char>) -> Seq<
    LineView,
> {
    if verbosity > 0 {
        seq![
            LineView::Text("Old value: "@ + old_url),
            LineView::Text("New value: "@ + new_url),
        ]
    } else {
        Seq::empty()
    }
}

/// The credential as it is shown: itself from verbosity 2 on and where it is
/// empty, masked otherwise.
pub open spec fn shown_credential(password: Seq<char>, verbosity: int) -> Seq<char> {
    if verbosity >= 2 || password.len() == 0 {
        password
    } else {
        "********"@
    }
}

fn resolve(name: &str) -> (url: String)
    ensures
        url@ == server_url(name@),
{
    let given = name.to_owned();
    if given == "prod".to_owned() {
        "https://api.btcmap.org/rpc".to_owned()
    } else if given == "dev".to_owned() {
        "http://127.0.0.1:8000/rpc".to_owned()
    } else {
        given
    }
}

/// Stores the server to talk to, and says what to show of it.
pub fn set_server(args: &SetServerArgs, store: &mut Store, verbosity: i64) -> (r: Result<
    Vec<Line>,
    SettingsError,
>)
    ensures
        match initialized(old(store)@) {
            Some(records) => {
                &&& final(store)@ == written(records, "api_url"@, server_url(args.url@))
                &&& r matches Ok(lines)
                &&& lines_view(lines@) == server_trace(
                    verbosity as int,
                    read(records, "api_url"@),
                    server_url(args.url@),
                )
            },
            None => final(store)@ == old(store)@ && r == Err::<Vec<Line>, SettingsError>(
                SettingsError::Corruption,
            ),
        },
{
    let url = resolve(args.url.as_str());
    let mut lines: Vec<Line> = Vec::new();
    if verbosity > 0 {
        let old_url = match get_str("api_url", store) {
            Ok(value) => value,
            Err(e) => {
                return Err(e);
            },
        };
        let mut first = "Old value: ".to_owned();
        first.append(old_url.as_str());
        let mut second = "New value: ".to_owned();
        second.append(url.as_str());
        lines.push(Line::Text(first));
        lines.push(Line::Text(second));
    }
    match put_str("api_url", url.as_str(), store) {
        Ok(()) => {
            proof {
                let records = initialized(old(store)@)->0;
                assert(lines_view(lines@) =~= server_trace(
                    verbosity as int,
                    read(records, "api_url"@),
                    server_url(args.url@),
                ));
            }
            Ok(lines)
        },
        Err(e) => Err(e),
    }
}

/// The stored settings as one document, with the credential as
/// [`shown_credential`] has it.
pub fn state(_args: &StateArgs, store: &mut Store, verbosity: i64) -> (r: Result<
    Json,
    SettingsError,
>)
    ensures
        match initialized(old(store)@) {
            Some(records) => {
                &&& final(store)@ == records
                &&& r matches Ok(json)
                &&& json@ == Doc::Object(
                    Map::empty().insert("server"@, Doc::Text(read(records, "api_url"@))).insert(
                        "password"@,
                        Doc::Text(shown_credential(read(records, "password"@), verbosity as int)),
                    ),
                )
            },
            None => final(store)@ == old(store)@ && r == Err::<Json, SettingsError>(
                SettingsError::Corruption,
            ),
        },
{
    let server = match get_str("api_url", store) {
        Ok(value) => value,
        Err(e) => {
            return Err(e);
        },
    };
    let password = match get_str("password", store) {
        Ok(value) => value,
        Err(e) => {
            return Err(e);
        },
    };
    let shown = if verbosity >= 2 || password.as_str().unicode_len() == 0 {
        password
    } else {
        "********".to_owned()
    };
    let mut members = no_members();
    set_member(&mut members, "server", Json::text(server.as_str()));
    set_member(&mut members, "password", Json::text(shown.as_str()));
    Ok(Json::Object(members))
}

} // verus!
