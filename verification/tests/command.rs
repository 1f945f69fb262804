use btcmap_cli::command::admin::{
    add_admin_action, add_user, change_password, create_api_key, generate_invoice, get_invoice,
    login, login_finish, remove_admin_action, sync_unpaid_invoices, AddAdminActionArgs,
    AddUserArgs, ChangePasswordArgs, CreateApiKeyArgs, GenerateInvoiceArgs, GetInvoiceArgs,
    LoginArgs, LoginReport, RemoveAdminActionArgs, SyncUnpaidInvoicesArgs,
};
use btcmap_cli::command::area::{
    generate_areas_elements_mapping, get_area, remove_area_tag, set_area_icon, set_area_tag,
    set_area_tag_to, GenerateAreasElementsMappingArgs, GetAreaArgs, RemoveAreaTagArgs,
    SetAreaIconArgs, SetAreaTagArgs,
};
use btcmap_cli::command::auth::{sign_up, sign_up_finish, sign_up_next, SignUpArgs, SignUpStep};
use btcmap_cli::command::common::{rpc, rpc_with, search, CustomArgs, SearchArgs};
use btcmap_cli::command::element::{
    add_element_comment, boost_element, generate_element_categories, generate_element_icons,
    generate_element_issues, get_boosted_elements, get_element, paywall_boost_element,
    paywall_get_boost_element_quote, remove_element_tag, set_element_tag, sync_elements,
    AddElementCommentArgs, BoostElementArgs, GenerateElementCategoriesArgs,
    GenerateElementIconsArgs, GenerateElementIssuesArgs, GetElementArgs, PaywallBoostElementArgs,
    RemoveElementTagArgs, SetElementTagArgs, SyncElementsArgs,
};
use btcmap_cli::command::event::{
    create_event, delete_event, get_event, get_events, CreateEventArgs, DeleteEventArgs,
    GetEventArgs,
};
use btcmap_cli::command::import::{
    get_submitted_place, names_place, revoke_submitted_place, submit_place,
    GetSubmittedPlaceArgs, RevokeSubmittedPlaceArgs, SubmitPlaceArgs,
};
use btcmap_cli::command::matrix::{send_matrix_message, SendMatrixMessageArgs};
use btcmap_cli::command::paywall::{
    paywall_add_element_comment, paywall_get_add_element_comment_quote,
    PaywallAddElementCommentArgs,
};
use btcmap_cli::command::report::{
    generate_reports, get_most_commented_countries, get_trending_communities,
    get_trending_countries, GenerateReportsArgs, GetMostCommentedCountriesArgs,
    GetTrendingCommunitiesArgs, GetTrendingCountriesArgs,
};
use btcmap_cli::command::setup::{set_server, state, SetServerArgs, StateArgs};
use btcmap_cli::command::user::{get_user_activity, GetUserActivityArgs};
use btcmap_cli::command::{
    api_key, failure_line, gate, needs_login, require_login, store_api_key, Call, CommandError,
    Subcommand,
};
use btcmap_cli::db::{ConfigRecord, SettingsError, Store};
use btcmap_cli::json::Json;
use btcmap_cli::rpc::{Line, RpcResponse};
use btcmap_cli::settings::{get_str, put_str};

fn s(text: &str) -> String {
    text.to_string()
}

fn text(t: &str) -> Json {
    Json::Text(t.to_string())
}

fn number(t: &str) -> Json {
    Json::Number(t.to_string())
}

fn asks(method: &str, members: Vec<(&str, Json)>) -> Call {
    Call {
        method: method.to_string(),
        params: Json::Object(members.into_iter().map(|(k, v)| (k.to_string(), v)).collect()),
    }
}

fn fresh() -> Store {
    Store { records: Vec::new() }
}

fn corrupted() -> Store {
    Store { records: vec![ConfigRecord::new(), ConfigRecord::new()] }
}

fn result_with_token() -> RpcResponse {
    RpcResponse {
        result: Some(Json::Object(vec![(s("token"), text("key-123"))])),
        error: None,
    }
}

#[test]
fn element_commands_ask_for_their_methods() {
    assert_eq!(get_element(&GetElementArgs { id: 42 }), asks("get_element", vec![("id", number("42"))]));
    assert_eq!(
        remove_element_tag(&RemoveElementTagArgs { element_id: -1, tag_name: s("t") }),
        asks("remove_element_tag", vec![("element_id", number("-1")), ("tag_name", text("t"))])
    );
    assert_eq!(get_boosted_elements(), asks("get_boosted_elements", vec![]));
    assert_eq!(
        boost_element(&BoostElementArgs { id: s("node:12345"), days: 30 }),
        asks("boost_element", vec![("id", text("node:12345")), ("days", number("30"))])
    );
    assert_eq!(paywall_get_boost_element_quote(), asks("paywall_get_boost_element_quote", vec![]));
    assert_eq!(
        paywall_boost_element(&PaywallBoostElementArgs { element_id: s("7"), days: 1 }),
        asks("paywall_boost_element", vec![("element_id", text("7")), ("days", number("1"))])
    );
    assert_eq!(
        add_element_comment(&AddElementCommentArgs { element_id: 7, comment: s("nice") }),
        asks("add_element_comment", vec![("element_id", number("7")), ("comment", text("nice"))])
    );
    assert_eq!(
        btcmap_cli::command::element::paywall_get_add_element_comment_quote(),
        asks("paywall_get_add_element_comment_quote", vec![])
    );
    assert_eq!(
        btcmap_cli::command::element::paywall_add_element_comment(
            &btcmap_cli::command::element::PaywallAddElementCommentArgs {
                element_id: s("7"),
                comment: s("c"),
            }
        ),
        asks("paywall_add_element_comment", vec![("element_id", text("7")), ("comment", text("c"))])
    );
    assert_eq!(generate_element_issues(&GenerateElementIssuesArgs {}), asks("generate_element_issues", vec![]));
    assert_eq!(sync_elements(&SyncElementsArgs {}), asks("sync_elements", vec![]));
    assert_eq!(
        generate_element_icons(&GenerateElementIconsArgs { from_element_id: 1, to_element_id: 9 }),
        asks("generate_element_icons", vec![("from_element_id", number("1")), ("to_element_id", number("9"))])
    );
    assert_eq!(
        generate_element_categories(&GenerateElementCategoriesArgs { from_element_id: 1, to_element_id: 9 }),
        asks("generate_element_categories", vec![("from_element_id", number("1")), ("to_element_id", number("9"))])
    );
}

#[test]
fn a_tag_value_is_read_as_json() {
    let args = SetElementTagArgs { element_id: 5, tag_name: s("name"), tag_value: s("{\"a\": [1, true]}") };
    assert_eq!(
        set_element_tag(&args),
        Ok(asks(
            "set_element_tag",
            vec![
                ("element_id", number("5")),
                ("tag_name", text("name")),
                (
                    "tag_value",
                    Json::Object(vec![(s("a"), Json::Array(vec![number("1"), Json::Bool(true)]))])
                ),
            ]
        ))
    );
    let quoted = SetElementTagArgs { element_id: 5, tag_name: s("name"), tag_value: s("\"Cafe\"") };
    assert_eq!(
        set_element_tag(&quoted).unwrap().params.member("tag_value"),
        Some(&text("Cafe"))
    );
    let bare = SetElementTagArgs { element_id: 5, tag_name: s("name"), tag_value: s("Cafe") };
    assert_eq!(set_element_tag(&bare), Err(CommandError::InvalidJson));

    let area = SetAreaTagArgs { id: s("th"), name: s("population"), value: s("70000000") };
    assert_eq!(
        set_area_tag(&area),
        Ok(asks(
            "set_area_tag",
            vec![("id", text("th")), ("name", text("population")), ("value", number("70000000"))]
        ))
    );
    assert_eq!(
        set_area_tag_to(&area, Json::Null),
        asks("set_area_tag", vec![("id", text("th")), ("name", text("population")), ("value", Json::Null)])
    );
    let broken = SetAreaTagArgs { id: s("th"), name: s("n"), value: s("{") };
    assert_eq!(set_area_tag(&broken), Err(CommandError::InvalidJson));
}

#[test]
fn area_commands_ask_for_their_methods() {
    assert_eq!(get_area(&GetAreaArgs { id: s("th") }), asks("get_area", vec![("id", text("th"))]));
    assert_eq!(
        remove_area_tag(&RemoveAreaTagArgs { id: s("th"), tag: s("t") }),
        asks("remove_area_tag", vec![("id", text("th")), ("tag", text("t"))])
    );
    assert_eq!(
        set_area_icon(&SetAreaIconArgs { id: s("th"), icon_base64: s("AAAA"), icon_ext: s("png") }),
        asks("set_area_icon", vec![("id", text("th")), ("icon_base64", text("AAAA")), ("icon_ext", text("png"))])
    );
    assert_eq!(
        generate_areas_elements_mapping(&GenerateAreasElementsMappingArgs { from_element_id: 1, to_element_id: 2 }),
        asks("generate_areas_elements_mapping", vec![("from_element_id", number("1")), ("to_element_id", number("2"))])
    );
}

#[test]
fn admin_commands_ask_for_their_methods() {
    assert_eq!(
        create_api_key(&CreateApiKeyArgs { username: s("u"), password: s("p"), label: s("l") }),
        asks("create_api_key", vec![("username", text("u")), ("password", text("p")), ("label", text("l"))])
    );
    assert_eq!(
        add_user(&AddUserArgs { name: s("n"), password: s("p") }),
        asks("add_user", vec![("name", text("n")), ("password", text("p"))])
    );
    assert_eq!(
        change_password(&ChangePasswordArgs { username: s("u"), old_password: s("o"), new_password: s("n") }),
        asks("change_password", vec![("username", text("u")), ("old_password", text("o")), ("new_password", text("n"))])
    );
    assert_eq!(
        add_admin_action(&AddAdminActionArgs { admin_name: s("a"), action: s("x") }),
        asks("add_admin_action", vec![("admin", text("a")), ("action", text("x"))])
    );
    assert_eq!(
        remove_admin_action(&RemoveAdminActionArgs { admin_name: s("a"), action: s("x") }),
        asks("remove_admin_action", vec![("admin", text("a")), ("action", text("x"))])
    );
    assert_eq!(
        generate_invoice(&GenerateInvoiceArgs { amount_sats: 1000, description: s("d") }),
        asks("generate_invoice", vec![("amount_sats", number("1000")), ("description", text("d"))])
    );
    assert_eq!(sync_unpaid_invoices(&SyncUnpaidInvoicesArgs {}), asks("sync_unpaid_invoices", vec![]));
    assert_eq!(get_invoice(&GetInvoiceArgs { id: 3 }), asks("get_invoice", vec![("id", number("3"))]));
}

#[test]
fn other_commands_ask_for_their_methods() {
    assert_eq!(search(&SearchArgs { query: s("q") }), asks("search", vec![("query", text("q"))]));
    assert_eq!(
        send_matrix_message(&SendMatrixMessageArgs { room_id: s("r"), message: s("m") }),
        asks("send_matrix_message", vec![("room_id", text("r")), ("message", text("m"))])
    );
    assert_eq!(paywall_get_add_element_comment_quote(), asks("paywall_get_add_element_comment_quote", vec![]));
    assert_eq!(
        paywall_add_element_comment(&PaywallAddElementCommentArgs { element_id: s("7"), comment: s("c") }),
        asks("paywall_add_element_comment", vec![("element_id", text("7")), ("comment", text("c"))])
    );
    assert_eq!(generate_reports(&GenerateReportsArgs {}), asks("generate_reports", vec![]));
    let period = vec![("period_start", text("2024-09-01")), ("period_end", text("2024-09-10"))];
    assert_eq!(
        get_trending_countries(&GetTrendingCountriesArgs { period_start: s("2024-09-01"), period_end: s("2024-09-10") }).params,
        asks("", period).params
    );
    assert_eq!(
        get_trending_communities(&GetTrendingCommunitiesArgs { period_start: s("a"), period_end: s("b") }),
        asks("get_trending_communities", vec![("period_start", text("a")), ("period_end", text("b"))])
    );
    assert_eq!(
        get_most_commented_countries(&GetMostCommentedCountriesArgs { period_start: s("a"), period_end: s("b") }),
        asks("get_most_commented_countries", vec![("period_start", text("a")), ("period_end", text("b"))])
    );
    assert_eq!(
        get_user_activity(&GetUserActivityArgs { id: s("osm-user"), limit: 10 }),
        asks("get_user_activity", vec![("id", text("osm-user")), ("limit", number("10"))])
    );
    assert_eq!(get_events(), asks("get_events", vec![]));
    assert_eq!(get_event(&GetEventArgs { id: 1 }), asks("get_event", vec![("id", number("1"))]));
    assert_eq!(delete_event(&DeleteEventArgs { id: 1 }), asks("delete_event", vec![("id", number("1"))]));
}

#[test]
fn events_and_places_carry_numbers_and_optional_texts() {
    let event = CreateEventArgs {
        lat: Some(s("-12.5")),
        lon: Some(s("100.25")),
        name: s("Meetup"),
        website: s("https://example.org"),
        starts_at: s("2025-01-01"),
        ends_at: None,
    };
    assert_eq!(
        create_event(&event),
        asks(
            "create_event",
            vec![
                ("lat", number("-12.5")),
                ("lon", number("100.25")),
                ("name", text("Meetup")),
                ("website", text("https://example.org")),
                ("starts_at", text("2025-01-01")),
                ("ends_at", Json::Null),
            ]
        )
    );
    let place = SubmitPlaceArgs {
        origin: s("osm"),
        external_id: s("node:1"),
        lat: Some(s("1.5")),
        lon: None,
        category: s("cafe"),
        name: s("Cafe"),
        extra_fields: Some(s("{\"a\": 1}")),
    };
    assert_eq!(
        submit_place(&place),
        asks(
            "submit_place",
            vec![
                ("origin", text("osm")),
                ("external_id", text("node:1")),
                ("lat", number("1.5")),
                ("lon", Json::Null),
                ("category", text("cafe")),
                ("name", text("Cafe")),
                ("extra_fields", text("{\"a\": 1}")),
            ]
        )
    );
}

#[test]
fn a_submitted_place_is_named_by_number_or_by_origin() {
    assert_eq!(
        get_submitted_place(&GetSubmittedPlaceArgs { id: s("17") }),
        asks("get_submitted_place", vec![("id", number("17"))])
    );
    assert_eq!(
        get_submitted_place(&GetSubmittedPlaceArgs { id: s("+017") }),
        asks("get_submitted_place", vec![("id", number("17"))])
    );
    assert_eq!(
        get_submitted_place(&GetSubmittedPlaceArgs { id: s("square:abc") }),
        asks("get_submitted_place", vec![("origin", text("square")), ("external_id", text("abc"))])
    );
    assert_eq!(
        revoke_submitted_place(&RevokeSubmittedPlaceArgs { id: s("osm:node:12345") }),
        asks("revoke_submitted_place", vec![("origin", text("osm")), ("external_id", text("node"))])
    );
    assert_eq!(
        revoke_submitted_place(&RevokeSubmittedPlaceArgs { id: s("osm:") }),
        asks("revoke_submitted_place", vec![("origin", text("osm")), ("external_id", text(""))])
    );
    assert_eq!(
        revoke_submitted_place(&RevokeSubmittedPlaceArgs { id: s(":x") }),
        asks("revoke_submitted_place", vec![("origin", text("")), ("external_id", text("x"))])
    );
    assert_eq!(
        revoke_submitted_place(&RevokeSubmittedPlaceArgs { id: s("-9") }),
        asks("revoke_submitted_place", vec![("id", number("-9"))])
    );
}

#[test]
fn a_text_names_a_place_if_it_is_a_number_or_holds_a_colon() {
    for id in ["17", "+017", "-9", "square:abc", "osm:node:12345", "osm:", ":x", ":", "1:2"] {
        assert!(names_place(id), "{}", id);
    }
    for id in ["", "square", "12a", "99999999999999999999", " 17", "+", "-"] {
        assert!(!names_place(id), "{}", id);
    }
}

#[test]
fn a_custom_call_reads_its_params() {
    let args = CustomArgs { method: s("anything"), params: Some(s("{\"a\": 1}")) };
    assert_eq!(rpc(&args), Ok(asks("anything", vec![("a", number("1"))])));
    let none = CustomArgs { method: s("anything"), params: None };
    assert_eq!(rpc(&none), Ok(asks("anything", vec![])));
    let list = CustomArgs { method: s("anything"), params: Some(s("[1]")) };
    assert_eq!(
        rpc(&list),
        Ok(Call { method: s("anything"), params: Json::Array(vec![number("1")]) })
    );
    let broken = CustomArgs { method: s("anything"), params: Some(s("{a: 1}")) };
    assert_eq!(rpc(&broken), Err(CommandError::InvalidJson));
    assert_eq!(
        rpc_with(&none, Json::Bool(true)),
        Call { method: s("anything"), params: Json::Bool(true) }
    );
}

#[test]
fn set_server_knows_two_names() {
    for (given, stored) in [
        ("prod", "https://api.btcmap.org/rpc"),
        ("dev", "http://127.0.0.1:8000/rpc"),
        ("https://example.org/rpc", "https://example.org/rpc"),
        ("production", "production"),
        ("", ""),
    ] {
        let mut store = fresh();
        assert_eq!(set_server(&SetServerArgs { url: s(given) }, &mut store, 0), Ok(Vec::new()));
        assert_eq!(get_str("api_url", &mut store), Ok(s(stored)));
    }
}

#[test]
fn set_server_shows_old_and_new_when_verbose() {
    let mut store = fresh();
    put_str("api_url", "http://old", &mut store).unwrap();
    assert_eq!(
        set_server(&SetServerArgs { url: s("dev") }, &mut store, 1),
        Ok(vec![
            Line::Text(s("Old value: http://old")),
            Line::Text(s("New value: http://127.0.0.1:8000/rpc")),
        ])
    );
    assert_eq!(get_str("api_url", &mut store), Ok(s("http://127.0.0.1:8000/rpc")));
    for verbosity in [0, 3] {
        assert_eq!(
            set_server(&SetServerArgs { url: s("dev") }, &mut corrupted(), verbosity),
            Err(SettingsError::Corruption)
        );
    }
}

#[test]
fn state_masks_the_credential_below_verbosity_two() {
    let mut store = fresh();
    put_str("api_url", "http://x", &mut store).unwrap();
    put_str("password", "s3cret", &mut store).unwrap();
    for (verbosity, shown) in [(0, "********"), (1, "********"), (2, "s3cret"), (3, "s3cret")] {
        assert_eq!(
            state(&StateArgs {}, &mut store, verbosity),
            Ok(Json::Object(vec![(s("server"), text("http://x")), (s("password"), text(shown))]))
        );
    }
    let mut nobody = fresh();
    assert_eq!(
        state(&StateArgs {}, &mut nobody, 0),
        Ok(Json::Object(vec![(s("server"), text("")), (s("password"), text(""))]))
    );
    assert_eq!(state(&StateArgs {}, &mut corrupted(), 0), Err(SettingsError::Corruption));
}

#[test]
fn login_asks_for_an_api_key_and_stores_it() {
    let args = LoginArgs { username: s("alice"), password: s("pw") };
    assert_eq!(
        login(&args),
        asks(
            "create_api_key",
            vec![("username", text("alice")), ("password", text("pw")), ("label", text("Created by btcmap-cli"))]
        )
    );
    let mut store = fresh();
    assert_eq!(
        login_finish(&args, &result_with_token(), &mut store, 0),
        Ok(LoginReport::LoggedIn(s("You are now logged in as alice")))
    );
    assert_eq!(get_str("password", &mut store), Ok(s("key-123")));
}

#[test]
fn a_login_without_result_fails_quietly() {
    let args = LoginArgs { username: s("alice"), password: s("pw") };
    let refused = RpcResponse { result: None, error: Some(text("no")) };
    let mut store = fresh();
    assert_eq!(
        login_finish(&args, &refused, &mut store, 0),
        Ok(LoginReport::Failed(s("Login failed, use verbose mode to see more details")))
    );
    assert_eq!(
        login_finish(&args, &refused, &mut store, 1),
        Ok(LoginReport::Failed(s("Login failed")))
    );
    assert!(store.records.is_empty());
    assert_eq!(failure_line(-1), "Login failed");
}

#[test]
fn a_login_needs_a_token_and_a_sound_store() {
    let args = LoginArgs { username: s("alice"), password: s("pw") };
    let mut store = fresh();
    for result in [
        Json::Object(Vec::new()),
        Json::Object(vec![(s("token"), number("1"))]),
        text("key-123"),
    ] {
        let response = RpcResponse { result: Some(result), error: None };
        assert_eq!(
            login_finish(&args, &response, &mut store, 0),
            Err(CommandError::MissingToken)
        );
    }
    assert!(store.records.is_empty());
    assert_eq!(
        login_finish(&args, &result_with_token(), &mut corrupted(), 0),
        Err(CommandError::Settings(SettingsError::Corruption))
    );
    assert_eq!(api_key(&Json::Object(vec![(s("token"), text("k"))])), Some(s("k")));
    assert_eq!(api_key(&Json::Null), None);
    assert_eq!(
        store_api_key(&Json::Null, "bob", &mut store),
        Err(CommandError::MissingToken)
    );
}

#[test]
fn sign_up_creates_the_user_then_asks_for_a_key() {
    let args = SignUpArgs { name: s("bob"), password: s("pw") };
    assert_eq!(sign_up(&args), asks("add_user", vec![("name", text("bob")), ("password", text("pw"))]));
    let created = RpcResponse { result: Some(Json::Object(Vec::new())), error: None };
    assert_eq!(
        sign_up_next(&args, &created, 0),
        SignUpStep::CreateKey(asks(
            "create_api_key",
            vec![
                ("username", text("bob")),
                ("password", text("pw")),
                ("label", text("Created by btcmap-cli during signup")),
            ]
        ))
    );
    let refused = RpcResponse { result: None, error: Some(text("taken")) };
    assert_eq!(
        sign_up_next(&args, &refused, 0),
        SignUpStep::Stop(s("Login failed, use verbose mode to see more details"))
    );
    assert_eq!(sign_up_next(&args, &refused, 2), SignUpStep::Stop(s("Login failed")));

    let mut store = fresh();
    assert_eq!(
        sign_up_finish(&args, &result_with_token(), &mut store),
        Ok(s("You are now logged in as bob"))
    );
    assert_eq!(get_str("password", &mut store), Ok(s("key-123")));
    assert_eq!(
        sign_up_finish(&args, &refused, &mut store),
        Err(CommandError::MissingResult)
    );
    assert_eq!(
        sign_up_finish(&args, &created, &mut store),
        Err(CommandError::MissingToken)
    );
    assert_eq!(get_str("password", &mut store), Ok(s("key-123")));
}

#[test]
fn other_commands_need_a_login() {
    let mut store = fresh();
    assert_eq!(require_login(&mut store), Err(CommandError::NotLoggedIn));
    put_str("password", "k", &mut store).unwrap();
    assert_eq!(require_login(&mut store), Ok(()));
    assert_eq!(
        require_login(&mut corrupted()),
        Err(CommandError::Settings(SettingsError::Corruption))
    );
}

#[test]
fn command_errors_have_messages() {
    assert_eq!(
        CommandError::NotLoggedIn.message(),
        "you need to login first, run btcmap-cli login <password>"
    );
    assert_eq!(CommandError::InvalidJson.message(), "argument is not a valid JSON value");
    assert_eq!(CommandError::MissingResult.message(), "the answer holds no result");
    assert_eq!(CommandError::MissingToken.message(), "the result holds no token");
    assert_eq!(
        CommandError::Settings(SettingsError::Storage(s("disk full"))).message(),
        "disk full"
    );
}

#[test]
fn setting_up_and_logging_in_need_no_login() {
    for open in [
        Subcommand::SetServer,
        Subcommand::State,
        Subcommand::Login,
        Subcommand::SignUp,
        Subcommand::ChangePassword,
        Subcommand::CreateApiKey,
    ] {
        assert!(!needs_login(open));
        let mut store = fresh();
        assert_eq!(gate(Some(open), &mut store), Ok(()));
        assert!(store.records.is_empty());
        assert_eq!(gate(Some(open), &mut corrupted()), Ok(()));
    }
}

#[test]
fn everything_else_needs_a_login() {
    for closed in [
        Subcommand::GetElement,
        Subcommand::AddUser,
        Subcommand::Rpc,
        Subcommand::PaywallGetBoostElementQuote,
        Subcommand::SendMatrixMessage,
        Subcommand::DeleteEvent,
    ] {
        assert!(needs_login(closed));
        let mut store = fresh();
        assert_eq!(gate(Some(closed), &mut store), Err(CommandError::NotLoggedIn));
        assert_eq!(store.records.len(), 1);
        put_str("password", "k", &mut store).unwrap();
        assert_eq!(gate(Some(closed), &mut store), Ok(()));
        assert_eq!(
            gate(Some(closed), &mut corrupted()),
            Err(CommandError::Settings(SettingsError::Corruption))
        );
    }
    assert_eq!(gate(None, &mut fresh()), Err(CommandError::NotLoggedIn));
}
