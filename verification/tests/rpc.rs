use btcmap_cli::db::{ConfigRecord, SettingsError, Store};
use btcmap_cli::json::Json;
use btcmap_cli::rpc::{
    attach_credential, call, decode, endpoint, envelope, exit_code, interpret, prepare, receive,
    trace_response, validate, CallError, CallState, Line, Outcome, Reply, Request, RpcResponse,
};
use btcmap_cli::settings::put_str;

fn text(s: &str) -> Json {
    Json::Text(s.to_string())
}

fn number(s: &str) -> Json {
    Json::Number(s.to_string())
}

fn object(members: Vec<(&str, Json)>) -> Json {
    Json::Object(members.into_iter().map(|(k, v)| (k.to_string(), v)).collect())
}

fn label(s: &str) -> Line {
    Line::Text(s.to_string())
}

fn logged_in() -> Store {
    let mut store = Store { records: Vec::new() };
    put_str("password", "s3cret-token", &mut store).unwrap();
    store
}

fn http(status: u16, body: &str) -> Reply {
    Reply::Http { status, body: body.to_string() }
}

fn sent(params: Json) -> Json {
    object(vec![
        ("jsonrpc", text("2.0")),
        ("method", text("get_element")),
        ("params", params),
        ("id", number("1")),
    ])
}

#[test]
fn params_that_are_no_object_are_refused_before_anything_is_sent() {
    for params in [
        Json::Null,
        Json::Bool(true),
        number("1"),
        text("{}"),
        Json::Array(vec![object(vec![])]),
    ] {
        for verbosity in [0, 2] {
            let mut store = Store { records: Vec::new() };
            let out = prepare("get_element", params.duplicate(), &mut store, verbosity);
            assert_eq!(out.request, Err(CallError::InvalidParamsShape));
            assert!(store.records.is_empty());
            if verbosity == 0 {
                assert!(out.trace.is_empty());
            } else {
                assert_eq!(
                    out.trace,
                    vec![
                        label("Calling method get_element with the following params:"),
                        Line::Document(params.duplicate()),
                    ]
                );
            }
        }
    }
}

#[test]
fn prepare_assembles_the_envelope_and_the_header() {
    let mut store = logged_in();
    let out = prepare("get_element", object(vec![("id", number("42"))]), &mut store, 0);
    assert_eq!(
        out.request,
        Ok(Request {
            url: "https://api.btcmap.org/rpc".to_string(),
            authorization: "Bearer s3cret-token".to_string(),
            body: sent(object(vec![("id", number("42"))])),
        })
    );
    assert!(out.trace.is_empty());
}

#[test]
fn prepare_on_a_fresh_store_sends_an_empty_credential_and_opens_the_store() {
    let mut store = Store { records: Vec::new() };
    let out = prepare("get_element", object(vec![]), &mut store, 0);
    let request = out.request.unwrap();
    assert_eq!(request.body, sent(object(vec![])));
    assert_eq!(request.authorization, "Bearer ");
    assert_eq!(store.records, vec![ConfigRecord::new()]);
}

#[test]
fn prepare_sends_the_params_as_the_caller_gave_them() {
    for verbosity in [0, 2] {
        let mut store = logged_in();
        let params = object(vec![
            ("username", text("u")),
            ("password", text("typed")),
            ("label", text("l")),
        ]);
        let out = prepare("create_api_key", params.duplicate(), &mut store, verbosity);
        let request = out.request.unwrap();
        assert_eq!(request.body.member("params"), Some(&params));
        assert_eq!(request.authorization, "Bearer s3cret-token");
        if verbosity == 2 {
            assert_eq!(out.trace[3], Line::Document(request.body));
            assert_eq!(out.trace[4], label("Authorization: Bearer s3cret-token"));
        }
    }
}

#[test]
fn prepare_addresses_the_stored_endpoint() {
    let mut store = logged_in();
    put_str("api_url", "http://127.0.0.1:8000/rpc", &mut store).unwrap();
    let out = prepare("get_element", object(vec![]), &mut store, 0);
    assert_eq!(out.request.unwrap().url, "http://127.0.0.1:8000/rpc");
}

#[test]
fn an_empty_endpoint_means_the_default() {
    assert_eq!(endpoint(String::new()), "https://api.btcmap.org/rpc");
    assert_eq!(endpoint("  \t".to_string()), "  \t");
    assert_eq!(endpoint(" ".to_string()), " ");
    assert_eq!(endpoint(" http://x ".to_string()), " http://x ");
}

#[test]
fn prepare_addresses_a_stored_endpoint_of_white_space_as_it_is() {
    let mut store = logged_in();
    put_str("api_url", " ", &mut store).unwrap();
    let out = prepare("get_element", object(vec![]), &mut store, 0);
    assert_eq!(out.request.unwrap().url, " ");
    put_str("api_url", "", &mut store).unwrap();
    let out = prepare("get_element", object(vec![]), &mut store, 0);
    assert_eq!(out.request.unwrap().url, "https://api.btcmap.org/rpc");
}

#[test]
fn prepare_on_a_corrupted_store_has_nothing_to_send() {
    let mut store = Store { records: vec![ConfigRecord::new(), ConfigRecord::new()] };
    let out = prepare("get_element", object(vec![]), &mut store, 2);
    assert_eq!(out.request, Err(CallError::Settings(SettingsError::Corruption)));
    assert_eq!(out.trace.len(), 2);
    assert_eq!(store.records.len(), 2);
}

#[test]
fn tracing_follows_the_verbosity() {
    let params = object(vec![("id", number("42"))]);
    let announce = vec![
        label("Calling method get_element with the following params:"),
        Line::Document(params.duplicate()),
    ];
    let mut full = vec![
        label("Calling method get_element with the following params:"),
        Line::Document(params.duplicate()),
        label("Full request body:"),
        Line::Document(sent(params.duplicate())),
        label("Authorization: Bearer s3cret-token"),
    ];
    for (verbosity, expected) in [
        (-1, Vec::new()),
        (0, Vec::new()),
        (1, announce),
        (2, std::mem::take(&mut full)),
    ] {
        let mut store = logged_in();
        let out = prepare("get_element", params.duplicate(), &mut store, verbosity);
        assert_eq!(out.trace, expected);
    }
}

fn shows(json: &Json, secret: &str) -> bool {
    match json {
        Json::Text(t) => t.contains(secret),
        Json::Array(items) => items.iter().any(|j| shows(j, secret)),
        Json::Object(members) => members.iter().any(|(_, j)| shows(j, secret)),
        _ => false,
    }
}

#[test]
fn the_credential_is_shown_from_verbosity_two_on_only() {
    for verbosity in 0..5 {
        let mut store = logged_in();
        let out = prepare("get_element", object(vec![("id", number("42"))]), &mut store, verbosity);
        let shown = out.trace.iter().any(|line| match line {
            Line::Text(t) => t.contains("s3cret-token"),
            Line::Document(json) => shows(json, "s3cret-token"),
        });
        assert_eq!(shown, verbosity >= 2);
    }
}

#[test]
fn a_result_is_read_from_the_body() {
    let out = receive(http(200, "{\"result\": {\"id\": 42}}"), 0);
    let response = out.response.unwrap();
    assert_eq!(response.result, Some(object(vec![("id", number("42"))])));
    assert_eq!(response.error, None);
    assert_eq!(response.print(), Some(&object(vec![("id", number("42"))])));
    assert!(out.trace.is_empty());
}

#[test]
fn an_error_in_the_body_is_an_answer() {
    let out = receive(http(200, "{\"error\": {\"message\": \"not found\"}}"), 0);
    assert_eq!(exit_code(&out.response), 0);
    let response = out.response.unwrap();
    assert_eq!(response.result, None);
    assert_eq!(response.error, Some(object(vec![("message", text("not found"))])));
    assert_eq!(response.print(), Some(&object(vec![("message", text("not found"))])));
}

#[test]
fn a_refusing_status_is_an_http_failure() {
    let out = receive(http(403, "forbidden"), 3);
    assert!(out.trace.is_empty());
    assert_eq!(exit_code(&out.response), 1);
    let error = out.response.unwrap_err();
    assert_eq!(error, CallError::Http { status: 403, body: "forbidden".to_string() });
    assert_eq!(error.message(), "HTTP status 403: forbidden");
}

#[test]
fn an_empty_body_is_called_empty() {
    let out = receive(http(500, ""), 0);
    let error = out.response.unwrap_err();
    assert_eq!(error, CallError::Http { status: 500, body: String::new() });
    assert_eq!(error.message(), "HTTP status 500: empty");
    let blank = receive(http(502, " \n"), 0).response.unwrap_err();
    assert_eq!(blank.message(), "HTTP status 502: empty");
}

#[test]
fn success_is_two_hundred_to_two_hundred_ninety_nine() {
    for (status, success) in [(199, false), (200, true), (204, true), (299, true), (300, false), (404, false)] {
        let out = receive(http(status, "{}"), 0);
        assert_eq!(out.response.is_ok(), success, "{}", status);
    }
}

#[test]
fn no_answer_is_a_transport_failure() {
    let out = receive(Reply::Failed("connection refused".to_string()), 3);
    assert!(out.trace.is_empty());
    assert_eq!(exit_code(&out.response), 1);
    let error = out.response.unwrap_err();
    assert_eq!(error, CallError::Transport("connection refused".to_string()));
    assert_eq!(error.message(), "connection refused");
}

#[test]
fn a_body_that_is_no_object_is_a_decode_failure() {
    for body in ["", "not json", "[1, 2]", "\"forbidden\"", "42", "null", "{\"result\": "] {
        let out = receive(http(200, body), 3);
        assert_eq!(out.response, Err(CallError::Decode), "{}", body);
        assert!(out.trace.is_empty());
    }
    assert_eq!(CallError::Decode.message(), "response body is not a valid RPC response");
}

#[test]
fn an_answer_with_both_or_neither_is_taken_as_it_is() {
    let both = receive(http(200, "{\"result\": 1, \"error\": 2}"), 0).response.unwrap();
    assert_eq!(both.result, Some(number("1")));
    assert_eq!(both.error, Some(number("2")));
    assert_eq!(both.print(), Some(&number("1")));
    let neither = receive(http(200, "{\"id\": 1}"), 0).response.unwrap();
    assert_eq!(neither, RpcResponse { result: None, error: None });
    assert_eq!(neither.print(), None);
}

#[test]
fn null_counts_as_absent() {
    let response = receive(http(200, "{\"result\": null, \"error\": \"e\"}"), 0).response.unwrap();
    assert_eq!(response, RpcResponse { result: None, error: Some(text("e")) });
}

#[test]
fn the_answer_is_traced_by_verbosity() {
    let result = object(vec![("id", number("42"))]);
    let envelope = object(vec![("id", number("1")), ("result", result.duplicate())]);
    let with_result = RpcResponse { result: Some(result.duplicate()), error: None };
    let with_error = RpcResponse { result: None, error: Some(text("e")) };
    assert!(trace_response(&with_result, &envelope, 0).is_empty());
    assert!(trace_response(&with_result, &envelope, -3).is_empty());
    for verbosity in [1, 2] {
        assert_eq!(
            trace_response(&with_result, &envelope, verbosity),
            vec![label("RPC result:"), Line::Document(result.duplicate())]
        );
        assert_eq!(
            trace_response(&with_error, &envelope, verbosity),
            vec![label("RPC error:"), Line::Document(text("e"))]
        );
    }
    for verbosity in [3, 4, i64::MAX] {
        assert_eq!(
            trace_response(&with_result, &envelope, verbosity),
            vec![
                label("RPC result:"),
                Line::Document(result.duplicate()),
                label("RPC response:"),
                Line::Document(envelope.duplicate()),
            ]
        );
    }
    let both = RpcResponse { result: Some(number("1")), error: Some(number("2")) };
    assert_eq!(
        trace_response(&both, &envelope, 1),
        vec![
            label("RPC result:"),
            Line::Document(number("1")),
            label("RPC error:"),
            Line::Document(number("2")),
        ]
    );
    let neither = RpcResponse { result: None, error: None };
    assert!(trace_response(&neither, &envelope, 2).is_empty());
    assert_eq!(
        trace_response(&neither, &envelope, 3),
        vec![label("RPC response:"), Line::Document(envelope.duplicate())]
    );
}

#[test]
fn receive_traces_the_answer() {
    let out = receive(http(200, "{\"result\": true}"), 1);
    assert_eq!(
        out,
        Outcome {
            trace: vec![label("RPC result:"), Line::Document(Json::Bool(true))],
            response: Ok(RpcResponse { result: Some(Json::Bool(true)), error: None }),
        }
    );
    let out = receive(http(200, "{\"jsonrpc\": \"2.0\", \"error\": \"e\", \"id\": 1}"), 3);
    assert_eq!(
        out.trace,
        vec![
            label("RPC error:"),
            Line::Document(text("e")),
            label("RPC response:"),
            Line::Document(object(vec![
                ("error", text("e")),
                ("id", number("1")),
                ("jsonrpc", text("2.0")),
            ])),
        ]
    );
}

#[test]
fn interpret_reads_a_parsed_body() {
    let document = Some(object(vec![("result", text("ok"))]));
    let out = interpret(&document, 0);
    assert_eq!(out.response, Ok(RpcResponse { result: Some(text("ok")), error: None }));
    assert_eq!(interpret(&None, 2).response, Err(CallError::Decode));
    assert_eq!(decode(&Some(Json::Array(Vec::new()))), Err(CallError::Decode));
}

#[test]
fn the_steps_of_a_call_can_be_taken_one_by_one() {
    assert_eq!(validate(text("x")), Err(CallError::InvalidParamsShape));
    let members = validate(object(vec![("id", number("1"))])).unwrap();
    assert_eq!(members, vec![("id".to_string(), number("1"))]);
    assert_eq!(attach_credential("p"), "Bearer p");
    assert_eq!(attach_credential(""), "Bearer ");
    assert_eq!(
        envelope("m", Vec::new()),
        object(vec![
            ("jsonrpc", text("2.0")),
            ("method", text("m")),
            ("params", object(vec![])),
            ("id", number("1")),
        ])
    );
}

#[test]
fn errors_before_sending_have_messages() {
    assert_eq!(
        CallError::InvalidParamsShape.message(),
        "params value is not a valid JSON object"
    );
    assert_eq!(
        CallError::Settings(SettingsError::Corruption).message(),
        "settings database has been corrupted"
    );
}

#[test]
fn a_call_goes_through_its_states() {
    let mut store = logged_in();
    assert_eq!(prepare("m", text("x"), &mut store, 0).state(), CallState::Idle);
    assert_eq!(prepare("m", object(vec![]), &mut store, 0).state(), CallState::CredentialAttached);
    let mut corrupted = Store { records: vec![ConfigRecord::new(), ConfigRecord::new()] };
    assert_eq!(prepare("m", object(vec![]), &mut corrupted, 0).state(), CallState::ParamsValidated);
    assert_eq!(receive(http(200, "{\"result\": 1}"), 0).state(), CallState::ResponseParsed);
    assert_eq!(receive(http(200, "{\"error\": 1}"), 0).state(), CallState::ResponseParsed);
    assert_eq!(receive(http(403, "forbidden"), 0).state(), CallState::HttpFailed);
    assert_eq!(receive(Reply::Failed("dns".to_string()), 0).state(), CallState::TransportFailed);
    assert_eq!(receive(http(200, "oops"), 0).state(), CallState::Sent);
}

#[test]
fn call_refuses_params_that_are_no_object_without_asking_the_transport() {
    for params in [Json::Null, number("1"), text("{}"), Json::Array(Vec::new())] {
        let mut asked = 0;
        let mut store = logged_in();
        let out = call("get_element", params, &mut store, 0, |_request: &Request| {
            asked += 1;
            http(200, "{\"result\": 1}")
        });
        assert_eq!(out.response, Err(CallError::InvalidParamsShape));
        assert_eq!(asked, 0);
        assert!(out.trace.is_empty());
    }
}

#[test]
fn call_on_a_corrupted_store_does_not_ask_the_transport() {
    let mut asked = 0;
    let mut store = Store { records: vec![ConfigRecord::new(), ConfigRecord::new()] };
    let out = call("get_element", object(vec![]), &mut store, 0, |_request: &Request| {
        asked += 1;
        http(200, "{}")
    });
    assert_eq!(out.response, Err(CallError::Settings(SettingsError::Corruption)));
    assert_eq!(asked, 0);
}

#[test]
fn call_returns_the_result_of_the_answer() {
    let mut asked = 0;
    let mut posted = None;
    let mut store = logged_in();
    let out = call(
        "get_element",
        object(vec![("id", number("42"))]),
        &mut store,
        0,
        |request: &Request| {
            asked += 1;
            posted = Some((
                request.url.to_string(),
                request.authorization.to_string(),
                request.body.duplicate(),
            ));
            http(200, "{\"result\": {\"id\": 42}}")
        },
    );
    assert_eq!(asked, 1);
    assert_eq!(
        posted,
        Some((
            "https://api.btcmap.org/rpc".to_string(),
            "Bearer s3cret-token".to_string(),
            sent(object(vec![("id", number("42"))]))
        ))
    );
    assert!(out.trace.is_empty());
    let response = out.response.unwrap();
    assert_eq!(response.result, Some(object(vec![("id", number("42"))])));
    assert_eq!(response.error, None);
    assert_eq!(response.print(), Some(&object(vec![("id", number("42"))])));
}

#[test]
fn call_takes_an_error_in_the_answer_for_an_answer() {
    let out = call("get_element", object(vec![]), &mut logged_in(), 0, |_request: &Request| {
        http(200, "{\"error\": {\"message\": \"not found\"}}")
    });
    assert_eq!(exit_code(&out.response), 0);
    let response = out.response.unwrap();
    assert_eq!(response.print(), Some(&object(vec![("message", text("not found"))])));
}

#[test]
fn call_reports_a_refusing_status_with_its_body() {
    let out = call("get_element", object(vec![]), &mut logged_in(), 0, |_request: &Request| {
        http(403, "forbidden")
    });
    assert_eq!(exit_code(&out.response), 1);
    let message = out.response.unwrap_err().message();
    assert!(message.contains("403"));
    assert!(message.contains("forbidden"));
}

#[test]
fn call_reports_an_empty_body_as_empty() {
    let out = call("get_element", object(vec![]), &mut logged_in(), 0, |_request: &Request| {
        http(500, "")
    });
    let message = out.response.unwrap_err().message();
    assert!(message.contains("500"));
    assert!(message.contains("empty"));
}

#[test]
fn call_reports_a_transport_failure_once() {
    let mut asked = 0;
    let out = call("get_element", object(vec![]), &mut logged_in(), 0, |_request: &Request| {
        asked += 1;
        Reply::Failed("connection refused".to_string())
    });
    assert_eq!(asked, 1);
    assert_eq!(out.response, Err(CallError::Transport("connection refused".to_string())));
}

#[test]
fn call_shows_both_steps_in_order() {
    let params = object(vec![("id", number("42"))]);
    let out = call("get_element", params.duplicate(), &mut logged_in(), 3, |_request: &Request| {
        http(200, "{\"result\": true}")
    });
    assert_eq!(
        out.trace,
        vec![
            label("Calling method get_element with the following params:"),
            Line::Document(params.duplicate()),
            label("Full request body:"),
            Line::Document(sent(params.duplicate())),
            label("Authorization: Bearer s3cret-token"),
            label("RPC result:"),
            Line::Document(Json::Bool(true)),
            label("RPC response:"),
            Line::Document(object(vec![("result", Json::Bool(true))])),
        ]
    );
    let quiet = call("get_element", params, &mut logged_in(), 0, |_request: &Request| {
        http(200, "{\"result\": true}")
    });
    assert!(quiet.trace.is_empty());
}
