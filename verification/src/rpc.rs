//! One remote procedure call: what is sent, what is shown, and what a reply
//! means.
//!
//! A call goes through two steps with the network between them. [`prepare`]
//! checks the parameters, attaches the credential and assembles the request;
//! [`receive`] takes what the transport observed and classifies it. Both say
//! what is to be shown at the verbosity given; the caller shows it. [`call`]
//! takes both steps around a transport that the caller hands in.
//!
//! The credential travels beside the envelope, as a bearer token in the
//! `Authorization` header. Every request has that header, also where nobody
//! has logged in and the token is empty, and the parameters are sent as the
//! caller gave them. Whoever shows the request at verbosity 2 and above shows
//! the header, and with it the credential.

use crate::db::{initialized, read, Settings, SettingsError, Store};
use crate::decimal::{magnitude, u64_text};
use crate::json::{members_doc, no_members, parse, parsed, set_member, Doc, Json};
use crate::settings::get_str;
use crate::text::{blank, is_blank};
use vstd::prelude::*;
use vstd::string::*;

verus! {

/// One thing to show on the terminal.
#[derive(Debug, PartialEq, Eq)]
pub enum Line {
    /// A line of plain text.
    Text(String),
    /// A JSON document, to be pretty-printed.
    Document(Json),
}

/// What a [`Line`] says.
pub enum LineView {
    Text(Seq<char>),
    Document(Doc),
}

impl View for Line {
    type V = LineView;

    open spec fn view(&self) -> LineView {
        match *self {
            Line::Text(text) => LineView::Text(text@),
            Line::Document(json) => LineView::Document(json@),
        }
    }
}

/// What a list of lines says.
pub open spec fn lines_view(lines: Seq<Line>) -> Seq<LineView> {
    Seq::new(lines.len(), |i: int| lines[i]@)
}

/// Why a call failed.
#[derive(Debug, PartialEq, Eq)]
pub enum CallError {
    /// The parameters are no JSON object. Nothing was sent.
    InvalidParamsShape,
    /// The settings could not be read. Nothing was sent.
    Settings(SettingsError),
    /// The server could not be reached.
    Transport(String),
    /// The server answered with a status outside 200 to 299.
    Http { status: u16, body: String },
    /// The body of the answer is no JSON object.
    Decode,
}

/// The answer to a call. A well-formed answer has one of the two; one with
/// both or neither is taken as it is.
#[derive(Debug, PartialEq, Eq)]
pub struct RpcResponse {
    pub result: Option<Json>,
    pub error: Option<Json>,
}

/// What is to be posted, and where.
#[derive(Debug, PartialEq, Eq)]
pub struct Request {
    pub url: String,
    /// The value of the `Authorization` header.
    pub authorization: String,
    pub body: Json,
}

/// The first step of a call: what to show, and the request or the reason why
/// there is none.
#[derive(Debug, PartialEq, Eq)]
pub struct Prepared {
    pub trace: Vec<Line>,
    pub request: Result<Request, CallError>,
}

/// What the transport observed.
#[derive(Debug, PartialEq, Eq)]
pub enum Reply {
    /// No answer: the connection, the name lookup or the handshake failed.
    Failed(String),
    /// An answer, with its status and body.
    Http { status: u16, body: String },
}

/// The second step of a call: what to show, and the answer or the reason why
/// there is none.
#[derive(Debug, PartialEq, Eq)]
pub struct Outcome {
    pub trace: Vec<Line>,
    pub response: Result<RpcResponse, CallError>,
}

/// How far a call has come. It starts `Idle`; its parameters are validated,
/// the credential is attached, and it is sent; then it ends with a parsed
/// response, or with a failure of the transport or of the HTTP exchange.
#[derive(Debug, Clone, Copy, PartialEq, Eq)]
pub enum CallState {
    Idle,
    ParamsValidated,
    CredentialAttached,
    Sent,
    ResponseParsed,
    TransportFailed,
    HttpFailed,
}

/// Where the first step leaves a call: ready to be sent where there is a
/// request, validated where only the settings failed, and where it started
/// where the parameters were refused.
pub open spec fn prepared_state(request: Result<Request, CallError>) -> CallState {
    match request {
        Ok(_) => CallState::CredentialAttached,
        Err(CallError::InvalidParamsShape) => CallState::Idle,
        Err(_) => CallState::ParamsValidated,
    }
}

/// Where the second step leaves a call. An answer whose body cannot be read
/// leaves it at `Sent`: it was sent, and nothing came of it.
pub open spec fn outcome_state(response: Result<RpcResponse, CallError>) -> CallState {
    match response {
        Ok(_) => CallState::ResponseParsed,
        Err(CallError::Transport(_)) => CallState::TransportFailed,
        Err(CallError::Http { .. }) => CallState::HttpFailed,
        Err(_) => CallState::Sent,
    }
}

/// The states in which a call ends.
pub open spec fn is_terminal(state: CallState) -> bool {
    state == CallState::ResponseParsed || state == CallState::TransportFailed || state
        == CallState::HttpFailed
}

/// The value of the `Authorization` header: the credential as a bearer
/// token.
pub open spec fn bearer(password: Seq<char>) -> Seq<char> {
    "Bearer "@ + password
}

/// The endpoint used where none was set.
pub open spec fn default_endpoint() -> Seq<char> {
    "https://api.btcmap.org/rpc"@
}

/// The endpoint of a call: the one that was set, or the default where that is
/// empty.
pub open spec fn endpoint_of(api_url: Seq<char>) -> Seq<char> {
    if api_url.len() == 0 {
        default_endpoint()
    } else {
        api_url
    }
}

/// The JSON-RPC 2.0 envelope of a call.
pub open spec fn envelope_doc(method: Seq<char>, params: Map<Seq<char>, Doc>) -> Doc {
    Doc::Object(
        Map::empty().insert("jsonrpc"@, Doc::Text("2.0"@)).insert("method"@, Doc::Text(method)).insert(
            "params"@,
            Doc::Object(params),
        ).insert("id"@, Doc::Number("1"@)),
    )
}

/// The line that announces a call.
pub open spec fn call_notice(method: Seq<char>) -> Seq<char> {
    "Calling method "@ + method + " with the following params:"@
}

/// What is shown of a call as it was asked for: nothing at verbosity 0, the
/// method and the parameters from 1 on.
pub open spec fn announce_trace(verbosity: int, method: Seq<char>, params: Doc) -> Seq<LineView> {
    if verbosity >= 1 {
        seq![LineView::Text(call_notice(method)), LineView::Document(params)]
    } else {
        Seq::empty()
    }
}

/// The line that shows the `Authorization` header.
pub open spec fn header_notice(authorization: Seq<char>) -> Seq<char> {
    "Authorization: "@ + authorization
}

/// What is shown of the request as it is sent: from verbosity 2 on the whole
/// envelope, and the header that holds the credential.
pub open spec fn request_trace(verbosity: int, envelope: Doc, authorization: Seq<char>) -> Seq<
    LineView,
> {
    if verbosity >= 2 {
        seq![
            LineView::Text("Full request body:"@),
            LineView::Document(envelope),
            LineView::Text(header_notice(authorization)),
        ]
    } else {
        Seq::empty()
    }
}

/// A member that counts: a missing one and `null` do not.
pub open spec fn present(member: Option<Doc>) -> Option<Doc> {
    match member {
        Some(Doc::Null) => None,
        other => other,
    }
}

/// The result and the error of an answer's body: the body must be a JSON
/// object, and each of the two is its member of that name, if that counts.
pub open spec fn decoded(document: Option<Doc>) -> Option<(Option<Doc>, Option<Doc>)> {
    match document {
        Some(Doc::Object(members)) => Some(
            (
                present(Doc::Object(members).member("result"@)),
                present(Doc::Object(members).member("error"@)),
            ),
        ),
        _ => None,
    }
}

/// A label and the document under it, where there is one.
pub open spec fn labelled(label: Seq<char>, member: Option<Doc>) -> Seq<LineView> {
    match member {
        Some(doc) => seq![LineView::Text(label), LineView::Document(doc)],
        None => Seq::empty(),
    }
}

/// The whole envelope of an answer under its label, from verbosity 3 on.
pub open spec fn envelope_dump(verbosity: int, envelope: Doc) -> Seq<LineView> {
    if verbosity >= 3 {
        seq![LineView::Text("RPC response:"@), LineView::Document(envelope)]
    } else {
        Seq::empty()
    }
}

/// What is shown of an answer: nothing at verbosity 0; from 1 on the result
/// and the error, each under its label, as far as they are there; from 3 on
/// the whole envelope after them.
pub open spec fn reply_trace(
    verbosity: int,
    result: Option<Doc>,
    error: Option<Doc>,
    envelope: Doc,
) -> Seq<LineView> {
    if verbosity <= 0 {
        Seq::empty()
    } else {
        labelled("RPC result:"@, result) + labelled("RPC error:"@, error) + envelope_dump(
            verbosity,
            envelope,
        )
    }
}

/// Whether a status says that the exchange succeeded.
pub open spec fn is_success(status: int) -> bool {
    200 <= status <= 299
}

/// The diagnostic for an answer with another status: the status, and the body
/// or the word `empty` where the body is blank.
pub open spec fn http_notice(status: int, body: Seq<char>) -> Seq<char> {
    "HTTP status "@ + magnitude(status as nat) + ": "@ + (if is_blank(body) {
        "empty"@
    } else {
        body
    })
}

/// The content of an optional document.
pub open spec fn opt_doc(json: Option<Json>) -> Option<Doc> {
    match json {
        Some(j) => Some(j@),
        None => None,
    }
}

/// Whether `out` is what the body `document` of a successful exchange comes
/// to at `verbosity`.
pub open spec fn answers(out: Outcome, document: Option<Doc>, verbosity: int) -> bool {
    match decoded(document) {
        Some((result, error)) => {
            &&& out.response matches Ok(response)
            &&& opt_doc(response.result) == result
            &&& opt_doc(response.error) == error
            &&& lines_view(out.trace@) == reply_trace(verbosity, result, error, document->0)
        },
        None => out.response == Err::<RpcResponse, CallError>(CallError::Decode) && out.trace@.len()
            == 0,
    }
}

impl CallError {
    /// The diagnostic shown to the user.
    pub fn message(&self) -> (text: String)
        ensures
            text@ == match *self {
                CallError::InvalidParamsShape => "params value is not a valid JSON object"@,
                CallError::Settings(e) => match e {
                    SettingsError::Storage(detail) => detail@,
                    SettingsError::Corruption => "settings database has been corrupted"@,
                },
                CallError::Transport(detail) => detail@,
                CallError::Http { status, body } => http_notice(status as int, body@),
                CallError::Decode => "response body is not a valid RPC response"@,
            },
    {
        match self {
            CallError::InvalidParamsShape => "params value is not a valid JSON object".to_owned(),
            CallError::Settings(e) => e.message(),
            CallError::Transport(detail) => detail.clone(),
            CallError::Http { status, body } => {
                let mut text = "HTTP status ".to_owned();
                let digits = u64_text(*status as u64);
                text.append(digits.as_str());
                text.append(": ");
                if blank(body.as_str()) {
                    text.append("empty");
                } else {
                    text.append(body.as_str());
                }
                text
            },
            CallError::Decode => "response body is not a valid RPC response".to_owned(),
        }
    }
}

impl Prepared {
    /// Where the first step has left the call.
    pub fn state(&self) -> (state: CallState)
        ensures
            state == prepared_state(self.request),
    {
        match &self.request {
            Ok(_) => CallState::CredentialAttached,
            Err(CallError::InvalidParamsShape) => CallState::Idle,
            Err(_) => CallState::ParamsValidated,
        }
    }
}

impl Outcome {
    /// Where the second step has left the call.
    pub fn state(&self) -> (state: CallState)
        ensures
            state == outcome_state(self.response),
    {
        match &self.response {
            Ok(_) => CallState::ResponseParsed,
            Err(CallError::Transport(_)) => CallState::TransportFailed,
            Err(CallError::Http { .. }) => CallState::HttpFailed,
            Err(_) => CallState::Sent,
        }
    }
}

impl RpcResponse {
    /// The document to print: the result where there is one, else the error
    /// where there is one, else nothing.
    pub fn print(&self) -> (shown: Option<&Json>)
        ensures
            shown == match self.result {
                Some(result) => Some(&result),
                None => match self.error {
                    Some(error) => Some(&error),
                    None => None,
                },
            },
    {
        match &self.result {
            Some(result) => Some(result),
            None => match &self.error {
                Some(error) => Some(error),
                None => None,
            },
        }
    }
}

/// The process's exit code after a call: 0 for every answer, an error inside
/// it included; 1 where the call failed.
pub fn exit_code(response: &Result<RpcResponse, CallError>) -> (code: i32)
    ensures
        code == if outcome_state(*response) == CallState::ResponseParsed {
            0i32
        } else {
            1i32
        },
{
    match response {
        Ok(_) => 0,
        Err(_) => 1,
    }
}

/// Takes the members out of parameters that are an object; refuses others.
pub fn validate(params: Json) -> (r: Result<Vec<(String, Json)>, CallError>)
    ensures
        match params@ {
            Doc::Object(members) => r matches Ok(list) && members_doc(list@) == members,
            _ => r == Err::<Vec<(String, Json)>, CallError>(CallError::InvalidParamsShape),
        },
{
    match params {
        Json::Object(members) => Ok(members),
        _ => Err(CallError::InvalidParamsShape),
    }
}

/// The credential as the value of the `Authorization` header.
pub fn attach_credential(password: &str) -> (authorization: String)
    ensures
        authorization@ == bearer(password@),
{
    let mut authorization = "Bearer ".to_owned();
    authorization.append(password);
    authorization
}

/// The endpoint to post to.
pub fn endpoint(api_url: String) -> (url: String)
    ensures
        url@ == endpoint_of(api_url@),
{
    if api_url.as_str().is_empty() {
        "https://api.btcmap.org/rpc".to_owned()
    } else {
        api_url
    }
}

/// Assembles the envelope around a method and its parameters.
pub fn envelope(method: &str, members: Vec<(String, Json)>) -> (body: Json)
    ensures
        body@ == envelope_doc(method@, members_doc(members@)),
{
    let mut fields = no_members();
    set_member(&mut fields, "jsonrpc", Json::text("2.0"));
    set_member(&mut fields, "method", Json::text(method));
    set_member(&mut fields, "params", Json::Object(members));
    set_member(&mut fields, "id", Json::Number("1".to_owned()));
    Json::Object(fields)
}

fn notice(method: &str) -> (text: String)
    ensures
        text@ == call_notice(method@),
{
    let mut text = "Calling method ".to_owned();
    text.append(method);
    text.append(" with the following params:");
    text
}

/// Whether `out` is what the first step makes of a call, and `after` the
/// table that it leaves. Parameters that are no object are refused and the
/// table is not touched. Else the table is opened; a corrupted table ends
/// the call. Else the request goes to the endpoint that is stored, or to the
/// default, with the envelope around the caller's parameters and the
/// credential in its header.
pub open spec fn prepares(
    method: Seq<char>,
    params: Doc,
    before: Seq<Settings>,
    verbosity: int,
    after: Seq<Settings>,
    out: Prepared,
) -> bool {
    match params {
        Doc::Object(members) => match initialized(before) {
            Some(records) => {
                &&& after == records
                &&& out.request matches Ok(request)
                &&& request.url@ == endpoint_of(read(records, "api_url"@))
                &&& request.authorization@ == bearer(read(records, "password"@))
                &&& request.body@ == envelope_doc(method, members)
                &&& lines_view(out.trace@) == announce_trace(verbosity, method, params)
                    + request_trace(verbosity, request.body@, request.authorization@)
            },
            None => {
                &&& after == before
                &&& out.request == Err::<Request, CallError>(
                    CallError::Settings(SettingsError::Corruption),
                )
                &&& lines_view(out.trace@) == announce_trace(verbosity, method, params)
            },
        },
        _ => {
            &&& after == before
            &&& out.request == Err::<Request, CallError>(CallError::InvalidParamsShape)
            &&& lines_view(out.trace@) == announce_trace(verbosity, method, params)
        },
    }
}

/// The first step of a call: checks that `params` is an object, reads the
/// endpoint and the credential from the settings, and assembles the request.
/// Parameters of another shape are refused before the settings are touched,
/// and with them or with unreadable settings there is no request to send.
pub fn prepare(method: &str, params: Json, store: &mut Store, verbosity: i64) -> (out: Prepared)
    ensures
        prepares(method@, params@, old(store)@, verbosity as int, final(store)@, out),
{
    let mut trace: Vec<Line> = Vec::new();
    if verbosity >= 1 {
        trace.push(Line::Text(notice(method)));
        trace.push(Line::Document(params.duplicate()));
    }
    assert(lines_view(trace@) =~= announce_trace(verbosity as int, method@, params@));
    let ghost announced = lines_view(trace@);
    let members = match validate(params) {
        Ok(members) => members,
        Err(e) => {
            return Prepared { trace, request: Err(e) };
        },
    };
    let api_url = match get_str("api_url", store) {
        Ok(value) => value,
        Err(e) => {
            return Prepared { trace, request: Err(CallError::Settings(e)) };
        },
    };
    let password = match get_str("password", store) {
        Ok(value) => value,
        Err(e) => {
            return Prepared { trace, request: Err(CallError::Settings(e)) };
        },
    };
    let authorization = attach_credential(password.as_str());
    let body = envelope(method, members);
    if verbosity >= 2 {
        let mut header = "Authorization: ".to_owned();
        header.append(authorization.as_str());
        trace.push(Line::Text("Full request body:".to_owned()));
        trace.push(Line::Document(body.duplicate()));
        trace.push(Line::Text(header));
    }
    assert(lines_view(trace@) =~= announced + request_trace(
        verbosity as int,
        body@,
        authorization@,
    ));
    Prepared { trace, request: Ok(Request { url: endpoint(api_url), authorization, body }) }
}

fn counted(member: Option<&Json>) -> (kept: Option<Json>)
    ensures
        opt_doc(kept) == present(
            match member {
                Some(json) => Some(json@),
                None => None,
            },
        ),
{
    match member {
        Some(Json::Null) => None,
        Some(json) => Some(json.duplicate()),
        None => None,
    }
}

/// Reads the answer out of the body of a successful exchange, given as the
/// document that was parsed from it, or as nothing where it held none.
pub fn decode(document: &Option<Json>) -> (r: Result<RpcResponse, CallError>)
    ensures
        match decoded(opt_doc(*document)) {
            Some((result, error)) => {
                &&& r matches Ok(response)
                &&& opt_doc(response.result) == result
                &&& opt_doc(response.error) == error
            },
            None => r == Err::<RpcResponse, CallError>(CallError::Decode),
        },
{
    match document {
        Some(json) => {
            if json.is_object() {
                let result = counted(json.member("result"));
                let error = counted(json.member("error"));
                Ok(RpcResponse { result, error })
            } else {
                Err(CallError::Decode)
            }
        },
        None => Err(CallError::Decode),
    }
}

/// What is to be shown of an answer at `verbosity`, given the envelope that
/// it came in.
pub fn trace_response(response: &RpcResponse, envelope: &Json, verbosity: i64) -> (trace: Vec<
    Line,
>)
    ensures
        lines_view(trace@) == reply_trace(
            verbosity as int,
            opt_doc(response.result),
            opt_doc(response.error),
            envelope@,
        ),
{
    let mut trace: Vec<Line> = Vec::new();
    if verbosity >= 1 {
        if let Some(result) = &response.result {
            trace.push(Line::Text("RPC result:".to_owned()));
            trace.push(Line::Document(result.duplicate()));
        }
        if let Some(error) = &response.error {
            trace.push(Line::Text("RPC error:".to_owned()));
            trace.push(Line::Document(error.duplicate()));
        }
        if verbosity >= 3 {
            trace.push(Line::Text("RPC response:".to_owned()));
            trace.push(Line::Document(envelope.duplicate()));
        }
    }
    assert(lines_view(trace@) =~= reply_trace(
        verbosity as int,
        opt_doc(response.result),
        opt_doc(response.error),
        envelope@,
    ));
    trace
}

/// What the body of a successful exchange comes to, given as the document
/// that was parsed from it, or as nothing where it held none.
pub fn interpret(document: &Option<Json>, verbosity: i64) -> (out: Outcome)
    ensures
        answers(out, opt_doc(*document), verbosity as int),
{
    match decode(document) {
        Ok(response) => {
            let trace = match document {
                Some(envelope) => trace_response(&response, envelope, verbosity),
                None => Vec::new(),
            };
            Outcome { trace, response: Ok(response) }
        },
        Err(e) => Outcome { trace: Vec::new(), response: Err(e) },
    }
}

/// Whether `out` is what the second step makes of what the transport
/// observed. No answer is a transport failure; an answer with a status
/// outside 200 to 299 is an HTTP failure that keeps status and body; the body
/// of any other answer is parsed and read as [`answers`] says.
pub open spec fn receives(reply: Reply, verbosity: int, out: Outcome) -> bool {
    match reply {
        Reply::Failed(detail) => {
            &&& out.response matches Err(CallError::Transport(d))
            &&& d@ == detail@
            &&& out.trace@.len() == 0
        },
        Reply::Http { status, body } => if is_success(status as int) {
            answers(out, parsed(body@), verbosity)
        } else {
            &&& out.response matches Err(CallError::Http { status: s, body: b })
            &&& s == status
            &&& b@ == body@
            &&& out.trace@.len() == 0
        },
    }
}

/// The second step of a call: classifies what the transport observed.
pub fn receive(reply: Reply, verbosity: i64) -> (out: Outcome)
    ensures
        receives(reply, verbosity as int, out),
        is_terminal(outcome_state(out.response)) || out.response == Err::<RpcResponse, CallError>(
            CallError::Decode,
        ),
{
    match reply {
        Reply::Failed(detail) => Outcome {
            trace: Vec::new(),
            response: Err(CallError::Transport(detail)),
        },
        Reply::Http { status, body } => {
            if 200 <= status && status <= 299 {
                let document = parse(body.as_str());
                interpret(&document, verbosity)
            } else {
                Outcome { trace: Vec::new(), response: Err(CallError::Http { status, body }) }
            }
        },
    }
}

/// Whether `out` is what a whole call comes to when the transport answers
/// the request with `reply`: the lines of both steps, and the response of
/// the second.
pub open spec fn completes(prepared: Prepared, reply: Reply, verbosity: int, out: Outcome) -> bool {
    exists|received: Outcome|
        {
            &&& #[trigger] receives(reply, verbosity, received)
            &&& out.response == received.response
            &&& lines_view(out.trace@) == lines_view(prepared.trace@) + lines_view(received.trace@)
        }
}

/// One call from end to end. The request is assembled as [`prepare`] says;
/// where there is one, `transport` is asked once to post it, and what it
/// observed is classified as [`receive`] says. Where there is no request,
/// `transport` is not asked at all and the call fails with the reason: the
/// transport need only take the requests that [`prepare`] makes of this call.
pub fn call<F: FnOnce(&Request) -> Reply>(
    method: &str,
    params: Json,
    store: &mut Store,
    verbosity: i64,
    transport: F,
) -> (out: Outcome)
    requires
        forall|prepared: Prepared, after: Seq<Settings>|
            #[trigger] prepares(method@, params@, old(store)@, verbosity as int, after, prepared)
                && prepared.request is Ok ==> call_requires(
                transport,
                (&prepared.request->Ok_0,),
            ),
    ensures
        exists|prepared: Prepared|
            {
                &&& #[trigger] prepares(
                    method@,
                    params@,
                    old(store)@,
                    verbosity as int,
                    final(store)@,
                    prepared,
                )
                &&& match prepared.request {
                    Ok(request) => exists|reply: Reply|
                        call_ensures(transport, (&request,), reply) && #[trigger] completes(
                            prepared,
                            reply,
                            verbosity as int,
                            out,
                        ),
                    Err(e) => out.response == Err::<RpcResponse, CallError>(e) && lines_view(
                        out.trace@,
                    ) == lines_view(prepared.trace@),
                }
            },
{
    let prepared = prepare(method, params, store, verbosity);
    let ghost first = prepared;
    let Prepared { mut trace, request } = prepared;
    match request {
        Ok(request) => {
            let reply = transport(&request);
            let ghost observed = reply;
            let received = receive(reply, verbosity);
            let ghost second = received;
            let Outcome { trace: mut rest, response } = received;
            trace.append(&mut rest);
            let out = Outcome { trace, response };
            proof {
                assert(lines_view(out.trace@) =~= lines_view(first.trace@) + lines_view(
                    second.trace@,
                ));
                assert(completes(first, observed, verbosity as int, out));
            }
            out
        },
        Err(e) => Outcome { trace, response: Err(e) },
    }
}

/// At verbosity 0 and below nothing is shown of a call: neither of what was
/// asked for, nor of what is sent, nor of the answer.
pub proof fn law_silent_at_verbosity_zero(
    verbosity: int,
    method: Seq<char>,
    params: Doc,
    envelope: Doc,
    authorization: Seq<char>,
    result: Option<Doc>,
    error: Option<Doc>,
    answer: Doc,
)
    requires
        verbosity <= 0,
    ensures
        announce_trace(verbosity, method, params) + request_trace(
            verbosity,
            envelope,
            authorization,
        ) == Seq::<LineView>::empty(),
        reply_trace(verbosity, result, error, answer) == Seq::<LineView>::empty(),
{
}

/// From verbosity 2 on the request is shown as it is sent: the whole
/// envelope, which holds the caller's parameters as they were given, and the
/// header that holds the stored credential.
pub proof fn law_request_shown_from_verbosity_two(
    verbosity: int,
    method: Seq<char>,
    params: Map<Seq<char>, Doc>,
    password: Seq<char>,
)
    requires
        verbosity >= 2,
    ensures
        ({
            let envelope = envelope_doc(method, params);
            let shown = announce_trace(verbosity, method, Doc::Object(params)) + request_trace(
                verbosity,
                envelope,
                bearer(password),
            );
            &&& shown.len() == 5
            &&& shown[3] == LineView::Document(envelope)
            &&& envelope.member("params"@) == Some(Doc::Object(params))
            &&& shown[4] == LineView::Text("Authorization: Bearer "@ + password)
        }),
{
    reveal_strlit("params");
    reveal_strlit("id");
    assert("id"@.len() == 2);
    assert(header_notice(bearer(password)) =~= "Authorization: Bearer "@ + password) by {
        reveal_strlit("Authorization: ");
        reveal_strlit("Bearer ");
        reveal_strlit("Authorization: Bearer ");
    }
}

/// Below verbosity 2 what is shown of a call does not depend on the stored
/// credential.
pub proof fn law_credential_hidden_below_verbosity_two(
    verbosity: int,
    method: Seq<char>,
    params: Map<Seq<char>, Doc>,
    password: Seq<char>,
    other_password: Seq<char>,
)
    requires
        verbosity < 2,
    ensures
        announce_trace(verbosity, method, Doc::Object(params)) + request_trace(
            verbosity,
            envelope_doc(method, params),
            bearer(password),
        ) == announce_trace(verbosity, method, Doc::Object(params)) + request_trace(
            verbosity,
            envelope_doc(method, params),
            bearer(other_password),
        ),
{
}

} // verus!
