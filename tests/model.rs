use acrudjson::dispatch::{
    step, timeout_response, unreadable_request_response, Action, Event, Phase,
};
use acrudjson::error::{ErrorMsg, ServerError};
use acrudjson::prelude::v1::{
    JsonInternal, Method, Param, ReqBody, RequestBuilder, ResponseBuilder,
};
use acrudjson::prelude::v1::RespBody;
use acrudjson::BinaryOps;

const NAMES: [&str; 8] = ["create", "read", "update", "delete", "add", "subtract", "multiply", "divide"];

fn all_methods() -> Vec<Method> {
    vec![
        Method::Create,
        Method::Read,
        Method::Update,
        Method::Delete,
        Method::Binary(BinaryOps::Add),
        Method::Binary(BinaryOps::Subtract),
        Method::Binary(BinaryOps::Multiply),
        Method::Binary(BinaryOps::Divide),
    ]
}

#[test]
fn method_names_round_trip() {
    for (m, n) in all_methods().into_iter().zip(NAMES) {
        assert_eq!(m.name(), n);
        assert_eq!(Method::parse(&n.to_string()).unwrap(), m);
    }
}

#[test]
fn unknown_method_is_a_parse_error() {
    assert!(matches!(Method::parse(&"Create".to_string()), Err(ServerError::ParseJson)));
    assert!(matches!(Method::parse(&"power".to_string()), Err(ServerError::ParseJson)));
    assert!(matches!(Method::parse(&String::new()), Err(ServerError::ParseJson)));
}

#[test]
fn request_body_parses_method_and_params() {
    let req = ReqBody {
        jsonrpc: "1.0".to_string(),
        method: "multiply".to_string(),
        params: vec!["a".to_string(), "2".to_string()],
        id: 3,
    };
    assert_eq!(req.parse_method().unwrap(), Method::Binary(BinaryOps::Multiply));
    let ps = req.parse_params();
    assert!(matches!(&ps[0], Param::Name(n) if n == "a"));
    assert!(matches!(&ps[1], Param::Number(t) if t == "2"));
}

#[test]
fn request_builder_fills_the_envelope() {
    let body = RequestBuilder::new(Method::Delete, vec!["k".to_string()], 11).into_body();
    assert_eq!(body.jsonrpc, "1.0");
    assert_eq!(body.method, "delete");
    assert_eq!(body.params, vec!["k".to_string()]);
    assert_eq!(body.id, 11);
}

#[test]
fn response_builders_set_exactly_one_member() {
    let ok = ResponseBuilder::new("3.75".to_string(), 1).into_body();
    assert_eq!((ok.result.as_deref(), ok.error.as_deref(), ok.id), (Some("3.75"), None, 1));
    let ack = ResponseBuilder::success(2).into_body();
    assert_eq!((ack.result.as_deref(), ack.error.as_deref(), ack.id), (Some("success"), None, 2));
    let err = ResponseBuilder::error(ErrorMsg::new("bad".to_string()), 3).into_body();
    assert_eq!((err.result.as_deref(), err.error.as_deref(), err.id), (None, Some("bad"), 3));
}

#[test]
fn replies_become_responses() {
    let r = ResponseBuilder::from_reply(Ok(Some("5".to_string())), 4).into_body();
    assert_eq!((r.result.as_deref(), r.error), (Some("5"), None));
    let r = ResponseBuilder::from_reply(Ok(None), 5).into_body();
    assert_eq!((r.result.as_deref(), r.error), (Some("success"), None));
    let r = ResponseBuilder::from_reply(Err(ServerError::DbKeyNotFound("k".to_string())), 6)
        .into_body();
    assert_eq!((r.result, r.error.as_deref(), r.id), (None, Some("[\"k\"] not found."), 6));
}

#[test]
fn error_messages_are_client_safe() {
    let cases: Vec<(ServerError, &str)> = vec![
        (ServerError::MalformedDatagram, "malformed datagram."),
        (
            ServerError::ChecksumUnmatch { expect: 10, actual: 4294967295 },
            "JSON RPC checksum unmatched, expect: 10, actual: 4294967295",
        ),
        (ServerError::ParseJson, "failed to parse JSON attributes."),
        (ServerError::ParseParamLiteral, "failed to parse parameter into utf8-string."),
        (ServerError::ParseParamNumeric, "failed to parse paramater into floating number."),
        (ServerError::MissingParam(1), "missing 1 parameter."),
        (ServerError::MissingName(0), "index 0 must be a name."),
        (ServerError::MissingNumber(1), "index 1 must be decimal number."),
        (ServerError::DbKeyNotFound("pi".to_string()), "[\"pi\"] not found."),
        (ServerError::DbKeyUpdate("pi".to_string()), "[\"pi\"] does not exist."),
        (ServerError::SledCas, "failed to create new value in user database"),
        (ServerError::SledInternal, "failed to fetch or update value in user database."),
        (ServerError::DivisionByZero, "division by zero."),
        (ServerError::ScaleOutOfRange, "decimal number out of range."),
        (ServerError::Timeout, "server timeout."),
    ];
    for (e, msg) in cases {
        assert_eq!(ErrorMsg::from_error(e).into_inner(), msg);
    }
    assert_eq!(ErrorMsg::from(ServerError::MissingParam(120)).into_inner(), "missing 120 parameter.");
}

#[test]
fn timeout_response_carries_the_request_id() {
    let r = timeout_response(42).into_body();
    assert_eq!((r.result, r.error.as_deref(), r.id), (None, Some("server timeout."), 42));
}

#[test]
fn deadline_first_sends_one_timeout() {
    let (p, a) = step(Phase::Processing, Event::DeadlineElapsed(Some(9)));
    assert_eq!((p, a), (Phase::Responded, Action::SendTimeout(9)));
    assert_eq!(step(p, Event::Finished), (Phase::Responded, Action::Nothing));
}

#[test]
fn finished_first_sends_one_result() {
    let (p, a) = step(Phase::Processing, Event::Finished);
    assert_eq!((p, a), (Phase::Responded, Action::SendResult));
    assert_eq!(step(p, Event::DeadlineElapsed(Some(1))), (Phase::Responded, Action::Nothing));
}

#[test]
fn deadline_without_id_sends_nothing() {
    assert_eq!(
        step(Phase::Processing, Event::DeadlineElapsed(None)),
        (Phase::Dropped, Action::Nothing)
    );
    assert_eq!(step(Phase::Dropped, Event::Finished), (Phase::Dropped, Action::Nothing));
}

#[test]
fn unreadable_request_answered_only_with_an_id() {
    assert!(unreadable_request_response(None).is_none());
    let r = unreadable_request_response(Some(8)).unwrap().into_body();
    assert_eq!((r.result, r.error.as_deref(), r.id), (None, Some("failed to parse JSON attributes."), 8));
}

#[test]
fn method_converts_into_its_name() {
    for (m, n) in all_methods().into_iter().zip(NAMES) {
        assert_eq!(String::from(m), n);
    }
}

#[test]
fn response_body_must_carry_exactly_one_member() {
    let both = RespBody { result: Some("1".to_string()), error: Some("e".to_string()), id: 1 };
    assert!(ResponseBuilder::from_body(both).is_none());
    let neither = RespBody { result: None, error: None, id: 2 };
    assert!(ResponseBuilder::from_body(neither).is_none());
    let ok = RespBody { result: Some("1".to_string()), error: None, id: 3 };
    assert_eq!(ResponseBuilder::from_body(ok).unwrap().into_body().id, 3);
}
