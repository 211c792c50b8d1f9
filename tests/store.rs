use acrudjson::database::{reply_for, store_call, Answer, ConnectionPool, StoreCall, UserDatabase};
use acrudjson::dispatch::handle_request;
use acrudjson::error::ServerError;
use acrudjson::prelude::v1::ReqBody;
use acrudjson::{BinaryOps, Method, Param};
use bigdecimal::BigDecimal;
use std::str::FromStr;
use std::time::{SystemTime, UNIX_EPOCH};

fn fresh_store(label: &str) -> UserDatabase {
    let pool = ConnectionPool::init("/tmp/acrudjson_store_tests").unwrap();
    let nanos = SystemTime::now().duration_since(UNIX_EPOCH).unwrap().as_nanos();
    let token = format!("{label}-{nanos}");
    let db = pool.open_user_database(token.as_bytes()).unwrap();
    assert_eq!(db.get_token(), token.as_bytes());
    db
}

fn name(s: &str) -> Param {
    Param::Name(s.to_string())
}

fn number(s: &str) -> Param {
    Param::resolve(s.to_string())
}

fn value(s: &str) -> BigDecimal {
    BigDecimal::from_str(s).unwrap()
}

#[test]
fn pool_keeps_its_path() {
    let pool = ConnectionPool::init("/tmp/acrudjson_store_tests").unwrap();
    assert_eq!(pool.get_filepath(), "/tmp/acrudjson_store_tests");
}

#[test]
fn create_twice_is_refused_and_read_gives_first_value() {
    let db = fresh_store("create");
    assert_eq!(db.transaction(Method::Create, vec![name("k"), number("1.50")]).unwrap(), None);
    assert!(matches!(
        db.transaction(Method::Create, vec![name("k"), number("2")]),
        Err(ServerError::SledCas)
    ));
    let read = db.transaction(Method::Read, vec![name("k")]).unwrap().unwrap();
    assert_eq!(read, "1.50");
}

#[test]
fn update_needs_an_existing_key() {
    let db = fresh_store("update");
    assert!(matches!(
        db.transaction(Method::Update, vec![name("k"), number("1")]),
        Err(ServerError::DbKeyUpdate(k)) if k == "k"
    ));
    db.transaction(Method::Create, vec![name("k"), number("1")]).unwrap();
    assert_eq!(db.transaction(Method::Update, vec![name("k"), number("-7.25")]).unwrap(), None);
    assert_eq!(db.transaction(Method::Read, vec![name("k")]).unwrap().unwrap(), "-7.25");
}

#[test]
fn delete_then_read_finds_nothing() {
    let db = fresh_store("delete");
    db.transaction(Method::Create, vec![name("k"), number("3")]).unwrap();
    assert_eq!(db.transaction(Method::Delete, vec![name("k")]).unwrap(), None);
    assert!(matches!(
        db.transaction(Method::Read, vec![name("k")]),
        Err(ServerError::DbKeyNotFound(k)) if k == "k"
    ));
    assert!(matches!(
        db.transaction(Method::Delete, vec![name("k")]),
        Err(ServerError::DbKeyNotFound(k)) if k == "k"
    ));
}

#[test]
fn multiply_two_stored_keys_at_full_precision() {
    let db = fresh_store("multiply");
    db.transaction(Method::Create, vec![name("a"), number("0.000000000066731039356729")])
        .unwrap();
    db.transaction(Method::Create, vec![name("b"), number("6416930923733925522307001.29472615")])
        .unwrap();
    let r = db
        .transaction(Method::Binary(BinaryOps::Multiply), vec![name("a"), name("b")])
        .unwrap()
        .unwrap();
    assert_eq!(value(&r), value("428208470021099.96114484339101847547483621476335"));
    // arithmetic does not write its result back
    assert_eq!(
        value(&db.transaction(Method::Read, vec![name("a")]).unwrap().unwrap()),
        value("0.000000000066731039356729")
    );
}

#[test]
fn binary_with_literal_operand() {
    let db = fresh_store("literal");
    db.transaction(Method::Create, vec![name("x"), number("10")]).unwrap();
    let r = db
        .transaction(Method::Binary(BinaryOps::Subtract), vec![name("x"), number("0.5")])
        .unwrap()
        .unwrap();
    assert_eq!(value(&r), value("9.5"));
}

#[test]
fn divide_by_zero_key_or_literal() {
    let db = fresh_store("divzero");
    db.transaction(Method::Create, vec![name("x"), number("10")]).unwrap();
    db.transaction(Method::Create, vec![name("z"), number("0")]).unwrap();
    assert!(matches!(
        db.transaction(Method::Binary(BinaryOps::Divide), vec![name("x"), name("z")]),
        Err(ServerError::DivisionByZero)
    ));
    assert!(matches!(
        db.transaction(Method::Binary(BinaryOps::Divide), vec![name("x"), number("0.0")]),
        Err(ServerError::DivisionByZero)
    ));
}

#[test]
fn parameter_shape_errors() {
    let db = fresh_store("shape");
    assert!(matches!(db.transaction(Method::Read, vec![]), Err(ServerError::MissingParam(1))));
    assert!(matches!(
        db.transaction(Method::Read, vec![number("5")]),
        Err(ServerError::MissingName(0))
    ));
    assert!(matches!(
        db.transaction(Method::Create, vec![name("k")]),
        Err(ServerError::MissingParam(1))
    ));
    assert!(matches!(
        db.transaction(Method::Create, vec![name("k"), name("v")]),
        Err(ServerError::MissingNumber(1))
    ));
    assert!(matches!(
        db.transaction(Method::Update, vec![name("k"), name("v")]),
        Err(ServerError::MissingNumber(1))
    ));
    db.transaction(Method::Create, vec![name("k"), number("1")]).unwrap();
    assert!(matches!(
        db.transaction(Method::Binary(BinaryOps::Add), vec![name("k")]),
        Err(ServerError::MissingParam(1))
    ));
    assert!(matches!(
        db.transaction(Method::Binary(BinaryOps::Add), vec![name("missing"), number("1")]),
        Err(ServerError::DbKeyNotFound(_))
    ));
}

#[test]
fn creates_on_distinct_keys_both_succeed() {
    let db = fresh_store("distinct");
    assert_eq!(db.transaction(Method::Create, vec![name("p"), number("1")]).unwrap(), None);
    assert_eq!(db.transaction(Method::Create, vec![name("q"), number("2")]).unwrap(), None);
}

#[test]
fn handle_request_answers_with_the_request_id() {
    let db = fresh_store("handle");
    let req = |method: &str, params: &[&str], id: usize| ReqBody {
        jsonrpc: "1.0".to_string(),
        method: method.to_string(),
        params: params.iter().map(|p| p.to_string()).collect(),
        id,
    };
    let r = handle_request(&db, &req("create", &["g", "9.81"], 1)).into_body();
    assert_eq!((r.result.as_deref(), r.error, r.id), (Some("success"), None, 1));
    let r = handle_request(&db, &req("add", &["g", "0.19"], 2)).into_body();
    assert_eq!(value(r.result.as_deref().unwrap()), value("10"));
    assert_eq!(r.id, 2);
    let r = handle_request(&db, &req("pow", &["g"], 3)).into_body();
    assert_eq!((r.result, r.error.as_deref(), r.id), (None, Some("failed to parse JSON attributes."), 3));
}

#[test]
fn store_call_carries_exact_bytes() {
    match store_call(Method::Create, &vec![name("k"), number("2.5")]).unwrap() {
        StoreCall::Create { key, value } => {
            assert_eq!(key, b"k".to_vec());
            assert_eq!(value, b"2.5".to_vec());
        }
        _ => panic!("expected a create"),
    }
    match store_call(Method::Update, &vec![name("k"), number("3")]).unwrap() {
        StoreCall::Replace { key, value } => assert_eq!((key, value), (b"k".to_vec(), b"3".to_vec())),
        _ => panic!("expected a replace"),
    }
    assert!(matches!(store_call(Method::Read, &vec![name("k")]).unwrap(), StoreCall::Get { key } if key == b"k"));
    assert!(matches!(store_call(Method::Delete, &vec![name("k")]).unwrap(), StoreCall::Remove { key } if key == b"k"));
    match store_call(Method::Binary(BinaryOps::Add), &vec![name("a"), name("b")]).unwrap() {
        StoreCall::Operands { key, second } => assert_eq!((key, second), (b"a".to_vec(), Some(b"b".to_vec()))),
        _ => panic!("expected operands"),
    }
    assert!(matches!(
        store_call(Method::Binary(BinaryOps::Add), &vec![name("a"), number("1")]).unwrap(),
        StoreCall::Operands { second: None, .. }
    ));
    assert!(matches!(store_call(Method::Binary(BinaryOps::Add), &vec![name("a")]), Err(ServerError::MissingParam(1))));
    assert!(matches!(store_call(Method::Create, &vec![number("1"), number("1")]), Err(ServerError::MissingName(0))));
}

#[test]
fn reply_for_maps_answers() {
    let create = vec![name("k"), number("1")];
    assert_eq!(reply_for(Method::Create, &create, Answer::Missing, Answer::Missing).unwrap(), None);
    assert!(matches!(reply_for(Method::Create, &create, Answer::Found(vec![]), Answer::Missing), Err(ServerError::SledCas)));
    assert!(matches!(reply_for(Method::Create, &create, Answer::Failed, Answer::Missing), Err(ServerError::SledInternal)));
    assert!(matches!(reply_for(Method::Update, &create, Answer::Missing, Answer::Missing), Err(ServerError::DbKeyUpdate(k)) if k == "k"));
    assert_eq!(reply_for(Method::Update, &create, Answer::Found(b"0".to_vec()), Answer::Missing).unwrap(), None);
    let read = vec![name("k")];
    assert_eq!(reply_for(Method::Read, &read, Answer::Found(b"4.20".to_vec()), Answer::Missing).unwrap().unwrap(), "4.20");
    assert!(matches!(reply_for(Method::Read, &read, Answer::Found(vec![0xff]), Answer::Missing), Err(ServerError::ParseParamLiteral)));
    assert!(matches!(reply_for(Method::Read, &read, Answer::Found(b"abc".to_vec()), Answer::Missing), Err(ServerError::ParseParamNumeric)));
    assert!(matches!(reply_for(Method::Delete, &read, Answer::Missing, Answer::Missing), Err(ServerError::DbKeyNotFound(k)) if k == "k"));
    let div = vec![name("a"), name("b")];
    assert!(matches!(
        reply_for(Method::Binary(BinaryOps::Divide), &div, Answer::Found(b"1".to_vec()), Answer::Found(b"0".to_vec())),
        Err(ServerError::DivisionByZero)
    ));
    let r = reply_for(Method::Binary(BinaryOps::Add), &div, Answer::Found(b"1".to_vec()), Answer::Found(b"2".to_vec()));
    assert_eq!(value(&r.unwrap().unwrap()), value("3"));
}

#[test]
fn update_replaces_then_delete_and_update_is_refused() {
    let db = fresh_store("replace");
    db.transaction(Method::Create, vec![name("k"), number("1")]).unwrap();
    db.transaction(Method::Update, vec![name("k"), number("2")]).unwrap();
    db.transaction(Method::Delete, vec![name("k")]).unwrap();
    assert!(matches!(
        db.transaction(Method::Update, vec![name("k"), number("3")]),
        Err(ServerError::DbKeyUpdate(_))
    ));
    assert!(matches!(db.transaction(Method::Read, vec![name("k")]), Err(ServerError::DbKeyNotFound(_))));
}

#[test]
fn stored_huge_scale_is_refused_in_a_sum() {
    let db = fresh_store("hugescale");
    db.transaction(Method::Create, vec![name("tiny"), number("1e-9000000000000000000")]).unwrap();
    assert!(matches!(
        db.transaction(Method::Binary(BinaryOps::Add), vec![name("tiny"), number("1e9000000000000000000")]),
        Err(ServerError::ScaleOutOfRange)
    ));
}
