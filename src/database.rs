//! The connection pool and the token-scoped stores on which transactions run.
//!
//! The storage engine is `sled`. A transaction is planned by `store_call`, which
//! fixes the one engine operation to make and the exact key and value bytes it
//! carries. What the engine answers depends on what the store holds at that moment,
//! which other requests may change; `reply_for` turns the answers into the reply
//! (`transaction_reply`). `apply` runs the same plan and decisions against a store
//! modelled as a map from key bytes to value bytes, which is how the engine behaves
//! as each of its operations is atomic.

use vstd::prelude::*;

use crate::decimal;
use crate::decimal::{apply_binary, binary_outcome, canonical_text, decimal_text};
use vstd::slice::slice_to_vec;
use crate::error::{Fault, ServerError};
use crate::{BinaryOps, Method, Param, ParamView};

verus! {

/// `sled::Db`, the engine handle, carried opaque.
#[verifier::external_type_specification]
#[verifier::external_body]
pub struct ExDb(sled::Db);

/// `sled::Tree`, one named collection of the engine, carried opaque.
#[verifier::external_type_specification]
#[verifier::external_body]
pub struct ExTree(sled::Tree);

/// `sled::Error`, carried opaque and mapped to `ServerError::SledInternal`.
#[verifier::external_type_specification]
#[verifier::external_body]
pub struct ExSledError(sled::Error);

/// Relies on `sled::open`: opens or creates the store at `path`.
#[verifier::external_body]
fn open_store(path: &str) -> (r: Result<sled::Db, sled::Error>) {
    sled::open(path)
}

/// Relies on `sled::Db::open_tree`: opens or creates the collection named `name`.
#[verifier::external_body]
fn open_collection(db: &sled::Db, name: &[u8]) -> (r: Result<sled::Tree, sled::Error>) {
    db.open_tree(name)
}

/// Relies on `sled::Tree::get`: the value stored under `key`, if any.
#[verifier::external_body]
fn tree_get(tree: &sled::Tree, key: &[u8]) -> (r: Result<Option<Vec<u8>>, sled::Error>) {
    tree.get(key).map(|v| v.map(|b| b.to_vec()))
}

/// Relies on `sled::Tree::compare_and_swap` with no expected value: stores `value`
/// under `key` only if the key is absent; `Ok(false)` when it was present.
#[verifier::external_body]
fn tree_create(tree: &sled::Tree, key: &[u8], value: &[u8]) -> (r: Result<bool, sled::Error>) {
    match tree.compare_and_swap(key, None as Option<&[u8]>, Some(value)) {
        Ok(Ok(())) => Ok(true),
        Ok(Err(_)) => Ok(false),
        Err(e) => Err(e),
    }
}

/// What `update` writes back for the value `old` that the key holds: `value`
/// when there is one, and nothing (the key stays absent) when there is none.
pub(crate) fn replacement(old: Option<&[u8]>, value: &[u8]) -> (r: Option<Vec<u8>>)
    ensures
        r is Some <==> old is Some,
        r matches Some(v) ==> v@ == value@,
{
    match old {
        Some(_) => Some(slice_to_vec(value)),
        None => None,
    }
}

/// Relies on `sled::Tree::fetch_and_update`: one atomic compare-and-swap loop that
/// stores `replacement(old, value)` for the value `old` under `key`, giving back
/// `old`; `replacement` keeps an absent key absent.
#[verifier::external_body]
fn tree_replace(tree: &sled::Tree, key: &[u8], value: &[u8]) -> (r: Result<
    Option<Vec<u8>>,
    sled::Error,
>) {
    tree.fetch_and_update(key, |old| replacement(old, value)).map(|v| v.map(|b| b.to_vec()))
}

/// Relies on `sled::Tree::remove`: removes `key`, giving back the value it held.
#[verifier::external_body]
fn tree_remove(tree: &sled::Tree, key: &[u8]) -> (r: Result<Option<Vec<u8>>, sled::Error>) {
    tree.remove(key).map(|v| v.map(|b| b.to_vec()))
}

/// Relies on `std::str::from_utf8`: the text that UTF-8 bytes encode.
#[verifier::external_body]
fn utf8_text(bytes: &[u8]) -> (r: Option<String>)
    ensures
        r is Some <==> vstd::utf8::valid_utf8(bytes@),
        r matches Some(s) ==> s@ == vstd::utf8::decode_utf8(bytes@),
{
    match std::str::from_utf8(bytes) {
        Ok(s) => Some(s.to_string()),
        Err(_) => None,
    }
}

/// The bytes under which a text is stored.
pub open spec fn bytes_of(s: Seq<char>) -> Seq<u8> {
    vstd::utf8::encode_utf8(s)
}

/// The one engine operation that a transaction makes, with the bytes it carries.
pub enum StoreCall {
    /// Store `value` under `key` only if the key is absent (compare-and-swap).
    Create { key: Vec<u8>, value: Vec<u8> },
    /// Read the value under `key`.
    Get { key: Vec<u8> },
    /// Replace the value under `key` in one atomic step, only if there is one.
    Replace { key: Vec<u8>, value: Vec<u8> },
    /// Remove `key`.
    Remove { key: Vec<u8> },
    /// Read the left operand under `key`, then, once it was found, the right one
    /// under `second` when the right operand is a name.
    Operands { key: Vec<u8>, second: Option<Vec<u8>> },
}

/// The mathematical view of a [`StoreCall`].
pub enum CallView {
    Create { key: Seq<u8>, value: Seq<u8> },
    Get { key: Seq<u8> },
    Replace { key: Seq<u8>, value: Seq<u8> },
    Remove { key: Seq<u8> },
    Operands { key: Seq<u8>, second: Option<Seq<u8>> },
}

impl View for StoreCall {
    type V = CallView;

    open spec fn view(&self) -> CallView {
        match self {
            StoreCall::Create { key, value } => CallView::Create { key: key@, value: value@ },
            StoreCall::Get { key } => CallView::Get { key: key@ },
            StoreCall::Replace { key, value } => CallView::Replace { key: key@, value: value@ },
            StoreCall::Remove { key } => CallView::Remove { key: key@ },
            StoreCall::Operands { key, second } => CallView::Operands {
                key: key@,
                second: match second {
                    Some(k) => Some(k@),
                    None => None,
                },
            },
        }
    }
}

/// What one engine operation answered about a key.
pub enum Answer {
    /// The engine failed.
    Failed,
    /// The key held no value.
    Missing,
    /// The key held these bytes (for a refused create, any bytes).
    Found(Vec<u8>),
}

/// The mathematical view of an [`Answer`].
pub enum Seen {
    Failed,
    Missing,
    Found(Seq<u8>),
}

impl View for Answer {
    type V = Seen;

    open spec fn view(&self) -> Seen {
        match self {
            Answer::Failed => Seen::Failed,
            Answer::Missing => Seen::Missing,
            Answer::Found(b) => Seen::Found(b@),
        }
    }
}

/// Whether `first` and `second` can be what the engine answered to `call`: a
/// second answer comes only from the read of a named right operand after the left
/// one was found.
pub open spec fn answers_fit(call: CallView, first: Seen, second: Seen) -> bool {
    match call {
        CallView::Operands { second: Some(_), .. } => first is Found || second is Missing,
        _ => second is Missing,
    }
}

/// The key that a transaction is about: the first parameter, which must be a name.
pub open spec fn subject(params: Seq<ParamView>) -> Result<Seq<char>, Fault> {
    if params.len() == 0 {
        Err(Fault::MissingParam(1))
    } else {
        match params[0] {
            ParamView::Name(k) => Ok(k),
            ParamView::Number(_) => Err(Fault::MissingName(0)),
        }
    }
}

/// The number that a create or an update stores: the second parameter.
pub open spec fn stored_number(params: Seq<ParamView>) -> Result<Seq<char>, Fault> {
    if params.len() < 2 {
        Err(Fault::MissingParam(1))
    } else {
        match params[1] {
            ParamView::Number(v) => Ok(v),
            ParamView::Name(_) => Err(Fault::MissingNumber(1)),
        }
    }
}

/// The engine operation for `method` with `params`, or the error in their shape.
pub open spec fn call_of(method: Method, params: Seq<ParamView>) -> Result<CallView, Fault> {
    match subject(params) {
        Err(f) => Err(f),
        Ok(k) => match method {
            Method::Create => match stored_number(params) {
                Err(f) => Err(f),
                Ok(v) => Ok(CallView::Create { key: bytes_of(k), value: bytes_of(v) }),
            },
            Method::Read => Ok(CallView::Get { key: bytes_of(k) }),
            Method::Update => match stored_number(params) {
                Err(f) => Err(f),
                Ok(v) => Ok(CallView::Replace { key: bytes_of(k), value: bytes_of(v) }),
            },
            Method::Delete => Ok(CallView::Remove { key: bytes_of(k) }),
            Method::Binary(_) => if params.len() < 2 {
                Err(Fault::MissingParam(1))
            } else {
                match params[1] {
                    ParamView::Name(k2) => Ok(
                        CallView::Operands { key: bytes_of(k), second: Some(bytes_of(k2)) },
                    ),
                    ParamView::Number(_) => Ok(CallView::Operands { key: bytes_of(k), second: None }),
                }
            },
        },
    }
}

/// The outcome of reading `key`, given what the read answered.
pub open spec fn fetch_reply(key: Seq<char>, got: Seen) -> Result<Seq<char>, Fault> {
    match got {
        Seen::Failed => Err(Fault::SledInternal),
        Seen::Missing => Err(Fault::DbKeyNotFound(key)),
        Seen::Found(b) => if !vstd::utf8::valid_utf8(b) {
            Err(Fault::ParseParamLiteral)
        } else {
            match decimal_text(vstd::utf8::decode_utf8(b)) {
                Some(t) => Ok(t),
                None => Err(Fault::ParseParamNumeric),
            }
        },
    }
}

/// The outcome of a create, given what the compare-and-swap answered.
pub open spec fn create_reply(cas: Seen) -> Result<Option<Seq<char>>, Fault> {
    match cas {
        Seen::Failed => Err(Fault::SledInternal),
        Seen::Missing => Ok(None),
        Seen::Found(_) => Err(Fault::SledCas),
    }
}

/// The outcome of an update, given the value that the atomic replace found.
pub open spec fn update_reply(key: Seq<char>, previous: Seen) -> Result<Option<Seq<char>>, Fault> {
    match previous {
        Seen::Failed => Err(Fault::SledInternal),
        Seen::Missing => Err(Fault::DbKeyUpdate(key)),
        Seen::Found(_) => Ok(None),
    }
}

/// The outcome of a delete, given what the removal answered.
pub open spec fn delete_reply(key: Seq<char>, removed: Seen) -> Result<Option<Seq<char>>, Fault> {
    match removed {
        Seen::Failed => Err(Fault::SledInternal),
        Seen::Missing => Err(Fault::DbKeyNotFound(key)),
        Seen::Found(_) => Ok(None),
    }
}

/// The outcome of `key op second`, given what the reads of the operands answered.
pub open spec fn binary_reply(
    op: BinaryOps,
    key: Seq<char>,
    second: ParamView,
    left: Seen,
    right: Seen,
) -> Result<Option<Seq<char>>, Fault> {
    match fetch_reply(key, left) {
        Err(f) => Err(f),
        Ok(l) => {
            let r = match second {
                ParamView::Name(k2) => match fetch_reply(k2, right) {
                    Err(f) => Err(f),
                    Ok(v) => binary_outcome(op, l, v),
                },
                ParamView::Number(v) => binary_outcome(op, l, v),
            };
            match r {
                Ok(t) => Ok(Some(t)),
                Err(f) => Err(f),
            }
        },
    }
}

/// The reply of a transaction, given what its first and second engine reads or
/// writes answered; an error in the parameters' shape comes before any.
pub open spec fn transaction_reply(
    method: Method,
    params: Seq<ParamView>,
    first: Seen,
    second: Seen,
) -> Result<Option<Seq<char>>, Fault> {
    match call_of(method, params) {
        Err(f) => Err(f),
        Ok(_) => {
            let key = subject(params)->Ok_0;
            match method {
                Method::Create => create_reply(first),
                Method::Read => match fetch_reply(key, first) {
                    Ok(t) => Ok(Some(t)),
                    Err(f) => Err(f),
                },
                Method::Update => update_reply(key, first),
                Method::Delete => delete_reply(key, first),
                Method::Binary(op) => binary_reply(op, key, params[1], first, second),
            }
        },
    }
}

/// The views of a sequence of parameters.
pub open spec fn param_views(params: Seq<Param>) -> Seq<ParamView> {
    params.map_values(|p: Param| p@)
}

/// The view of a transaction's reply.
pub open spec fn reply_view(r: Result<Option<String>, ServerError>) -> Result<
    Option<Seq<char>>,
    Fault,
> {
    match r {
        Ok(Some(t)) => Ok(Some(t@)),
        Ok(None) => Ok(None),
        Err(e) => Err(e@),
    }
}

/// Plans a transaction: the one engine operation to make and the exact key and
/// value bytes it carries, or the error in the parameters' shape.
pub fn store_call(method: Method, params: &Vec<Param>) -> (r: Result<StoreCall, ServerError>)
    ensures
        match (r, call_of(method, param_views(params@))) {
            (Ok(c), Ok(v)) => c@ == v,
            (Err(e), Err(f)) => e@ == f,
            _ => false,
        },
{
    let ghost ps = param_views(params@);
    if params.len() == 0 {
        return Err(ServerError::MissingParam(1));
    }
    let key: &String = match &params[0] {
        Param::Name(k) => k,
        Param::Number(_) => {
            return Err(ServerError::MissingName(0));
        },
    };
    assert(subject(ps) == Ok::<Seq<char>, Fault>(key@));
    let key_bytes = slice_to_vec(key.as_str().as_bytes());
    match method {
        Method::Read => Ok(StoreCall::Get { key: key_bytes }),
        Method::Delete => Ok(StoreCall::Remove { key: key_bytes }),
        Method::Create | Method::Update => {
            if params.len() < 2 {
                return Err(ServerError::MissingParam(1));
            }
            match &params[1] {
                Param::Number(v) => {
                    let value = slice_to_vec(v.as_str().as_bytes());
                    if method == Method::Create {
                        Ok(StoreCall::Create { key: key_bytes, value })
                    } else {
                        Ok(StoreCall::Replace { key: key_bytes, value })
                    }
                },
                Param::Name(_) => Err(ServerError::MissingNumber(1)),
            }
        },
        Method::Binary(_) => {
            if params.len() < 2 {
                return Err(ServerError::MissingParam(1));
            }
            match &params[1] {
                Param::Name(k2) => Ok(
                    StoreCall::Operands {
                        key: key_bytes,
                        second: Some(slice_to_vec(k2.as_str().as_bytes())),
                    },
                ),
                Param::Number(_) => Ok(StoreCall::Operands { key: key_bytes, second: None }),
            }
        },
    }
}

/// Reads a stored value back as the text of its number.
fn read_number(key: &String, got: Answer) -> (r: Result<String, ServerError>)
    ensures
        match (r, fetch_reply(key@, got@)) {
            (Ok(t), Ok(u)) => t@ == u,
            (Err(e), Err(f)) => e@ == f,
            _ => false,
        },
{
    match got {
        Answer::Failed => Err(ServerError::SledInternal),
        Answer::Missing => Err(ServerError::DbKeyNotFound(key.clone())),
        Answer::Found(bytes) => match utf8_text(bytes.as_slice()) {
            None => Err(ServerError::ParseParamLiteral),
            Some(text) => match canonical_text(text.as_str()) {
                Some(t) => Ok(t),
                None => Err(ServerError::ParseParamNumeric),
            },
        },
    }
}

/// The reply of a transaction on `params`, given what its engine operations
/// answered: `first` for the operation on the subject key, `second` for the read
/// of a binary operation's right operand.
pub fn reply_for(method: Method, params: &Vec<Param>, first: Answer, second: Answer) -> (r: Result<
    Option<String>,
    ServerError,
>)
    ensures
        reply_view(r) == transaction_reply(method, param_views(params@), first@, second@),
{
    let ghost ps = param_views(params@);
    let ghost (f0, s0) = (first@, second@);
    match store_call(method, params) {
        Err(e) => {
            return Err(e);
        },
        Ok(_) => {},
    }
    let key: &String = match &params[0] {
        Param::Name(k) => k,
        Param::Number(_) => {
            return Err(ServerError::MissingName(0));
        },
    };
    assert(subject(ps) == Ok::<Seq<char>, Fault>(key@));
    match method {
        Method::Create => match first {
            Answer::Failed => Err(ServerError::SledInternal),
            Answer::Missing => Ok(None),
            Answer::Found(_) => Err(ServerError::SledCas),
        },
        Method::Read => match read_number(key, first) {
            Ok(t) => Ok(Some(t)),
            Err(e) => Err(e),
        },
        Method::Update => match first {
            Answer::Failed => Err(ServerError::SledInternal),
            Answer::Missing => Err(ServerError::DbKeyUpdate(key.clone())),
            Answer::Found(_) => Ok(None),
        },
        Method::Delete => match first {
            Answer::Failed => Err(ServerError::SledInternal),
            Answer::Missing => Err(ServerError::DbKeyNotFound(key.clone())),
            Answer::Found(_) => Ok(None),
        },
        Method::Binary(op) => {
            let left = match read_number(key, first) {
                Ok(l) => l,
                Err(e) => {
                    return Err(e);
                },
            };
            let right = match &params[1] {
                Param::Name(k2) => match read_number(k2, second) {
                    Ok(v) => v,
                    Err(e) => {
                        return Err(e);
                    },
                },
                Param::Number(v) => v.clone(),
            };
            assert(right@ == match ps[1] {
                ParamView::Number(v) => v,
                ParamView::Name(k2) => fetch_reply(k2, s0)->Ok_0,
            });
            match apply_binary(op, left.as_str(), right.as_str()) {
                Ok(t) => Ok(Some(t)),
                Err(e) => Err(e),
            }
        },
    }
}

/// The answer of a read, a replace or a removal: the value the key held.
fn answer_of(r: Result<Option<Vec<u8>>, sled::Error>) -> (a: Answer)
    ensures
        a@ == match r {
            Err(_) => Seen::Failed,
            Ok(None) => Seen::Missing,
            Ok(Some(v)) => Seen::Found(v@),
        },
{
    match r {
        Err(_) => Answer::Failed,
        Ok(None) => Answer::Missing,
        Ok(Some(v)) => Answer::Found(v),
    }
}

/// Owns the storage engine handle and the location of its files.
pub struct ConnectionPool {
    prefix: String,
    db: sled::Db,
}

impl ConnectionPool {
    /// The location of the store's files.
    pub closed spec fn path(&self) -> Seq<char> {
        self.prefix@
    }

    /// The location of the store's files.
    pub fn get_filepath(&self) -> (r: &str)
        ensures
            r@ == self.path(),
    {
        self.prefix.as_str()
    }

    /// Opens, or creates, the store whose files are at `path`.
    pub fn init(path: &str) -> (r: Result<Self, ServerError>)
        ensures
            r matches Ok(p) ==> p.path() == path@,
            r matches Err(e) ==> e@ == Fault::SledInternal,
    {
        match open_store(path) {
            Ok(db) => Ok(ConnectionPool { prefix: path.to_owned(), db }),
            Err(_) => Err(ServerError::SledInternal),
        }
    }

    /// Opens the store of the client holding `token`, creating it when absent.
    pub fn open_user_database(&self, token: &[u8]) -> (r: Result<UserDatabase, ServerError>)
        ensures
            r matches Ok(u) ==> u.token() == token@,
            r matches Err(e) ==> e@ == Fault::SledInternal,
    {
        match open_collection(&self.db, token) {
            Ok(tree) => Ok(UserDatabase { token: slice_to_vec(token), tree }),
            Err(_) => Err(ServerError::SledInternal),
        }
    }
}

/// The store of one client, named by its token.
pub struct UserDatabase {
    token: Vec<u8>,
    tree: sled::Tree,
}

impl UserDatabase {
    /// The token that names this store.
    pub closed spec fn token(&self) -> Seq<u8> {
        self.token@
    }

    /// The token that names this store.
    pub fn get_token(&self) -> (r: &[u8])
        ensures
            r@ == self.token(),
    {
        self.token.as_slice()
    }

    /// Makes the engine operation `call` plans, with exactly its bytes, and
    /// gives what it answered.
    fn perform(&self, call: StoreCall) -> (r: (Answer, Answer))
        ensures
            answers_fit(call@, r.0@, r.1@),
    {
        match call {
            StoreCall::Create { key, value } => {
                let a = match tree_create(&self.tree, key.as_slice(), value.as_slice()) {
                    Err(_) => Answer::Failed,
                    Ok(true) => Answer::Missing,
                    Ok(false) => Answer::Found(Vec::new()),
                };
                (a, Answer::Missing)
            },
            StoreCall::Get { key } => (answer_of(tree_get(&self.tree, key.as_slice())), Answer::Missing),
            StoreCall::Replace { key, value } => (
                answer_of(tree_replace(&self.tree, key.as_slice(), value.as_slice())),
                Answer::Missing,
            ),
            StoreCall::Remove { key } => (
                answer_of(tree_remove(&self.tree, key.as_slice())),
                Answer::Missing,
            ),
            StoreCall::Operands { key, second } => {
                let a = answer_of(tree_get(&self.tree, key.as_slice()));
                let b = match (&a, second) {
                    (Answer::Found(_), Some(k2)) => answer_of(tree_get(&self.tree, k2.as_slice())),
                    _ => Answer::Missing,
                };
                (a, b)
            },
        }
    }

    /// Performs `method` on this store with `params`; the first parameter names
    /// the key. The engine operation made is the one `store_call` plans, and the
    /// reply is `reply_for` of what it answered: the result text of a read or an
    /// arithmetic operation, nothing for a successful create, update or delete,
    /// or the error.
    pub fn transaction(&self, method: Method, params: Vec<Param>) -> (r: Result<
        Option<String>,
        ServerError,
    >)
        ensures
            call_of(method, param_views(params@)) matches Err(f) ==> reply_view(r) == Err::<
                Option<Seq<char>>,
                Fault,
            >(f),
            exists|first: Seen, second: Seen|
                #![trigger transaction_reply(method, param_views(params@), first, second)]
                reply_view(r) == transaction_reply(method, param_views(params@), first, second)
                    && (call_of(method, param_views(params@)) matches Ok(c) ==> answers_fit(
                    c,
                    first,
                    second,
                )),
    {
        let call = match store_call(method, &params) {
            Ok(c) => c,
            Err(e) => {
                assert(reply_view(Err::<Option<String>, ServerError>(e)) == transaction_reply(
                    method,
                    param_views(params@),
                    Seen::Missing,
                    Seen::Missing,
                ));
                return Err(e);
            },
        };
        let ghost planned = call@;
        let (first, second) = self.perform(call);
        let ghost (f0, s0) = (first@, second@);
        let r = reply_for(method, &params, first, second);
        assert(reply_view(r) == transaction_reply(method, param_views(params@), f0, s0));
        assert(answers_fit(planned, f0, s0));
        r
    }
}

/// What a store holding `s` answers about `key`.
pub open spec fn seen_in(s: Map<Seq<u8>, Seq<u8>>, key: Seq<u8>) -> Seen {
    if s.contains_key(key) {
        Seen::Found(s[key])
    } else {
        Seen::Missing
    }
}

/// What a store holding `s` answers to the engine reads and writes of `call`.
pub open spec fn answers_in(s: Map<Seq<u8>, Seq<u8>>, call: CallView) -> (Seen, Seen) {
    match call {
        CallView::Create { key, .. } => (seen_in(s, key), Seen::Missing),
        CallView::Get { key } => (seen_in(s, key), Seen::Missing),
        CallView::Replace { key, .. } => (seen_in(s, key), Seen::Missing),
        CallView::Remove { key } => (seen_in(s, key), Seen::Missing),
        CallView::Operands { key, second } => (
            seen_in(s, key),
            match second {
                Some(k2) => if s.contains_key(key) {
                    seen_in(s, k2)
                } else {
                    Seen::Missing
                },
                None => Seen::Missing,
            },
        ),
    }
}

/// What a store holding `s` holds after the atomic operation `call`.
pub open spec fn effect(s: Map<Seq<u8>, Seq<u8>>, call: CallView) -> Map<Seq<u8>, Seq<u8>> {
    match call {
        CallView::Create { key, value } => if s.contains_key(key) {
            s
        } else {
            s.insert(key, value)
        },
        CallView::Replace { key, value } => if s.contains_key(key) {
            s.insert(key, value)
        } else {
            s
        },
        CallView::Remove { key } => s.remove(key),
        _ => s,
    }
}

/// One transaction on a store holding `s`, planned by `call_of` and answered by
/// `transaction_reply`, as `transaction` does: what the store holds afterwards,
/// and the reply.
pub open spec fn apply(s: Map<Seq<u8>, Seq<u8>>, method: Method, params: Seq<ParamView>) -> (
    Map<Seq<u8>, Seq<u8>>,
    Result<Option<Seq<char>>, Fault>,
) {
    match call_of(method, params) {
        Err(f) => (s, Err(f)),
        Ok(c) => (effect(s, c), transaction_reply(method, params, answers_in(s, c).0, answers_in(s, c).1)),
    }
}

/// A create or an update with key `k` and number `v`.
pub open spec fn create_of(k: Seq<char>, v: Seq<char>) -> Seq<ParamView> {
    seq![ParamView::Name(k), ParamView::Number(v)]
}

/// A request naming only the key `k`.
pub open spec fn key_only(k: Seq<char>) -> Seq<ParamView> {
    seq![ParamView::Name(k)]
}

/// What a read of `k` gives when the number text `v` is stored under it.
proof fn lemma_read_stored(s: Map<Seq<u8>, Seq<u8>>, k: Seq<char>, v: Seq<char>)
    requires
        s.contains_key(bytes_of(k)),
        s[bytes_of(k)] == bytes_of(v),
        decimal::is_decimal(v),
    ensures
        apply(s, Method::Read, key_only(k)) == (s, Ok::<Option<Seq<char>>, Fault>(
            Some(decimal_text(v)->Some_0),
        )),
{
    vstd::utf8::encode_utf8_valid_utf8(v);
    vstd::utf8::encode_utf8_decode_utf8(v);
}

/// Distinct keys are stored under distinct bytes.
proof fn lemma_bytes_distinct(k1: Seq<char>, k2: Seq<char>)
    requires
        k1 != k2,
    ensures
        bytes_of(k1) != bytes_of(k2),
{
    vstd::utf8::encode_utf8_decode_utf8(k1);
    vstd::utf8::encode_utf8_decode_utf8(k2);
}

/// A transaction that fails, reads, or computes leaves the store as it was; only
/// a successful create, update or delete writes.
pub proof fn lemma_store_unchanged(s: Map<Seq<u8>, Seq<u8>>, method: Method, params: Seq<ParamView>)
    requires
        apply(s, method, params).1 is Err || method == Method::Read || method is Binary,
    ensures
        apply(s, method, params).0 == s,
{
    if let Ok(c) = call_of(method, params) {
        if let CallView::Remove { key } = c {
            if !s.contains_key(key) {
                assert(s.remove(key) =~= s);
            }
        }
    }
}

/// Creating a key that holds no value stores the bytes of its number and nothing
/// else; creating it again is refused and stores nothing, and reading it gives
/// the text of the number first stored.
pub proof fn lemma_create_twice(s: Map<Seq<u8>, Seq<u8>>, k: Seq<char>, v: Seq<char>, v2: Seq<char>)
    requires
        !s.contains_key(bytes_of(k)),
        decimal::is_decimal(v),
    ensures
        apply(s, Method::Create, create_of(k, v)) == (s.insert(bytes_of(k), bytes_of(v)), Ok::<
            Option<Seq<char>>,
            Fault,
        >(None)),
        ({
            let s1 = apply(s, Method::Create, create_of(k, v)).0;
            &&& apply(s1, Method::Create, create_of(k, v2)) == (s1, Err::<Option<Seq<char>>, Fault>(
                Fault::SledCas,
            ))
            &&& apply(s1, Method::Read, key_only(k)).1 == Ok::<Option<Seq<char>>, Fault>(
                Some(decimal_text(v)->Some_0),
            )
        }),
{
    let s1 = apply(s, Method::Create, create_of(k, v)).0;
    lemma_read_stored(s1, k, v);
}

/// An update of a key that holds no value is refused and writes nothing; after a
/// create, an update replaces the value and a read gives the text of the new number.
pub proof fn lemma_update_needs_key(
    s: Map<Seq<u8>, Seq<u8>>,
    k: Seq<char>,
    v0: Seq<char>,
    v1: Seq<char>,
)
    requires
        !s.contains_key(bytes_of(k)),
        decimal::is_decimal(v1),
    ensures
        apply(s, Method::Update, create_of(k, v1)) == (s, Err::<Option<Seq<char>>, Fault>(
            Fault::DbKeyUpdate(k),
        )),
        ({
            let s1 = apply(s, Method::Create, create_of(k, v0)).0;
            let s2 = apply(s1, Method::Update, create_of(k, v1)).0;
            &&& apply(s1, Method::Update, create_of(k, v1)).1 == Ok::<Option<Seq<char>>, Fault>(
                None,
            )
            &&& s2 == s1.insert(bytes_of(k), bytes_of(v1))
            &&& apply(s2, Method::Read, key_only(k)).1 == Ok::<Option<Seq<char>>, Fault>(
                Some(decimal_text(v1)->Some_0),
            )
        }),
{
    let s1 = apply(s, Method::Create, create_of(k, v0)).0;
    let s2 = apply(s1, Method::Update, create_of(k, v1)).0;
    lemma_read_stored(s2, k, v1);
}

/// Deleting a key that holds a value removes it and nothing else; afterwards a
/// read and a second delete both find no key.
pub proof fn lemma_delete_then_read(s: Map<Seq<u8>, Seq<u8>>, k: Seq<char>)
    requires
        s.contains_key(bytes_of(k)),
    ensures
        apply(s, Method::Delete, key_only(k)) == (s.remove(bytes_of(k)), Ok::<
            Option<Seq<char>>,
            Fault,
        >(None)),
        apply(s.remove(bytes_of(k)), Method::Read, key_only(k)).1 == Err::<Option<Seq<char>>, Fault>(
            Fault::DbKeyNotFound(k),
        ),
        apply(s.remove(bytes_of(k)), Method::Delete, key_only(k)).1 == Err::<
            Option<Seq<char>>,
            Fault,
        >(Fault::DbKeyNotFound(k)),
{
}

/// The value of an operand in a store holding `s`.
pub open spec fn operand(s: Map<Seq<u8>, Seq<u8>>, p: ParamView) -> Result<Seq<char>, Fault> {
    match p {
        ParamView::Name(k) => fetch_reply(k, seen_in(s, bytes_of(k))),
        ParamView::Number(v) => Ok(v),
    }
}

/// A division whose divisor is zero, whether stored under a key or given as a
/// number, gives a division error, no result, and leaves the store as it was.
pub proof fn lemma_divide_by_zero(
    s: Map<Seq<u8>, Seq<u8>>,
    k: Seq<char>,
    divisor: ParamView,
    z: Seq<char>,
)
    requires
        operand(s, ParamView::Name(k)) is Ok,
        operand(s, divisor) == Ok::<Seq<char>, Fault>(z),
        decimal::is_decimal(z),
        decimal::decimal_is_zero(z),
    ensures
        apply(s, Method::Binary(BinaryOps::Divide), seq![ParamView::Name(k), divisor]) == (s, Err::<
            Option<Seq<char>>,
            Fault,
        >(Fault::DivisionByZero)),
{
}

/// Two creates of distinct absent keys both succeed, in whichever order the
/// store serialises them, and both values are stored.
pub proof fn lemma_creates_distinct_keys(
    s: Map<Seq<u8>, Seq<u8>>,
    k1: Seq<char>,
    v1: Seq<char>,
    k2: Seq<char>,
    v2: Seq<char>,
)
    requires
        k1 != k2,
        !s.contains_key(bytes_of(k1)),
        !s.contains_key(bytes_of(k2)),
    ensures
        ({
            let (s1, r1) = apply(s, Method::Create, create_of(k1, v1));
            let (s2, r2) = apply(s1, Method::Create, create_of(k2, v2));
            &&& r1 == Ok::<Option<Seq<char>>, Fault>(None)
            &&& r2 == Ok::<Option<Seq<char>>, Fault>(None)
            &&& s2 == s.insert(bytes_of(k1), bytes_of(v1)).insert(bytes_of(k2), bytes_of(v2))
        }),
        ({
            let (s1, r1) = apply(s, Method::Create, create_of(k2, v2));
            let (s2, r2) = apply(s1, Method::Create, create_of(k1, v1));
            &&& r1 == Ok::<Option<Seq<char>>, Fault>(None)
            &&& r2 == Ok::<Option<Seq<char>>, Fault>(None)
            &&& s2 == s.insert(bytes_of(k2), bytes_of(v2)).insert(bytes_of(k1), bytes_of(v1))
        }),
{
    lemma_bytes_distinct(k1, k2);
}

/// Of two creates of the same absent key, whichever the store serialises first
/// succeeds and stores its number; the other is refused and stores nothing.
pub proof fn lemma_creates_same_key(
    s: Map<Seq<u8>, Seq<u8>>,
    k: Seq<char>,
    v1: Seq<char>,
    v2: Seq<char>,
)
    requires
        !s.contains_key(bytes_of(k)),
    ensures
        ({
            let (s1, r1) = apply(s, Method::Create, create_of(k, v1));
            let (s2, r2) = apply(s1, Method::Create, create_of(k, v2));
            &&& r1 == Ok::<Option<Seq<char>>, Fault>(None)
            &&& r2 == Err::<Option<Seq<char>>, Fault>(Fault::SledCas)
            &&& s2 == s.insert(bytes_of(k), bytes_of(v1))
        }),
        ({
            let (s1, r1) = apply(s, Method::Create, create_of(k, v2));
            let (s2, r2) = apply(s1, Method::Create, create_of(k, v1));
            &&& r1 == Ok::<Option<Seq<char>>, Fault>(None)
            &&& r2 == Err::<Option<Seq<char>>, Fault>(Fault::SledCas)
            &&& s2 == s.insert(bytes_of(k), bytes_of(v2))
        }),
{
}

} // verus!
